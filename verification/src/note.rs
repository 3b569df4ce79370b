//! Notes as plain data: where a note lives, its title, tags and timestamps.
use vstd::prelude::*;
use vstd::string::StringSliceAdditionalSpecFns;

verus! {

/// An instant in time: whole seconds since the Unix epoch and the
/// nanoseconds within that second.
#[derive(Clone, Copy, Debug, PartialEq, Eq, Structural)]
pub struct Timestamp {
    pub secs: i64,
    pub nanos: u32,
}

/// A single Markdown note. Content is loaded lazily: `None` means the
/// body has not been read yet.
#[derive(Clone, Debug)]
pub struct Note {
    /// Path of the `.md` file.
    pub path: String,
    /// Title from the front matter, or derived from the file name.
    pub title: String,
    /// Markdown body, once loaded.
    pub content: Option<String>,
    /// Tags from the front matter.
    pub tags: Vec<String>,
    /// Creation time.
    pub created: Timestamp,
    /// Last modification time.
    pub modified: Timestamp,
}

/// The ordering key of a timestamp: seconds, then nanoseconds.
pub open spec fn timestamp_key(t: Timestamp) -> Seq<int> {
    seq![t.secs as int, t.nanos as int]
}

/// The exec key of a timestamp.
pub fn timestamp_key_exec(t: Timestamp) -> (k: Vec<i64>)
    ensures
        crate::order::key_ints(k@) == timestamp_key(t),
{
    let mut k: Vec<i64> = Vec::new();
    k.push(t.secs);
    k.push(t.nanos as i64);
    assert(crate::order::key_ints(k@) =~= timestamp_key(t));
    k
}

} // verus!

verus! {

/// Longest slug kept in a file name, leaving room for `.md` and a
/// collision suffix within common file-name limits.
pub const MAX_SLUG_LEN: usize = 200;

/// Position of the last occurrence of `x` in `b`.
pub open spec fn last_index_of(b: Seq<u8>, x: u8) -> Option<int>
    decreases b.len(),
{
    if b.len() == 0 {
        None
    } else if b.last() == x {
        Some(b.len() - 1)
    } else {
        last_index_of(b.drop_last(), x)
    }
}

/// The bytes `truncate_slug` keeps of a slug: all of it when it fits,
/// otherwise its first `max_len` bytes, cut back to the last `-` when that
/// lies beyond half of `max_len`.
pub open spec fn truncated_bytes(b: Seq<u8>, max_len: int) -> Seq<u8> {
    if b.len() <= max_len {
        b
    } else {
        let t = b.take(max_len);
        match last_index_of(t, 0x2d) {
            Some(p) => if p > max_len / 2 {
                t.take(p)
            } else {
                t
            },
            None => t,
        }
    }
}

proof fn lemma_last_index_of(b: Seq<u8>, x: u8)
    ensures
        last_index_of(b, x) matches Some(p) ==> 0 <= p < b.len() && b[p] == x,
    decreases b.len(),
{
    if b.len() > 0 && b.last() != x {
        lemma_last_index_of(b.drop_last(), x);
    }
}

/// Truncates a slug to at most `max_len` bytes, preferring to cut at a `-`.
pub fn truncate_slug(slug: &str, max_len: usize) -> (r: String)
    requires
        slug.spec_bytes().len() <= max_len || vstd::utf8::is_char_boundary(
            slug.spec_bytes(),
            max_len as int,
        ),
    ensures
        vstd::utf8::encode_utf8(r@) == truncated_bytes(slug.spec_bytes(), max_len as int),
{
    let all = slug.as_bytes();
    if all.len() <= max_len {
        let r = String::from_str(slug);
        assert(slug.spec_bytes() == vstd::utf8::encode_utf8(slug@));
        return r;
    }
    let (truncated, _) = slug.split_at(max_len);
    let bytes = truncated.as_bytes();
    let ghost tb = slug.spec_bytes().take(max_len as int);
    assert(bytes@ =~= tb);
    assert(tb.take(tb.len() as int) =~= tb);
    let mut k: usize = bytes.len();
    while k > 0 && bytes[k - 1] != 0x2d
        invariant
            k <= bytes@.len(),
            bytes@ == tb,
            last_index_of(tb, 0x2d) == last_index_of(tb.take(k as int), 0x2d),
        decreases k,
    {
        assert(tb.take(k as int).drop_last() =~= tb.take(k - 1));
        k = k - 1;
    }
    proof {
        if k == 0 {
            assert(tb.take(0) =~= Seq::<u8>::empty());
        } else {
            assert(tb.take(k as int).last() == 0x2d);
        }
    }
    if k > 0 && k - 1 > max_len / 2 {
        let pos = k - 1;
        proof {
            vstd::utf8::encode_utf8_valid_utf8(truncated@);
            vstd::utf8::is_char_boundary_iff_not_is_continuation_byte(truncated.spec_bytes(), pos as int);
        }
        let (head, _) = truncated.split_at(pos);
        assert(head.spec_bytes() =~= tb.take(pos as int));
        String::from_str(head)
    } else {
        String::from_str(truncated)
    }
}

} // verus!

verus! {

/// What `slug::slugify` returns for a text.
pub uninterp spec fn slug_of(s: Seq<char>) -> Seq<char>;

/// A character that `slug::slugify` may emit: `a`-`z`, `0`-`9` or `-`.
pub open spec fn is_slug_char(c: char) -> bool {
    ('a' <= c <= 'z') || ('0' <= c <= '9') || c == '-'
}

/// `slug::slugify`: turns a text into an ASCII slug. Claimed, as the
/// crate documents: the result is named `slug_of` and consists only of
/// `a`-`z`, `0`-`9` and `-`. The documented facts about dashes (never two
/// in a row, none at either end) are not stated.
#[verifier::external_body]
fn slugify(s: &str) -> (r: String)
    ensures
        r@ == slug_of(s@),
        forall|i: int| 0 <= i < r@.len() ==> is_slug_char(#[trigger] r@[i]),
{
    slug::slugify(s)
}

/// The decimal digit for `d` (below ten).
pub open spec fn digit_char(d: nat) -> char {
    if d == 0 { '0' } else if d == 1 { '1' } else if d == 2 { '2' } else if d == 3 { '3' }
    else if d == 4 { '4' } else if d == 5 { '5' } else if d == 6 { '6' } else if d == 7 { '7' }
    else if d == 8 { '8' } else { '9' }
}

/// The decimal representation of `n`, without leading zeros.
pub open spec fn decimal(n: nat) -> Seq<char>
    decreases n,
{
    if n < 10 {
        seq![digit_char(n)]
    } else {
        decimal(n / 10).push(digit_char(n % 10))
    }
}

/// Appends the decimal representation of `n` to `s`.
pub fn push_decimal(s: &mut String, n: u32)
    ensures
        final(s)@ == old(s)@ + decimal(n as nat),
    decreases n,
{
    if n >= 10 {
        push_decimal(s, n / 10);
    }
    let d = n % 10;
    let c = if d == 0 { '0' } else if d == 1 { '1' } else if d == 2 { '2' } else if d == 3 { '3' }
        else if d == 4 { '4' } else if d == 5 { '5' } else if d == 6 { '6' } else if d == 7 { '7' }
        else if d == 8 { '8' } else { '9' };
    crate::text::push_char(s, c);
    proof {
        if n >= 10 {
            assert(decimal(n as nat) =~= decimal((n / 10) as nat).push(digit_char((n % 10) as nat)));
        }
    }
}

/// The slug part of a note's file name: the slug of the title, truncated.
pub open spec fn slug_base(title: Seq<char>) -> Seq<char> {
    vstd::utf8::decode_utf8(truncated_bytes(vstd::utf8::encode_utf8(slug_of(title)), MAX_SLUG_LEN as int))
}

/// One step of the search for a free note file name: the name at
/// `counter` is used unless it is `taken` by another file than the note's
/// own (`is_current`), in which case the next counter is tried.
pub fn next_name_counter(taken: bool, is_current: bool, counter: u32) -> (r: Option<u32>)
    requires
        counter < u32::MAX,
    ensures
        r == (if taken && !is_current { Some((counter + 1) as u32) } else { None::<u32> }),
{
    if taken && !is_current {
        Some(counter + 1)
    } else {
        None
    }
}

/// The suffix of a note's file name: `.md`, or `-<counter>.md` for a
/// collision-avoiding counter above zero.
pub open spec fn name_suffix(counter: nat) -> Seq<char> {
    if counter == 0 {
        ".md"@
    } else {
        "-"@ + decimal(counter) + ".md"@
    }
}

/// The file name tried for a note titled `title` at the given collision
/// counter: `<slug>.md` first, then `<slug>-1.md`, `<slug>-2.md`, ...
pub fn note_file_name(title: &str, counter: u32) -> (r: String)
    ensures
        r@ == slug_base(title@) + name_suffix(counter as nat),
{
    let slug = slugify(title);
    proof {
        vstd::utf8::is_ascii_chars_encode_utf8(slug@);
        vstd::utf8::encode_utf8_valid_utf8(slug@);
        let b = vstd::utf8::encode_utf8(slug@);
        if b.len() > MAX_SLUG_LEN {
            vstd::utf8::is_char_boundary_iff_not_is_continuation_byte(b, MAX_SLUG_LEN as int);
            assert(b[MAX_SLUG_LEN as int] == slug@[MAX_SLUG_LEN as int] as u8);
        }
    }
    let mut name = truncate_slug(slug.as_str(), MAX_SLUG_LEN);
    proof {
        vstd::utf8::encode_utf8_decode_utf8(name@);
    }
    let ghost base = name@;
    if counter > 0 {
        name.append("-");
        push_decimal(&mut name, counter);
    }
    name.append(".md");
    proof {
        reveal_strlit("-");
        reveal_strlit(".md");
        if counter > 0 {
            assert(name@ =~= base + ("-"@ + decimal(counter as nat) + ".md"@));
        } else {
            assert(name@ =~= base + ".md"@);
        }
    }
    name
}

/// What `Path::file_stem` gives for a path: the file name without its
/// extension, when the path has a file name that is valid Unicode.
pub uninterp spec fn file_stem_of(path: Seq<char>) -> Option<Seq<char>>;

/// `std::path::Path::file_stem` followed by `OsStr::to_str`: the stem of the
/// last path component. The result is named `file_stem_of`.
#[verifier::external_body]
fn file_stem(path: &str) -> (r: Option<String>)
    ensures
        r matches Some(s) ==> file_stem_of(path@) == Some(s@),
        r is None ==> file_stem_of(path@) is None,
{
    std::path::Path::new(path).file_stem().and_then(|s| s.to_str()).map(|s| s.to_string())
}

/// What `char::to_uppercase` yields for a character, collected into a string.
pub uninterp spec fn uppercase_of(c: char) -> Seq<char>;

/// `char::to_uppercase` (std), collected into a `String`; named `uppercase_of`.
#[verifier::external_body]
fn char_to_uppercase(c: char) -> (r: String)
    ensures
        r@ == uppercase_of(c),
{
    c.to_uppercase().collect()
}

/// `s` with every `-` and `_` replaced by a space.
pub open spec fn dashes_to_spaces(s: Seq<char>) -> Seq<char> {
    s.map_values(|c: char| if c == '-' || c == '_' { ' ' } else { c })
}

/// `s` with its first character uppercased.
pub open spec fn capitalized(s: Seq<char>) -> Seq<char> {
    if s.len() == 0 {
        s
    } else {
        uppercase_of(s[0]) + s.drop_first()
    }
}

/// The title derived from a note's path: the file stem (or `untitled`),
/// with `-` and `_` turned into spaces and the first letter uppercased.
pub open spec fn title_from_path_spec(path: Seq<char>) -> Seq<char> {
    let stem = match file_stem_of(path) {
        Some(s) => s,
        None => "untitled"@,
    };
    capitalized(dashes_to_spaces(stem))
}

impl Note {
    /// Derives a human-readable title from a file path.
    pub fn title_from_path(path: &str) -> (r: String)
        ensures
            r@ == title_from_path_spec(path@),
    {
        let stem = match file_stem(path) {
            Some(s) => s,
            None => String::from_str("untitled"),
        };
        let cs = crate::text::chars_of(stem.as_str());
        if cs.len() == 0 {
            proof {
                assert(dashes_to_spaces(stem@).len() == 0);
                assert(dashes_to_spaces(stem@) =~= Seq::<char>::empty());
            }
            return String::new();
        }
        let first = if cs[0] == '-' || cs[0] == '_' { ' ' } else { cs[0] };
        let mut r = char_to_uppercase(first);
        let ghost up = r@;
        let mut i: usize = 1;
        while i < cs.len()
            invariant
                1 <= i <= cs.len(),
                cs@ == stem@,
                r@ == up + dashes_to_spaces(stem@).subrange(1, i as int),
            decreases cs.len() - i,
        {
            let c = cs[i];
            let d = if c == '-' || c == '_' { ' ' } else { c };
            crate::text::push_char(&mut r, d);
            assert(dashes_to_spaces(stem@).subrange(1, i + 1) =~= dashes_to_spaces(stem@).subrange(1, i as int).push(d));
            i = i + 1;
        }
        assert(dashes_to_spaces(stem@).subrange(1, cs.len() as int) =~= dashes_to_spaces(stem@).drop_first());
        r
    }
}

} // verus!
