//! The note file format: a YAML front matter block between `---` lines,
//! a blank line, then the Markdown body.
use vstd::prelude::*;
use gray_matter::engine::YAML;
use gray_matter::Matter;
use crate::text::{chars_of, push_char};

verus! {

/// What `gray_matter` (with its YAML engine) splits a text into: the front
/// matter (trimmed; empty when there is none) and the body.
pub uninterp spec fn matter_split(s: Seq<char>) -> (Seq<char>, Seq<char>);

/// `gray_matter::Matter::<YAML>::parse`: the front matter and the body it
/// finds, as the name `matter_split` gives them.
#[verifier::external_body]
fn split_matter(content: &str) -> (r: (String, String))
    ensures
        (r.0@, r.1@) == matter_split(content@),
{
    let parsed = Matter::<YAML>::new().parse(content);
    (parsed.matter, parsed.content)
}

/// Splits a note's text into its front matter and its body; `None` when
/// the text has no front matter.
pub fn front_matter_parts(content: &str) -> (r: Option<(String, String)>)
    ensures
        r is None <==> matter_split(content@).0.len() == 0,
        r matches Some((m, b)) ==> (m@, b@) == matter_split(content@),
{
    let (matter, body) = split_matter(content);
    if matter.as_str().unicode_len() == 0 {
        None
    } else {
        Some((matter, body))
    }
}

/// The characters `str::trim_end` removes: those with the Unicode
/// `White_Space` property.
pub open spec fn is_white_space(c: char) -> bool {
    ||| '\u{9}' <= c <= '\u{d}'
    ||| c == ' '
    ||| c == '\u{85}'
    ||| c == '\u{a0}'
    ||| c == '\u{1680}'
    ||| '\u{2000}' <= c <= '\u{200a}'
    ||| c == '\u{2028}'
    ||| c == '\u{2029}'
    ||| c == '\u{202f}'
    ||| c == '\u{205f}'
    ||| c == '\u{3000}'
}

/// A text without its trailing white space.
pub open spec fn trim_end(s: Seq<char>) -> Seq<char>
    decreases s.len(),
{
    if s.len() > 0 && is_white_space(s.last()) {
        trim_end(s.drop_last())
    } else {
        s
    }
}

fn white_space(c: char) -> (r: bool)
    ensures
        r == is_white_space(c),
{
    ('\u{9}' <= c && c <= '\u{d}') || c == ' ' || c == '\u{85}' || c == '\u{a0}' || c == '\u{1680}' || (
    '\u{2000}' <= c && c <= '\u{200a}') || c == '\u{2028}' || c == '\u{2029}' || c == '\u{202f}' || c
        == '\u{205f}' || c == '\u{3000}'
}

/// The text of a note: `---`, the YAML front matter without trailing white
/// space, `---`, a blank line, then the body.
pub fn note_text(yaml: &str, body: &str) -> (r: String)
    ensures
        r@ == "---\n"@ + trim_end(yaml@) + "\n---\n\n"@ + body@,
{
    let cs = chars_of(yaml);
    let mut n: usize = cs.len();
    assert(cs@.take(n as int) =~= cs@);
    while n > 0 && white_space(cs[n - 1])
        invariant
            n <= cs@.len(),
            trim_end(cs@.take(n as int)) == trim_end(cs@),
        decreases n,
    {
        assert(cs@.take(n as int).drop_last() =~= cs@.take(n - 1));
        n = n - 1;
    }
    assert(trim_end(cs@.take(n as int)) == cs@.take(n as int));
    let mut r = String::from_str("---\n");
    let ghost head = r@;
    let mut i: usize = 0;
    while i < n
        invariant
            i <= n <= cs@.len(),
            r@ == head + cs@.take(i as int),
        decreases n - i,
    {
        push_char(&mut r, cs[i]);
        assert(cs@.take(i + 1) =~= cs@.take(i as int).push(cs@[i as int]));
        i = i + 1;
    }
    r.append("\n---\n\n");
    r.append(body);
    proof {
        reveal_strlit("---\n");
        reveal_strlit("\n---\n\n");
    }
    r
}

} // verus!
