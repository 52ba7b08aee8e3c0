//! The `KEY=VALUE` lines of an environment file. There is no quoting, no
//! escape sequence and no comment syntax.

use vstd::prelude::*;
use crate::text::{chars_of, string_of};

verus! {

/// Whether `c` is white space in the sense of Unicode.
pub open spec fn is_space(c: char) -> bool {
    ||| '\u{9}' <= c <= '\u{d}'
    ||| c == ' '
    ||| c == '\u{85}'
    ||| c == '\u{a0}'
    ||| c == '\u{1680}'
    ||| '\u{2000}' <= c <= '\u{200a}'
    ||| c == '\u{2028}'
    ||| c == '\u{2029}'
    ||| c == '\u{202f}'
    ||| c == '\u{205f}'
    ||| c == '\u{3000}'
}

/// `s` without the white space it starts with.
pub open spec fn trim_start(s: Seq<char>) -> Seq<char>
    decreases s.len(),
{
    if s.len() > 0 && is_space(s[0]) {
        trim_start(s.skip(1))
    } else {
        s
    }
}

/// `s` without the white space it ends with.
pub open spec fn trim_end(s: Seq<char>) -> Seq<char>
    decreases s.len(),
{
    if s.len() > 0 && is_space(s[s.len() - 1]) {
        trim_end(s.take(s.len() - 1))
    } else {
        s
    }
}

/// `s` without the white space around it.
pub open spec fn trim(s: Seq<char>) -> Seq<char> {
    trim_end(trim_start(s))
}

/// Whether the first `=` of `line` stands at `p`.
pub open spec fn splits_at(line: Seq<char>, p: int) -> bool {
    &&& 0 <= p < line.len()
    &&& line[p] == '='
    &&& forall|i: int| 0 <= i < p ==> line[i] != '='
}

/// The entry that a line holds: what stands before its first `=` and what
/// stands after it, both trimmed. A line without `=` holds none.
pub open spec fn entry_of(line: Seq<char>) -> Option<(Seq<char>, Seq<char>)> {
    if exists|p: int| splits_at(line, p) {
        let p = choose|p: int| splits_at(line, p);
        Some((trim(line.take(p)), trim(line.skip(p + 1))))
    } else {
        None
    }
}

/// An entry as a sequence of none or one.
pub open spec fn listed(entry: Option<(Seq<char>, Seq<char>)>) -> Seq<(Seq<char>, Seq<char>)> {
    match entry {
        Some(e) => seq![e],
        None => Seq::empty(),
    }
}

/// The entries of `text` from the line that starts at `start`, where the
/// characters of that line up to `i` have been passed. Lines end at a line
/// feed or at the end of the text.
pub open spec fn entries_from(text: Seq<char>, start: int, i: int) -> Seq<(Seq<char>, Seq<char>)>
    decreases text.len() - i,
{
    if i >= text.len() {
        listed(entry_of(text.subrange(start, text.len() as int)))
    } else if text[i] == '\n' {
        listed(entry_of(text.subrange(start, i))) + entries_from(text, i + 1, i + 1)
    } else {
        entries_from(text, start, i + 1)
    }
}

/// The entries of an environment file, in the order of its lines.
pub open spec fn entries_of(text: Seq<char>) -> Seq<(Seq<char>, Seq<char>)> {
    entries_from(text, 0, 0)
}

/// A pair of strings, if there is one, as a mathematical value.
pub open spec fn pair_of(pair: Option<(String, String)>) -> Option<(Seq<char>, Seq<char>)> {
    match pair {
        Some(e) => Some((e.0@, e.1@)),
        None => None,
    }
}

/// A list of pairs of strings as a mathematical value.
pub open spec fn pairs_of(pairs: Seq<(String, String)>) -> Seq<(Seq<char>, Seq<char>)> {
    Seq::new(pairs.len(), |i: int| (pairs[i].0@, pairs[i].1@))
}

fn is_space_char(c: char) -> (b: bool)
    ensures
        b == is_space(c),
{
    ('\u{9}' <= c && c <= '\u{d}') || c == ' ' || c == '\u{85}' || c == '\u{a0}' || c
        == '\u{1680}' || ('\u{2000}' <= c && c <= '\u{200a}') || c == '\u{2028}' || c
        == '\u{2029}' || c == '\u{202f}' || c == '\u{205f}' || c == '\u{3000}'
}

/// The characters from `lo` up to `hi`, trimmed.
fn trimmed(chars: &Vec<char>, lo: usize, hi: usize) -> (out: String)
    requires
        lo <= hi <= chars@.len(),
    ensures
        out@ == trim(chars@.subrange(lo as int, hi as int)),
{
    let mut a: usize = lo;
    while a < hi && is_space_char(chars[a])
        invariant
            lo <= a <= hi <= chars@.len(),
            trim_start(chars@.subrange(lo as int, hi as int)) == trim_start(
                chars@.subrange(a as int, hi as int),
            ),
        decreases hi - a,
    {
        proof {
            assert(chars@.subrange(a as int, hi as int).skip(1) =~= chars@.subrange(
                a + 1,
                hi as int,
            ));
        }
        a += 1;
    }
    let mut b: usize = hi;
    while b > a && is_space_char(chars[b - 1])
        invariant
            a <= b <= hi <= chars@.len(),
            trim_end(chars@.subrange(a as int, hi as int)) == trim_end(
                chars@.subrange(a as int, b as int),
            ),
        decreases b - a,
    {
        proof {
            assert(chars@.subrange(a as int, b as int).take(b - a - 1) =~= chars@.subrange(
                a as int,
                b - 1,
            ));
        }
        b -= 1;
    }
    string_of(chars, a, b)
}

/// The entry of the line that runs from `lo` up to `hi`.
fn entry(chars: &Vec<char>, lo: usize, hi: usize) -> (found: Option<(String, String)>)
    requires
        lo <= hi <= chars@.len(),
    ensures
        pair_of(found) == entry_of(chars@.subrange(lo as int, hi as int)),
{
    let ghost line = chars@.subrange(lo as int, hi as int);
    let mut p: usize = lo;
    while p < hi
        invariant
            lo <= p <= hi <= chars@.len(),
            line == chars@.subrange(lo as int, hi as int),
            forall|i: int| 0 <= i < p - lo ==> line[i] != '=',
        decreases hi - p,
    {
        if chars[p] == '=' {
            let key = trimmed(chars, lo, p);
            let value = trimmed(chars, p + 1, hi);
            proof {
                assert(splits_at(line, p - lo));
                let q = choose|q: int| splits_at(line, q);
                assert(q == p - lo);
                assert(line.take(q) =~= chars@.subrange(lo as int, p as int));
                assert(line.skip(q + 1) =~= chars@.subrange(p + 1, hi as int));
            }
            return Some((key, value));
        }
        p += 1;
    }
    None
}

/// Reads the entries of an environment file: one per line, split at the
/// line's first `=`, key and value trimmed. Lines without `=` are passed over.
pub fn dotenv(text: &str) -> (entries: Vec<(String, String)>)
    ensures
        pairs_of(entries@) == entries_of(text@),
{
    let chars = chars_of(text);
    let n: usize = chars.len();
    let mut entries: Vec<(String, String)> = Vec::new();
    let mut start: usize = 0;
    let mut i: usize = 0;
    while i < n
        invariant
            chars@ == text@,
            n == chars@.len(),
            start <= i <= n,
            pairs_of(entries@) + entries_from(text@, start as int, i as int) == entries_of(text@),
        decreases n - i,
    {
        if chars[i] == '\n' {
            let ghost before = pairs_of(entries@);
            let ghost rest = entries_from(text@, i + 1, i + 1);
            match entry(&chars, start, i) {
                Some(e) => {
                    entries.push(e);
                    proof {
                        assert(pairs_of(entries@) =~= before + seq![(e.0@, e.1@)]);
                        assert((before + seq![(e.0@, e.1@)]) + rest =~= before + (seq![
                            (e.0@, e.1@),
                        ] + rest));
                    }
                },
                None => {
                    proof {
                        assert(Seq::<(Seq<char>, Seq<char>)>::empty() + rest =~= rest);
                    }
                },
            }
            start = i + 1;
        }
        i += 1;
    }
    let ghost before = pairs_of(entries@);
    match entry(&chars, start, n) {
        Some(e) => {
            entries.push(e);
            proof {
                assert(pairs_of(entries@) =~= before + seq![(e.0@, e.1@)]);
            }
        },
        None => {
            proof {
                assert(before + Seq::<(Seq<char>, Seq<char>)>::empty() =~= before);
            }
        },
    }
    entries
}

} // verus!
