//! The character-level tokenizer: a left-to-right scan with two quote
//! flags and an accumulating token buffer, honoring single-quote,
//! double-quote and backslash-escape rules.

use vstd::prelude::*;

use crate::text::{is_space, is_space_char, spec_trim, trim_spaces};

verus! {

/// Inside double quotes a backslash escapes only these characters;
/// before any other it stays a literal backslash.
pub open spec fn is_escapable_char(c: char) -> bool {
    c == '\\' || c == '$' || c == '"'
}

/// Decides membership in the double-quote escapable set.
pub fn is_escapable(c: char) -> (r: bool)
    ensures
        r == is_escapable_char(c),
{
    c == '\\' || c == '$' || c == '"'
}

/// One scan of the tokenizer from position `i` of `s`, carrying the two
/// quote flags, the token accumulated so far and the tokens already
/// produced; yields all tokens of `s`. The end of the input flushes a
/// non-empty buffer and silently discards open quote state and a
/// trailing lone backslash.
pub open spec fn spec_tokenize_from(
    s: Seq<char>,
    i: int,
    in_single: bool,
    in_double: bool,
    cur: Seq<char>,
    out: Seq<Seq<char>>,
) -> Seq<Seq<char>>
    decreases s.len() - i,
{
    if i >= s.len() {
        if cur.len() > 0 {
            out.push(cur)
        } else {
            out
        }
    } else {
        let c = s[i];
        if c == '\\' {
            if i + 1 >= s.len() {
                spec_tokenize_from(s, i + 1, in_single, in_double, cur, out)
            } else {
                let next = s[i + 1];
                if !in_single && (is_escapable_char(next) || !in_double) {
                    spec_tokenize_from(s, i + 2, in_single, in_double, cur.push(next), out)
                } else {
                    spec_tokenize_from(s, i + 1, in_single, in_double, cur.push('\\'), out)
                }
            }
        } else if c == '\'' {
            if !in_double {
                spec_tokenize_from(s, i + 1, !in_single, in_double, cur, out)
            } else {
                spec_tokenize_from(s, i + 1, in_single, in_double, cur.push(c), out)
            }
        } else if c == '"' {
            if !in_single {
                spec_tokenize_from(s, i + 1, in_single, !in_double, cur, out)
            } else {
                spec_tokenize_from(s, i + 1, in_single, in_double, cur.push(c), out)
            }
        } else if is_space_char(c) {
            if in_single || in_double {
                spec_tokenize_from(s, i + 1, in_single, in_double, cur.push(c), out)
            } else if cur.len() > 0 {
                spec_tokenize_from(s, i + 1, in_single, in_double, Seq::empty(), out.push(cur))
            } else {
                spec_tokenize_from(s, i + 1, in_single, in_double, cur, out)
            }
        } else {
            spec_tokenize_from(s, i + 1, in_single, in_double, cur.push(c), out)
        }
    }
}

/// The token sequence of a raw input line: the line is trimmed, then
/// scanned from a clean state.
pub open spec fn spec_tokenize(s: Seq<char>) -> Seq<Seq<char>> {
    spec_tokenize_from(spec_trim(s), 0, false, false, Seq::empty(), Seq::empty())
}

/// Splits a raw input line into its argument tokens, resolving quotes
/// and escapes. Always succeeds; a blank line yields no tokens.
pub fn parse_chars(input: &str) -> (r: Vec<String>)
    ensures
        r.deep_view() == spec_tokenize(input@),
{
    let args = trim_spaces(input);
    let n = args.unicode_len();
    let mut result: Vec<String> = Vec::new();
    let mut in_single = false;
    let mut in_double = false;
    let mut cur = String::new();
    let mut i: usize = 0;
    proof {
        assert(result.deep_view() =~= Seq::<Seq<char>>::empty());
    }
    while i < n
        invariant
            i <= n,
            n == args@.len(),
            spec_tokenize_from(args@, i as int, in_single, in_double, cur@, result.deep_view())
                == spec_tokenize(input@),
        decreases n - i,
    {
        let ghost prev_out = result.deep_view();
        let c = args.get_char(i);
        if c == '\\' {
            if i + 1 < n {
                let next = args.get_char(i + 1);
                if !in_single && (is_escapable(next) || !in_double) {
                    cur.push(next);
                    i = i + 2;
                } else {
                    cur.push('\\');
                    i = i + 1;
                }
            } else {
                i = i + 1;
            }
        } else if c == '\'' {
            if !in_double {
                in_single = !in_single;
            } else {
                cur.push(c);
            }
            i = i + 1;
        } else if c == '"' {
            if !in_single {
                in_double = !in_double;
            } else {
                cur.push(c);
            }
            i = i + 1;
        } else if is_space(c) {
            if in_single || in_double {
                cur.push(c);
            } else if !cur.as_str().is_empty() {
                result.push(cur);
                cur = String::new();
                proof {
                    assert(result.deep_view() =~= prev_out.push(
                        result@[result@.len() - 1]@,
                    ));
                }
            }
            i = i + 1;
        } else {
            cur.push(c);
            i = i + 1;
        }
    }
    if !cur.as_str().is_empty() {
        let ghost prev_out = result.deep_view();
        result.push(cur);
        proof {
            assert(result.deep_view() =~= prev_out.push(result@[result@.len() - 1]@));
        }
    }
    result
}

} // verus!
