//! Character classes and small string utilities shared by the tokenizer
//! and the command dispatcher.

use vstd::prelude::*;

verus! {

/// The characters the interpreter treats as word separators: the Unicode
/// `White_Space` set, the same set `str::trim` and friends go by.
pub open spec fn is_space_char(c: char) -> bool {
    let u = c as u32;
    u == 0x20 || (0x09 <= u && u <= 0x0D) || u == 0x85 || u == 0xA0 || u == 0x1680 || (0x2000
        <= u && u <= 0x200A) || u == 0x2028 || u == 0x2029 || u == 0x202F || u == 0x205F || u
        == 0x3000
}

/// Decides membership in the word-separator set of `is_space_char`.
pub fn is_space(c: char) -> (r: bool)
    ensures
        r == is_space_char(c),
{
    let u = c as u32;
    u == 0x20 || (0x09 <= u && u <= 0x0D) || u == 0x85 || u == 0xA0 || u == 0x1680 || (0x2000
        <= u && u <= 0x200A) || u == 0x2028 || u == 0x2029 || u == 0x202F || u == 0x205F || u
        == 0x3000
}

/// Relies on `String::push`: appends one character at the end.
pub assume_specification[ String::push ](s: &mut String, c: char)
    ensures
        final(s)@ == old(s)@.push(c),
;

/// Character-for-character string equality.
pub fn str_eq(a: &str, b: &str) -> (r: bool)
    ensures
        r == (a@ == b@),
{
    let an = a.unicode_len();
    let bn = b.unicode_len();
    if an != bn {
        return false;
    }
    let mut i: usize = 0;
    while i < an
        invariant
            i <= an,
            an == a@.len(),
            an == b@.len(),
            forall|j: int| 0 <= j < i ==> a@[j] == b@[j],
        decreases an - i,
    {
        let ca = a.get_char(i);
        let cb = b.get_char(i);
        if ca != cb {
            return false;
        }
        i = i + 1;
    }
    proof {
        assert(a@ =~= b@);
    }
    true
}

/// The parts laid end to end with `sep` between neighbours.
pub open spec fn spec_join(parts: Seq<Seq<char>>, sep: Seq<char>) -> Seq<char>
    decreases parts.len(),
{
    if parts.len() == 0 {
        Seq::empty()
    } else if parts.len() == 1 {
        parts[0]
    } else {
        spec_join(parts.drop_last(), sep) + sep + parts.last()
    }
}

/// Concatenates the parts with `sep` between neighbours.
pub fn join_strings(parts: &Vec<String>, sep: &str) -> (r: String)
    ensures
        r@ == spec_join(parts.deep_view(), sep@),
{
    let mut r = String::new();
    let mut i: usize = 0;
    proof {
        assert(parts.deep_view().subrange(0, 0) =~= Seq::<Seq<char>>::empty());
    }
    while i < parts.len()
        invariant
            i <= parts@.len(),
            r@ == spec_join(parts.deep_view().subrange(0, i as int), sep@),
        decreases parts@.len() - i,
    {
        let ghost upto = parts.deep_view().subrange(0, i as int);
        let ghost extended = parts.deep_view().subrange(0, i as int + 1);
        proof {
            assert(extended.drop_last() =~= upto);
        }
        if i > 0 {
            r.append(sep);
        }
        r.append(parts[i].as_str());
        proof {
            if i == 0 {
                assert(r@ =~= extended[0]);
            }
        }
        i = i + 1;
    }
    proof {
        assert(parts.deep_view().subrange(0, parts@.len() as int) =~= parts.deep_view());
    }
    r
}

/// `s` without its leading word separators.
pub open spec fn drop_leading_spaces(s: Seq<char>) -> Seq<char>
    decreases s.len(),
{
    if s.len() > 0 && is_space_char(s[0]) {
        drop_leading_spaces(s.drop_first())
    } else {
        s
    }
}

/// `s` without its trailing word separators.
pub open spec fn drop_trailing_spaces(s: Seq<char>) -> Seq<char>
    decreases s.len(),
{
    if s.len() > 0 && is_space_char(s[s.len() - 1]) {
        drop_trailing_spaces(s.drop_last())
    } else {
        s
    }
}

/// `s` without leading and trailing word separators, as `str::trim`
/// computes it.
pub open spec fn spec_trim(s: Seq<char>) -> Seq<char> {
    drop_trailing_spaces(drop_leading_spaces(s))
}

/// Strips leading and trailing word separators.
pub fn trim_spaces(s: &str) -> (r: &str)
    ensures
        r@ == spec_trim(s@),
{
    let n = s.unicode_len();
    proof {
        assert(s@.subrange(0, n as int) =~= s@);
    }
    let mut lo: usize = 0;
    loop
        invariant
            lo <= n,
            n == s@.len(),
            drop_leading_spaces(s@) == drop_leading_spaces(s@.subrange(lo as int, n as int)),
        ensures
            lo <= n,
            drop_leading_spaces(s@) == s@.subrange(lo as int, n as int),
        decreases n - lo,
    {
        if lo < n && is_space(s.get_char(lo)) {
            proof {
                assert(s@.subrange(lo as int, n as int).drop_first() =~= s@.subrange(
                    lo as int + 1,
                    n as int,
                ));
            }
            lo = lo + 1;
        } else {
            break ;
        }
    }
    let mut hi: usize = n;
    loop
        invariant
            lo <= hi <= n,
            n == s@.len(),
            drop_trailing_spaces(s@.subrange(lo as int, n as int)) == drop_trailing_spaces(
                s@.subrange(lo as int, hi as int),
            ),
        ensures
            lo <= hi <= n,
            drop_trailing_spaces(s@.subrange(lo as int, n as int)) == s@.subrange(
                lo as int,
                hi as int,
            ),
        decreases hi,
    {
        if hi > lo && is_space(s.get_char(hi - 1)) {
            proof {
                assert(s@.subrange(lo as int, hi as int).drop_last() =~= s@.subrange(
                    lo as int,
                    hi as int - 1,
                ));
            }
            hi = hi - 1;
        } else {
            break ;
        }
    }
    s.substring_char(lo, hi)
}

} // verus!
