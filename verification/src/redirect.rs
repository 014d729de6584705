//! The redirection-operator recognizer: scans a token sequence for the
//! six redirection operators and splits it into command tokens plus an
//! optional (target stream, file path, write mode) triple.

use vstd::prelude::*;

use crate::models::{IOStreamType, WriteMode};
use crate::text::str_eq;

verus! {

/// One recognized redirection: which channel goes to which file, and
/// whether the file must be fresh or is appended to.
pub struct Redirect {
    pub target: IOStreamType,
    pub path: String,
    pub mode: WriteMode,
}

/// The contents of an optional redirection, as plain values.
pub open spec fn redirect_view(o: Option<Redirect>) -> Option<(IOStreamType, Seq<char>, WriteMode)> {
    match o {
        Some(r) => Some((r.target, r.path@, r.mode)),
        None => None,
    }
}

/// The stream/mode pair a redirection-operator token stands for, or
/// `None` for an ordinary token.
pub open spec fn op_redirect(t: Seq<char>) -> Option<(IOStreamType, WriteMode)> {
    if t == seq!['>'] || t == seq!['1', '>'] {
        Some((IOStreamType::StdOut, WriteMode::CreateNew))
    } else if t == seq!['2', '>'] {
        Some((IOStreamType::StdErr, WriteMode::CreateNew))
    } else if t == seq!['>', '>'] || t == seq!['1', '>', '>'] {
        Some((IOStreamType::StdOut, WriteMode::AppendExisting))
    } else if t == seq!['2', '>', '>'] {
        Some((IOStreamType::StdErr, WriteMode::AppendExisting))
    } else {
        None
    }
}

/// Classifies one token as a redirection operator or an ordinary token.
pub fn classify_op(t: &str) -> (r: Option<(IOStreamType, WriteMode)>)
    ensures
        r == op_redirect(t@),
{
    proof {
        reveal_strlit(">");
        reveal_strlit("1>");
        reveal_strlit("2>");
        reveal_strlit(">>");
        reveal_strlit("1>>");
        reveal_strlit("2>>");
        assert(">"@ =~= seq!['>']);
        assert("1>"@ =~= seq!['1', '>']);
        assert("2>"@ =~= seq!['2', '>']);
        assert(">>"@ =~= seq!['>', '>']);
        assert("1>>"@ =~= seq!['1', '>', '>']);
        assert("2>>"@ =~= seq!['2', '>', '>']);
    }
    if str_eq(t, ">") || str_eq(t, "1>") {
        Some((IOStreamType::StdOut, WriteMode::CreateNew))
    } else if str_eq(t, "2>") {
        Some((IOStreamType::StdErr, WriteMode::CreateNew))
    } else if str_eq(t, ">>") || str_eq(t, "1>>") {
        Some((IOStreamType::StdOut, WriteMode::AppendExisting))
    } else if str_eq(t, "2>>") {
        Some((IOStreamType::StdErr, WriteMode::AppendExisting))
    } else {
        None
    }
}

/// The scan over tokens from position `i`, carrying the command tokens
/// kept and the redirection seen so far. An operator consumes the next
/// token as the file path; a create-new operator ends the scan at once,
/// an append operator scans on, so a later one wins; an operator with no
/// token after it is dropped; every other token is kept in order.
pub open spec fn spec_extract_from(
    toks: Seq<Seq<char>>,
    i: int,
    cmd: Seq<Seq<char>>,
    red: Option<(IOStreamType, Seq<char>, WriteMode)>,
) -> (Seq<Seq<char>>, Option<(IOStreamType, Seq<char>, WriteMode)>)
    decreases toks.len() - i,
{
    if i >= toks.len() {
        (cmd, red)
    } else {
        let t = toks[i];
        match op_redirect(t) {
            Some(sm) => {
                if i + 1 < toks.len() {
                    let found = Some((sm.0, toks[i + 1], sm.1));
                    if sm.1 == WriteMode::CreateNew {
                        (cmd, found)
                    } else {
                        spec_extract_from(toks, i + 2, cmd, found)
                    }
                } else {
                    spec_extract_from(toks, i + 1, cmd, red)
                }
            },
            None => spec_extract_from(toks, i + 1, cmd.push(t), red),
        }
    }
}

/// The command tokens and the redirection of a token sequence.
pub open spec fn spec_extract(toks: Seq<Seq<char>>) -> (Seq<Seq<char>>, Option<
    (IOStreamType, Seq<char>, WriteMode),
>) {
    spec_extract_from(toks, 0, Seq::empty(), None)
}

/// Splits a token sequence into the command tokens and the redirection,
/// if any, under the scan policy of `spec_extract_from`.
pub fn extract(tokens: Vec<String>) -> (r: (Vec<String>, Option<Redirect>))
    ensures
        (r.0.deep_view(), redirect_view(r.1)) == spec_extract(tokens.deep_view()),
{
    let n = tokens.len();
    let mut cmd: Vec<String> = Vec::new();
    let mut red: Option<Redirect> = None;
    let mut i: usize = 0;
    proof {
        assert(cmd.deep_view() =~= Seq::<Seq<char>>::empty());
    }
    loop
        invariant
            i <= n,
            n == tokens@.len(),
            spec_extract_from(tokens.deep_view(), i as int, cmd.deep_view(), redirect_view(red))
                == spec_extract(tokens.deep_view()),
        ensures
            spec_extract(tokens.deep_view()) == (cmd.deep_view(), redirect_view(red)),
        decreases n - i,
    {
        if i >= n {
            break ;
        }
        match classify_op(tokens[i].as_str()) {
            Some((target, mode)) => {
                if i + 1 < n {
                    let path = tokens[i + 1].clone();
                    red = Some(Redirect { target, path, mode });
                    match mode {
                        WriteMode::CreateNew => {
                            break ;
                        },
                        WriteMode::AppendExisting => {
                            i = i + 2;
                        },
                    }
                } else {
                    i = i + 1;
                }
            },
            None => {
                let ghost prev_cmd = cmd.deep_view();
                cmd.push(tokens[i].clone());
                proof {
                    assert(cmd.deep_view() =~= prev_cmd.push(cmd@[cmd@.len() - 1]@));
                }
                i = i + 1;
            },
        }
    }
    (cmd, red)
}

} // verus!
