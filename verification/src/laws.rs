//! Statements that tie the pipeline's pieces together.

use vstd::prelude::*;

use crate::commands::{action_matches, CommandAction};
use crate::models::{Binary, IOStreamType, WriteMode};
use crate::redirect::{spec_extract, spec_extract_from};
use crate::text::{drop_leading_spaces, is_space_char, spec_trim};
use crate::tokenizer::{spec_tokenize, spec_tokenize_from};

verus! {

/// Trimming a line of nothing but word separators leaves nothing.
proof fn lemma_trim_all_spaces(s: Seq<char>)
    requires
        forall|i: int| 0 <= i < s.len() ==> is_space_char(s[i]),
    ensures
        spec_trim(s) == Seq::<char>::empty(),
    decreases s.len(),
{
    if s.len() == 0 {
        assert(drop_leading_spaces(s) == s);
        assert(s =~= Seq::<char>::empty());
    } else {
        assert(drop_leading_spaces(s) == drop_leading_spaces(s.drop_first()));
        lemma_trim_all_spaces(s.drop_first());
    }
}

/// A line of nothing but whitespace tokenizes to no tokens at all, and
/// its token list therefore carries no command and no redirection: the
/// dispatcher is handed an empty command.
pub proof fn lemma_whitespace_yields_nothing(s: Seq<char>)
    requires
        forall|i: int| 0 <= i < s.len() ==> is_space_char(s[i]),
    ensures
        spec_tokenize(s) == Seq::<Seq<char>>::empty(),
        spec_extract(spec_tokenize(s)) == (
            Seq::<Seq<char>>::empty(),
            None::<(IOStreamType, Seq<char>, WriteMode)>,
        ),
{
    lemma_trim_all_spaces(s);
    assert(spec_tokenize_from(spec_trim(s), 0, false, false, Seq::empty(), Seq::empty())
        == Seq::<Seq<char>>::empty());
    assert(spec_extract_from(Seq::<Seq<char>>::empty(), 0, Seq::empty(), None) == (
        Seq::<Seq<char>>::empty(),
        None::<(IOStreamType, Seq<char>, WriteMode)>,
    ));
}

/// On a line of nothing but whitespace no command runs: whatever the
/// executable list and the home directory, the only action the
/// dispatcher's contract admits for that line is an already-finished
/// empty stream — no exit, no directory change, no spawn.
pub proof fn lemma_whitespace_runs_no_command(
    s: Seq<char>,
    bins: Seq<Binary>,
    home: Seq<char>,
    r: CommandAction,
)
    requires
        forall|i: int| 0 <= i < s.len() ==> is_space_char(s[i]),
        action_matches(spec_extract(spec_tokenize(s)).0, bins, home, r),
    ensures
        r matches CommandAction::Finished(Ok(st)) && st.stdout is None && st.stderr is None,
{
    lemma_whitespace_yields_nothing(s);
}

} // verus!
