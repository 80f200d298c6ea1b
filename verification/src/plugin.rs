//! What compiled plugins are built around.
use crate::text;
use crate::text::{same_text, trim};
use vstd::prelude::*;

verus! {

/// A message of a conversation with a model.
#[derive(Debug, Clone, PartialEq, Eq)]
pub struct ChatMessage {
    pub role: String,
    pub content: String,
}

/// The score of an output that should be `target`.
pub open spec fn score(output: Seq<char>, target: Seq<char>) -> int {
    if text::trimmed(output) == text::trimmed(target) {
        100
    } else {
        0
    }
}

/// The score of an output that should be `target`: full marks where they are the
/// same but for white space around them, else none.
pub fn call(output: &str, target: &str) -> (r: Result<u8, String>)
    ensures
        r matches Ok(points) && points == score(output@, target@),
{
    if same_text(trim(output), trim(target)) {
        Ok(100)
    } else {
        Ok(0)
    }
}

/// White space around the output or the target does not change the score.
pub proof fn score_ignores_outer_white_space(
    before: Seq<char>,
    output: Seq<char>,
    after: Seq<char>,
    target: Seq<char>,
)
    requires
        forall|j: int| 0 <= j < before.len() ==> text::white_space(#[trigger] before[j]),
        forall|j: int| 0 <= j < after.len() ==> text::white_space(#[trigger] after[j]),
    ensures
        score(before + output + after, target) == score(output, target),
        score(target, before + output + after) == score(target, output),
{
    text::trimming_ignores_outer_white_space(before, output, after);
}

/// Two texts, each with any white space around it, score full marks where they are
/// the same, character for character, and else nothing.
pub proof fn only_the_same_text_scores(
    before: Seq<char>,
    output: Seq<char>,
    after: Seq<char>,
    before_target: Seq<char>,
    target: Seq<char>,
    after_target: Seq<char>,
)
    requires
        forall|j: int| 0 <= j < before.len() ==> text::white_space(#[trigger] before[j]),
        forall|j: int| 0 <= j < after.len() ==> text::white_space(#[trigger] after[j]),
        forall|j: int|
            0 <= j < before_target.len() ==> text::white_space(#[trigger] before_target[j]),
        forall|j: int|
            0 <= j < after_target.len() ==> text::white_space(#[trigger] after_target[j]),
        output.len() > 0 ==> !text::white_space(output[0]) && !text::white_space(output.last()),
        target.len() > 0 ==> !text::white_space(target[0]) && !text::white_space(target.last()),
    ensures
        output == target ==> score(
            before + output + after,
            before_target + target + after_target,
        ) == 100,
        output != target ==> score(
            before + output + after,
            before_target + target + after_target,
        ) == 0,
{
    text::trimming_leaves_the_middle(before, output, after);
    text::trimming_leaves_the_middle(before_target, target, after_target);
}

/// A call returns full marks for the same text, whatever white space stands around the
/// output and the target, and nothing for any other text.
pub proof fn calls_score_as_stated(
    output: &str,
    target: &str,
    r: Result<u8, String>,
    before: Seq<char>,
    printed: Seq<char>,
    after: Seq<char>,
)
    requires
        call_ensures(call, (output, target), r),
        output@ == before + printed + after,
        forall|j: int| 0 <= j < before.len() ==> text::white_space(#[trigger] before[j]),
        forall|j: int| 0 <= j < after.len() ==> text::white_space(#[trigger] after[j]),
        printed.len() > 0 ==> !text::white_space(printed[0]) && !text::white_space(printed.last()),
        target@.len() > 0 ==> !text::white_space(target@[0]) && !text::white_space(target@.last()),
    ensures
        r == Ok::<u8, String>(
            if printed == target@ {
                100
            } else {
                0
            },
        ),
{
    let none = Seq::<char>::empty();
    only_the_same_text_scores(before, printed, after, none, target@, none);
    assert(none + target@ + none =~= target@);
}

} // verus!
