//! The few-shot prompt that asks the generation model for a label.

use vstd::prelude::*;
use vstd::string::StringExecFns;

verus! {

/// The instruction and the worked examples, one per label, up to the place
/// where the sentence goes.
pub const PROMPT_HEAD: &'static str =
    "\\\n<<SYS>>\nYou are a bot that generates sentiment analysis responses. Respond with a single positive, negative, or neutral.\n<</SYS>>\n<INST>\nFollow the pattern of the following examples:\n\nUser: Hi, my name is Bob\nBot: neutral\n\nUser: I am so happy today\nBot: positive\n\nUser: I am so sad today\nBot: negative\n</INST>\n\nUser: ";

/// What follows the sentence.
pub const PROMPT_TAIL: &'static str = "\n";

/// The most tokens that the model is asked to generate: a label is short.
pub const MAX_TOKENS: u32 = 8;

/// The prompt for `sentence`: the instruction and examples, then the sentence
/// as the user's line.
pub open spec fn prompt_text(sentence: Seq<char>) -> Seq<char> {
    PROMPT_HEAD@ + sentence + PROMPT_TAIL@
}

/// Builds the prompt for `sentence`.
pub fn build_prompt(sentence: &str) -> (prompt: String)
    ensures
        prompt@ == prompt_text(sentence@),
{
    String::from_str(PROMPT_HEAD).concat(sentence).concat(PROMPT_TAIL)
}

} // verus!
