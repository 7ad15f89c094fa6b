//! Reading the label out of the text that the generation model hands back.

use crate::sentiment::{law_label_is_read_back, recognized, ParseError, Sentiment};
use crate::text::{
    first_line, first_line_of, is_blank, law_trimmed_drops_padding, strip_marker, without_marker,
};
use vstd::prelude::*;

verus! {

/// The marker with which the model is expected to start its line.
pub const MARKER: &'static str = "Bot:";

/// The part of the model's output in which the label is looked for: its
/// first line, without the marker where the line starts with it.
pub open spec fn label_text(output: Seq<char>) -> Seq<char> {
    without_marker(first_line(output), MARKER@)
}

/// The label that the model's output stands for, if any.
pub open spec fn classified(output: Seq<char>) -> Option<Sentiment> {
    recognized(label_text(output))
}

/// Reads the label out of the model's output. Only the first line counts. A
/// leading marker is removed; a line without it is read as it stands. What
/// is left has to be a canonical label, whitespace around it aside.
pub fn classify_output(output: &str) -> (r: Result<Sentiment, ParseError>)
    ensures
        match r {
            Ok(sentiment) => classified(output@) == Some(sentiment),
            Err(e) => classified(output@) is None && e.raw() == label_text(output@),
        },
{
    Sentiment::from_str(strip_marker(first_line_of(output), MARKER))
}

/// Output whose first line is a label's canonical text, with or without the
/// marker in front of it and with any whitespace around the label, stands
/// for that label.
pub proof fn law_label_line_is_classified(
    output: Seq<char>,
    marked: bool,
    lead: Seq<char>,
    sentiment: Sentiment,
    trail: Seq<char>,
)
    requires
        is_blank(lead),
        is_blank(trail),
        first_line(output) == (if marked {
            MARKER@
        } else {
            Seq::empty()
        }) + lead + sentiment.label() + trail,
    ensures
        classified(output) == Some(sentiment),
{
    reveal_strlit("Bot:");
    reveal_strlit("positive");
    reveal_strlit("negative");
    reveal_strlit("neutral");
    let padded = lead + sentiment.label() + trail;
    let line = first_line(output);
    if marked {
        assert(line.subrange(0, 4) =~= MARKER@);
        assert(line.skip(4) =~= padded);
    } else {
        assert(line =~= padded);
        assert(padded[0] != 'B') by {
            if lead.len() > 0 {
                assert(padded[0] == lead[0]);
            } else {
                assert(padded[0] == sentiment.label()[0]);
            }
        }
        if MARKER@.is_prefix_of(line) {
            assert(line.subrange(0, 4)[0] == 'B');
        }
    }
    assert(label_text(output) == padded);
    law_label_is_read_back(sentiment);
    law_trimmed_drops_padding(lead, sentiment.label(), trail);
}

} // verus!
