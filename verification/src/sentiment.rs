//! The closed set of sentiment labels, their canonical text and the form in
//! which a label is kept in the cache.

use crate::text::{
    is_white_space, same_bytes, same_text, trim, trim_end, trim_start, trimmed,
};
use vstd::prelude::*;
use vstd::string::StringExecFns;
use vstd::utf8::{encode_utf8, encode_utf8_decode_utf8};

verus! {

/// A sentiment label.
#[derive(Copy, Clone, Debug, PartialEq, Eq, Structural)]
pub enum Sentiment {
    Positive,
    Negative,
    Neutral,
}

/// Why a text was not read as a label.
#[derive(Debug)]
pub enum ParseError {
    /// The text, trimmed, is none of the canonical labels. Holds the text as
    /// it was given.
    UnrecognizedLabel(String),
}

/// The label that `s` stands for: the one whose canonical text equals `s`
/// without its leading and trailing whitespace, case and all.
pub open spec fn recognized(s: Seq<char>) -> Option<Sentiment> {
    let t = trimmed(s);
    if t == Sentiment::Positive.label() {
        Some(Sentiment::Positive)
    } else if t == Sentiment::Negative.label() {
        Some(Sentiment::Negative)
    } else if t == Sentiment::Neutral.label() {
        Some(Sentiment::Neutral)
    } else {
        None
    }
}

/// The label that the stored bytes `bytes` stand for: the one whose stored
/// form they are, byte for byte.
pub open spec fn stored_sentiment(bytes: Seq<u8>) -> Option<Sentiment> {
    if bytes == Sentiment::Positive.stored_form() {
        Some(Sentiment::Positive)
    } else if bytes == Sentiment::Negative.stored_form() {
        Some(Sentiment::Negative)
    } else if bytes == Sentiment::Neutral.stored_form() {
        Some(Sentiment::Neutral)
    } else {
        None
    }
}

/// The text with which `message` starts.
pub open spec fn message_prefix() -> Seq<char> {
    "Invalid sentiment: "@
}

impl ParseError {
    /// The text that was not recognized.
    pub open spec fn raw(self) -> Seq<char> {
        match self {
            ParseError::UnrecognizedLabel(raw) => raw@,
        }
    }

    /// A sentence that names the offending text.
    pub fn message(&self) -> (m: String)
        ensures
            m@ == message_prefix() + self.raw(),
    {
        match self {
            ParseError::UnrecognizedLabel(raw) => {
                String::from_str("Invalid sentiment: ").concat(raw.as_str())
            },
        }
    }
}

impl Sentiment {
    /// The canonical lowercase text of the label.
    pub open spec fn label(self) -> Seq<char> {
        match self {
            Sentiment::Positive => "positive"@,
            Sentiment::Negative => "negative"@,
            Sentiment::Neutral => "neutral"@,
        }
    }

    /// The bytes under which the label is kept in the cache: its canonical
    /// text in UTF-8.
    pub open spec fn stored_form(self) -> Seq<u8> {
        encode_utf8(self.label())
    }

    /// The canonical text of the label.
    pub fn as_str(&self) -> (text: &'static str)
        ensures
            text@ == self.label(),
    {
        match self {
            Sentiment::Positive => "positive",
            Sentiment::Negative => "negative",
            Sentiment::Neutral => "neutral",
        }
    }

    /// The canonical text of the label, owned.
    pub fn to_string(&self) -> (text: String)
        ensures
            text@ == self.label(),
    {
        String::from_str(self.as_str())
    }

    /// The bytes under which the label is kept in the cache.
    pub fn as_bytes(&self) -> (bytes: &'static [u8])
        ensures
            bytes@ == self.stored_form(),
    {
        self.as_str().as_bytes()
    }

    /// Reads a label from text. Whitespace around the label is ignored; the
    /// label itself has to match a canonical text exactly.
    pub fn from_str(s: &str) -> (r: Result<Sentiment, ParseError>)
        ensures
            match r {
                Ok(sentiment) => recognized(s@) == Some(sentiment),
                Err(e) => recognized(s@) is None && e.raw() == s@,
            },
    {
        let t = trim(s);
        if same_text(t, "positive") {
            Ok(Sentiment::Positive)
        } else if same_text(t, "negative") {
            Ok(Sentiment::Negative)
        } else if same_text(t, "neutral") {
            Ok(Sentiment::Neutral)
        } else {
            Err(ParseError::UnrecognizedLabel(String::from_str(s)))
        }
    }

    /// Reads a label from bytes found in the cache. Only the exact stored
    /// form of a label is accepted.
    pub fn from_bytes(bytes: &[u8]) -> (r: Option<Sentiment>)
        ensures
            r == stored_sentiment(bytes@),
    {
        if same_bytes(bytes, Sentiment::Positive.as_bytes()) {
            Some(Sentiment::Positive)
        } else if same_bytes(bytes, Sentiment::Negative.as_bytes()) {
            Some(Sentiment::Negative)
        } else if same_bytes(bytes, Sentiment::Neutral.as_bytes()) {
            Some(Sentiment::Neutral)
        } else {
            None
        }
    }
}

impl AsRef<[u8]> for Sentiment {
    fn as_ref(&self) -> (bytes: &[u8])
        ensures
            bytes@ == self.stored_form(),
    {
        self.as_bytes()
    }
}

impl std::str::FromStr for Sentiment {
    type Err = ParseError;

    /// Reads a label from text, as the method of the same name on
    /// `Sentiment` does: the label that the trimmed text stands for, or an
    /// error that holds the text as it was given.
    fn from_str(s: &str) -> (r: Result<Sentiment, ParseError>)
        ensures
            match r {
                Ok(sentiment) => recognized(s@) == Some(sentiment),
                Err(e) => recognized(s@) is None && e.raw() == s@,
            },
    {
        Sentiment::from_str(s)
    }
}

/// Two labels have the same canonical text, or the same stored form, only
/// where they are the same label.
pub proof fn law_labels_differ(a: Sentiment, b: Sentiment)
    requires
        a != b,
    ensures
        a.label() != b.label(),
        a.stored_form() != b.stored_form(),
{
    reveal_strlit("positive");
    reveal_strlit("negative");
    reveal_strlit("neutral");
    assert(a.label() != b.label()) by {
        assert(a.label().len() != b.label().len() || a.label()[0] != b.label()[0]);
    }
    encode_utf8_decode_utf8(a.label());
    encode_utf8_decode_utf8(b.label());
}

/// What is written for a label is read back as that label: its canonical
/// text by `from_str`, its stored form by `from_bytes`.
pub proof fn law_label_is_read_back(sentiment: Sentiment)
    ensures
        trimmed(sentiment.label()) == sentiment.label(),
        recognized(sentiment.label()) == Some(sentiment),
        stored_sentiment(sentiment.stored_form()) == Some(sentiment),
{
    reveal_strlit("positive");
    reveal_strlit("negative");
    reveal_strlit("neutral");
    let text = sentiment.label();
    assert(!is_white_space(text.first()) && !is_white_space(text.last()));
    assert(trim_start(text) == text);
    assert(trim_end(text) == text);
    if sentiment != Sentiment::Positive {
        law_labels_differ(Sentiment::Positive, sentiment);
    }
    if sentiment != Sentiment::Negative {
        law_labels_differ(Sentiment::Negative, sentiment);
    }
}

} // verus!
