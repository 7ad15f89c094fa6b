//! The wire forms: a request is read from a JSON object with a string member
//! `sentence`, an answer is written as a JSON object with the one member
//! `sentiment`.

use crate::error::{DecodeError, Failure};
use crate::sentiment::Sentiment;
use crate::text::{same_text, trim, trimmed};
use vstd::prelude::*;
use vstd::string::StringExecFns;

verus! {

/// The error type of `serde_json`.
#[verifier::external_type_specification]
#[verifier::external_body]
pub struct ExJsonError(serde_json::Error);

/// A request to classify one sentence.
#[derive(Debug)]
pub struct SentimentAnalysisRequest {
    pub sentence: String,
}

/// The answer to a request: the canonical text of a label, or the empty text
/// where no label was recognized.
#[derive(Debug)]
pub struct SentimentAnalysisResponse {
    pub sentiment: String,
}

impl SentimentAnalysisRequest {
    /// The sentence without the whitespace around it. An empty sentence is
    /// a sentence too.
    pub fn normalized(&self) -> (sentence: String)
        ensures
            sentence@ == trimmed(self.sentence@),
    {
        String::from_str(trim(self.sentence.as_str()))
    }
}

/// The sentiment text of an answer: the canonical text of the label, or the
/// empty text where there is none.
pub open spec fn sentiment_text(sentiment: Option<Sentiment>) -> Seq<char> {
    match sentiment {
        Some(s) => s.label(),
        None => Seq::empty(),
    }
}

impl SentimentAnalysisResponse {
    /// The answer for `sentiment`: the canonical text of the label, or the
    /// empty text where there is none.
    pub fn from_sentiment(sentiment: Option<Sentiment>) -> (response: SentimentAnalysisResponse)
        ensures
            response.sentiment@ == sentiment_text(sentiment),
    {
        match sentiment {
            Some(s) => SentimentAnalysisResponse { sentiment: s.to_string() },
            None => SentimentAnalysisResponse { sentiment: String::new() },
        }
    }
}

/// One member of a JSON object: its name, and its value where that is a
/// string.
#[derive(Debug)]
pub struct Member {
    pub name: String,
    pub text: Option<String>,
}

/// A `Member` as mathematical values.
pub struct MemberView {
    pub name: Seq<char>,
    pub text: Option<Seq<char>>,
}

impl View for Member {
    type V = MemberView;

    open spec fn view(&self) -> MemberView {
        MemberView {
            name: self.name@,
            text: match self.text {
                Some(text) => Some(text@),
                None => None,
            },
        }
    }
}

/// The members of the JSON object that `body` holds, as `serde_json` reads
/// them, or `None` where `body` is not the text of one JSON object.
pub uninterp spec fn json_object(body: Seq<u8>) -> Option<Seq<MemberView>>;

/// The JSON string literal that `serde_json` writes for `s`.
pub uninterp spec fn json_string_text(s: Seq<char>) -> Seq<char>;

/// The name of the member that holds the sentence.
pub open spec fn sentence_name() -> Seq<char> {
    "sentence"@
}

/// The views of `members`, in order.
pub open spec fn member_views(members: Seq<Member>) -> Seq<MemberView> {
    members.map_values(|m: Member| m@)
}

/// The text of the first member named `sentence`, where that member is a
/// string.
pub open spec fn sentence_of(members: Seq<MemberView>) -> Option<Seq<char>>
    decreases members.len(),
{
    if members.len() == 0 {
        None
    } else if members.first().name == sentence_name() {
        members.first().text
    } else {
        sentence_of(members.drop_first())
    }
}

/// What a request body decodes to: the sentence as it was sent, or the
/// reason for which the body is refused.
pub open spec fn decoded(body: Seq<u8>) -> Result<Seq<char>, DecodeError> {
    if body.len() == 0 {
        Err(DecodeError::Absent)
    } else {
        match json_object(body) {
            None => Err(DecodeError::Malformed),
            Some(members) => match sentence_of(members) {
                Some(sentence) => Ok(sentence),
                None => Err(DecodeError::Malformed),
            },
        }
    }
}

/// Calls `serde_json::from_slice` for a `serde_json::Map` and hands out each
/// member with its name and, where its value is a JSON string, that string.
/// The contract claims that the outcome depends on the bytes alone: an error
/// exactly where `json_object` is `None`, else the members that `json_object`
/// names. Nothing else is claimed of them.
#[verifier::external_body]
fn parse_object(body: &[u8]) -> (r: Result<Vec<Member>, serde_json::Error>)
    ensures
        match r {
            Ok(members) => json_object(body@) == Some(member_views(members@)),
            Err(_) => json_object(body@) is None,
        },
{
    let object = serde_json::from_slice::<serde_json::Map<String, serde_json::Value>>(body)?;
    Ok(object.into_iter().map(|(name, value)| match value {
        serde_json::Value::String(text) => Member { name, text: Some(text) },
        _ => Member { name, text: None },
    }).collect())
}

/// Picks the sentence out of the members of a request object.
pub fn request_from_members(members: &Vec<Member>) -> (r: Result<
    SentimentAnalysisRequest,
    DecodeError,
>)
    ensures
        match r {
            Ok(request) => sentence_of(member_views(members@)) == Some(request.sentence@),
            Err(e) => e == DecodeError::Malformed && sentence_of(member_views(members@)) is None,
        },
{
    let n: usize = members.len();
    let mut i: usize = 0;
    assert(member_views(members@).skip(0) =~= member_views(members@));
    while i < n
        invariant
            i <= n == members@.len(),
            sentence_of(member_views(members@)) == sentence_of(
                member_views(members@).skip(i as int),
            ),
        decreases n - i,
    {
        let ghost rest = member_views(members@).skip(i as int);
        proof {
            assert(rest.first() == members@[i as int]@);
            assert(rest.drop_first() =~= member_views(members@).skip(i as int + 1));
        }
        if same_text(members[i].name.as_str(), "sentence") {
            return match &members[i].text {
                Some(text) => Ok(SentimentAnalysisRequest { sentence: text.clone() }),
                None => Err(DecodeError::Malformed),
            };
        }
        i = i + 1;
    }
    Err(DecodeError::Malformed)
}

/// Reads a request from the body it was sent in. An empty body counts as
/// absent. Any other body has to be one JSON object with a string member
/// `sentence`; further members are ignored.
pub fn decode_request(body: &[u8]) -> (r: Result<SentimentAnalysisRequest, DecodeError>)
    ensures
        match r {
            Ok(request) => decoded(body@) == Ok::<Seq<char>, DecodeError>(request.sentence@),
            Err(e) => decoded(body@) == Err::<Seq<char>, DecodeError>(e),
        },
        body@.len() == 0 ==> r matches Err(DecodeError::Absent),
{
    if body.len() == 0 {
        return Err(DecodeError::Absent);
    }
    match parse_object(body) {
        Ok(members) => request_from_members(&members),
        Err(_) => Err(DecodeError::Malformed),
    }
}

/// Whether `c` stands for itself inside a JSON string literal: it is no
/// control character, no quotation mark and no reverse solidus.
pub open spec fn stands_for_itself(c: char) -> bool {
    c as u32 >= 0x20 && c != '"' && c != '\\'
}

/// Whether every character of `s` stands for itself inside a JSON string
/// literal.
pub open spec fn is_plain(s: Seq<char>) -> bool {
    forall|i: int| 0 <= i < s.len() ==> stands_for_itself(#[trigger] s[i])
}

/// `s` between quotation marks.
pub open spec fn quoted(s: Seq<char>) -> Seq<char> {
    seq!['"'] + s + seq!['"']
}

/// The text of an answer whose sentiment is written as `literal`.
pub open spec fn answer_frame(literal: Seq<char>) -> Seq<char> {
    "{\"sentiment\":"@ + literal + "}"@
}

/// No sentiment text of an answer holds a character that JSON escapes, so
/// each is written between quotation marks as it stands.
pub proof fn law_sentiment_text_is_plain(sentiment: Option<Sentiment>)
    ensures
        is_plain(sentiment_text(sentiment)),
{
    reveal_strlit("positive");
    reveal_strlit("negative");
    reveal_strlit("neutral");
}

/// Calls `serde_json::to_string` on a string slice. The contract claims that
/// a text it hands out depends on the characters of `s` alone, and that where
/// no character of `s` needs an escape the call succeeds with `s` between
/// quotation marks. Whether it succeeds on other texts is left open.
#[verifier::external_body]
fn json_string(s: &str) -> (r: Result<String, serde_json::Error>)
    ensures
        match r {
            Ok(literal) => literal@ == json_string_text(s@) && (is_plain(s@) ==> literal@
                == quoted(s@)),
            Err(_) => !is_plain(s@),
        },
{
    serde_json::to_string(s)
}

/// Puts an answer together from the JSON string literal of its sentiment.
pub fn frame_answer(literal: &str) -> (body: String)
    ensures
        body@ == answer_frame(literal@),
{
    String::from_str("{\"sentiment\":").concat(literal).concat("}")
}

/// Writes an answer in its wire form: a JSON object with the one member
/// `sentiment`, without whitespace.
pub fn encode_response(response: &SentimentAnalysisResponse) -> (r: Result<String, Failure>)
    ensures
        match r {
            Ok(body) => body@ == answer_frame(json_string_text(response.sentiment@)) && (
            is_plain(response.sentiment@) ==> body@ == answer_frame(
                quoted(response.sentiment@),
            )),
            Err(e) => e == Failure::Internal && !is_plain(response.sentiment@),
        },
{
    match json_string(response.sentiment.as_str()) {
        Ok(literal) => Ok(frame_answer(literal.as_str())),
        Err(_) => Err(Failure::Internal),
    }
}

} // verus!
