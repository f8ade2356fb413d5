//! Recognition results: partial hypotheses and final phrases, read from the
//! JSON bodies that the service sends.

use vstd::prelude::*;
use vstd::string::*;
use crate::text::{decimal, decimal_text};

verus! {

#[verifier::external_type_specification]
#[verifier::external_body]
pub struct ExJsonValue(serde_json::Value);

#[verifier::external_type_specification]
#[verifier::external_body]
pub struct ExJsonNumber(serde_json::Number);

#[verifier::external_type_specification]
#[verifier::external_body]
pub struct ExJsonError(serde_json::Error);

/// The value that a JSON text reads as; `None` when it is not JSON.
pub uninterp spec fn json_parse(text: Seq<char>) -> Option<serde_json::Value>;

/// The member `key` of a JSON object; `None` when missing or when the value
/// is not an object.
pub uninterp spec fn json_get(v: serde_json::Value, key: Seq<char>) -> Option<serde_json::Value>;

/// The text of a JSON string; `None` for any other value.
pub uninterp spec fn json_str(v: serde_json::Value) -> Option<Seq<char>>;

/// A JSON number that is a non-negative integer below 2^64; `None` otherwise.
pub uninterp spec fn json_u64(v: serde_json::Value) -> Option<u64>;

/// The number that a JSON number holds; `None` for any other value.
pub uninterp spec fn json_number(v: serde_json::Value) -> Option<serde_json::Number>;

/// The elements of a JSON array; `None` for any other value.
pub uninterp spec fn json_array(v: serde_json::Value) -> Option<Seq<serde_json::Value>>;

/// Relies on the derived `Clone` of `serde_json::Number`, which copies the
/// number.
pub assume_specification[ <serde_json::Number as Clone>::clone ](n: &serde_json::Number) -> (r: serde_json::Number)
    ensures
        r == *n,
;

/// Relies on the `Display` of `serde_json::Number`: the number as JSON
/// writes it.
#[verifier::external_body]
fn number_text(n: &serde_json::Number) -> (r: String) {
    n.to_string()
}

/// Relies on `serde_json::from_str`: reads a JSON text into a value, or
/// fails with a syntax error; the value depends on the text alone.
#[verifier::external_body]
fn parse_json(text: &str) -> (r: Result<serde_json::Value, serde_json::Error>)
    ensures
        match r {
            Ok(v) => json_parse(text@) == Some(v),
            Err(_) => json_parse(text@) is None,
        },
{
    serde_json::from_str(text)
}

/// Relies on `serde_json::Value::get`: the member `key` of an object,
/// `None` for a missing member or a value that is no object.
#[verifier::external_body]
fn json_member<'a>(v: &'a serde_json::Value, key: &str) -> (r: Option<&'a serde_json::Value>)
    ensures
        match r {
            Some(m) => json_get(*v, key@) == Some(*m),
            None => json_get(*v, key@) is None,
        },
{
    v.get(key)
}

/// Relies on `serde_json::Value::as_str`: the text of a JSON string.
#[verifier::external_body]
fn json_as_str(v: &serde_json::Value) -> (r: Option<String>)
    ensures
        match r {
            Some(s) => json_str(*v) == Some(s@),
            None => json_str(*v) is None,
        },
{
    v.as_str().map(|s| s.to_string())
}

/// Relies on `serde_json::Value::as_u64`: a JSON number that is a
/// non-negative integer fitting in 64 bits.
#[verifier::external_body]
fn json_as_u64(v: &serde_json::Value) -> (r: Option<u64>)
    ensures
        r == json_u64(*v),
{
    v.as_u64()
}

/// Relies on `serde_json::Value::as_number`: a JSON number, as it was read.
#[verifier::external_body]
fn json_as_number(v: &serde_json::Value) -> (r: Option<serde_json::Number>)
    ensures
        r == json_number(*v),
{
    v.as_number().cloned()
}

/// Relies on `serde_json::Value::as_array`: the elements of a JSON array.
#[verifier::external_body]
fn json_as_array(v: &serde_json::Value) -> (r: Option<&Vec<serde_json::Value>>)
    ensures
        match r {
            Some(a) => json_array(*v) == Some(a@),
            None => json_array(*v) is None,
        },
{
    v.as_array()
}

/// Why a JSON body could not be read as a result.
#[derive(Clone, Copy, Debug, PartialEq, Eq, Structural)]
pub enum JsonError {
    /// The body is not JSON text.
    Syntax,
    /// A member that the result needs is missing or has the wrong type.
    Shape,
}

/// A partial result, sent while speech is still going on. Offset and
/// duration are in the service's ticks of 100 ns.
#[derive(Clone, Debug)]
pub struct Hypothesis {
    pub text: String,
    pub offset: u64,
    pub duration: u64,
}

/// A final result in the simple format.
#[derive(Clone, Debug)]
pub struct SimplePhrase {
    pub recognition_status: String,
    pub display_text: String,
    pub offset: u64,
    pub duration: u64,
}

/// One alternative of a detailed result; `confidence` is kept as the JSON
/// number that the service sent.
#[derive(Clone, Debug)]
pub struct DetailedPhraseItem {
    pub confidence: serde_json::Number,
    pub lexical: String,
    pub itn: String,
    pub masked_itn: String,
    pub display: String,
}

/// A final result in the detailed format, with its ranked alternatives.
#[derive(Clone, Debug)]
pub struct DetailedPhrase {
    pub recognition_status: String,
    pub offset: u64,
    pub duration: u64,
    pub nbest: Vec<DetailedPhraseItem>,
}

/// The result when no speech was heard before the service gave up.
#[derive(Clone, Debug)]
pub struct SilencePhrase {
    pub recognition_status: String,
    pub offset: u64,
    pub duration: u64,
}

/// A final recognition result.
#[derive(Clone, Debug)]
pub enum Phrase {
    Simple(SimplePhrase),
    Detailed(DetailedPhrase),
    Silence(SilencePhrase),
    Unknown,
}

/// Which variant of `Phrase` a result body is read as.
#[derive(Clone, Copy, Debug, PartialEq, Eq, Structural)]
pub enum PhraseKind {
    Simple,
    Detailed,
    Silence,
    Unknown,
}

/// The variant of a phrase whose `RecognitionStatus` member is `status`
/// (`None` when missing or not a string) and which has, or lacks, a
/// `DisplayText` member.
pub open spec fn phrase_kind(status: Option<Seq<char>>, has_display_text: bool) -> PhraseKind {
    match status {
        Some(s) => if s == "Success"@ {
            if has_display_text {
                PhraseKind::Simple
            } else {
                PhraseKind::Detailed
            }
        } else if s == "InitialSilenceTimeout"@ {
            PhraseKind::Silence
        } else {
            PhraseKind::Unknown
        },
        None => PhraseKind::Unknown,
    }
}

/// The view of an optional string.
pub open spec fn opt_view(s: Option<String>) -> Option<Seq<char>> {
    match s {
        Some(t) => Some(t@),
        None => None,
    }
}

impl Phrase {
    pub open spec fn kind(self) -> PhraseKind {
        match self {
            Phrase::Simple(_) => PhraseKind::Simple,
            Phrase::Detailed(_) => PhraseKind::Detailed,
            Phrase::Silence(_) => PhraseKind::Silence,
            Phrase::Unknown => PhraseKind::Unknown,
        }
    }
}

/// Decides which variant a phrase body is read as: a successful result is
/// simple when it has display text and detailed otherwise; a silence
/// time-out is a silence result; anything else is unknown.
pub fn classify_phrase(status: &Option<String>, has_display_text: bool) -> (r: PhraseKind)
    ensures
        r == phrase_kind(opt_view(*status), has_display_text),
{
    match status {
        Some(s) => {
            let success = String::from_str("Success");
            let silence = String::from_str("InitialSilenceTimeout");
            if *s == success {
                if has_display_text {
                    PhraseKind::Simple
                } else {
                    PhraseKind::Detailed
                }
            } else if *s == silence {
                PhraseKind::Silence
            } else {
                PhraseKind::Unknown
            }
        },
        None => PhraseKind::Unknown,
    }
}

/// The string member `key` of `v`.
pub open spec fn str_at(v: serde_json::Value, key: Seq<char>) -> Option<Seq<char>> {
    match json_get(v, key) {
        Some(m) => json_str(m),
        None => None,
    }
}

/// The integer member `key` of `v`.
pub open spec fn u64_at(v: serde_json::Value, key: Seq<char>) -> Option<u64> {
    match json_get(v, key) {
        Some(m) => json_u64(m),
        None => None,
    }
}

/// The number member `key` of `v`.
pub open spec fn number_at(v: serde_json::Value, key: Seq<char>) -> Option<serde_json::Number> {
    match json_get(v, key) {
        Some(m) => json_number(m),
        None => None,
    }
}

/// The elements of the array member `key` of `v`.
pub open spec fn array_at(v: serde_json::Value, key: Seq<char>) -> Option<Seq<serde_json::Value>> {
    match json_get(v, key) {
        Some(m) => json_array(m),
        None => None,
    }
}

/// `r` is what reading a hypothesis from the object `v` gives: the
/// hypothesis of its `Text`, `Offset` and `Duration` members when all three
/// are there with the right types, a shape error otherwise.
pub open spec fn hypothesis_reads(v: serde_json::Value, r: Result<Hypothesis, JsonError>) -> bool {
    match (str_at(v, "Text"@), u64_at(v, "Offset"@), u64_at(v, "Duration"@)) {
        (Some(t), Some(o), Some(d)) => match r {
            Ok(h) => h.text@ == t && h.offset == o && h.duration == d,
            Err(_) => false,
        },
        _ => r == Err::<Hypothesis, _>(JsonError::Shape),
    }
}

/// The object `v` holds every member of an NBest alternative.
pub open spec fn item_complete(v: serde_json::Value) -> bool {
    &&& number_at(v, "Confidence"@) is Some
    &&& str_at(v, "Lexical"@) is Some
    &&& str_at(v, "ITN"@) is Some
    &&& str_at(v, "MaskedITN"@) is Some
    &&& str_at(v, "Display"@) is Some
}

/// `item` holds the members of the object `v`.
pub open spec fn item_matches(item: DetailedPhraseItem, v: serde_json::Value) -> bool {
    &&& number_at(v, "Confidence"@) == Some(item.confidence)
    &&& str_at(v, "Lexical"@) == Some(item.lexical@)
    &&& str_at(v, "ITN"@) == Some(item.itn@)
    &&& str_at(v, "MaskedITN"@) == Some(item.masked_itn@)
    &&& str_at(v, "Display"@) == Some(item.display@)
}

/// The kind of phrase that the object `v` is read as.
pub open spec fn kind_of_value(v: serde_json::Value) -> PhraseKind {
    phrase_kind(str_at(v, "RecognitionStatus"@), json_get(v, "DisplayText"@) is Some)
}

/// The object `v` holds every member that a phrase of its kind needs.
pub open spec fn phrase_complete(v: serde_json::Value) -> bool {
    match kind_of_value(v) {
        PhraseKind::Simple => str_at(v, "DisplayText"@) is Some && u64_at(v, "Offset"@) is Some
            && u64_at(v, "Duration"@) is Some,
        PhraseKind::Detailed => u64_at(v, "Offset"@) is Some && u64_at(v, "Duration"@) is Some
            && array_at(v, "NBest"@) is Some && forall|i: int|
            0 <= i < array_at(v, "NBest"@)->0.len() ==> item_complete(
                #[trigger] array_at(v, "NBest"@)->0[i],
            ),
        PhraseKind::Silence => u64_at(v, "Offset"@) is Some && u64_at(v, "Duration"@) is Some,
        PhraseKind::Unknown => true,
    }
}

/// The phrase `p` holds the members of the object `v`, and is of its kind.
pub open spec fn phrase_matches(p: Phrase, v: serde_json::Value) -> bool {
    &&& p.kind() == kind_of_value(v)
    &&& match p {
        Phrase::Simple(s) => {
            &&& str_at(v, "RecognitionStatus"@) == Some(s.recognition_status@)
            &&& str_at(v, "DisplayText"@) == Some(s.display_text@)
            &&& u64_at(v, "Offset"@) == Some(s.offset)
            &&& u64_at(v, "Duration"@) == Some(s.duration)
        },
        Phrase::Detailed(d) => {
            &&& str_at(v, "RecognitionStatus"@) == Some(d.recognition_status@)
            &&& u64_at(v, "Offset"@) == Some(d.offset)
            &&& u64_at(v, "Duration"@) == Some(d.duration)
            &&& array_at(v, "NBest"@) is Some
            &&& d.nbest@.len() == array_at(v, "NBest"@)->0.len()
            &&& forall|i: int|
                0 <= i < d.nbest@.len() ==> item_matches(
                    #[trigger] d.nbest@[i],
                    array_at(v, "NBest"@)->0[i],
                )
        },
        Phrase::Silence(s) => {
            &&& str_at(v, "RecognitionStatus"@) == Some(s.recognition_status@)
            &&& u64_at(v, "Offset"@) == Some(s.offset)
            &&& u64_at(v, "Duration"@) == Some(s.duration)
        },
        Phrase::Unknown => true,
    }
}

/// `r` is what reading a phrase from the object `v` gives: a phrase of the
/// kind that `phrase_kind` picks, holding `v`'s members, when `v` has every
/// member that kind needs (an unknown kind needs none), a shape error
/// otherwise.
pub open spec fn phrase_reads(v: serde_json::Value, r: Result<Phrase, JsonError>) -> bool {
    if phrase_complete(v) {
        r is Ok && phrase_matches(r->Ok_0, v)
    } else {
        r == Err::<Phrase, _>(JsonError::Shape)
    }
}

/// `r` is what reading a hypothesis from the JSON text `t` gives.
pub open spec fn hypothesis_text_reads(t: Seq<char>, r: Result<Hypothesis, JsonError>) -> bool {
    match json_parse(t) {
        Some(v) => hypothesis_reads(v, r),
        None => r == Err::<Hypothesis, _>(JsonError::Syntax),
    }
}

/// `r` is what reading a phrase from the JSON text `t` gives.
pub open spec fn phrase_text_reads(t: Seq<char>, r: Result<Phrase, JsonError>) -> bool {
    match json_parse(t) {
        Some(v) => phrase_reads(v, r),
        None => r == Err::<Phrase, _>(JsonError::Syntax),
    }
}

/// The string member `key` of `v`.
fn str_member(v: &serde_json::Value, key: &str) -> (r: Option<String>)
    ensures
        opt_view(r) == str_at(*v, key@),
{
    match json_member(v, key) {
        Some(m) => json_as_str(m),
        None => None,
    }
}

/// The integer member `key` of `v`.
fn u64_member(v: &serde_json::Value, key: &str) -> (r: Option<u64>)
    ensures
        r == u64_at(*v, key@),
{
    match json_member(v, key) {
        Some(m) => json_as_u64(m),
        None => None,
    }
}

impl Hypothesis {
    /// Reads a hypothesis from its JSON object (`Text`, `Offset`, `Duration`).
    pub fn from_json_value(value: &serde_json::Value) -> (r: Result<Hypothesis, JsonError>)
        ensures
            hypothesis_reads(*value, r),
    {
        let text = str_member(value, "Text");
        let offset = u64_member(value, "Offset");
        let duration = u64_member(value, "Duration");
        match (text, offset, duration) {
            (Some(text), Some(offset), Some(duration)) => Ok(Hypothesis { text, offset, duration }),
            _ => Err(JsonError::Shape),
        }
    }

    /// Reads a hypothesis from the JSON text of a frame body.
    pub fn from_json_text(body: &str) -> (r: Result<Hypothesis, JsonError>)
        ensures
            hypothesis_text_reads(body@, r),
    {
        match parse_json(body) {
            Ok(v) => Hypothesis::from_json_value(&v),
            Err(_) => Err(JsonError::Syntax),
        }
    }
}

impl DetailedPhraseItem {
    /// Reads one alternative of a detailed result.
    pub fn from_json_value(value: &serde_json::Value) -> (r: Result<DetailedPhraseItem, JsonError>)
        ensures
            item_complete(*value) ==> r is Ok && item_matches(r->Ok_0, *value),
            !item_complete(*value) ==> r == Err::<DetailedPhraseItem, _>(JsonError::Shape),
    {
        let confidence = match json_member(value, "Confidence") {
            Some(m) => json_as_number(m),
            None => None,
        };
        let lexical = str_member(value, "Lexical");
        let itn = str_member(value, "ITN");
        let masked_itn = str_member(value, "MaskedITN");
        let display = str_member(value, "Display");
        match (confidence, lexical, itn, masked_itn, display) {
            (Some(confidence), Some(lexical), Some(itn), Some(masked_itn), Some(display)) => {
                Ok(DetailedPhraseItem { confidence, lexical, itn, masked_itn, display })
            },
            _ => Err(JsonError::Shape),
        }
    }
}

impl Phrase {
    /// Reads a final result from its JSON object: the kind comes from
    /// `phrase_kind` on its `RecognitionStatus` and on whether it has a
    /// `DisplayText`; the members that kind needs are then read.
    pub fn from_json_value(value: &serde_json::Value) -> (r: Result<Phrase, JsonError>)
        ensures
            phrase_reads(*value, r),
    {
        let status = str_member(value, "RecognitionStatus");
        let has_display_text = json_member(value, "DisplayText").is_some();
        let kind = classify_phrase(&status, has_display_text);
        let offset = u64_member(value, "Offset");
        let duration = u64_member(value, "Duration");
        match (kind, status, offset, duration) {
            (PhraseKind::Simple, Some(recognition_status), Some(offset), Some(duration)) => {
                match str_member(value, "DisplayText") {
                    Some(display_text) => Ok(
                        Phrase::Simple(
                            SimplePhrase { recognition_status, display_text, offset, duration },
                        ),
                    ),
                    None => Err(JsonError::Shape),
                }
            },
            (PhraseKind::Detailed, Some(recognition_status), Some(offset), Some(duration)) => {
                let items = match json_member(value, "NBest") {
                    Some(m) => match json_as_array(m) {
                        Some(a) => a,
                        None => {
                            return Err(JsonError::Shape);
                        },
                    },
                    None => {
                        return Err(JsonError::Shape);
                    },
                };
                let ghost all = items@;
                let mut nbest: Vec<DetailedPhraseItem> = Vec::new();
                let mut i: usize = 0;
                while i < items.len()
                    invariant
                        i <= items.len(),
                        all == items@,
                        array_at(*value, "NBest"@) == Some(all),
                        kind_of_value(*value) == PhraseKind::Detailed,
                        nbest@.len() == i,
                        forall|j: int| 0 <= j < i ==> item_complete(#[trigger] all[j]),
                        forall|j: int| 0 <= j < i ==> item_matches(#[trigger] nbest@[j], all[j]),
                    decreases items.len() - i,
                {
                    match DetailedPhraseItem::from_json_value(&items[i]) {
                        Ok(item) => {
                            nbest.push(item);
                        },
                        Err(e) => {
                            assert(!item_complete(array_at(*value, "NBest"@)->0[i as int]));
                            assert(!phrase_complete(*value));
                            return Err(e);
                        },
                    }
                    i += 1;
                }
                let p = Phrase::Detailed(DetailedPhrase { recognition_status, offset, duration, nbest });
                assert(phrase_matches(p, *value));
                Ok(p)
            },
            (PhraseKind::Silence, Some(recognition_status), Some(offset), Some(duration)) => {
                Ok(Phrase::Silence(SilencePhrase { recognition_status, offset, duration }))
            },
            (PhraseKind::Unknown, _, _, _) => Ok(Phrase::Unknown),
            _ => Err(JsonError::Shape),
        }
    }

    /// Reads a final result from the JSON text of a frame or response body:
    /// a text that is not JSON is a syntax error; otherwise the value is read
    /// as `from_json_value` reads it.
    pub fn from_json_text(body: &str) -> (r: Result<Phrase, JsonError>)
        ensures
            phrase_text_reads(body@, r),
    {
        match parse_json(body) {
            Ok(v) => Phrase::from_json_value(&v),
            Err(_) => Err(JsonError::Syntax),
        }
    }
}

/// The line `label: value` of a printed result.
pub open spec fn line(label: Seq<char>, value: Seq<char>) -> Seq<char> {
    label + ": "@ + value + "\n"@
}

fn push_line(out: &mut String, label: &str, value: &str)
    ensures
        final(out)@ == old(out)@ + line(label@, value@),
{
    out.append(label);
    out.append(": ");
    out.append(value);
    out.append("\n");
    assert(final(out)@ =~= old(out)@ + line(label@, value@)) by {
        assert(out@ =~= old(out)@ + label@ + ": "@ + value@ + "\n"@);
    }
}

/// The printed form of a hypothesis: its text, offset and duration, one per line.
pub open spec fn hypothesis_text(h: Hypothesis) -> Seq<char> {
    line("Text"@, h.text@) + line("Offset"@, decimal(h.offset as nat)) + line(
        "Duration"@,
        decimal(h.duration as nat),
    )
}

/// The status, offset and duration lines that every printed result but an
/// unknown one starts with (a simple one has its display text between).
pub open spec fn timing_lines(offset: u64, duration: u64) -> Seq<char> {
    line("Offset"@, decimal(offset as nat)) + line("Duration"@, decimal(duration as nat))
}

/// The printed form of a phrase; a detailed one continues with its
/// alternatives after the part given here.
pub open spec fn phrase_text_head(p: Phrase) -> Seq<char> {
    match p {
        Phrase::Simple(s) => line("RecognitionStatus"@, s.recognition_status@) + line(
            "DisplayText"@,
            s.display_text@,
        ) + timing_lines(s.offset, s.duration),
        Phrase::Detailed(d) => line("RecognitionStatus"@, d.recognition_status@) + timing_lines(
            d.offset,
            d.duration,
        ) + "NBest\n========\n"@,
        Phrase::Silence(s) => line("RecognitionStatus"@, s.recognition_status@) + timing_lines(
            s.offset,
            s.duration,
        ),
        Phrase::Unknown => line("RecognitionStatus"@, "Unknown"@),
    }
}

impl Hypothesis {
    /// The hypothesis printed as `Text: …`, `Offset: …`, `Duration: …` lines.
    pub fn describe(&self) -> (r: String)
        ensures
            r@ == hypothesis_text(*self),
    {
        let mut out = String::new();
        push_line(&mut out, "Text", self.text.as_str());
        push_line(&mut out, "Offset", decimal_text(self.offset).as_str());
        push_line(&mut out, "Duration", decimal_text(self.duration).as_str());
        assert(out@ =~= hypothesis_text(*self));
        out
    }
}

impl Phrase {
    /// The phrase printed one field per line; a detailed phrase lists its
    /// alternatives after an `NBest` heading, each numbered from 0.
    pub fn describe(&self) -> (r: String)
        ensures
            !(*self is Detailed) ==> r@ == phrase_text_head(*self),
            *self is Detailed ==> r@.len() >= phrase_text_head(*self).len() && r@.take(
                phrase_text_head(*self).len() as int,
            ) == phrase_text_head(*self),
    {
        let mut out = String::new();
        match self {
            Phrase::Simple(s) => {
                push_line(&mut out, "RecognitionStatus", s.recognition_status.as_str());
                push_line(&mut out, "DisplayText", s.display_text.as_str());
                push_line(&mut out, "Offset", decimal_text(s.offset).as_str());
                push_line(&mut out, "Duration", decimal_text(s.duration).as_str());
            },
            Phrase::Detailed(d) => {
                push_line(&mut out, "RecognitionStatus", d.recognition_status.as_str());
                push_line(&mut out, "Offset", decimal_text(d.offset).as_str());
                push_line(&mut out, "Duration", decimal_text(d.duration).as_str());
                out.append("NBest\n========\n");
                let ghost head = out@;
                assert(head =~= phrase_text_head(*self));
                let mut i: usize = 0;
                while i < d.nbest.len()
                    invariant
                        i <= d.nbest.len(),
                        out@.len() >= head.len(),
                        out@.take(head.len() as int) == head,
                    decreases d.nbest.len() - i,
                {
                    let ghost before = out@;
                    let item = &d.nbest[i];
                    out.append("#");
                    out.append(decimal_text(i as u64).as_str());
                    out.append("\n--------\n");
                    push_line(&mut out, "    Confidence", number_text(&item.confidence).as_str());
                    push_line(&mut out, "    Lexical", item.lexical.as_str());
                    push_line(&mut out, "    ITN", item.itn.as_str());
                    push_line(&mut out, "    MaskedITN", item.masked_itn.as_str());
                    push_line(&mut out, "    Display", item.display.as_str());
                    assert(out@.take(head.len() as int) =~= before.take(head.len() as int));
                    i += 1;
                }
                return out;
            },
            Phrase::Silence(s) => {
                push_line(&mut out, "RecognitionStatus", s.recognition_status.as_str());
                push_line(&mut out, "Offset", decimal_text(s.offset).as_str());
                push_line(&mut out, "Duration", decimal_text(s.duration).as_str());
            },
            Phrase::Unknown => {
                push_line(&mut out, "RecognitionStatus", "Unknown");
            },
        }
        assert(out@ =~= phrase_text_head(*self));
        out
    }
}

} // verus!
