use vstd::prelude::*;

verus! {

/// What removing leading and trailing whitespace leaves of `s`.
pub uninterp spec fn spec_trim(s: Seq<char>) -> Seq<char>;

/// Relies on str::trim: which substring is left after removing leading and
/// trailing whitespace depends on the characters alone.
#[verifier::external_body]
pub(crate) fn trim_str(s: &str) -> (r: String)
    ensures
        r@ == spec_trim(s@),
{
    s.trim().to_string()
}

/// Whether a text is not JSON at all, a JSON value other than an array,
/// or a JSON array.
#[derive(Debug, Clone, Copy, PartialEq, Eq, Structural)]
pub enum JsonShape {
    NotJson,
    NotArray,
    IsArray,
}

/// The shape of `s` as JSON text: whether it parses, and whether the parsed
/// value is an array.
pub uninterp spec fn json_shape_of(s: Seq<char>) -> JsonShape;

/// Relies on serde_json::from_str::<serde_json::Value>: whether the text
/// parses as JSON, and which kind of value it parses to, depend on the
/// characters alone.
#[verifier::external_body]
pub(crate) fn classify_json_shape(s: &str) -> (r: JsonShape)
    ensures
        r == json_shape_of(s@),
{
    match serde_json::from_str::<serde_json::Value>(s) {
        Ok(serde_json::Value::Array(_)) => JsonShape::IsArray,
        Ok(_) => JsonShape::NotArray,
        Err(_) => JsonShape::NotJson,
    }
}

/// What was found at `choices[0].message.content` of an upstream body.
#[derive(Debug, Clone, PartialEq, Eq)]
pub enum Extraction {
    /// The body is not JSON, `choices` is missing or not an array, or the
    /// first choice has no string at `message.content`.
    Malformed,
    /// The body is JSON with a `choices` array, but that array is empty.
    NoChoices,
    /// The string at `choices[0].message.content`.
    Content(String),
}

/// Mathematical model of `Extraction`.
#[verifier::ext_equal]
pub enum ExtractionSpec {
    Malformed,
    NoChoices,
    Content(Seq<char>),
}

impl View for Extraction {
    type V = ExtractionSpec;

    open spec fn view(&self) -> ExtractionSpec {
        match self {
            Extraction::Malformed => ExtractionSpec::Malformed,
            Extraction::NoChoices => ExtractionSpec::NoChoices,
            Extraction::Content(s) => ExtractionSpec::Content(s@),
        }
    }
}

/// What extraction of `choices[0].message.content` yields on the body text:
/// a pure function of the characters.
pub uninterp spec fn upstream_extract_of(body: Seq<char>) -> ExtractionSpec;

/// Relies on serde_json::from_str::<serde_json::Value>, serde_json::Value::get,
/// serde_json::Value::as_array and serde_json::Value::as_str: which string (if
/// any) sits at `choices[0].message.content` of the parsed body depends on the
/// characters alone.
#[verifier::external_body]
pub(crate) fn extract_upstream_content(body: &str) -> (r: Extraction)
    ensures
        r@ == upstream_extract_of(body@),
{
    let v: serde_json::Value = match serde_json::from_str(body) {
        Ok(v) => v,
        Err(_) => return Extraction::Malformed,
    };
    let choices = match v.get("choices").and_then(|c| c.as_array()) {
        Some(c) => c,
        None => return Extraction::Malformed,
    };
    match choices.first().map(|f| f.get("message").and_then(|m| m.get("content")).and_then(|c| c.as_str())) {
        None => Extraction::NoChoices,
        Some(Some(s)) => Extraction::Content(s.to_string()),
        Some(None) => Extraction::Malformed,
    }
}

} // verus!
