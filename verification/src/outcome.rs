use vstd::prelude::*;
use vstd::string::StringExecFns;

use crate::jsontext::{
    classify_json_shape, extract_upstream_content, json_shape_of, spec_trim, trim_str,
    upstream_extract_of, Extraction, ExtractionSpec, JsonShape,
};
use crate::model::{HttpReply, HttpReplySpec, ReplyBody, ReplyBodySpec, ReplyMode, UpstreamOutcome,
    UpstreamOutcomeSpec};
use crate::numtext::{spec_decimal, u16_to_string};

verus! {

/// Whether an HTTP status code counts as success.
pub open spec fn spec_success_status(status: u16) -> bool {
    200 <= status < 300
}

/// The error text for a transport failure.
pub open spec fn transport_error_text(e: Seq<char>) -> Seq<char> {
    "Groq API failed: "@ + e
}

/// The error text for a non-success upstream status: it carries both the
/// status code and the upstream body.
pub open spec fn upstream_error_text(status: u16, body: Seq<char>) -> Seq<char> {
    "Groq API returned an error: "@ + spec_decimal(status as int) + " - "@ + body
}

/// The error text when the upstream body is not the expected JSON.
pub open spec fn parse_error_text() -> Seq<char> {
    "Failed to parse API response"@
}

/// The error text when the upstream JSON has no first choice.
pub open spec fn no_choices_text() -> Seq<char> {
    "No choices found in API response"@
}

/// The error text when, in strict mode, the model's reply is JSON but not an
/// array.
pub open spec fn not_array_text() -> Seq<char> {
    "Model reply is valid JSON but not a JSON array"@
}

/// The error text when, in strict mode, the model's reply is not valid JSON.
pub open spec fn not_json_text() -> Seq<char> {
    "Model reply is invalid JSON; expected a JSON array"@
}

/// The full decision table for the upstream outcome: transport failure gives
/// 504; a non-success status is propagated with an error naming it and the
/// body; a success body is searched for `choices[0].message.content`, whose
/// trimmed text is the reply in lenient mode and, in strict mode, is accepted
/// only when it is the text of a JSON array.
pub open spec fn spec_map_outcome(outcome: UpstreamOutcomeSpec, mode: ReplyMode) -> HttpReplySpec {
    match outcome {
        UpstreamOutcomeSpec::Transport(e) => HttpReplySpec {
            status: 504,
            body: ReplyBodySpec::Error(transport_error_text(e)),
        },
        UpstreamOutcomeSpec::Http { status, body } => if !spec_success_status(status) {
            HttpReplySpec { status, body: ReplyBodySpec::Error(upstream_error_text(status, body)) }
        } else {
            match upstream_extract_of(body) {
                ExtractionSpec::Malformed => HttpReplySpec {
                    status: 500,
                    body: ReplyBodySpec::Error(parse_error_text()),
                },
                ExtractionSpec::NoChoices => HttpReplySpec {
                    status: 500,
                    body: ReplyBodySpec::Error(no_choices_text()),
                },
                ExtractionSpec::Content(c) => {
                    let t = spec_trim(c);
                    match mode {
                        ReplyMode::Lenient => HttpReplySpec {
                            status: 200,
                            body: ReplyBodySpec::Reply(t),
                        },
                        ReplyMode::Strict => match json_shape_of(t) {
                            JsonShape::IsArray => HttpReplySpec {
                                status: 200,
                                body: ReplyBodySpec::Actions(t),
                            },
                            JsonShape::NotArray => HttpReplySpec {
                                status: 422,
                                body: ReplyBodySpec::Error(not_array_text()),
                            },
                            JsonShape::NotJson => HttpReplySpec {
                                status: 422,
                                body: ReplyBodySpec::Error(not_json_text()),
                            },
                        },
                    }
                },
            }
        },
    }
}

/// Map what came back from the single upstream call to the relay's reply,
/// exactly as `spec_map_outcome` lays the table out.
pub fn map_upstream_outcome(outcome: UpstreamOutcome, mode: ReplyMode) -> (r: HttpReply)
    ensures
        r@ == spec_map_outcome(outcome@, mode),
{
    match outcome {
        UpstreamOutcome::Transport(e) => {
            let text = "Groq API failed: ".to_owned().concat(e.as_str());
            HttpReply { status: 504, body: ReplyBody::Error(text) }
        },
        UpstreamOutcome::Http { status, body } => {
            if status < 200 || status >= 300 {
                let digits = u16_to_string(status);
                let text = "Groq API returned an error: "
                    .to_owned()
                    .concat(digits.as_str())
                    .concat(" - ")
                    .concat(body.as_str());
                proof {
                    assert(text@ =~= upstream_error_text(status, body@));
                }
                HttpReply { status, body: ReplyBody::Error(text) }
            } else {
                match extract_upstream_content(body.as_str()) {
                    Extraction::Malformed => HttpReply {
                        status: 500,
                        body: ReplyBody::Error("Failed to parse API response".to_owned()),
                    },
                    Extraction::NoChoices => HttpReply {
                        status: 500,
                        body: ReplyBody::Error("No choices found in API response".to_owned()),
                    },
                    Extraction::Content(c) => {
                        let t = trim_str(c.as_str());
                        match mode {
                            ReplyMode::Lenient => HttpReply {
                                status: 200,
                                body: ReplyBody::Reply(t),
                            },
                            ReplyMode::Strict => match classify_json_shape(t.as_str()) {
                                JsonShape::IsArray => HttpReply {
                                    status: 200,
                                    body: ReplyBody::Actions(t),
                                },
                                JsonShape::NotArray => HttpReply {
                                    status: 422,
                                    body: ReplyBody::Error(
                                        "Model reply is valid JSON but not a JSON array".to_owned(),
                                    ),
                                },
                                JsonShape::NotJson => HttpReply {
                                    status: 422,
                                    body: ReplyBody::Error(
                                        "Model reply is invalid JSON; expected a JSON array"
                                            .to_owned(),
                                    ),
                                },
                            },
                        }
                    },
                }
            }
        },
    }
}

} // verus!
