use vstd::prelude::*;

use crate::classify::{classify_request, spec_classify, InboundError};
use crate::model::{HttpReply, HttpReplySpec, InboundFields, ReplyBody, ReplyBodySpec,
    UpstreamPayload};
use crate::payload::{build_payload, payload_for};

verus! {

/// The error text when no upstream credential is configured.
pub open spec fn missing_key_text() -> Seq<char> {
    "API key not found"@
}

/// The error text each rejection of the inbound request earns.
pub open spec fn inbound_error_text(e: InboundError) -> Seq<char> {
    match e {
        InboundError::NoValidInput => "No valid input provided"@,
        InboundError::BlankMessage => "Message is empty or whitespace-only"@,
        InboundError::BlankPrompt => "Prompt is empty or whitespace-only"@,
    }
}

/// Decide everything that precedes the single upstream call: with no
/// credential configured the request fails with 500 and upstream is never
/// contacted; an inbound request that resolves to no valid shape fails with
/// 400 and upstream is never contacted; otherwise the one payload to send is
/// built. A payload is returned exactly when a call is owed.
pub fn prepare_request(api_key_present: bool, fields: InboundFields) -> (r: Result<
    UpstreamPayload,
    HttpReply,
>)
    ensures
        !api_key_present ==> (match r {
            Err(rep) => rep@ == (HttpReplySpec {
                status: 500,
                body: ReplyBodySpec::Error(missing_key_text()),
            }),
            Ok(_) => false,
        }),
        api_key_present ==> (match spec_classify(fields) {
            Err(e) => match r {
                Err(rep) => rep@ == (HttpReplySpec {
                    status: 400,
                    body: ReplyBodySpec::Error(inbound_error_text(e)),
                }),
                Ok(_) => false,
            },
            Ok(req) => match r {
                Ok(p) => payload_for(req, p),
                Err(_) => false,
            },
        }),
{
    if !api_key_present {
        return Err(HttpReply {
            status: 500,
            body: ReplyBody::Error("API key not found".to_owned()),
        });
    }
    match classify_request(fields) {
        Err(e) => {
            let text = match e {
                InboundError::NoValidInput => "No valid input provided".to_owned(),
                InboundError::BlankMessage => "Message is empty or whitespace-only".to_owned(),
                InboundError::BlankPrompt => "Prompt is empty or whitespace-only".to_owned(),
            };
            Err(HttpReply { status: 400, body: ReplyBody::Error(text) })
        },
        Ok(req) => Ok(build_payload(req)),
    }
}

} // verus!
