use vstd::prelude::*;

use crate::classify::{spec_classify, InboundError};
use crate::jsontext::{json_shape_of, spec_trim, upstream_extract_of, ExtractionSpec, JsonShape};
use crate::model::{
    ChatMessage, HttpReplySpec, InboundFields, InboundRequest, MessageContent, ReplyBodySpec,
    ReplyMode, UpstreamOutcomeSpec, UpstreamPayload,
};
use crate::outcome::{
    spec_map_outcome, spec_success_status, transport_error_text, upstream_error_text,
};
use crate::payload::{payload_for, system_instruction_spec, text_model_spec};

verus! {

/// A non-blank bare prompt resolves to the prompt shape, and every payload
/// built for it carries exactly two messages: the fixed system instruction
/// first, the prompt as the user message second, under the text model.
pub proof fn lemma_prompt_payload(prompt: String, fields: InboundFields, p: UpstreamPayload)
    requires
        fields.message is None,
        fields.messages is None,
        fields.prompt == Some(prompt),
        spec_trim(prompt@).len() > 0,
        payload_for(InboundRequest::TextPrompt(prompt), p),
    ensures
        spec_classify(fields) == Ok::<InboundRequest, InboundError>(
            InboundRequest::TextPrompt(prompt),
        ),
        p.model@ == text_model_spec(),
        p.messages@.len() == 2,
        p.messages@[0].role@ == "system"@,
        (match p.messages@[0].content {
            MessageContent::Text(t) => t@ == system_instruction_spec(),
            _ => false,
        }),
        p.messages@[1].role@ == "user"@,
        p.messages@[1].content == MessageContent::Text(prompt),
{
}

/// A supplied conversation history resolves to the history shape, and every
/// payload built for it carries that message list unchanged, under the text
/// model.
pub proof fn lemma_history_passes_through(
    msgs: Vec<ChatMessage>,
    fields: InboundFields,
    p: UpstreamPayload,
)
    requires
        fields.message is None,
        fields.messages == Some(msgs),
        payload_for(InboundRequest::History(msgs), p),
    ensures
        spec_classify(fields) == Ok::<InboundRequest, InboundError>(InboundRequest::History(msgs)),
        p.messages == msgs,
        p.model@ == text_model_spec(),
{
}

/// With neither `prompt`, `message` nor `messages` supplied, classification
/// rejects the request: no shape is resolved, so no payload exists and no
/// upstream call is owed.
pub proof fn lemma_no_input_rejected(fields: InboundFields)
    requires
        fields.prompt is None,
        fields.message is None,
        fields.messages is None,
    ensures
        spec_classify(fields) == Err::<InboundRequest, InboundError>(InboundError::NoValidInput),
{
}

/// A non-success upstream status is propagated verbatim, and the error text
/// ends with the upstream body (its prefix naming the status).
pub proof fn lemma_upstream_error_propagates(status: u16, body: Seq<char>, mode: ReplyMode)
    requires
        !spec_success_status(status),
    ensures
        spec_map_outcome(UpstreamOutcomeSpec::Http { status, body }, mode) == (HttpReplySpec {
            status,
            body: ReplyBodySpec::Error(upstream_error_text(status, body)),
        }),
        upstream_error_text(status, body).subrange(
            upstream_error_text(status, body).len() - body.len(),
            upstream_error_text(status, body).len() as int,
        ) =~= body,
{
}

/// A transport failure (connect, DNS, timeout) always maps to 504 Gateway
/// Timeout, with an error text that ends with the failure's description.
pub proof fn lemma_transport_gives_gateway_timeout(e: Seq<char>, mode: ReplyMode)
    ensures
        spec_map_outcome(UpstreamOutcomeSpec::Transport(e), mode) == (HttpReplySpec {
            status: 504,
            body: ReplyBodySpec::Error(transport_error_text(e)),
        }),
        transport_error_text(e).subrange(
            transport_error_text(e).len() - e.len(),
            transport_error_text(e).len() as int,
        ) =~= e,
{
}

/// The intended asymmetry between the two reply modes, on a successful
/// upstream response whose content was extracted: lenient mode always
/// answers 200 with the trimmed text, while strict mode answers 200 exactly
/// when the trimmed text is a JSON array, and 422 otherwise.
pub proof fn lemma_mode_asymmetry(status: u16, body: Seq<char>, c: Seq<char>)
    requires
        spec_success_status(status),
        upstream_extract_of(body) == ExtractionSpec::Content(c),
    ensures
        spec_map_outcome(UpstreamOutcomeSpec::Http { status, body }, ReplyMode::Lenient)
            == (HttpReplySpec { status: 200, body: ReplyBodySpec::Reply(spec_trim(c)) }),
        spec_map_outcome(UpstreamOutcomeSpec::Http { status, body }, ReplyMode::Strict).status
            == 200 <==> json_shape_of(spec_trim(c)) is IsArray,
        !(json_shape_of(spec_trim(c)) is IsArray) ==> spec_map_outcome(
            UpstreamOutcomeSpec::Http { status, body },
            ReplyMode::Strict,
        ).status == 422,
{
}

} // verus!
