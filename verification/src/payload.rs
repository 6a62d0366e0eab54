use vstd::prelude::*;

use crate::model::{ChatMessage, ContentPart, InboundRequest, MessageContent, UpstreamPayload};

verus! {

/// The model identifier used for plain text requests.
pub open spec fn text_model_spec() -> Seq<char> {
    "deepseek-r1-distill-llama-70b"@
}

/// The model identifier used when an image is attached.
pub open spec fn vision_model_spec() -> Seq<char> {
    "meta-llama/llama-4-scout-17b-16e-instruct"@
}

/// The fixed system instruction prepended to a bare prompt: it directs the
/// model to answer with a JSON array of spreadsheet cell edits.
pub open spec fn system_instruction_spec() -> Seq<char> {
    "You are a spreadsheet assistant. Respond only with a JSON array of cell edit actions, each an object with a \"cell\" field and a \"value\" field."@
}

/// The model identifier used for plain text requests.
pub fn text_model() -> (r: String)
    ensures
        r@ == text_model_spec(),
{
    "deepseek-r1-distill-llama-70b".to_owned()
}

/// The model identifier used when an image is attached.
pub fn vision_model() -> (r: String)
    ensures
        r@ == vision_model_spec(),
{
    "meta-llama/llama-4-scout-17b-16e-instruct".to_owned()
}

/// The fixed system instruction prepended to a bare prompt.
pub fn system_instruction() -> (r: String)
    ensures
        r@ == system_instruction_spec(),
{
    "You are a spreadsheet assistant. Respond only with a JSON array of cell edit actions, each an object with a \"cell\" field and a \"value\" field.".to_owned()
}

/// Exactly which upstream payload a resolved request earns: the model
/// selected by shape, the message list built from the request, and the fixed
/// sampling settings.
pub open spec fn payload_for(req: InboundRequest, p: UpstreamPayload) -> bool {
    &&& p.temperature_tenths == 5u32
    &&& p.max_tokens == 1024u32
    &&& match req {
        InboundRequest::TextPrompt(prompt) => {
            &&& p.model@ == text_model_spec()
            &&& p.messages@.len() == 2
            &&& p.messages@[0].role@ == "system"@
            &&& match p.messages@[0].content {
                MessageContent::Text(t) => t@ == system_instruction_spec(),
                _ => false,
            }
            &&& p.messages@[1].role@ == "user"@
            &&& p.messages@[1].content == MessageContent::Text(prompt)
        },
        InboundRequest::VisionPrompt { message, image } => {
            &&& p.model@ == vision_model_spec()
            &&& p.messages@.len() == 1
            &&& p.messages@[0].role@ == "user"@
            &&& match p.messages@[0].content {
                MessageContent::Parts(parts) => {
                    &&& parts@.len() == 2
                    &&& parts@[0] == ContentPart::Text(message)
                    &&& parts@[1] == ContentPart::ImageUrl(image)
                },
                _ => false,
            }
        },
        InboundRequest::SingleMessage(m) => {
            &&& p.model@ == text_model_spec()
            &&& p.messages@.len() == 1
            &&& p.messages@[0].role@ == "user"@
            &&& p.messages@[0].content == MessageContent::Text(m)
        },
        InboundRequest::History(msgs) => {
            &&& p.model@ == text_model_spec()
            &&& p.messages == msgs
        },
    }
}

/// Build the upstream payload for a resolved request: select the model by
/// shape, wrap a prompt with the system instruction, attach an image as a
/// two-part content array, and pass a history through unchanged.
pub fn build_payload(req: InboundRequest) -> (p: UpstreamPayload)
    ensures
        payload_for(req, p),
{
    match req {
        InboundRequest::TextPrompt(prompt) => {
            let mut messages: Vec<ChatMessage> = Vec::new();
            messages.push(ChatMessage {
                role: "system".to_owned(),
                content: MessageContent::Text(system_instruction()),
            });
            messages.push(ChatMessage {
                role: "user".to_owned(),
                content: MessageContent::Text(prompt),
            });
            UpstreamPayload {
                model: text_model(),
                messages,
                temperature_tenths: 5,
                max_tokens: 1024,
            }
        },
        InboundRequest::VisionPrompt { message, image } => {
            let mut parts: Vec<ContentPart> = Vec::new();
            parts.push(ContentPart::Text(message));
            parts.push(ContentPart::ImageUrl(image));
            let mut messages: Vec<ChatMessage> = Vec::new();
            messages.push(ChatMessage {
                role: "user".to_owned(),
                content: MessageContent::Parts(parts),
            });
            UpstreamPayload {
                model: vision_model(),
                messages,
                temperature_tenths: 5,
                max_tokens: 1024,
            }
        },
        InboundRequest::SingleMessage(m) => {
            let mut messages: Vec<ChatMessage> = Vec::new();
            messages.push(ChatMessage { role: "user".to_owned(), content: MessageContent::Text(m) });
            UpstreamPayload {
                model: text_model(),
                messages,
                temperature_tenths: 5,
                max_tokens: 1024,
            }
        },
        InboundRequest::History(msgs) => UpstreamPayload {
            model: text_model(),
            messages: msgs,
            temperature_tenths: 5,
            max_tokens: 1024,
        },
    }
}

} // verus!
