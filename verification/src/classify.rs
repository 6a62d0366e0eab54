use vstd::prelude::*;

use crate::jsontext::{spec_trim, trim_str};
use crate::model::{InboundFields, InboundRequest};

verus! {

/// Why an inbound request was rejected before any upstream call.
#[derive(Debug, Clone, Copy, PartialEq, Eq, Structural)]
pub enum InboundError {
    /// Neither `prompt`, `message` nor `messages` was supplied.
    NoValidInput,
    /// `message` was supplied but is empty or whitespace-only.
    BlankMessage,
    /// `prompt` was supplied but is empty or whitespace-only.
    BlankPrompt,
}

/// The shape an inbound request resolves to, or the rejection it earns.
/// `message` takes precedence over `messages`, which takes precedence over
/// `prompt`; an image field turns a `message` into a vision prompt, a URL
/// winning over a base64 string when both are present.
pub open spec fn spec_classify(fields: InboundFields) -> Result<InboundRequest, InboundError> {
    match fields.message {
        Some(m) => if spec_trim(m@).len() == 0 {
            Err(InboundError::BlankMessage)
        } else {
            match fields.image_url {
                Some(u) => Ok(InboundRequest::VisionPrompt { message: m, image: u }),
                None => match fields.image_base64 {
                    Some(b) => Ok(InboundRequest::VisionPrompt { message: m, image: b }),
                    None => Ok(InboundRequest::SingleMessage(m)),
                },
            }
        },
        None => match fields.messages {
            Some(msgs) => Ok(InboundRequest::History(msgs)),
            None => match fields.prompt {
                Some(p) => if spec_trim(p@).len() == 0 {
                    Err(InboundError::BlankPrompt)
                } else {
                    Ok(InboundRequest::TextPrompt(p))
                },
                None => Err(InboundError::NoValidInput),
            },
        },
    }
}

/// Resolve the supplied fields to one request shape, or reject them.
pub fn classify_request(fields: InboundFields) -> (r: Result<InboundRequest, InboundError>)
    ensures
        r == spec_classify(fields),
{
    let InboundFields { prompt, message, image_url, image_base64, messages } = fields;
    match message {
        Some(m) => {
            let trimmed = trim_str(m.as_str());
            if trimmed.as_str().is_empty() {
                Err(InboundError::BlankMessage)
            } else {
                match image_url {
                    Some(u) => Ok(InboundRequest::VisionPrompt { message: m, image: u }),
                    None => match image_base64 {
                        Some(b) => Ok(InboundRequest::VisionPrompt { message: m, image: b }),
                        None => Ok(InboundRequest::SingleMessage(m)),
                    },
                }
            }
        },
        None => match messages {
            Some(msgs) => Ok(InboundRequest::History(msgs)),
            None => match prompt {
                Some(p) => {
                    let trimmed = trim_str(p.as_str());
                    if trimmed.as_str().is_empty() {
                        Err(InboundError::BlankPrompt)
                    } else {
                        Ok(InboundRequest::TextPrompt(p))
                    }
                },
                None => Err(InboundError::NoValidInput),
            },
        },
    }
}

} // verus!
