use vstd::prelude::*;

verus! {

/// One part of a multimodal message: plain text, or a reference to an image
/// (an http(s) URL or a base64 data string, both carried as text).
#[derive(Debug, Clone, PartialEq, Eq)]
pub enum ContentPart {
    Text(String),
    ImageUrl(String),
}

/// The content of one chat message: a plain string, a list of multimodal
/// parts, or raw JSON text that is carried through unchanged.
#[derive(Debug, Clone, PartialEq, Eq)]
pub enum MessageContent {
    Text(String),
    Parts(Vec<ContentPart>),
    Raw(String),
}

/// One chat message: a role ("system", "user", "assistant") and its content.
#[derive(Debug, Clone, PartialEq, Eq)]
pub struct ChatMessage {
    pub role: String,
    pub content: MessageContent,
}

/// The optional fields a caller may supply in the inbound request body.
#[derive(Debug, Clone, PartialEq, Eq)]
pub struct InboundFields {
    pub prompt: Option<String>,
    pub message: Option<String>,
    pub image_url: Option<String>,
    pub image_base64: Option<String>,
    pub messages: Option<Vec<ChatMessage>>,
}

/// An inbound request resolved to one of its mutually exclusive shapes.
#[derive(Debug, Clone, PartialEq, Eq)]
pub enum InboundRequest {
    /// A bare prompt, to be wrapped with the fixed system instruction.
    TextPrompt(String),
    /// A single message together with an image reference.
    VisionPrompt { message: String, image: String },
    /// A single text message on its own.
    SingleMessage(String),
    /// A full conversation history, passed through unchanged.
    History(Vec<ChatMessage>),
}

/// How the model's reply is interpreted: `Lenient` accepts any text as a
/// successful reply; `Strict` accepts only a JSON array of actions.
#[derive(Debug, Clone, Copy, PartialEq, Eq)]
pub enum ReplyMode {
    Lenient,
    Strict,
}

/// The body sent to the upstream chat-completion endpoint. The sampling
/// temperature is held in tenths (5 stands for 0.5) so that the library
/// carries no floating-point value.
#[derive(Debug, Clone, PartialEq, Eq)]
pub struct UpstreamPayload {
    pub model: String,
    pub messages: Vec<ChatMessage>,
    pub temperature_tenths: u32,
    pub max_tokens: u32,
}

/// What came back from the single outbound call: a transport failure
/// (connect, DNS, timeout) with its description, or an HTTP response with
/// its status and body text.
#[derive(Debug, Clone, PartialEq, Eq)]
pub enum UpstreamOutcome {
    Transport(String),
    Http { status: u16, body: String },
}

/// The body of the relay's reply to its caller.
#[derive(Debug, Clone, PartialEq, Eq)]
pub enum ReplyBody {
    /// A successful plain-text reply (lenient mode).
    Reply(String),
    /// A successful action list: the text of a JSON array (strict mode).
    Actions(String),
    /// A failure description.
    Error(String),
}

/// The relay's reply: an HTTP status code and a body.
#[derive(Debug, Clone, PartialEq, Eq)]
pub struct HttpReply {
    pub status: u16,
    pub body: ReplyBody,
}

/// Mathematical model of `UpstreamOutcome`, with text as `Seq<char>`.
#[verifier::ext_equal]
pub enum UpstreamOutcomeSpec {
    Transport(Seq<char>),
    Http { status: u16, body: Seq<char> },
}

/// Mathematical model of `ReplyBody`.
#[verifier::ext_equal]
pub enum ReplyBodySpec {
    Reply(Seq<char>),
    Actions(Seq<char>),
    Error(Seq<char>),
}

/// Mathematical model of `HttpReply`.
#[verifier::ext_equal]
pub struct HttpReplySpec {
    pub status: u16,
    pub body: ReplyBodySpec,
}

impl View for UpstreamOutcome {
    type V = UpstreamOutcomeSpec;

    open spec fn view(&self) -> UpstreamOutcomeSpec {
        match self {
            UpstreamOutcome::Transport(e) => UpstreamOutcomeSpec::Transport(e@),
            UpstreamOutcome::Http { status, body } => UpstreamOutcomeSpec::Http {
                status: *status,
                body: body@,
            },
        }
    }
}

impl View for ReplyBody {
    type V = ReplyBodySpec;

    open spec fn view(&self) -> ReplyBodySpec {
        match self {
            ReplyBody::Reply(s) => ReplyBodySpec::Reply(s@),
            ReplyBody::Actions(s) => ReplyBodySpec::Actions(s@),
            ReplyBody::Error(s) => ReplyBodySpec::Error(s@),
        }
    }
}

impl View for HttpReply {
    type V = HttpReplySpec;

    open spec fn view(&self) -> HttpReplySpec {
        HttpReplySpec { status: self.status, body: self.body@ }
    }
}

} // verus!
