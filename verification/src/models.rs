//! The request and response records of the OpenAI chat API that the gateway
//! reads and writes, and the constructors that fill them in.

use vstd::prelude::*;

verus! {

/// One message of a chat: who speaks, and what is said.
pub struct ChatMessage {
    pub role: String,
    pub content: String,
}

/// The incremental part of a streamed answer.
pub struct ChoiceDelta {
    pub role: Option<String>,
    pub content: Option<String>,
}

/// One choice of a streamed chunk.
pub struct ChunkChoice {
    pub index: u32,
    pub delta: ChoiceDelta,
    pub finish_reason: Option<String>,
}

/// One server-sent event of a streamed answer (`chat.completion.chunk`).
pub struct ChatResponseChunk {
    pub id: String,
    pub object: String,
    pub created: u64,
    pub model: String,
    pub choices: Vec<ChunkChoice>,
}

/// One choice of a complete answer.
pub struct ResponseChoice {
    pub index: u32,
    pub message: ChatMessage,
    pub finish_reason: Option<String>,
}

/// Token accounting of a complete answer.
pub struct Usage {
    pub prompt_tokens: u32,
    pub completion_tokens: u32,
    pub total_tokens: u32,
}

/// A complete, non-streamed answer (`chat.completion`).
pub struct ChatResponse {
    pub id: String,
    pub object: String,
    pub created: u64,
    pub model: String,
    pub choices: Vec<ResponseChoice>,
    pub usage: Option<Usage>,
}

/// One entry of the model list served at `/v1/models`.
pub struct ModelEntry {
    pub id: String,
    pub object: String,
    pub created: u64,
    pub owned_by: String,
}

/// The identifier every answer carries.
pub open spec fn completion_id() -> Seq<char> {
    "chatcmpl-gemini"@
}

/// The streamed chunk that carries the text `text` for `model`, made at `created`.
pub fn token_chunk(model: &str, created: u64, text: String) -> (r: ChatResponseChunk)
    ensures
        r.id@ == completion_id(),
        r.object@ == "chat.completion.chunk"@,
        r.created == created,
        r.model@ == model@,
        r.choices@.len() == 1,
        r.choices@[0].index == 0,
        r.choices@[0].delta.role.is_none(),
        r.choices@[0].delta.content == Some(text),
        r.choices@[0].finish_reason.is_none(),
{
    let mut choices: Vec<ChunkChoice> = Vec::new();
    choices.push(
        ChunkChoice {
            index: 0,
            delta: ChoiceDelta { role: None, content: Some(text) },
            finish_reason: None,
        },
    );
    ChatResponseChunk {
        id: "chatcmpl-gemini".to_owned(),
        object: "chat.completion.chunk".to_owned(),
        created,
        model: model.to_owned(),
        choices,
    }
}

/// The complete answer that carries the text `text` for `model`, made at `created`.
pub fn completion_response(model: &str, created: u64, text: String) -> (r: ChatResponse)
    ensures
        r.id@ == completion_id(),
        r.object@ == "chat.completion"@,
        r.created == created,
        r.model@ == model@,
        r.choices@.len() == 1,
        r.choices@[0].index == 0,
        r.choices@[0].message.role@ == "assistant"@,
        r.choices@[0].message.content == text,
        r.choices@[0].finish_reason matches Some(f) && f@ == "stop"@,
        r.usage matches Some(u) && u.prompt_tokens == 0 && u.completion_tokens == 0
            && u.total_tokens == 0,
{
    let mut choices: Vec<ResponseChoice> = Vec::new();
    choices.push(
        ResponseChoice {
            index: 0,
            message: ChatMessage { role: "assistant".to_owned(), content: text },
            finish_reason: Some("stop".to_owned()),
        },
    );
    ChatResponse {
        id: "chatcmpl-gemini".to_owned(),
        object: "chat.completion".to_owned(),
        created,
        model: model.to_owned(),
        choices,
        usage: Some(Usage { prompt_tokens: 0, completion_tokens: 0, total_tokens: 0 }),
    }
}

} // verus!
