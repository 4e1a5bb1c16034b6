//! The records the request/response layer exchanges: server description,
//! tool results, resources and prompts.
use vstd::prelude::*;

verus! {

#[derive(Debug)]
pub struct ServerInfo {
    pub name: String,
    pub version: String,
}

#[derive(Debug)]
pub struct ServerCapabilities {
    pub tools: Option<ToolsCapability>,
    pub resources: Option<ResourcesCapability>,
    pub prompts: Option<PromptsCapability>,
}

#[derive(Debug)]
pub struct ToolsCapability {}

#[derive(Debug)]
pub struct ResourcesCapability {}

#[derive(Debug)]
pub struct PromptsCapability {}

#[derive(Debug)]
pub struct InitializeResult {
    pub protocol_version: String,
    pub capabilities: ServerCapabilities,
    pub server_info: ServerInfo,
}

#[derive(Debug)]
pub struct ToolCallResult {
    pub content: Vec<ContentBlock>,
    pub is_error: Option<bool>,
}

#[derive(Debug)]
pub struct ResourceDefinition {
    pub uri: String,
    pub name: String,
    pub description: String,
    pub mime_type: String,
}

#[derive(Debug)]
pub struct ResourcesListResult {
    pub resources: Vec<ResourceDefinition>,
}

#[derive(Debug)]
pub struct ResourceReadParams {
    pub uri: String,
}

#[derive(Debug)]
pub struct ResourceReadResult {
    pub contents: Vec<ResourceContent>,
}

#[derive(Debug)]
pub struct ResourceContent {
    pub uri: String,
    pub mime_type: String,
    pub text: String,
}

#[derive(Debug)]
pub struct PromptDefinition {
    pub name: String,
    pub description: String,
    pub arguments: Vec<PromptArgument>,
}

#[derive(Debug)]
pub struct PromptArgument {
    pub name: String,
    pub description: String,
    pub required: bool,
}

#[derive(Debug)]
pub struct PromptsListResult {
    pub prompts: Vec<PromptDefinition>,
}

#[derive(Debug)]
pub struct PromptGetResult {
    pub description: String,
    pub messages: Vec<PromptMessage>,
}

#[derive(Debug)]
pub struct PromptMessage {
    pub role: String,
    pub content: ContentBlock,
}

#[derive(Debug)]
pub enum ContentBlock {
    Text { text: String },
}

impl ContentBlock {
    pub open spec fn text_of(&self) -> Seq<char> {
        match self {
            ContentBlock::Text { text } => text@,
        }
    }
}

/// A successful tool result carrying `text`.
pub fn text_result(text: String) -> (r: ToolCallResult)
    ensures
        r.content@.len() == 1,
        r.content@[0].text_of() == text@,
        r.is_error is None,
{
    ToolCallResult { content: vec![ContentBlock::Text { text }], is_error: None }
}

/// A failed tool result carrying the message `msg`.
pub fn error_result(msg: String) -> (r: ToolCallResult)
    ensures
        r.content@.len() == 1,
        r.content@[0].text_of() == msg@,
        r.is_error == Some(true),
{
    ToolCallResult { content: vec![ContentBlock::Text { text: msg }], is_error: Some(true) }
}

} // verus!
