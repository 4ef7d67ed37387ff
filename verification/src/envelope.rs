//! The protocol's result envelope.
//!
//! A successful tool call carries an ordered list of content items, each
//! plain text or a structured value; a non-empty result has a well-defined
//! primary item, the first. A failed call carries the protocol error
//! object instead.

use vstd::prelude::*;

use crate::error::BridgeError;
use crate::json::JsonValue;

verus! {

/// One item of a tool result.
#[derive(Debug, PartialEq, Eq)]
pub enum ContentItem {
    Text(String),
    Json(JsonValue),
}

/// The ordered content of a successful tool call.
#[derive(Debug)]
pub struct ToolResult {
    pub content: Vec<ContentItem>,
}

impl ToolResult {
    /// A successful envelope holding exactly one structured content item.
    pub fn single(value: JsonValue) -> (r: ToolResult)
        ensures
            r.content@.len() == 1,
            r.content@[0] == ContentItem::Json(value),
    {
        let mut content: Vec<ContentItem> = Vec::new();
        content.push(ContentItem::Json(value));
        ToolResult { content }
    }

    /// An envelope with no content items.
    pub fn empty() -> (r: ToolResult)
        ensures
            r.content@.len() == 0,
    {
        ToolResult { content: Vec::new() }
    }

    /// The primary item of a non-empty result: the first.
    pub fn primary(&self) -> (r: Option<&ContentItem>)
        ensures
            r is None <==> self.content@.len() == 0,
            r matches Some(v) ==> *v == self.content@[0],
    {
        if self.content.len() == 0 {
            None
        } else {
            Some(&self.content[0])
        }
    }

    /// The primary item where one is owed: an empty envelope is the
    /// `ProtocolEnvelopeEmpty` failure, not an out-of-range access.
    pub fn primary_required(&self) -> (r: Result<&ContentItem, BridgeError>)
        ensures
            r matches Err(e) ==> e is ProtocolEnvelopeEmpty && self.content@.len() == 0,
            r matches Ok(v) ==> self.content@.len() > 0 && *v == self.content@[0],
    {
        match self.primary() {
            Some(v) => Ok(v),
            None => Err(BridgeError::ProtocolEnvelopeEmpty),
        }
    }
}

} // verus!
