//! The failure taxonomy of the bridge, and its mapping onto the
//! protocol-level error object.
//!
//! Validation and configuration failures are detected before any
//! downstream call; downstream failures are re-labeled at the adapter
//! boundary. Every error carries a human-readable message that embeds the
//! underlying cause text.

use vstd::prelude::*;

verus! {

/// Why a tool invocation failed before, during, or after its downstream
/// call.
#[derive(Debug)]
pub enum BridgeError {
    /// The argument object did not match the tool's schema; carries the
    /// name of the first field that failed.
    InvalidArguments { field: String },
    /// The requested tool name is not in the server's registry.
    ToolNotFound { name: String },
    /// No connection configuration was set when a handler needed one.
    ConfigurationMissing,
    /// The downstream HTTP call failed at the network level.
    DownstreamUnreachable { cause: String },
    /// The downstream response body did not match the expected shape.
    DownstreamParseError { cause: String },
    /// A success envelope carried no content where one item was expected.
    ProtocolEnvelopeEmpty,
}

/// The protocol-level error object: a stable machine-readable code and a
/// human-readable message.
#[derive(Debug)]
pub struct ToolError {
    pub code: String,
    pub message: String,
}

/// The human-readable message each failure carries: a distinct text per
/// case, with the underlying cause embedded verbatim.
pub open spec fn message_of(e: BridgeError) -> Seq<char> {
    match e {
        BridgeError::InvalidArguments { field } => "Invalid arguments: required field is missing or has the wrong type: "@
            + field@,
        BridgeError::ToolNotFound { name } => "Tool not found: "@ + name@,
        BridgeError::ConfigurationMissing => "Connection config not found"@,
        BridgeError::DownstreamUnreachable { cause } => "Failed to reach the downstream service: "@
            + cause@,
        BridgeError::DownstreamParseError { cause } => "Failed to parse the downstream response: "@
            + cause@,
        BridgeError::ProtocolEnvelopeEmpty => "Success envelope carried no content"@,
    }
}

impl BridgeError {
    /// The human-readable message of this failure.
    pub fn message(&self) -> (r: String)
        ensures
            r@ == message_of(*self),
    {
        match self {
            BridgeError::InvalidArguments { field } => String::from_str(
                "Invalid arguments: required field is missing or has the wrong type: ",
            ).concat(field.as_str()),
            BridgeError::ToolNotFound { name } => String::from_str("Tool not found: ").concat(
                name.as_str(),
            ),
            BridgeError::ConfigurationMissing => String::from_str("Connection config not found"),
            BridgeError::DownstreamUnreachable { cause } => String::from_str(
                "Failed to reach the downstream service: ",
            ).concat(cause.as_str()),
            BridgeError::DownstreamParseError { cause } => String::from_str(
                "Failed to parse the downstream response: ",
            ).concat(cause.as_str()),
            BridgeError::ProtocolEnvelopeEmpty => String::from_str(
                "Success envelope carried no content",
            ),
        }
    }

    /// The protocol error object for this failure: one uniform
    /// machine-readable code, with the case-specific message.
    pub fn to_protocol_error(&self) -> (r: ToolError)
        ensures
            r.code@ == "INTERNAL_ERROR"@,
            r.message@ == message_of(*self),
    {
        ToolError { code: String::from_str("INTERNAL_ERROR"), message: self.message() }
    }
}

} // verus!
