//! The star-count tool of the repository-hosting service: its typed
//! request and response shapes, their argument-object codecs, and the
//! client-side conversion from a result envelope.

use vstd::prelude::*;

use crate::envelope::{ContentItem, ToolResult};
use crate::error::{BridgeError, ToolError};
use crate::json::{get_field, lookup_field, JsonValue};
use crate::schema::{FieldKind, FieldSchema, ToolDescriptor};

verus! {

/// Arguments of the star-count tool.
#[derive(Debug, PartialEq, Eq)]
pub struct GetStarCountRequest {
    pub owner: String,
    pub repo: String,
}

/// Response of the star-count tool.
#[derive(Debug, Clone, Copy, PartialEq, Eq, Structural)]
pub struct GetStarCountResponse {
    pub count: u32,
}

/// Whether `name` is bound to a text value in `args`.
pub open spec fn text_bound(args: Seq<(String, JsonValue)>, name: Seq<char>) -> bool {
    lookup_field(args, name) matches Some(JsonValue::Text(_))
}

/// The typed request an argument object denotes, if it has both required
/// text fields.
pub open spec fn parsed_star_request(args: Seq<(String, JsonValue)>) -> Option<
    GetStarCountRequest,
> {
    match (lookup_field(args, "owner"@), lookup_field(args, "repo"@)) {
        (
            Some(JsonValue::Text(owner)),
            Some(JsonValue::Text(repo)),
        ) => Some(GetStarCountRequest { owner, repo }),
        _ => None,
    }
}

/// The typed response a structured content value denotes: an object whose
/// `count` field is an unsigned integer in range.
pub open spec fn parsed_star_response(v: JsonValue) -> Option<GetStarCountResponse> {
    match v {
        JsonValue::Object(fields) => match lookup_field(fields@, "count"@) {
            Some(JsonValue::Int(count)) => if 0 <= count <= u32::MAX {
                Some(GetStarCountResponse { count: count as u32 })
            } else {
                None
            },
            _ => None,
        },
        _ => None,
    }
}

impl GetStarCountRequest {
    /// The tool as the protocol lists it, with the per-field
    /// documentation surfaced to clients.
    pub fn descriptor() -> (r: ToolDescriptor)
        ensures
            r.name@ == "get_star_count"@,
            r.input_schema@.len() == 2,
            r.input_schema@[0].name@ == "owner"@,
            r.input_schema@[0].description@ == "The owner of the Github repository"@,
            r.input_schema@[0].kind == FieldKind::Text,
            r.input_schema@[0].required,
            r.input_schema@[1].name@ == "repo"@,
            r.input_schema@[1].description@ == "The name of the Github repository"@,
            r.input_schema@[1].kind == FieldKind::Text,
            r.input_schema@[1].required,
    {
        let mut input_schema: Vec<FieldSchema> = Vec::new();
        input_schema.push(
            FieldSchema {
                name: String::from_str("owner"),
                description: String::from_str("The owner of the Github repository"),
                kind: FieldKind::Text,
                required: true,
            },
        );
        input_schema.push(
            FieldSchema {
                name: String::from_str("repo"),
                description: String::from_str("The name of the Github repository"),
                kind: FieldKind::Text,
                required: true,
            },
        );
        ToolDescriptor {
            name: String::from_str("get_star_count"),
            description: String::from_str("Get the star count of a Github repository"),
            input_schema,
        }
    }

    /// Serializes this request into the untyped argument object the
    /// protocol carries.
    pub fn encode_arguments(&self) -> (args: Vec<(String, JsonValue)>)
        ensures
            parsed_star_request(args@) == Some(*self),
            args@.len() == 2,
            args@[0].0@ == "owner"@ && args@[0].1 == JsonValue::Text(self.owner),
            args@[1].0@ == "repo"@ && args@[1].1 == JsonValue::Text(self.repo),
    {
        let mut args: Vec<(String, JsonValue)> = Vec::new();
        args.push((String::from_str("owner"), JsonValue::Text(self.owner.clone())));
        args.push((String::from_str("repo"), JsonValue::Text(self.repo.clone())));
        proof {
            reveal_strlit("owner");
            reveal_strlit("repo");
            assert(args@.drop_first() =~= seq![args@[1]]);
            assert(args@[0].0@ == "owner"@);
            assert("owner"@.len() != "repo"@.len());
            assert(lookup_field(args@, "owner"@) == Some(args@[0].1));
            assert(lookup_field(args@, "repo"@) == lookup_field(args@.drop_first(), "repo"@));
            assert(lookup_field(args@.drop_first(), "repo"@) == Some(args@[1].1));
        }
        args
    }

    /// Deserializes an argument object against this tool's schema: both
    /// text fields must be present and type-correct, or the request is
    /// rejected naming the first field that failed — never defaulted.
    pub fn parse_arguments(args: &Vec<(String, JsonValue)>) -> (r: Result<
        GetStarCountRequest,
        BridgeError,
    >)
        ensures
            r is Ok <==> parsed_star_request(args@) is Some,
            r matches Ok(req) ==> parsed_star_request(args@) == Some(req),
            r matches Err(e) ==> (e matches BridgeError::InvalidArguments { field } && ((
            !text_bound(args@, "owner"@) && field@ == "owner"@) || (text_bound(args@, "owner"@)
                && !text_bound(args@, "repo"@) && field@ == "repo"@))),
    {
        let owner = match get_field(args, &String::from_str("owner")) {
            Some(JsonValue::Text(s)) => s.clone(),
            _ => {
                return Err(BridgeError::InvalidArguments { field: String::from_str("owner") });
            },
        };
        let repo = match get_field(args, &String::from_str("repo")) {
            Some(JsonValue::Text(s)) => s.clone(),
            _ => {
                return Err(BridgeError::InvalidArguments { field: String::from_str("repo") });
            },
        };
        Ok(GetStarCountRequest { owner, repo })
    }
}

/// Law: serializing a request into its argument object and deserializing
/// it back through the schema layer yields an equal request.
pub fn star_arguments_round_trip(r: &GetStarCountRequest) -> (d: GetStarCountRequest)
    ensures
        d == *r,
{
    let args = r.encode_arguments();
    match GetStarCountRequest::parse_arguments(&args) {
        Ok(d) => d,
        Err(_) => vstd::pervasive::unreached(),
    }
}

impl GetStarCountResponse {
    /// The response nobody sent: the defined value an empty envelope
    /// converts to.
    pub fn empty() -> (r: GetStarCountResponse)
        ensures
            r.count == 0,
    {
        GetStarCountResponse { count: 0 }
    }

    /// The structured content value of this response.
    pub fn to_value(&self) -> (v: JsonValue)
        ensures
            parsed_star_response(v) == Some(*self),
    {
        let mut fields: Vec<(String, JsonValue)> = Vec::new();
        fields.push((String::from_str("count"), JsonValue::Int(self.count as i64)));
        proof {
            assert(lookup_field(fields@, "count"@) == Some(fields@[0].1));
        }
        JsonValue::Object(fields)
    }

    /// The client-side invocation helper's last step: a protocol-level
    /// error envelope is surfaced unchanged, never parsed as a success
    /// payload; a success envelope is converted as `from_tool_result`
    /// does, with any conversion failure reported as a protocol error.
    pub fn from_envelope(outcome: Result<ToolResult, ToolError>) -> (r: Result<
        GetStarCountResponse,
        ToolError,
    >)
        ensures
            outcome matches Err(e) ==> r == Err::<GetStarCountResponse, ToolError>(e),
            outcome matches Ok(tr) ==> {
                &&& tr.content@.len() == 0 ==> r == Ok::<GetStarCountResponse, ToolError>(
                    GetStarCountResponse { count: 0 },
                )
                &&& tr.content@.len() > 0 ==> ((r is Ok) <==> (tr.content@[0]
                    matches ContentItem::Json(v) && parsed_star_response(v) is Some))
                &&& tr.content@.len() > 0 ==> (tr.content@[0] matches ContentItem::Json(v) ==> (
                parsed_star_response(v) matches Some(d) ==> r == Ok::<
                    GetStarCountResponse,
                    ToolError,
                >(d)))
                &&& r matches Err(e) ==> e.code@ == "INTERNAL_ERROR"@
            },
    {
        match outcome {
            Err(e) => Err(e),
            Ok(tr) => match GetStarCountResponse::from_tool_result(&tr) {
                Ok(d) => Ok(d),
                Err(be) => Err(be.to_protocol_error()),
            },
        }
    }

    /// Converts a success envelope into the typed response: an empty
    /// envelope becomes the defined empty value rather than an
    /// out-of-range access; a malformed primary item is a parse failure,
    /// never a silent default.
    pub fn from_tool_result(result: &ToolResult) -> (r: Result<GetStarCountResponse, BridgeError>)
        ensures
            result.content@.len() == 0 ==> r == Ok::<GetStarCountResponse, BridgeError>(
                GetStarCountResponse { count: 0 },
            ),
            result.content@.len() > 0 ==> {
                &&& (r is Ok <==> (result.content@[0] matches ContentItem::Json(v)
                    && parsed_star_response(v) is Some))
                &&& (r matches Ok(d) ==> (result.content@[0] matches ContentItem::Json(v)
                    && parsed_star_response(v) == Some(d)))
                &&& (r matches Err(e) ==> e is DownstreamParseError)
            },
    {
        let primary = match result.primary() {
            None => {
                return Ok(GetStarCountResponse { count: 0 });
            },
            Some(item) => item,
        };
        match primary {
            ContentItem::Json(v) => match star_response_of_value(v) {
                Some(d) => Ok(d),
                None => Err(
                    BridgeError::DownstreamParseError {
                        cause: String::from_str(
                            "the primary content item is not a star-count object",
                        ),
                    },
                ),
            },
            ContentItem::Text(_) => Err(
                BridgeError::DownstreamParseError {
                    cause: String::from_str(
                        "the primary content item is text where a structured value was expected",
                    ),
                },
            ),
        }
    }
}

/// The typed response a structured content value denotes, executably.
fn star_response_of_value(v: &JsonValue) -> (r: Option<GetStarCountResponse>)
    ensures
        r == parsed_star_response(*v),
{
    match v {
        JsonValue::Object(fields) => match get_field(fields, &String::from_str("count")) {
            Some(JsonValue::Int(count)) => {
                let c = *count;
                if 0 <= c && c <= u32::MAX as i64 {
                    Some(GetStarCountResponse { count: c as u32 })
                } else {
                    None
                }
            },
            _ => None,
        },
        _ => None,
    }
}

} // verus!
