//! The search tool of the relational-database service: its typed request
//! and response shapes, the argument-object codec, and the client-side
//! conversion from a result envelope.

use vstd::prelude::*;

use crate::envelope::{ContentItem, ToolResult};
use crate::error::BridgeError;
use crate::json::{get_field, lookup_field, JsonValue};

verus! {

/// Arguments of the search tool.
#[derive(Debug, PartialEq, Eq)]
pub struct TidbSearchRequest {
    pub query: String,
}

/// One row the search returned.
#[derive(Debug, PartialEq, Eq)]
pub struct TidbSearchHit {
    pub id: i32,
    pub title: String,
    pub content: String,
}

/// Response of the search tool.
#[derive(Debug, PartialEq, Eq)]
pub struct TidbSearchResponse {
    pub hits: Vec<TidbSearchHit>,
}

/// The typed request an argument object denotes, if its required text
/// field is present.
pub open spec fn parsed_tidb_request(args: Seq<(String, JsonValue)>) -> Option<TidbSearchRequest> {
    match lookup_field(args, "query"@) {
        Some(JsonValue::Text(query)) => Some(TidbSearchRequest { query }),
        _ => None,
    }
}

/// The typed hit a structured value denotes: an object with an integer
/// `id` in range and text `title` and `content`.
pub open spec fn parsed_tidb_hit(v: JsonValue) -> Option<TidbSearchHit> {
    match v {
        JsonValue::Object(fields) => match (
            lookup_field(fields@, "id"@),
            lookup_field(fields@, "title"@),
            lookup_field(fields@, "content"@),
        ) {
            (
                Some(JsonValue::Int(id)),
                Some(JsonValue::Text(title)),
                Some(JsonValue::Text(content)),
            ) => if i32::MIN <= id <= i32::MAX {
                Some(TidbSearchHit { id: id as i32, title, content })
            } else {
                None
            },
            _ => None,
        },
        _ => None,
    }
}

/// The items of the `hits` array of a response value, if it has one.
pub open spec fn tidb_hit_values(v: JsonValue) -> Option<Seq<JsonValue>> {
    match v {
        JsonValue::Object(fields) => match lookup_field(fields@, "hits"@) {
            Some(JsonValue::Array(items)) => Some(items@),
            _ => None,
        },
        _ => None,
    }
}

/// Whether a structured value denotes a well-formed response: a `hits`
/// array whose every item is a well-formed hit.
pub open spec fn tidb_response_wf(v: JsonValue) -> bool {
    tidb_hit_values(v) matches Some(items) && (forall|i: int|
        0 <= i < items.len() ==> parsed_tidb_hit(#[trigger] items[i]) is Some)
}

impl TidbSearchRequest {
    /// Serializes this request into the untyped argument object the
    /// protocol carries.
    pub fn encode_arguments(&self) -> (args: Vec<(String, JsonValue)>)
        ensures
            parsed_tidb_request(args@) == Some(*self),
            args@.len() == 1,
            args@[0].0@ == "query"@ && args@[0].1 == JsonValue::Text(self.query),
    {
        let mut args: Vec<(String, JsonValue)> = Vec::new();
        args.push((String::from_str("query"), JsonValue::Text(self.query.clone())));
        proof {
            assert(lookup_field(args@, "query"@) == Some(args@[0].1));
        }
        args
    }

    /// Deserializes an argument object: the required text field must be
    /// present and type-correct, or the request is rejected naming it.
    pub fn parse_arguments(args: &Vec<(String, JsonValue)>) -> (r: Result<
        TidbSearchRequest,
        BridgeError,
    >)
        ensures
            r is Ok <==> parsed_tidb_request(args@) is Some,
            r matches Ok(req) ==> parsed_tidb_request(args@) == Some(req),
            r matches Err(e) ==> (e matches BridgeError::InvalidArguments { field } && field@
                == "query"@),
    {
        match get_field(args, &String::from_str("query")) {
            Some(JsonValue::Text(s)) => Ok(TidbSearchRequest { query: s.clone() }),
            _ => Err(BridgeError::InvalidArguments { field: String::from_str("query") }),
        }
    }
}

/// Law: serializing a request into its argument object and deserializing
/// it back through the schema layer yields an equal request.
pub fn tidb_arguments_round_trip(r: &TidbSearchRequest) -> (d: TidbSearchRequest)
    ensures
        d == *r,
{
    let args = r.encode_arguments();
    match TidbSearchRequest::parse_arguments(&args) {
        Ok(d) => d,
        Err(_) => vstd::pervasive::unreached(),
    }
}

/// The typed hit a structured value denotes, executably.
fn tidb_hit_of_value(v: &JsonValue) -> (r: Option<TidbSearchHit>)
    ensures
        r == parsed_tidb_hit(*v),
{
    let fields = match v {
        JsonValue::Object(fields) => fields,
        _ => {
            return None;
        },
    };
    let id = match get_field(fields, &String::from_str("id")) {
        Some(JsonValue::Int(id)) => *id,
        _ => {
            return None;
        },
    };
    let title = match get_field(fields, &String::from_str("title")) {
        Some(JsonValue::Text(s)) => s.clone(),
        _ => {
            return None;
        },
    };
    let content = match get_field(fields, &String::from_str("content")) {
        Some(JsonValue::Text(s)) => s.clone(),
        _ => {
            return None;
        },
    };
    if i32::MIN as i64 <= id && id <= i32::MAX as i64 {
        Some(TidbSearchHit { id: id as i32, title, content })
    } else {
        None
    }
}

impl TidbSearchResponse {
    /// The response nobody sent: the defined value an empty envelope
    /// converts to.
    pub fn empty() -> (r: TidbSearchResponse)
        ensures
            r.hits@.len() == 0,
    {
        TidbSearchResponse { hits: Vec::new() }
    }

    /// The typed response a structured content value denotes: every item
    /// of its `hits` array, in order.
    pub fn of_value(v: &JsonValue) -> (r: Result<TidbSearchResponse, BridgeError>)
        ensures
            r is Ok <==> tidb_response_wf(*v),
            r matches Ok(resp) ==> (tidb_hit_values(*v) matches Some(items) && resp.hits@.len()
                == items.len() && (forall|i: int|
                0 <= i < items.len() ==> Some(#[trigger] resp.hits@[i]) == parsed_tidb_hit(
                    items[i],
                ))),
            r matches Err(e) ==> e is DownstreamParseError,
    {
        let fields = match v {
            JsonValue::Object(fields) => fields,
            _ => {
                return Err(tidb_shape_error());
            },
        };
        let items = match get_field(fields, &String::from_str("hits")) {
            Some(JsonValue::Array(items)) => items,
            _ => {
                return Err(tidb_shape_error());
            },
        };
        let mut hits: Vec<TidbSearchHit> = Vec::new();
        let n = items.len();
        proof {
            assert(tidb_hit_values(*v) == Some(items@));
        }
        for i in 0..n
            invariant
                tidb_hit_values(*v) == Some(items@),
                n == items@.len(),
                hits@.len() == i,
                forall|j: int| 0 <= j < i ==> Some(#[trigger] hits@[j]) == parsed_tidb_hit(
                    items@[j],
                ),
        {
            match tidb_hit_of_value(&items[i]) {
                Some(h) => hits.push(h),
                None => {
                    proof {
                        assert(parsed_tidb_hit(items@[i as int]) is None);
                    }
                    return Err(tidb_shape_error());
                },
            }
        }
        proof {
            assert(tidb_hit_values(*v) == Some(items@));
            assert forall|j: int| 0 <= j < items@.len() implies parsed_tidb_hit(
                #[trigger] items@[j],
            ) is Some by {
                assert(Some(hits@[j]) == parsed_tidb_hit(items@[j]));
            }
        }
        Ok(TidbSearchResponse { hits })
    }

    /// Converts a success envelope into the typed response: an empty
    /// envelope becomes the defined empty value rather than an
    /// out-of-range access; a malformed primary item is a parse failure,
    /// never a silent default.
    pub fn from_tool_result(result: &ToolResult) -> (r: Result<TidbSearchResponse, BridgeError>)
        ensures
            result.content@.len() == 0 ==> (r matches Ok(d) && d.hits@.len() == 0),
            result.content@.len() > 0 ==> {
                &&& (r is Ok <==> (result.content@[0] matches ContentItem::Json(v)
                    && tidb_response_wf(v)))
                &&& (r matches Ok(d) ==> (result.content@[0] matches ContentItem::Json(v)
                    && tidb_hit_values(v) matches Some(items) && d.hits@.len() == items.len() && (
                    forall|i: int|
                        0 <= i < items.len() ==> Some(#[trigger] d.hits@[i]) == parsed_tidb_hit(
                            items[i],
                        ))))
                &&& (r matches Err(e) ==> e is DownstreamParseError)
            },
    {
        let primary = match result.primary() {
            None => {
                return Ok(TidbSearchResponse { hits: Vec::new() });
            },
            Some(item) => item,
        };
        match primary {
            ContentItem::Json(v) => TidbSearchResponse::of_value(v),
            ContentItem::Text(_) => Err(
                BridgeError::DownstreamParseError {
                    cause: String::from_str(
                        "the primary content item is text where a structured value was expected",
                    ),
                },
            ),
        }
    }
}

/// The parse failure for a response value that is not a hits object.
fn tidb_shape_error() -> (r: BridgeError)
    ensures
        r is DownstreamParseError,
{
    BridgeError::DownstreamParseError {
        cause: String::from_str("the response value is not a well-formed hits object"),
    }
}

} // verus!
