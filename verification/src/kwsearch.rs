//! The keyword-search server: its two tools, their typed shapes and
//! argument codecs, and the verified halves of each handler.
//!
//! A handler runs in two verified steps around one downstream HTTP round
//! trip that the transport layer performs: the call step reads the
//! configuration store and prepares the URL and request body, failing
//! fast when no configuration is set; the result step turns whatever the
//! round trip came back with into the protocol envelope, re-labeling
//! every downstream failure with its own kind and cause.

use vstd::prelude::*;

use crate::adapter::{join_url, trim_trailing_slashes, DownstreamCall, FetchOutcome};
use crate::config::ConfigStore;
use crate::envelope::{ContentItem, ToolResult};
use crate::error::{BridgeError, ToolError};
use crate::json::{get_field, lookup_field, JsonValue};
use crate::schema::{FieldKind, FieldSchema, ToolDescriptor};

verus! {

/// One document handed to index creation.
#[derive(Debug, PartialEq, Eq)]
pub struct KwDocumentInput {
    pub content: String,
    pub title: Option<String>,
}

/// Arguments of the index-creation tool.
#[derive(Debug, PartialEq, Eq)]
pub struct CreateIndexRequest {
    pub name: String,
    pub documents: Vec<KwDocumentInput>,
}

/// The acknowledgment index creation returns.
#[derive(Debug, PartialEq, Eq)]
pub struct CreateIndexResponse {
    pub index: String,
    pub created: bool,
}

/// Arguments of the document-search tool.
#[derive(Debug, PartialEq, Eq)]
pub struct SearchDocumentsRequest {
    pub index_name: String,
    pub query: String,
    pub limit: u32,
}

/// One ranked hit the search returned.
#[derive(Debug, PartialEq, Eq)]
pub struct KwSearchHit {
    pub id: i64,
    pub title: String,
    pub content: String,
}

/// Response of the document-search tool.
#[derive(Debug, PartialEq, Eq)]
pub struct SearchDocumentsResponse {
    pub hits: Vec<KwSearchHit>,
}

/// What a server reports about itself on an introspection query.
#[derive(Debug)]
pub struct ServerInfo {
    pub instructions: Option<String>,
    pub tools_enabled: bool,
}

/// The keyword-search server itself.
#[derive(Debug, Clone, Copy)]
pub struct KeywordSearchServer;

/// The typed document a structured value denotes: required text
/// `content`; `title` may be absent, null, or text.
pub open spec fn parsed_document(v: JsonValue) -> Option<KwDocumentInput> {
    match v {
        JsonValue::Object(fields) => match lookup_field(fields@, "content"@) {
            Some(JsonValue::Text(content)) => match lookup_field(fields@, "title"@) {
                None => Some(KwDocumentInput { content, title: None }),
                Some(JsonValue::Null) => Some(KwDocumentInput { content, title: None }),
                Some(JsonValue::Text(t)) => Some(KwDocumentInput { content, title: Some(t) }),
                Some(_) => None,
            },
            _ => None,
        },
        _ => None,
    }
}

/// Whether `v` is the downstream index-creation body for `req`: the index
/// name and the documents, one value per document, in order.
pub open spec fn is_index_request_body(v: JsonValue, req: CreateIndexRequest) -> bool {
    &&& v matches JsonValue::Object(fields)
    &&& v->Object_0@.len() == 2
    &&& (lookup_field(v->Object_0@, "index"@) matches Some(JsonValue::Text(t)) && t == req.name)
    &&& (lookup_field(v->Object_0@, "documents"@) matches Some(JsonValue::Array(items))
        && items@.len() == req.documents@.len() && (forall|i: int|
        0 <= i < items@.len() ==> parsed_document(#[trigger] items@[i]) == Some(
            req.documents@[i],
        )))
}

/// Whether `v` is the downstream query body for `req`: the query text,
/// the hit limit, and the index name.
pub open spec fn is_query_body(v: JsonValue, req: SearchDocumentsRequest) -> bool {
    &&& v matches JsonValue::Object(fields)
    &&& v->Object_0@.len() == 3
    &&& (lookup_field(v->Object_0@, "query"@) matches Some(JsonValue::Text(q)) && q == req.query)
    &&& lookup_field(v->Object_0@, "top_k"@) == Some(JsonValue::Int(req.limit as i64))
    &&& (lookup_field(v->Object_0@, "index"@) matches Some(JsonValue::Text(ix)) && ix
        == req.index_name)
}

/// The typed acknowledgment a structured value denotes.
pub open spec fn parsed_create_index_response(v: JsonValue) -> Option<CreateIndexResponse> {
    match v {
        JsonValue::Object(fields) => match (
            lookup_field(fields@, "index"@),
            lookup_field(fields@, "created"@),
        ) {
            (Some(JsonValue::Text(index)), Some(JsonValue::Bool(created))) => Some(
                CreateIndexResponse { index, created },
            ),
            _ => None,
        },
        _ => None,
    }
}

/// The typed hit a structured value denotes.
pub open spec fn parsed_kw_hit(v: JsonValue) -> Option<KwSearchHit> {
    match v {
        JsonValue::Object(fields) => match (
            lookup_field(fields@, "id"@),
            lookup_field(fields@, "title"@),
            lookup_field(fields@, "content"@),
        ) {
            (
                Some(JsonValue::Int(id)),
                Some(JsonValue::Text(title)),
                Some(JsonValue::Text(content)),
            ) => Some(KwSearchHit { id, title, content }),
            _ => None,
        },
        _ => None,
    }
}

/// The items of the `hits` array of a response value, if it has one.
pub open spec fn kw_hit_values(v: JsonValue) -> Option<Seq<JsonValue>> {
    match v {
        JsonValue::Object(fields) => match lookup_field(fields@, "hits"@) {
            Some(JsonValue::Array(items)) => Some(items@),
            _ => None,
        },
        _ => None,
    }
}

/// Whether a structured value denotes a well-formed search response.
pub open spec fn kw_response_wf(v: JsonValue) -> bool {
    kw_hit_values(v) matches Some(items) && (forall|i: int|
        0 <= i < items.len() ==> parsed_kw_hit(#[trigger] items[i]) is Some)
}

impl KwDocumentInput {
    /// The structured value of this document; an unset title contributes
    /// no binding.
    pub fn to_value(&self) -> (v: JsonValue)
        ensures
            parsed_document(v) == Some(*self),
    {
        let mut fields: Vec<(String, JsonValue)> = Vec::new();
        fields.push((String::from_str("content"), JsonValue::Text(self.content.clone())));
        match &self.title {
            Some(t) => {
                fields.push((String::from_str("title"), JsonValue::Text(t.clone())));
                proof {
                    reveal_strlit("content");
                    reveal_strlit("title");
                    assert(fields@.drop_first() =~= seq![fields@[1]]);
                    assert("content"@.len() == 7 && "title"@.len() == 5);
                    assert(lookup_field(fields@, "content"@) == Some(fields@[0].1));
                    assert(lookup_field(fields@, "title"@) == lookup_field(
                        fields@.drop_first(),
                        "title"@,
                    ));
                    assert(lookup_field(fields@.drop_first(), "title"@) == Some(fields@[1].1));
                }
            },
            None => {
                proof {
                    reveal_strlit("content");
                    reveal_strlit("title");
                    assert(fields@.drop_first() =~= Seq::<(String, JsonValue)>::empty());
                    assert("content"@.len() == 7 && "title"@.len() == 5);
                    assert(lookup_field(fields@, "content"@) == Some(fields@[0].1));
                    assert(lookup_field(fields@, "title"@) == lookup_field(
                        fields@.drop_first(),
                        "title"@,
                    ));
                    assert(lookup_field(fields@, "title"@) is None);
                }
            },
        }
        JsonValue::Object(fields)
    }
}

/// The typed document a structured value denotes, executably.
fn document_of_value(v: &JsonValue) -> (r: Option<KwDocumentInput>)
    ensures
        r == parsed_document(*v),
{
    let fields = match v {
        JsonValue::Object(fields) => fields,
        _ => {
            return None;
        },
    };
    let content = match get_field(fields, &String::from_str("content")) {
        Some(JsonValue::Text(s)) => s.clone(),
        _ => {
            return None;
        },
    };
    let title = match get_field(fields, &String::from_str("title")) {
        None => None,
        Some(JsonValue::Null) => None,
        Some(JsonValue::Text(s)) => Some(s.clone()),
        Some(_) => {
            return None;
        },
    };
    Some(KwDocumentInput { content, title })
}

impl CreateIndexRequest {
    /// Serializes this request into the untyped argument object the
    /// protocol carries.
    pub fn encode_arguments(&self) -> (args: Vec<(String, JsonValue)>)
        ensures
            args@.len() == 2,
            args@[0].0@ == "name"@,
            args@[1].0@ == "documents"@,
            lookup_field(args@, "name"@) matches Some(JsonValue::Text(t)) && t == self.name,
            lookup_field(args@, "documents"@) matches Some(JsonValue::Array(items)) && items@.len()
                == self.documents@.len() && (forall|i: int|
                0 <= i < items@.len() ==> parsed_document(#[trigger] items@[i]) == Some(
                    self.documents@[i],
                )),
    {
        let mut items: Vec<JsonValue> = Vec::new();
        let n = self.documents.len();
        for i in 0..n
            invariant
                n == self.documents@.len(),
                items@.len() == i,
                forall|j: int| 0 <= j < i ==> parsed_document(#[trigger] items@[j]) == Some(
                    self.documents@[j],
                ),
        {
            items.push(self.documents[i].to_value());
        }
        let mut args: Vec<(String, JsonValue)> = Vec::new();
        args.push((String::from_str("name"), JsonValue::Text(self.name.clone())));
        args.push((String::from_str("documents"), JsonValue::Array(items)));
        proof {
            reveal_strlit("name");
            reveal_strlit("documents");
            assert(args@.drop_first() =~= seq![args@[1]]);
            assert("name"@.len() == 4 && "documents"@.len() == 9);
            assert(lookup_field(args@, "name"@) == Some(args@[0].1));
            assert(lookup_field(args@, "documents"@) == lookup_field(
                args@.drop_first(),
                "documents"@,
            ));
            assert(lookup_field(args@.drop_first(), "documents"@) == Some(args@[1].1));
        }
        args
    }

    /// Deserializes an argument object: the index name must be text and
    /// every document well-formed, or the request is rejected naming the
    /// field that failed — never defaulted.
    pub fn parse_arguments(args: &Vec<(String, JsonValue)>) -> (r: Result<
        CreateIndexRequest,
        BridgeError,
    >)
        ensures
            r is Ok <==> ((lookup_field(args@, "name"@) matches Some(JsonValue::Text(t))) && (
            lookup_field(args@, "documents"@) matches Some(JsonValue::Array(items)) && (forall|
                i: int,
            |
                0 <= i < items@.len() ==> parsed_document(#[trigger] items@[i]) is Some))),
            r matches Ok(req) ==> {
                &&& (lookup_field(args@, "name"@) matches Some(JsonValue::Text(t)) && req.name
                    == t)
                &&& (lookup_field(args@, "documents"@) matches Some(JsonValue::Array(items))
                    && req.documents@.len() == items@.len() && (forall|i: int|
                    0 <= i < items@.len() ==> Some(#[trigger] req.documents@[i])
                        == parsed_document(items@[i])))
            },
            r matches Err(e) ==> (e matches BridgeError::InvalidArguments { field } && (field@
                == "name"@ || field@ == "documents"@)),
    {
        let name = match get_field(args, &String::from_str("name")) {
            Some(JsonValue::Text(s)) => s.clone(),
            _ => {
                return Err(BridgeError::InvalidArguments { field: String::from_str("name") });
            },
        };
        let items = match get_field(args, &String::from_str("documents")) {
            Some(JsonValue::Array(items)) => items,
            _ => {
                return Err(BridgeError::InvalidArguments { field: String::from_str("documents") });
            },
        };
        let mut documents: Vec<KwDocumentInput> = Vec::new();
        let n = items.len();
        proof {
            assert(lookup_field(args@, "documents"@) == Some(JsonValue::Array(*items)));
        }
        for i in 0..n
            invariant
                lookup_field(args@, "documents"@) == Some(JsonValue::Array(*items)),
                n == items@.len(),
                documents@.len() == i,
                forall|j: int| 0 <= j < i ==> Some(#[trigger] documents@[j]) == parsed_document(
                    items@[j],
                ),
        {
            match document_of_value(&items[i]) {
                Some(d) => documents.push(d),
                None => {
                    proof {
                        assert(parsed_document(items@[i as int]) is None);
                    }
                    return Err(
                        BridgeError::InvalidArguments { field: String::from_str("documents") },
                    );
                },
            }
        }
        proof {
            assert forall|j: int| 0 <= j < items@.len() implies parsed_document(
                #[trigger] items@[j],
            ) is Some by {
                assert(Some(documents@[j]) == parsed_document(items@[j]));
            }
        }
        Ok(CreateIndexRequest { name, documents })
    }
}

/// Law: serializing an index-creation request into its argument object
/// and deserializing it back through the schema layer yields an equal
/// request: the same name and the same documents, in order.
pub fn create_index_arguments_round_trip(r: &CreateIndexRequest) -> (d: CreateIndexRequest)
    ensures
        d.name == r.name,
        d.documents@ == r.documents@,
{
    let args = r.encode_arguments();
    match CreateIndexRequest::parse_arguments(&args) {
        Ok(d) => {
            proof {
                assert(d.documents@ =~= r.documents@);
            }
            d
        },
        Err(_) => vstd::pervasive::unreached(),
    }
}

impl SearchDocumentsRequest {
    /// Serializes this request into the untyped argument object the
    /// protocol carries.
    pub fn encode_arguments(&self) -> (args: Vec<(String, JsonValue)>)
        ensures
            args@.len() == 3,
            args@[0].0@ == "index_name"@ && args@[0].1 == JsonValue::Text(self.index_name),
            args@[1].0@ == "query"@ && args@[1].1 == JsonValue::Text(self.query),
            args@[2].0@ == "limit"@ && args@[2].1 == JsonValue::Int(self.limit as i64),
            lookup_field(args@, "index_name"@) matches Some(JsonValue::Text(ix)) && ix
                == self.index_name,
            lookup_field(args@, "query"@) matches Some(JsonValue::Text(q)) && q == self.query,
            lookup_field(args@, "limit"@) == Some(JsonValue::Int(self.limit as i64)),
    {
        let mut args: Vec<(String, JsonValue)> = Vec::new();
        args.push((String::from_str("index_name"), JsonValue::Text(self.index_name.clone())));
        args.push((String::from_str("query"), JsonValue::Text(self.query.clone())));
        args.push((String::from_str("limit"), JsonValue::Int(self.limit as i64)));
        proof {
            reveal_strlit("index_name");
            reveal_strlit("query");
            reveal_strlit("limit");
            let tail = args@.drop_first();
            let tail2 = tail.drop_first();
            assert(tail =~= seq![args@[1], args@[2]]);
            assert(tail2 =~= seq![args@[2]]);
            assert("index_name"@.len() == 10 && "query"@.len() == 5 && "limit"@.len() == 5);
            assert("query"@[0] != "limit"@[0]);
            assert(lookup_field(args@, "index_name"@) == Some(args@[0].1));
            assert(lookup_field(args@, "query"@) == lookup_field(tail, "query"@));
            assert(lookup_field(tail, "query"@) == Some(tail[0].1));
            assert(lookup_field(args@, "limit"@) == lookup_field(tail, "limit"@));
            assert(lookup_field(tail, "limit"@) == lookup_field(tail2, "limit"@));
            assert(lookup_field(tail2, "limit"@) == Some(tail2[0].1));
        }
        args
    }

    /// Deserializes an argument object: the index name and query must be
    /// text and the limit an integer in range, or the request is
    /// rejected naming the field that failed.
    pub fn parse_arguments(args: &Vec<(String, JsonValue)>) -> (r: Result<
        SearchDocumentsRequest,
        BridgeError,
    >)
        ensures
            r is Ok <==> ((lookup_field(args@, "index_name"@) matches Some(
                JsonValue::Text(ix),
            )) && (lookup_field(args@, "query"@) matches Some(JsonValue::Text(q))) && (
            lookup_field(args@, "limit"@) matches Some(JsonValue::Int(l)) && 0 <= l <= u32::MAX)),
            r matches Ok(req) ==> {
                &&& (lookup_field(args@, "index_name"@) matches Some(JsonValue::Text(ix))
                    && req.index_name == ix)
                &&& (lookup_field(args@, "query"@) matches Some(JsonValue::Text(q)) && req.query
                    == q)
                &&& lookup_field(args@, "limit"@) == Some(JsonValue::Int(req.limit as i64))
            },
            r matches Err(e) ==> (e matches BridgeError::InvalidArguments { field } && (field@
                == "index_name"@ || field@ == "query"@ || field@ == "limit"@)),
    {
        let index_name = match get_field(args, &String::from_str("index_name")) {
            Some(JsonValue::Text(s)) => s.clone(),
            _ => {
                return Err(
                    BridgeError::InvalidArguments { field: String::from_str("index_name") },
                );
            },
        };
        let query = match get_field(args, &String::from_str("query")) {
            Some(JsonValue::Text(s)) => s.clone(),
            _ => {
                return Err(BridgeError::InvalidArguments { field: String::from_str("query") });
            },
        };
        let limit = match get_field(args, &String::from_str("limit")) {
            Some(JsonValue::Int(l)) => {
                let l = *l;
                if 0 <= l && l <= u32::MAX as i64 {
                    l as u32
                } else {
                    return Err(BridgeError::InvalidArguments { field: String::from_str("limit") });
                }
            },
            _ => {
                return Err(BridgeError::InvalidArguments { field: String::from_str("limit") });
            },
        };
        Ok(SearchDocumentsRequest { index_name, query, limit })
    }
}

/// Law: serializing a search request into its argument object and
/// deserializing it back through the schema layer yields an equal
/// request.
pub fn search_arguments_round_trip(r: &SearchDocumentsRequest) -> (d: SearchDocumentsRequest)
    ensures
        d == *r,
{
    let args = r.encode_arguments();
    match SearchDocumentsRequest::parse_arguments(&args) {
        Ok(d) => d,
        Err(_) => vstd::pervasive::unreached(),
    }
}

impl CreateIndexResponse {
    /// The acknowledgment nobody sent: the defined value an empty
    /// envelope converts to.
    pub fn empty() -> (r: CreateIndexResponse)
        ensures
            r.index@.len() == 0,
            !r.created,
    {
        CreateIndexResponse { index: String::new(), created: false }
    }

    /// The structured content value of this acknowledgment.
    pub fn to_value(&self) -> (v: JsonValue)
        ensures
            parsed_create_index_response(v) == Some(*self),
    {
        let mut fields: Vec<(String, JsonValue)> = Vec::new();
        fields.push((String::from_str("index"), JsonValue::Text(self.index.clone())));
        fields.push((String::from_str("created"), JsonValue::Bool(self.created)));
        proof {
            reveal_strlit("index");
            reveal_strlit("created");
            assert(fields@.drop_first() =~= seq![fields@[1]]);
            assert("index"@.len() == 5 && "created"@.len() == 7);
            assert(lookup_field(fields@, "index"@) == Some(fields@[0].1));
            assert(lookup_field(fields@, "created"@) == lookup_field(
                fields@.drop_first(),
                "created"@,
            ));
            assert(lookup_field(fields@.drop_first(), "created"@) == Some(fields@[1].1));
        }
        JsonValue::Object(fields)
    }

    /// The typed acknowledgment a structured value denotes, executably.
    pub fn of_value(v: &JsonValue) -> (r: Option<CreateIndexResponse>)
        ensures
            r == parsed_create_index_response(*v),
    {
        let fields = match v {
            JsonValue::Object(fields) => fields,
            _ => {
                return None;
            },
        };
        let index = match get_field(fields, &String::from_str("index")) {
            Some(JsonValue::Text(s)) => s.clone(),
            _ => {
                return None;
            },
        };
        let created = match get_field(fields, &String::from_str("created")) {
            Some(JsonValue::Bool(b)) => *b,
            _ => {
                return None;
            },
        };
        Some(CreateIndexResponse { index, created })
    }

    /// Converts a success envelope into the typed acknowledgment: an
    /// empty envelope becomes the defined empty value rather than an
    /// out-of-range access; a malformed primary item is a parse failure,
    /// never a silent default.
    pub fn from_tool_result(result: &ToolResult) -> (r: Result<CreateIndexResponse, BridgeError>)
        ensures
            result.content@.len() == 0 ==> (r matches Ok(d) && d.index@.len() == 0 && !d.created),
            result.content@.len() > 0 ==> {
                &&& (r is Ok <==> (result.content@[0] matches ContentItem::Json(v)
                    && parsed_create_index_response(v) is Some))
                &&& (r matches Ok(d) ==> (result.content@[0] matches ContentItem::Json(v)
                    && parsed_create_index_response(v) == Some(d)))
                &&& (r matches Err(e) ==> e is DownstreamParseError)
            },
    {
        let primary = match result.primary() {
            None => {
                return Ok(CreateIndexResponse::empty());
            },
            Some(item) => item,
        };
        match primary {
            ContentItem::Json(v) => match CreateIndexResponse::of_value(v) {
                Some(d) => Ok(d),
                None => Err(
                    BridgeError::DownstreamParseError {
                        cause: String::from_str(
                            "the primary content item is not an index acknowledgment",
                        ),
                    },
                ),
            },
            ContentItem::Text(_) => Err(
                BridgeError::DownstreamParseError {
                    cause: String::from_str(
                        "the primary content item is text where a structured value was expected",
                    ),
                },
            ),
        }
    }
}

impl KwSearchHit {
    /// The structured value of this hit.
    pub fn to_value(&self) -> (v: JsonValue)
        ensures
            parsed_kw_hit(v) == Some(*self),
    {
        let mut fields: Vec<(String, JsonValue)> = Vec::new();
        fields.push((String::from_str("id"), JsonValue::Int(self.id)));
        fields.push((String::from_str("title"), JsonValue::Text(self.title.clone())));
        fields.push((String::from_str("content"), JsonValue::Text(self.content.clone())));
        proof {
            reveal_strlit("id");
            reveal_strlit("title");
            reveal_strlit("content");
            let tail = fields@.drop_first();
            let tail2 = tail.drop_first();
            assert(tail =~= seq![fields@[1], fields@[2]]);
            assert(tail2 =~= seq![fields@[2]]);
            assert("id"@.len() == 2 && "title"@.len() == 5 && "content"@.len() == 7);
            assert(lookup_field(fields@, "id"@) == Some(fields@[0].1));
            assert(lookup_field(fields@, "title"@) == lookup_field(tail, "title"@));
            assert(lookup_field(tail, "title"@) == Some(tail[0].1));
            assert(lookup_field(fields@, "content"@) == lookup_field(tail, "content"@));
            assert(lookup_field(tail, "content"@) == lookup_field(tail2, "content"@));
            assert(lookup_field(tail2, "content"@) == Some(tail2[0].1));
        }
        JsonValue::Object(fields)
    }
}

/// The typed hit a structured value denotes, executably.
fn kw_hit_of_value(v: &JsonValue) -> (r: Option<KwSearchHit>)
    ensures
        r == parsed_kw_hit(*v),
{
    let fields = match v {
        JsonValue::Object(fields) => fields,
        _ => {
            return None;
        },
    };
    let id = match get_field(fields, &String::from_str("id")) {
        Some(JsonValue::Int(id)) => *id,
        _ => {
            return None;
        },
    };
    let title = match get_field(fields, &String::from_str("title")) {
        Some(JsonValue::Text(s)) => s.clone(),
        _ => {
            return None;
        },
    };
    let content = match get_field(fields, &String::from_str("content")) {
        Some(JsonValue::Text(s)) => s.clone(),
        _ => {
            return None;
        },
    };
    Some(KwSearchHit { id, title, content })
}

impl SearchDocumentsResponse {
    /// The response nobody sent: the defined value an empty envelope
    /// converts to.
    pub fn empty() -> (r: SearchDocumentsResponse)
        ensures
            r.hits@.len() == 0,
    {
        SearchDocumentsResponse { hits: Vec::new() }
    }

    /// The structured content value of this response.
    pub fn to_value(&self) -> (v: JsonValue)
        ensures
            kw_hit_values(v) matches Some(items) && items.len() == self.hits@.len() && (forall|
                i: int,
            | 0 <= i < items.len() ==> parsed_kw_hit(#[trigger] items[i]) == Some(self.hits@[i])),
    {
        let mut items: Vec<JsonValue> = Vec::new();
        let n = self.hits.len();
        for i in 0..n
            invariant
                n == self.hits@.len(),
                items@.len() == i,
                forall|j: int| 0 <= j < i ==> parsed_kw_hit(#[trigger] items@[j]) == Some(
                    self.hits@[j],
                ),
        {
            items.push(self.hits[i].to_value());
        }
        let mut fields: Vec<(String, JsonValue)> = Vec::new();
        fields.push((String::from_str("hits"), JsonValue::Array(items)));
        proof {
            assert(lookup_field(fields@, "hits"@) == Some(fields@[0].1));
        }
        JsonValue::Object(fields)
    }

    /// The typed response a structured content value denotes: every item
    /// of its `hits` array, in order.
    pub fn of_value(v: &JsonValue) -> (r: Result<SearchDocumentsResponse, BridgeError>)
        ensures
            r is Ok <==> kw_response_wf(*v),
            r matches Ok(resp) ==> (kw_hit_values(*v) matches Some(items) && resp.hits@.len()
                == items.len() && (forall|i: int|
                0 <= i < items.len() ==> Some(#[trigger] resp.hits@[i]) == parsed_kw_hit(
                    items[i],
                ))),
            r matches Err(e) ==> (e matches BridgeError::DownstreamParseError { cause } && cause@
                == "the response value is not a well-formed hits object"@),
    {
        let fields = match v {
            JsonValue::Object(fields) => fields,
            _ => {
                return Err(kw_shape_error());
            },
        };
        let items = match get_field(fields, &String::from_str("hits")) {
            Some(JsonValue::Array(items)) => items,
            _ => {
                return Err(kw_shape_error());
            },
        };
        let mut hits: Vec<KwSearchHit> = Vec::new();
        let n = items.len();
        proof {
            assert(kw_hit_values(*v) == Some(items@));
        }
        for i in 0..n
            invariant
                kw_hit_values(*v) == Some(items@),
                n == items@.len(),
                hits@.len() == i,
                forall|j: int| 0 <= j < i ==> Some(#[trigger] hits@[j]) == parsed_kw_hit(
                    items@[j],
                ),
        {
            match kw_hit_of_value(&items[i]) {
                Some(h) => hits.push(h),
                None => {
                    proof {
                        assert(parsed_kw_hit(items@[i as int]) is None);
                    }
                    return Err(kw_shape_error());
                },
            }
        }
        proof {
            assert forall|j: int| 0 <= j < items@.len() implies parsed_kw_hit(
                #[trigger] items@[j],
            ) is Some by {
                assert(Some(hits@[j]) == parsed_kw_hit(items@[j]));
            }
        }
        Ok(SearchDocumentsResponse { hits })
    }

    /// The client-side invocation helper's last step: a protocol-level
    /// error envelope is surfaced unchanged, never parsed as a success
    /// payload; a success envelope is converted as `from_tool_result`
    /// does, with any conversion failure reported as a protocol error.
    pub fn from_envelope(outcome: Result<ToolResult, ToolError>) -> (r: Result<
        SearchDocumentsResponse,
        ToolError,
    >)
        ensures
            outcome matches Err(e) ==> r == Err::<SearchDocumentsResponse, ToolError>(e),
            outcome matches Ok(tr) ==> {
                &&& tr.content@.len() == 0 ==> (r matches Ok(d) && d.hits@.len() == 0)
                &&& tr.content@.len() > 0 ==> ((r is Ok) <==> (tr.content@[0]
                    matches ContentItem::Json(v) && kw_response_wf(v)))
                &&& tr.content@.len() > 0 ==> (tr.content@[0] matches ContentItem::Json(v) ==> (r
                    matches Ok(d) ==> (kw_hit_values(v) matches Some(items) && d.hits@.len()
                    == items.len() && (forall|i: int|
                    0 <= i < items.len() ==> Some(#[trigger] d.hits@[i]) == parsed_kw_hit(
                        items[i],
                    )))))
                &&& r matches Err(e) ==> e.code@ == "INTERNAL_ERROR"@
            },
    {
        match outcome {
            Err(e) => Err(e),
            Ok(tr) => match SearchDocumentsResponse::from_tool_result(&tr) {
                Ok(d) => Ok(d),
                Err(be) => Err(be.to_protocol_error()),
            },
        }
    }

    /// Converts a success envelope into the typed response: an empty
    /// envelope becomes the defined empty value rather than an
    /// out-of-range access; a malformed primary item is a parse failure,
    /// never a silent default.
    pub fn from_tool_result(result: &ToolResult) -> (r: Result<
        SearchDocumentsResponse,
        BridgeError,
    >)
        ensures
            result.content@.len() == 0 ==> (r matches Ok(d) && d.hits@.len() == 0),
            result.content@.len() > 0 ==> {
                &&& (r is Ok <==> (result.content@[0] matches ContentItem::Json(v)
                    && kw_response_wf(v)))
                &&& (r matches Ok(d) ==> (result.content@[0] matches ContentItem::Json(v)
                    && kw_hit_values(v) matches Some(items) && d.hits@.len() == items.len() && (
                    forall|i: int|
                        0 <= i < items.len() ==> Some(#[trigger] d.hits@[i]) == parsed_kw_hit(
                            items[i],
                        ))))
                &&& (r matches Err(e) ==> e is DownstreamParseError)
            },
    {
        let primary = match result.primary() {
            None => {
                return Ok(SearchDocumentsResponse::empty());
            },
            Some(item) => item,
        };
        match primary {
            ContentItem::Json(v) => SearchDocumentsResponse::of_value(v),
            ContentItem::Text(_) => Err(
                BridgeError::DownstreamParseError {
                    cause: String::from_str(
                        "the primary content item is text where a structured value was expected",
                    ),
                },
            ),
        }
    }
}

impl KeywordSearchServer {
    /// What this server reports about itself: its instruction text and
    /// that it exposes tools.
    pub fn get_info(&self) -> (r: ServerInfo)
        ensures
            r.instructions matches Some(s) && s@
                == "A MCP server that can access the KeywordSearch database"@,
            r.tools_enabled,
    {
        ServerInfo {
            instructions: Some(
                String::from_str("A MCP server that can access the KeywordSearch database"),
            ),
            tools_enabled: true,
        }
    }

    /// The fixed registry this server is started with: its two tools, in
    /// registration order.
    pub fn descriptors(&self) -> (r: Vec<ToolDescriptor>)
        ensures
            r@.len() == 2,
            r@[0].name@ == "create_index"@,
            r@[0].description@ == "Create an index in the KeywordSearch database"@,
            r@[0].input_schema@.len() == 2,
            r@[0].input_schema@[0].name@ == "name"@,
            r@[0].input_schema@[0].description@ == "the name of the index to create"@,
            r@[0].input_schema@[0].kind == FieldKind::Text,
            r@[0].input_schema@[0].required,
            r@[0].input_schema@[1].name@ == "documents"@,
            r@[0].input_schema@[1].description@ == "the documents to put into the index"@,
            r@[0].input_schema@[1].kind == FieldKind::Array,
            r@[0].input_schema@[1].required,
            r@[1].name@ == "search_documents"@,
            r@[1].description@ == "Search for documents in the KeywordSearch database"@,
            r@[1].input_schema@.len() == 3,
            r@[1].input_schema@[0].name@ == "index_name"@,
            r@[1].input_schema@[0].description@ == "the name of the index to search"@,
            r@[1].input_schema@[0].kind == FieldKind::Text,
            r@[1].input_schema@[0].required,
            r@[1].input_schema@[1].name@ == "query"@,
            r@[1].input_schema@[1].description@ == "the query to search for"@,
            r@[1].input_schema@[1].kind == FieldKind::Text,
            r@[1].input_schema@[1].required,
            r@[1].input_schema@[2].name@ == "limit"@,
            r@[1].input_schema@[2].description@ == "the maximum number of hits to return"@,
            r@[1].input_schema@[2].kind == FieldKind::Int,
            r@[1].input_schema@[2].required,
    {
        let mut create_schema: Vec<FieldSchema> = Vec::new();
        create_schema.push(
            FieldSchema {
                name: String::from_str("name"),
                description: String::from_str("the name of the index to create"),
                kind: FieldKind::Text,
                required: true,
            },
        );
        create_schema.push(
            FieldSchema {
                name: String::from_str("documents"),
                description: String::from_str("the documents to put into the index"),
                kind: FieldKind::Array,
                required: true,
            },
        );
        let mut search_schema: Vec<FieldSchema> = Vec::new();
        search_schema.push(
            FieldSchema {
                name: String::from_str("index_name"),
                description: String::from_str("the name of the index to search"),
                kind: FieldKind::Text,
                required: true,
            },
        );
        search_schema.push(
            FieldSchema {
                name: String::from_str("query"),
                description: String::from_str("the query to search for"),
                kind: FieldKind::Text,
                required: true,
            },
        );
        search_schema.push(
            FieldSchema {
                name: String::from_str("limit"),
                description: String::from_str("the maximum number of hits to return"),
                kind: FieldKind::Int,
                required: true,
            },
        );
        let mut r: Vec<ToolDescriptor> = Vec::new();
        r.push(
            ToolDescriptor {
                name: String::from_str("create_index"),
                description: String::from_str("Create an index in the KeywordSearch database"),
                input_schema: create_schema,
            },
        );
        r.push(
            ToolDescriptor {
                name: String::from_str("search_documents"),
                description: String::from_str(
                    "Search for documents in the KeywordSearch database",
                ),
                input_schema: search_schema,
            },
        );
        r
    }

    /// The first half of the index-creation handler: reads the
    /// configuration store and prepares the downstream call — the
    /// operation's fixed path joined onto the trimmed base URL, and the
    /// index-creation body. Fails fast with `ConfigurationMissing` when
    /// no configuration is set, before any network work.
    pub fn create_index(&self, store: &ConfigStore, req: &CreateIndexRequest) -> (r: Result<
        DownstreamCall,
        BridgeError,
    >)
        ensures
            r is Ok <==> store.config() is Some,
            r matches Err(e) ==> e is ConfigurationMissing,
            store.config() matches Some(c) ==> (r matches Ok(call) && call.url@
                == trim_trailing_slashes(c.base_url@) + "/v1/index/create"@
                && is_index_request_body(call.body, *req)),
    {
        let config = match store.get() {
            Some(c) => c,
            None => {
                return Err(BridgeError::ConfigurationMissing);
            },
        };
        let url = join_url(&config.base_url, "/v1/index/create");
        let mut items: Vec<JsonValue> = Vec::new();
        let n = req.documents.len();
        for i in 0..n
            invariant
                n == req.documents@.len(),
                items@.len() == i,
                forall|j: int| 0 <= j < i ==> parsed_document(#[trigger] items@[j]) == Some(
                    req.documents@[j],
                ),
        {
            items.push(req.documents[i].to_value());
        }
        let mut fields: Vec<(String, JsonValue)> = Vec::new();
        fields.push((String::from_str("index"), JsonValue::Text(req.name.clone())));
        fields.push((String::from_str("documents"), JsonValue::Array(items)));
        proof {
            reveal_strlit("index");
            reveal_strlit("documents");
            assert(fields@.drop_first() =~= seq![fields@[1]]);
            assert("index"@.len() == 5 && "documents"@.len() == 9);
            assert(lookup_field(fields@, "index"@) == Some(fields@[0].1));
            assert(lookup_field(fields@, "documents"@) == lookup_field(
                fields@.drop_first(),
                "documents"@,
            ));
            assert(lookup_field(fields@.drop_first(), "documents"@) == Some(fields@[1].1));
        }
        Ok(DownstreamCall { url, body: JsonValue::Object(fields) })
    }

    /// The second half of the index-creation handler: a failed round
    /// trip surfaces with this operation's own message — the downstream
    /// cause text embedded verbatim, never swallowed — while a returned
    /// body is parsed as the acknowledgment and wrapped as exactly one
    /// content item; an unparseable acknowledgment is reported, not
    /// defaulted. Nothing is retried.
    pub fn create_index_result(&self, outcome: FetchOutcome) -> (r: Result<ToolResult, ToolError>)
        ensures
            outcome matches FetchOutcome::NetworkError(c) ==> (r matches Err(e) && e.code@
                == "INTERNAL_ERROR"@ && e.message@ == "Failed to create index: "@ + c@),
            outcome matches FetchOutcome::InvalidBody(c) ==> (r matches Err(e) && e.code@
                == "INTERNAL_ERROR"@ && e.message@ == "Failed to parse index response: "@ + c@),
            outcome matches FetchOutcome::Body(v) ==> {
                &&& (parsed_create_index_response(v) matches Some(ack) ==> (r matches Ok(tr)
                    && tr.content@.len() == 1 && (tr.content@[0] matches ContentItem::Json(out)
                    && parsed_create_index_response(out) == Some(ack))))
                &&& (parsed_create_index_response(v) is None ==> (r matches Err(e) && e.code@
                    == "INTERNAL_ERROR"@ && e.message@ == "Failed to parse index response: "@
                    + "the response body is not an index acknowledgment"@))
            },
    {
        let v = match outcome {
            FetchOutcome::Body(v) => v,
            FetchOutcome::NetworkError(c) => {
                return Err(
                    ToolError {
                        code: String::from_str("INTERNAL_ERROR"),
                        message: String::from_str("Failed to create index: ").concat(c.as_str()),
                    },
                );
            },
            FetchOutcome::InvalidBody(c) => {
                return Err(
                    ToolError {
                        code: String::from_str("INTERNAL_ERROR"),
                        message: String::from_str("Failed to parse index response: ").concat(
                            c.as_str(),
                        ),
                    },
                );
            },
        };
        match CreateIndexResponse::of_value(&v) {
            Some(ack) => Ok(ToolResult::single(ack.to_value())),
            None => Err(
                ToolError {
                    code: String::from_str("INTERNAL_ERROR"),
                    message: String::from_str("Failed to parse index response: ").concat(
                        "the response body is not an index acknowledgment",
                    ),
                },
            ),
        }
    }

    /// The first half of the document-search handler: reads the
    /// configuration store and prepares the downstream call — the
    /// operation's fixed path joined onto the trimmed base URL, and the
    /// query body. Fails fast with `ConfigurationMissing` when no
    /// configuration is set, before any network work.
    pub fn search_documents(&self, store: &ConfigStore, req: &SearchDocumentsRequest) -> (r:
        Result<DownstreamCall, BridgeError>)
        ensures
            r is Ok <==> store.config() is Some,
            r matches Err(e) ==> e is ConfigurationMissing,
            store.config() matches Some(c) ==> (r matches Ok(call) && call.url@
                == trim_trailing_slashes(c.base_url@) + "/v1/search"@ && is_query_body(
                call.body,
                *req,
            )),
    {
        let config = match store.get() {
            Some(c) => c,
            None => {
                return Err(BridgeError::ConfigurationMissing);
            },
        };
        let url = join_url(&config.base_url, "/v1/search");
        let mut fields: Vec<(String, JsonValue)> = Vec::new();
        fields.push((String::from_str("query"), JsonValue::Text(req.query.clone())));
        fields.push((String::from_str("top_k"), JsonValue::Int(req.limit as i64)));
        fields.push((String::from_str("index"), JsonValue::Text(req.index_name.clone())));
        proof {
            reveal_strlit("query");
            reveal_strlit("top_k");
            reveal_strlit("index");
            let tail = fields@.drop_first();
            let tail2 = tail.drop_first();
            assert(tail =~= seq![fields@[1], fields@[2]]);
            assert(tail2 =~= seq![fields@[2]]);
            assert("query"@.len() == 5 && "top_k"@.len() == 5 && "index"@.len() == 5);
            assert("query"@[0] != "top_k"@[0] && "query"@[0] != "index"@[0] && "top_k"@[0]
                != "index"@[0]);
            assert(lookup_field(fields@, "query"@) == Some(fields@[0].1));
            assert(lookup_field(fields@, "top_k"@) == lookup_field(tail, "top_k"@));
            assert(lookup_field(tail, "top_k"@) == Some(tail[0].1));
            assert(lookup_field(fields@, "index"@) == lookup_field(tail, "index"@));
            assert(lookup_field(tail, "index"@) == lookup_field(tail2, "index"@));
            assert(lookup_field(tail2, "index"@) == Some(tail2[0].1));
        }
        Ok(DownstreamCall { url, body: JsonValue::Object(fields) })
    }

    /// The second half of the document-search handler: a failed round
    /// trip surfaces with this operation's own message — the downstream
    /// cause text embedded verbatim, never swallowed — while a returned
    /// body is parsed as the ranked hits and wrapped, order preserved,
    /// as exactly one content item. Nothing is retried.
    pub fn search_documents_result(&self, outcome: FetchOutcome) -> (r: Result<
        ToolResult,
        ToolError,
    >)
        ensures
            outcome matches FetchOutcome::NetworkError(c) ==> (r matches Err(e) && e.code@
                == "INTERNAL_ERROR"@ && e.message@ == "Failed to search documents: "@ + c@),
            outcome matches FetchOutcome::InvalidBody(c) ==> (r matches Err(e) && e.code@
                == "INTERNAL_ERROR"@ && e.message@ == "Failed to parse query response: "@ + c@),
            outcome matches FetchOutcome::Body(v) ==> {
                &&& (kw_response_wf(v) ==> (r matches Ok(tr) && tr.content@.len() == 1 && (
                tr.content@[0] matches ContentItem::Json(out) && kw_hit_values(out) matches Some(
                    outs,
                ) && kw_hit_values(v) matches Some(ins) && outs.len() == ins.len() && (forall|
                    i: int,
                |
                    0 <= i < ins.len() ==> parsed_kw_hit(#[trigger] outs[i]) == parsed_kw_hit(
                        ins[i],
                    )))))
                &&& (!kw_response_wf(v) ==> (r matches Err(e) && e.code@ == "INTERNAL_ERROR"@
                    && e.message@ == "Failed to parse query response: "@
                    + "the response value is not a well-formed hits object"@))
            },
    {
        let v = match outcome {
            FetchOutcome::Body(v) => v,
            FetchOutcome::NetworkError(c) => {
                return Err(
                    ToolError {
                        code: String::from_str("INTERNAL_ERROR"),
                        message: String::from_str("Failed to search documents: ").concat(
                            c.as_str(),
                        ),
                    },
                );
            },
            FetchOutcome::InvalidBody(c) => {
                return Err(
                    ToolError {
                        code: String::from_str("INTERNAL_ERROR"),
                        message: String::from_str("Failed to parse query response: ").concat(
                            c.as_str(),
                        ),
                    },
                );
            },
        };
        let resp = match SearchDocumentsResponse::of_value(&v) {
            Ok(resp) => resp,
            Err(_) => {
                return Err(
                    ToolError {
                        code: String::from_str("INTERNAL_ERROR"),
                        message: String::from_str("Failed to parse query response: ").concat(
                            "the response value is not a well-formed hits object",
                        ),
                    },
                );
            },
        };
        let out = resp.to_value();
        proof {
            let ins = kw_hit_values(v)->Some_0;
            let outs = kw_hit_values(out)->Some_0;
            assert forall|i: int| 0 <= i < ins.len() implies parsed_kw_hit(#[trigger] outs[i])
                == parsed_kw_hit(ins[i]) by {
                assert(parsed_kw_hit(outs[i]) == Some(resp.hits@[i]));
                assert(Some(resp.hits@[i]) == parsed_kw_hit(ins[i]));
            }
        }
        Ok(ToolResult::single(out))
    }
}

/// The parse failure for a response value that is not a hits object.
fn kw_shape_error() -> (r: BridgeError)
    ensures
        r matches BridgeError::DownstreamParseError { cause } && cause@
            == "the response value is not a well-formed hits object"@,
{
    BridgeError::DownstreamParseError {
        cause: String::from_str("the response value is not a well-formed hits object"),
    }
}

} // verus!
