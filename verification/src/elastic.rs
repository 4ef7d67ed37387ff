//! The index-listing tool of the search-engine service: its typed
//! request and response shapes and the argument-object codec. The
//! credential field is optional: a request without it is still valid.

use vstd::prelude::*;

use crate::error::BridgeError;
use crate::json::{get_field, lookup_field, JsonValue};
use crate::schema::{FieldKind, FieldSchema, ToolDescriptor};

verus! {

/// Arguments of the index-listing tool.
#[derive(Debug, PartialEq, Eq)]
pub struct ListIndicesRequest {
    pub base_url: String,
    pub api_key: Option<String>,
}

/// Response of the index-listing tool.
#[derive(Debug, PartialEq, Eq)]
pub struct ListIndicesResponse {
    pub indices: Vec<IndexInfo>,
}

/// One index as the search engine reports it.
#[derive(Debug, PartialEq, Eq)]
pub struct IndexInfo {
    /// current health status
    pub health: String,
    /// open/close status
    pub status: String,
    /// index name
    pub index: String,
    /// uuid
    pub uuid: String,
    /// number of primary shards
    pub pri: String,
    /// number of replica shards
    pub rep: String,
    /// available docs
    pub docs_count: String,
    /// deleted docs
    pub docs_deleted: String,
    /// store size
    pub store_size: String,
    /// primary shard size
    pub pri_store_size: String,
    /// dataset size
    pub dataset_size: String,
}

/// The typed request an argument object denotes: the base URL is
/// required text; the credential may be absent, null, or text, and a
/// request without one is valid.
pub open spec fn parsed_list_indices_request(args: Seq<(String, JsonValue)>) -> Option<
    ListIndicesRequest,
> {
    match lookup_field(args, "base_url"@) {
        Some(JsonValue::Text(base_url)) => match lookup_field(args, "api_key"@) {
            None => Some(ListIndicesRequest { base_url, api_key: None }),
            Some(JsonValue::Null) => Some(ListIndicesRequest { base_url, api_key: None }),
            Some(JsonValue::Text(k)) => Some(ListIndicesRequest { base_url, api_key: Some(k) }),
            Some(_) => None,
        },
        _ => None,
    }
}

impl ListIndicesRequest {
    /// The tool as the protocol lists it: the credential field is
    /// declared optional.
    pub fn descriptor() -> (r: ToolDescriptor)
        ensures
            r.name@ == "list_indices"@,
            r.input_schema@.len() == 2,
            r.input_schema@[0].name@ == "base_url"@,
            r.input_schema@[0].description@ == "the base url of the elasticsearch server"@,
            r.input_schema@[0].kind == FieldKind::Text,
            r.input_schema@[0].required,
            r.input_schema@[1].name@ == "api_key"@,
            r.input_schema@[1].description@ == "the api key of the elasticsearch server"@,
            r.input_schema@[1].kind == FieldKind::Text,
            !r.input_schema@[1].required,
    {
        let mut input_schema: Vec<FieldSchema> = Vec::new();
        input_schema.push(
            FieldSchema {
                name: String::from_str("base_url"),
                description: String::from_str("the base url of the elasticsearch server"),
                kind: FieldKind::Text,
                required: true,
            },
        );
        input_schema.push(
            FieldSchema {
                name: String::from_str("api_key"),
                description: String::from_str("the api key of the elasticsearch server"),
                kind: FieldKind::Text,
                required: false,
            },
        );
        ToolDescriptor {
            name: String::from_str("list_indices"),
            description: String::from_str("List the indices of an elasticsearch server"),
            input_schema,
        }
    }

    /// Serializes this request into the untyped argument object the
    /// protocol carries; an unset credential contributes no binding.
    pub fn encode_arguments(&self) -> (args: Vec<(String, JsonValue)>)
        ensures
            parsed_list_indices_request(args@) == Some(*self),
            args@[0].0@ == "base_url"@ && args@[0].1 == JsonValue::Text(self.base_url),
            self.api_key is None ==> args@.len() == 1,
            self.api_key matches Some(k) ==> args@.len() == 2 && args@[1].0@ == "api_key"@
                && args@[1].1 == JsonValue::Text(k),
    {
        let mut args: Vec<(String, JsonValue)> = Vec::new();
        args.push((String::from_str("base_url"), JsonValue::Text(self.base_url.clone())));
        match &self.api_key {
            Some(k) => {
                args.push((String::from_str("api_key"), JsonValue::Text(k.clone())));
                proof {
                    reveal_strlit("base_url");
                    reveal_strlit("api_key");
                    assert(args@.drop_first() =~= seq![args@[1]]);
                    assert(args@[0].0@ == "base_url"@);
                    assert("base_url"@.len() == 8 && "api_key"@.len() == 7);
                    assert(lookup_field(args@, "base_url"@) == Some(args@[0].1));
                    assert(lookup_field(args@, "api_key"@) == lookup_field(
                        args@.drop_first(),
                        "api_key"@,
                    ));
                    assert(lookup_field(args@.drop_first(), "api_key"@) == Some(args@[1].1));
                }
            },
            None => {
                proof {
                    reveal_strlit("base_url");
                    reveal_strlit("api_key");
                    assert(args@.drop_first() =~= Seq::<(String, JsonValue)>::empty());
                    assert("base_url"@.len() == 8 && "api_key"@.len() == 7);
                    assert(lookup_field(args@, "base_url"@) == Some(args@[0].1));
                    assert(lookup_field(args@, "api_key"@) == lookup_field(
                        args@.drop_first(),
                        "api_key"@,
                    ));
                    assert(lookup_field(args@, "api_key"@) is None);
                }
            },
        }
        args
    }

    /// Deserializes an argument object. A missing credential does not
    /// fail validation: the field is optional; only a mistyped binding
    /// or a missing base URL rejects the request, naming the field.
    pub fn parse_arguments(args: &Vec<(String, JsonValue)>) -> (r: Result<
        ListIndicesRequest,
        BridgeError,
    >)
        ensures
            r is Ok <==> parsed_list_indices_request(args@) is Some,
            r matches Ok(req) ==> parsed_list_indices_request(args@) == Some(req),
            r matches Err(e) ==> (e matches BridgeError::InvalidArguments { field } && (field@
                == "base_url"@ || field@ == "api_key"@)),
    {
        let base_url = match get_field(args, &String::from_str("base_url")) {
            Some(JsonValue::Text(s)) => s.clone(),
            _ => {
                return Err(BridgeError::InvalidArguments { field: String::from_str("base_url") });
            },
        };
        let api_key = match get_field(args, &String::from_str("api_key")) {
            None => None,
            Some(JsonValue::Null) => None,
            Some(JsonValue::Text(s)) => Some(s.clone()),
            Some(_) => {
                return Err(BridgeError::InvalidArguments { field: String::from_str("api_key") });
            },
        };
        Ok(ListIndicesRequest { base_url, api_key })
    }
}

/// Law: serializing a request into its argument object and deserializing
/// it back through the schema layer yields an equal request — whether or
/// not the optional credential is set.
pub fn list_indices_arguments_round_trip(r: &ListIndicesRequest) -> (d: ListIndicesRequest)
    ensures
        d == *r,
{
    let args = r.encode_arguments();
    match ListIndicesRequest::parse_arguments(&args) {
        Ok(d) => d,
        Err(_) => vstd::pervasive::unreached(),
    }
}

} // verus!
