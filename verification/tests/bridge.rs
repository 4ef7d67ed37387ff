use tool_bridge::adapter::{downstream_value, join_url, DownstreamCall, FetchOutcome};
use tool_bridge::config::{ConfigStore, ConnectionConfig};
use tool_bridge::dispatch::{Invocation, ToolRegistry};
use tool_bridge::elastic::{list_indices_arguments_round_trip, ListIndicesRequest};
use tool_bridge::envelope::{ContentItem, ToolResult};
use tool_bridge::error::BridgeError;
use tool_bridge::github::{star_arguments_round_trip, GetStarCountRequest, GetStarCountResponse};
use tool_bridge::json::{get_field, JsonValue};
use tool_bridge::kwsearch::{
    create_index_arguments_round_trip, search_arguments_round_trip, CreateIndexRequest,
    CreateIndexResponse, KeywordSearchServer, KwDocumentInput, SearchDocumentsRequest,
    SearchDocumentsResponse,
};
use tool_bridge::schema::validate_arguments;
use tool_bridge::tidb::{
    tidb_arguments_round_trip, TidbSearchHit, TidbSearchRequest, TidbSearchResponse,
};

fn text(s: &str) -> JsonValue {
    JsonValue::Text(s.to_string())
}

fn field(name: &str, v: JsonValue) -> (String, JsonValue) {
    (name.to_string(), v)
}

fn kwsearch_registry() -> ToolRegistry {
    ToolRegistry {
        tools: KeywordSearchServer.descriptors(),
    }
}

fn configured_store(base_url: &str) -> ConfigStore {
    let mut store = ConfigStore::new();
    store.initialize(ConnectionConfig {
        base_url: base_url.to_string(),
        api_key: None,
    });
    store
}

#[test]
fn registry_names_are_unique_and_duplicates_are_caught() {
    let registry = kwsearch_registry();
    assert!(registry.well_formed());
    let mut tools = KeywordSearchServer.descriptors();
    tools.extend(KeywordSearchServer.descriptors());
    let duplicated = ToolRegistry { tools };
    assert!(!duplicated.well_formed());
}

#[test]
fn config_store_starts_unset() {
    let store = ConfigStore::new();
    assert!(store.get().is_none());
}

#[test]
fn config_store_snapshot_is_whole_value() {
    let mut store = ConfigStore::new();
    store.initialize(ConnectionConfig {
        base_url: "http://127.0.0.1:12306".to_string(),
        api_key: Some("SECRET-REDACTED".to_string()),
    });
    let snapshot = store.get().unwrap();
    assert_eq!(snapshot.base_url, "http://127.0.0.1:12306");
    assert_eq!(snapshot.api_key.as_deref(), Some("SECRET-REDACTED"));
}

#[test]
fn config_store_reconfiguration_keeps_snapshots_consistent() {
    let mut store = ConfigStore::new();
    store.initialize(ConnectionConfig {
        base_url: "http://first:1".to_string(),
        api_key: None,
    });
    let before = store.get().unwrap();
    store.initialize(ConnectionConfig {
        base_url: "http://second:2".to_string(),
        api_key: Some("SECRET-REDACTED".to_string()),
    });
    let after = store.get().unwrap();
    // Each snapshot is one configuration in full, never a mixture.
    assert_eq!(before.base_url, "http://first:1");
    assert!(before.api_key.is_none());
    assert_eq!(after.base_url, "http://second:2");
    assert!(after.api_key.is_some());
}

#[test]
fn unknown_tool_yields_tool_not_found_error() {
    let registry = kwsearch_registry();
    let mut invocation = Invocation::new();
    let args: Vec<(String, JsonValue)> = Vec::new();
    let r = invocation.validate(&registry, &"no_such_tool".to_string(), &args);
    assert!(r.is_err());
    let error = invocation.outcome().unwrap_err();
    assert_eq!(error.code, "INTERNAL_ERROR");
    assert_eq!(error.message, "Tool not found: no_such_tool");
}

#[test]
fn invalid_arguments_rejected_naming_first_failed_field() {
    let registry = kwsearch_registry();
    let mut invocation = Invocation::new();
    // `name` is present but `documents` is missing.
    let args = vec![field("name", text("mcp-test"))];
    let r = invocation.validate(&registry, &"create_index".to_string(), &args);
    assert!(r.is_err());
    let error = invocation.outcome().unwrap_err();
    assert_eq!(
        error.message,
        "Invalid arguments: required field is missing or has the wrong type: documents"
    );
}

#[test]
fn valid_invocation_succeeds_with_exactly_one_content_item() {
    let registry = kwsearch_registry();
    let mut invocation = Invocation::new();
    let args = vec![
        field("index_name", text("mcp-test")),
        field("query", text("Gaianet")),
        field("limit", JsonValue::Int(2)),
    ];
    let tool = invocation
        .validate(&registry, &"search_documents".to_string(), &args)
        .unwrap();
    assert_eq!(tool, 1);
    invocation.begin();
    invocation.succeed(JsonValue::Object(vec![field("hits", JsonValue::Array(vec![]))]));
    let result = invocation.outcome().unwrap();
    assert_eq!(result.content.len(), 1);
}

#[test]
fn optional_api_key_absence_still_validates() {
    let descriptor = ListIndicesRequest::descriptor();
    let args = vec![field("base_url", text("http://localhost:9200"))];
    assert!(validate_arguments(&descriptor.input_schema, &args).is_ok());
    let parsed = ListIndicesRequest::parse_arguments(&args).unwrap();
    assert_eq!(parsed.base_url, "http://localhost:9200");
    assert!(parsed.api_key.is_none());
}

#[test]
fn missing_base_url_fails_validation_naming_it() {
    let descriptor = ListIndicesRequest::descriptor();
    let args: Vec<(String, JsonValue)> = Vec::new();
    match validate_arguments(&descriptor.input_schema, &args) {
        Err(BridgeError::InvalidArguments { field }) => assert_eq!(field, "base_url"),
        other => panic!("expected an invalid-arguments error, got {:?}", other),
    }
}

#[test]
fn star_request_arguments_round_trip() {
    let request = GetStarCountRequest {
        owner: "WasmEdge".to_string(),
        repo: "WasmEdge".to_string(),
    };
    let back = star_arguments_round_trip(&request);
    assert_eq!(back, request);
}

#[test]
fn tidb_request_arguments_round_trip() {
    let request = TidbSearchRequest {
        query: "what is TiDB".to_string(),
    };
    let back = tidb_arguments_round_trip(&request);
    assert_eq!(back, request);
}

#[test]
fn list_indices_request_round_trips_with_and_without_key() {
    let with_key = ListIndicesRequest {
        base_url: "http://localhost:9200".to_string(),
        api_key: Some("SECRET-REDACTED".to_string()),
    };
    assert_eq!(list_indices_arguments_round_trip(&with_key), with_key);
    let without_key = ListIndicesRequest {
        base_url: "http://localhost:9200/".to_string(),
        api_key: None,
    };
    assert_eq!(list_indices_arguments_round_trip(&without_key), without_key);
}

#[test]
fn create_index_request_arguments_round_trip() {
    let request = CreateIndexRequest {
        name: "mcp-test".to_string(),
        documents: vec![
            KwDocumentInput {
                content: "first paragraph".to_string(),
                title: Some("section 1".to_string()),
            },
            KwDocumentInput {
                content: "second paragraph".to_string(),
                title: None,
            },
        ],
    };
    let back = create_index_arguments_round_trip(&request);
    assert_eq!(back.name, request.name);
    assert_eq!(back.documents, request.documents);
}

#[test]
fn search_request_arguments_round_trip() {
    let request = SearchDocumentsRequest {
        index_name: "mcp-test".to_string(),
        query: "Gaianet".to_string(),
        limit: 2,
    };
    let back = search_arguments_round_trip(&request);
    assert_eq!(back, request);
}

#[test]
fn star_response_decodes_from_envelope() {
    let value = JsonValue::Object(vec![field("count", JsonValue::Int(1234))]);
    let result = ToolResult::single(value);
    let response = GetStarCountResponse::from_tool_result(&result).unwrap();
    assert_eq!(response, GetStarCountResponse { count: 1234 });
}

#[test]
fn star_response_out_of_range_count_is_parse_error() {
    let value = JsonValue::Object(vec![field("count", JsonValue::Int(-1))]);
    let result = ToolResult::single(value);
    match GetStarCountResponse::from_tool_result(&result) {
        Err(BridgeError::DownstreamParseError { .. }) => {}
        other => panic!("expected a downstream parse error, got {:?}", other),
    }
}

#[test]
fn empty_envelope_decodes_to_default_star_response() {
    let result = ToolResult::empty();
    let response = GetStarCountResponse::from_tool_result(&result).unwrap();
    assert_eq!(response.count, 0);
}

#[test]
fn empty_envelope_decodes_to_default_search_response() {
    let result = ToolResult::empty();
    let response = SearchDocumentsResponse::from_tool_result(&result).unwrap();
    assert!(response.hits.is_empty());
    let ack = CreateIndexResponse::from_tool_result(&result).unwrap();
    assert_eq!(ack.index, "");
    assert!(!ack.created);
}

#[test]
fn tidb_response_decodes_hits_in_order() {
    let hit = |id: i64, title: &str| {
        JsonValue::Object(vec![
            field("id", JsonValue::Int(id)),
            field("title", text(title)),
            field("content", text("body")),
        ])
    };
    let value = JsonValue::Object(vec![field(
        "hits",
        JsonValue::Array(vec![hit(1, "first"), hit(2, "second")]),
    )]);
    let result = ToolResult::single(value);
    let response = TidbSearchResponse::from_tool_result(&result).unwrap();
    assert_eq!(
        response,
        TidbSearchResponse {
            hits: vec![
                TidbSearchHit {
                    id: 1,
                    title: "first".to_string(),
                    content: "body".to_string(),
                },
                TidbSearchHit {
                    id: 2,
                    title: "second".to_string(),
                    content: "body".to_string(),
                },
            ],
        }
    );
}

#[test]
fn join_url_trims_trailing_slashes_only() {
    assert_eq!(
        join_url(&"http://127.0.0.1:12306///".to_string(), "/v1/search"),
        "http://127.0.0.1:12306/v1/search"
    );
    assert_eq!(
        join_url(&"http://127.0.0.1:12306".to_string(), "/v1/index/create"),
        "http://127.0.0.1:12306/v1/index/create"
    );
}

#[test]
fn first_binding_wins_on_repeated_keys() {
    let args = vec![field("query", text("first")), field("query", text("second"))];
    match get_field(&args, &"query".to_string()) {
        Some(JsonValue::Text(s)) => assert_eq!(s, "first"),
        other => panic!("expected the first binding, got {:?}", other),
    }
}

#[test]
fn non_json_body_surfaces_parse_error_with_cause() {
    let cause = "expected value at line 1 column 1".to_string();
    match downstream_value(FetchOutcome::InvalidBody(cause.clone())) {
        Err(BridgeError::DownstreamParseError { cause: c }) => assert_eq!(c, cause),
        other => panic!("expected a downstream parse error, got {:?}", other),
    }
    let error = KeywordSearchServer
        .create_index_result(FetchOutcome::InvalidBody(cause.clone()))
        .unwrap_err();
    assert_eq!(error.code, "INTERNAL_ERROR");
    assert_eq!(
        error.message,
        "Failed to parse index response: expected value at line 1 column 1"
    );
    let error = KeywordSearchServer
        .search_documents_result(FetchOutcome::InvalidBody(cause.clone()))
        .unwrap_err();
    assert_eq!(
        error.message,
        "Failed to parse query response: expected value at line 1 column 1"
    );
}

#[test]
fn network_failure_surfaces_unreachable_with_cause() {
    let error = KeywordSearchServer
        .search_documents_result(FetchOutcome::NetworkError("connection refused".to_string()))
        .unwrap_err();
    assert_eq!(error.code, "INTERNAL_ERROR");
    assert_eq!(error.message, "Failed to search documents: connection refused");
    let error = KeywordSearchServer
        .create_index_result(FetchOutcome::NetworkError("connection refused".to_string()))
        .unwrap_err();
    assert_eq!(error.code, "INTERNAL_ERROR");
    assert_eq!(error.message, "Failed to create index: connection refused");
}

#[test]
fn create_index_without_configuration_fails_fast() {
    let store = ConfigStore::new();
    let request = CreateIndexRequest {
        name: "mcp-test".to_string(),
        documents: vec![],
    };
    match KeywordSearchServer.create_index(&store, &request) {
        Err(e @ BridgeError::ConfigurationMissing) => {
            assert_eq!(e.message(), "Connection config not found");
        }
        other => panic!("expected a missing-configuration error, got {:?}", other),
    }
}

#[test]
fn create_index_call_builds_url_and_body() {
    let store = configured_store("http://127.0.0.1:12306/");
    let request = CreateIndexRequest {
        name: "mcp-test".to_string(),
        documents: vec![KwDocumentInput {
            content: "Gaianet is a distributed AI network.".to_string(),
            title: Some("section 1".to_string()),
        }],
    };
    let DownstreamCall { url, body } = KeywordSearchServer.create_index(&store, &request).unwrap();
    assert_eq!(url, "http://127.0.0.1:12306/v1/index/create");
    match body {
        JsonValue::Object(fields) => {
            assert_eq!(fields[0].0, "index");
            assert_eq!(fields[0].1, text("mcp-test"));
            assert_eq!(fields[1].0, "documents");
        }
        other => panic!("expected an object body, got {:?}", other),
    }
}

#[test]
fn search_two_document_index_returns_at_most_two_full_hits() {
    // The worked example: a two-document index about a distributed AI
    // network, queried for "Gaianet" with a limit of 2.
    let store = configured_store("http://127.0.0.1:12306");
    let request = SearchDocumentsRequest {
        index_name: "mcp-test".to_string(),
        query: "Gaianet".to_string(),
        limit: 2,
    };
    let call = KeywordSearchServer.search_documents(&store, &request).unwrap();
    assert_eq!(call.url, "http://127.0.0.1:12306/v1/search");

    let hit = |id: i64, title: &str, content: &str| {
        JsonValue::Object(vec![
            field("id", JsonValue::Int(id)),
            field("title", text(title)),
            field("content", text(content)),
        ])
    };
    let body = JsonValue::Object(vec![field(
        "hits",
        JsonValue::Array(vec![
            hit(1, "section 1", "Gaianet is revolutionizing the AI landscape."),
            hit(2, "section 2", "The inception of Gaianet is driven by necessity."),
        ]),
    )]);
    let envelope = KeywordSearchServer
        .search_documents_result(FetchOutcome::Body(body))
        .unwrap();
    let response = SearchDocumentsResponse::from_tool_result(&envelope).unwrap();
    assert!(response.hits.len() <= 2);
    assert_eq!(response.hits.len(), 2);
    for hit in &response.hits {
        assert!(!hit.title.is_empty());
        assert!(!hit.content.is_empty());
    }
    assert_eq!(response.hits[0].id, 1);
    assert_eq!(response.hits[1].id, 2);
}

#[test]
fn get_info_reports_instructions_and_tools() {
    let info = KeywordSearchServer.get_info();
    assert_eq!(
        info.instructions.as_deref(),
        Some("A MCP server that can access the KeywordSearch database")
    );
    assert!(info.tools_enabled);
}

#[test]
fn every_failure_kind_keeps_the_uniform_code_and_a_distinct_message() {
    let errors = vec![
        BridgeError::InvalidArguments {
            field: "owner".to_string(),
        },
        BridgeError::ToolNotFound {
            name: "get_star_count".to_string(),
        },
        BridgeError::ConfigurationMissing,
        BridgeError::DownstreamUnreachable {
            cause: "connection refused".to_string(),
        },
        BridgeError::DownstreamParseError {
            cause: "expected value".to_string(),
        },
        BridgeError::ProtocolEnvelopeEmpty,
    ];
    let mut messages: Vec<String> = Vec::new();
    for e in &errors {
        let protocol = e.to_protocol_error();
        assert_eq!(protocol.code, "INTERNAL_ERROR");
        assert!(!messages.contains(&protocol.message));
        messages.push(protocol.message);
    }
}

#[test]
fn mistyped_binding_fails_validation_naming_the_field() {
    let registry = kwsearch_registry();
    let mut invocation = Invocation::new();
    // `limit` is bound, but to text instead of an integer.
    let args = vec![
        field("index_name", text("mcp-test")),
        field("query", text("Gaianet")),
        field("limit", text("two")),
    ];
    let r = invocation.validate(&registry, &"search_documents".to_string(), &args);
    assert!(r.is_err());
    let error = invocation.outcome().unwrap_err();
    assert_eq!(
        error.message,
        "Invalid arguments: required field is missing or has the wrong type: limit"
    );
}

#[test]
fn null_title_and_null_api_key_read_as_unset() {
    let args = vec![
        field("base_url", text("http://localhost:9200")),
        field("api_key", JsonValue::Null),
    ];
    let parsed = ListIndicesRequest::parse_arguments(&args).unwrap();
    assert!(parsed.api_key.is_none());

    let doc = JsonValue::Object(vec![
        field("content", text("a paragraph")),
        field("title", JsonValue::Null),
    ]);
    let args = vec![
        field("name", text("mcp-test")),
        field("documents", JsonValue::Array(vec![doc])),
    ];
    let parsed = CreateIndexRequest::parse_arguments(&args).unwrap();
    assert!(parsed.documents[0].title.is_none());
}

#[test]
fn tidb_hit_id_out_of_range_is_parse_error() {
    let hit = JsonValue::Object(vec![
        field("id", JsonValue::Int(i64::from(i32::MAX) + 1)),
        field("title", text("too big")),
        field("content", text("body")),
    ]);
    let value = JsonValue::Object(vec![field("hits", JsonValue::Array(vec![hit]))]);
    let result = ToolResult::single(value);
    match TidbSearchResponse::from_tool_result(&result) {
        Err(BridgeError::DownstreamParseError { .. }) => {}
        other => panic!("expected a downstream parse error, got {:?}", other),
    }
}

#[test]
fn create_index_acknowledgment_round_trips_through_the_envelope() {
    let body = JsonValue::Object(vec![
        field("index", text("mcp-test")),
        field("created", JsonValue::Bool(true)),
    ]);
    let envelope = KeywordSearchServer
        .create_index_result(FetchOutcome::Body(body))
        .unwrap();
    assert_eq!(envelope.content.len(), 1);
    let ack = CreateIndexResponse::from_tool_result(&envelope).unwrap();
    assert_eq!(ack.index, "mcp-test");
    assert!(ack.created);
}

#[test]
fn malformed_acknowledgment_body_is_reported_not_defaulted() {
    let body = JsonValue::Object(vec![field("unexpected", JsonValue::Bool(true))]);
    let error = KeywordSearchServer
        .create_index_result(FetchOutcome::Body(body))
        .unwrap_err();
    assert_eq!(error.code, "INTERNAL_ERROR");
    assert_eq!(
        error.message,
        "Failed to parse index response: the response body is not an index acknowledgment"
    );
}

#[test]
fn error_envelope_is_surfaced_not_parsed() {
    let error = tool_bridge::error::ToolError {
        code: "INTERNAL_ERROR".to_string(),
        message: "Connection config not found".to_string(),
    };
    match GetStarCountResponse::from_envelope(Err(error)) {
        Err(e) => {
            assert_eq!(e.code, "INTERNAL_ERROR");
            assert_eq!(e.message, "Connection config not found");
        }
        Ok(other) => panic!("expected the error to surface, got {:?}", other),
    }
    let success = ToolResult::single(JsonValue::Object(vec![field(
        "count",
        JsonValue::Int(7),
    )]));
    let response = GetStarCountResponse::from_envelope(Ok(success)).unwrap();
    assert_eq!(response.count, 7);
    let empty = SearchDocumentsResponse::from_envelope(Ok(ToolResult::empty())).unwrap();
    assert!(empty.hits.is_empty());

    // A well-formed hits envelope decodes to exactly those hits, and a
    // malformed primary item is an error, not a silent default.
    let hits = JsonValue::Object(vec![field(
        "hits",
        JsonValue::Array(vec![JsonValue::Object(vec![
            field("id", JsonValue::Int(9)),
            field("title", text("only hit")),
            field("content", text("body")),
        ])]),
    )]);
    let decoded =
        SearchDocumentsResponse::from_envelope(Ok(ToolResult::single(hits))).unwrap();
    assert_eq!(decoded.hits.len(), 1);
    assert_eq!(decoded.hits[0].id, 9);
    let malformed = ToolResult::single(JsonValue::Bool(true));
    assert!(SearchDocumentsResponse::from_envelope(Ok(malformed)).is_err());
    let malformed = ToolResult::single(JsonValue::Bool(true));
    assert!(GetStarCountResponse::from_envelope(Ok(malformed)).is_err());
}

#[test]
fn empty_envelope_has_no_primary_item() {
    let result = ToolResult::empty();
    assert!(result.primary().is_none());
    match result.primary_required() {
        Err(BridgeError::ProtocolEnvelopeEmpty) => {}
        other => panic!("expected the empty-envelope error, got {:?}", other),
    }
    let single = ToolResult::single(JsonValue::Null);
    assert_eq!(single.primary(), Some(&ContentItem::Json(JsonValue::Null)));
}
