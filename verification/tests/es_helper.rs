use huttripper::helpers::es_helper::{
    create_es_helper, DeleteIndexAction, DeleteIndexProgress, ESHelper,
    ElasticsearchBulkIndexError, ElasticsearchCreateClientError, ElasticsearchCreateIndexError,
    ElasticsearchDeleteIndexError, ElasticsearchHit, ElasticsearchSearchError, EsReply, Status,
};
use huttripper::json::Json;

fn helper() -> ESHelper {
    create_es_helper("http://localhost:9200", "elastic", "secret").unwrap()
}

fn response(code: u16, body: &str) -> EsReply {
    EsReply::Response { status: Status::new(code).unwrap(), body: Ok(body.to_string()) }
}

fn unread(code: u16) -> EsReply {
    EsReply::Response {
        status: Status::new(code).unwrap(),
        body: Err("connection reset".to_string()),
    }
}

fn text(s: &str) -> Json {
    Json::Text(s.to_string())
}

fn object(members: Vec<(&str, Json)>) -> Json {
    Json::Object(members.into_iter().map(|(k, v)| (k.to_string(), v)).collect())
}

fn hit(id: &str, score: &str, source: Json) -> ElasticsearchHit {
    ElasticsearchHit {
        _id: id.to_string(),
        _index: "huts".to_string(),
        _score: score.to_string(),
        _source: source,
    }
}

#[test]
fn create_es_helper_keeps_the_parsed_url_and_the_credentials() {
    let helper = create_es_helper("http://localhost:9200", "elastic", "secret").unwrap();
    assert_eq!(helper.url, "http://localhost:9200/");
    assert_eq!(helper.user, "elastic");
    assert_eq!(helper.password, "secret");
    assert!(helper.accept_invalid_certificates);
    assert!(helper.examine_bulk_items);
}

#[test]
fn create_es_helper_refuses_a_malformed_url() {
    let refused = create_es_helper("not a url", "elastic", "secret");
    assert_eq!(
        refused,
        Err(ElasticsearchCreateClientError { message: "relative URL without a base".to_string() })
    );
}

#[test]
fn from_parsed_url_maps_both_outcomes() {
    let made = ESHelper::from_parsed_url(Ok("https://es.example/".to_string()), "u", "p").unwrap();
    assert_eq!(made.url, "https://es.example/");
    assert_eq!(made.user, "u");
    assert_eq!(made.password, "p");
    let refused = ESHelper::from_parsed_url(Err("empty host".to_string()), "u", "p");
    assert_eq!(refused, Err(ElasticsearchCreateClientError { message: "empty host".to_string() }));
}

#[test]
fn status_accepts_one_hundred_to_nine_hundred_ninety_nine() {
    assert!(Status::new(99).is_none());
    assert!(Status::new(1000).is_none());
    assert!(Status::new(0).is_none());
    assert_eq!(Status::new(100).unwrap().as_u16(), 100);
    assert_eq!(Status::new(999).unwrap().as_u16(), 999);
}

#[test]
fn status_success_is_two_hundred_to_two_hundred_ninety_nine() {
    assert!(!Status::new(199).unwrap().is_success());
    assert!(Status::new(200).unwrap().is_success());
    assert!(Status::new(299).unwrap().is_success());
    assert!(!Status::new(300).unwrap().is_success());
    assert!(!Status::new(404).unwrap().is_success());
}

#[test]
fn delete_index_begins_by_asking_whether_the_index_exists() {
    assert_eq!(helper().delete_index(DeleteIndexProgress::Begin), DeleteIndexAction::CheckExists);
}

#[test]
fn delete_index_of_an_absent_index_succeeds_without_deleting() {
    let action = helper().delete_index(DeleteIndexProgress::ExistsReplied(response(404, "")));
    assert_eq!(action, DeleteIndexAction::Finish(Ok(())));
    let action = helper().delete_index(DeleteIndexProgress::ExistsReplied(unread(500)));
    assert_eq!(action, DeleteIndexAction::Finish(Ok(())));
}

#[test]
fn delete_index_of_an_existing_index_asks_to_delete() {
    let action = helper().delete_index(DeleteIndexProgress::ExistsReplied(response(200, "")));
    assert_eq!(action, DeleteIndexAction::Delete);
}

#[test]
fn delete_index_fails_when_a_request_brings_no_response() {
    let failed = || EsReply::Failed("connection refused".to_string());
    let expected = DeleteIndexAction::Finish(Err(ElasticsearchDeleteIndexError {
        message: "connection refused".to_string(),
    }));
    assert_eq!(helper().delete_index(DeleteIndexProgress::ExistsReplied(failed())), expected);
    assert_eq!(helper().delete_index(DeleteIndexProgress::DeleteReplied(failed())), expected);
}

#[test]
fn delete_index_succeeds_when_the_delete_is_accepted() {
    let action = helper().delete_index(DeleteIndexProgress::DeleteReplied(response(200, "{}")));
    assert_eq!(action, DeleteIndexAction::Finish(Ok(())));
}

#[test]
fn delete_index_reports_the_status_line_and_the_body() {
    let action = helper().delete_index(DeleteIndexProgress::DeleteReplied(response(500, "oops")));
    assert_eq!(
        action,
        DeleteIndexAction::Finish(Err(ElasticsearchDeleteIndexError {
            message: "non success status code received when trying to delete index: 500 Internal Server Error: oops"
                .to_string(),
        }))
    );
}

#[test]
fn delete_index_reports_a_body_that_could_not_be_read() {
    let action = helper().delete_index(DeleteIndexProgress::DeleteReplied(unread(403)));
    assert_eq!(
        action,
        DeleteIndexAction::Finish(Err(ElasticsearchDeleteIndexError {
            message: "non success status code received when trying to delete index: 403 Forbidden: failed to get text from elasticsearch response body"
                .to_string(),
        }))
    );
}

#[test]
fn delete_index_runs_from_begin_to_finish() {
    let helper = helper();
    let mut sent = Vec::new();
    let mut action = helper.delete_index(DeleteIndexProgress::Begin);
    let result = loop {
        action = match action {
            DeleteIndexAction::CheckExists => {
                sent.push("exists");
                helper.delete_index(DeleteIndexProgress::ExistsReplied(response(200, "")))
            }
            DeleteIndexAction::Delete => {
                sent.push("delete");
                helper.delete_index(DeleteIndexProgress::DeleteReplied(response(200, "")))
            }
            DeleteIndexAction::Finish(result) => break result,
        };
    };
    assert_eq!(result, Ok(()));
    assert_eq!(sent, vec!["exists", "delete"]);
}

#[test]
fn create_index_succeeds_on_a_success_status() {
    assert_eq!(helper().create_index(response(200, "{\"acknowledged\":true}")), Ok(()));
    assert_eq!(helper().create_index(unread(201)), Ok(()));
}

#[test]
fn create_index_reports_the_status_number_and_the_body() {
    assert_eq!(
        helper().create_index(response(400, "resource_already_exists_exception")),
        Err(ElasticsearchCreateIndexError {
            message: "non success status code received when trying to create index: 400: resource_already_exists_exception"
                .to_string(),
        })
    );
}

#[test]
fn create_index_reports_a_body_that_could_not_be_read() {
    assert_eq!(
        helper().create_index(unread(503)),
        Err(ElasticsearchCreateIndexError {
            message: "non success status code received when trying to create index: 503: failed to get text from elasticsearch response body"
                .to_string(),
        })
    );
}

#[test]
fn create_index_fails_when_the_request_brings_no_response() {
    assert_eq!(
        helper().create_index(EsReply::Failed("timed out".to_string())),
        Err(ElasticsearchCreateIndexError { message: "timed out".to_string() })
    );
}

#[test]
fn bulk_index_succeeds_on_a_success_status() {
    assert_eq!(helper().bulk_index(response(200, "{\"errors\":false,\"items\":[]}")), Ok(()));
    assert_eq!(helper().bulk_index(response(200, "no json")), Ok(()));
    assert_eq!(helper().bulk_index(response(201, "{\"items\":[{\"error\":\"x\"}]}")), Ok(()));
    assert_eq!(helper().bulk_index(unread(200)), Ok(()));
}

#[test]
fn bulk_index_examines_a_success_response_for_failed_items() {
    let body = "{\"errors\":true,\"items\":[{\"index\":{\"_id\":\"1\",\"status\":201}},{\"index\":{\"_id\":\"2\",\"status\":400,\"error\":{\"reason\":\"bad \\\"field\\\"\"}}}]}";
    assert_eq!(
        helper().bulk_index(response(200, body)),
        Err(ElasticsearchBulkIndexError {
            message: "failed to bulk index items: [{\"index\":{\"_id\":\"2\",\"error\":{\"reason\":\"bad \\\"field\\\"\"},\"status\":400}}]"
                .to_string(),
        })
    );
}

#[test]
fn bulk_index_trusts_a_success_status_when_told_not_to_examine() {
    let mut trusting = helper();
    trusting.examine_bulk_items = false;
    let body = "{\"errors\":true,\"items\":[{\"index\":{\"error\":\"x\"}}]}";
    assert_eq!(trusting.bulk_index(response(200, body)), Ok(()));
    assert_eq!(
        trusting.bulk_index(response(400, body)),
        Err(ElasticsearchBulkIndexError {
            message: "non success status code received when trying to bulk index: 400 Bad Request: [{\"index\":{\"error\":\"x\"}}]"
                .to_string(),
        })
    );
}

#[test]
fn failed_items_report_is_there_only_for_itemized_responses() {
    assert_eq!(ESHelper::failed_items_report(&Err("no json".to_string())), None);
    assert_eq!(ESHelper::failed_items_report(&Ok(object(vec![]))), None);
    assert_eq!(
        ESHelper::failed_items_report(&Ok(object(vec![("errors", Json::Bool(false))]))),
        None
    );
    assert_eq!(
        ESHelper::failed_items_report(&Ok(object(vec![("errors", Json::Bool(true))]))),
        Some("[]".to_string())
    );
}

#[test]
fn bulk_index_fails_when_the_request_brings_no_response() {
    assert_eq!(
        helper().bulk_index(EsReply::Failed("timed out".to_string())),
        Err(ElasticsearchBulkIndexError { message: "timed out".to_string() })
    );
}

#[test]
fn bulk_index_reports_only_the_failed_item() {
    let body = "{\"errors\": true, \"items\":[{\"index\":{\"error\":\"x\"}}]}";
    assert_eq!(
        helper().bulk_index(response(400, body)),
        Err(ElasticsearchBulkIndexError {
            message: "non success status code received when trying to bulk index: 400 Bad Request: [{\"index\":{\"error\":\"x\"}}]"
                .to_string(),
        })
    );
}

#[test]
fn bulk_index_leaves_out_the_items_that_succeeded() {
    let body = "{\"errors\":true,\"items\":[{\"index\":{\"_id\":\"1\",\"status\":201}},{\"index\":{\"_id\":\"2\",\"error\":{\"type\":\"mapper\"}}},{\"index\":{\"_id\":\"3\",\"error\":null}},{\"error\":\"y\"}]}";
    assert_eq!(
        helper().bulk_index(response(400, body)),
        Err(ElasticsearchBulkIndexError {
            message: "non success status code received when trying to bulk index: 400 Bad Request: [{\"index\":{\"_id\":\"2\",\"error\":{\"type\":\"mapper\"}}},{\"error\":\"y\"}]"
                .to_string(),
        })
    );
}

#[test]
fn bulk_index_reports_the_raw_body_without_itemized_errors() {
    let body = "{\"errors\":false,\"items\":[{\"index\":{\"error\":\"x\"}}]}";
    let mut expected =
        "non success status code received when trying to bulk index: 500 Internal Server Error: "
            .to_string();
    expected.push_str(body);
    assert_eq!(
        helper().bulk_index(response(500, body)),
        Err(ElasticsearchBulkIndexError { message: expected })
    );
}

#[test]
fn bulk_index_reports_the_raw_body_that_is_no_json() {
    assert_eq!(
        helper().bulk_index(response(502, "<html>bad gateway</html>")),
        Err(ElasticsearchBulkIndexError {
            message: "non success status code received when trying to bulk index: 502 Bad Gateway: <html>bad gateway</html>"
                .to_string(),
        })
    );
}

#[test]
fn bulk_index_reports_a_body_that_could_not_be_read() {
    assert_eq!(
        helper().bulk_index(unread(429)),
        Err(ElasticsearchBulkIndexError {
            message: "non success status code received when trying to bulk index: 429 Too Many Requests: failed to get text from elasticsearch response body"
                .to_string(),
        })
    );
}

#[test]
fn bulk_index_reports_an_itemized_response_without_items_as_an_empty_list() {
    assert_eq!(
        helper().bulk_index(response(400, "{\"errors\":true}")),
        Err(ElasticsearchBulkIndexError {
            message: "non success status code received when trying to bulk index: 400 Bad Request: []"
                .to_string(),
        })
    );
}

#[test]
fn failed_bulk_entries_keeps_the_order_of_the_failures() {
    let ok = object(vec![("index", object(vec![("status", Json::Number("201".to_string()))]))]);
    let first = object(vec![("index", object(vec![("error", text("a"))]))]);
    let second = object(vec![("error", text("b"))]);
    let entries = vec![first.clone(), ok.clone(), second.clone(), ok];
    assert_eq!(ESHelper::failed_bulk_entries(&entries), vec![first, second]);
    assert_eq!(ESHelper::failed_bulk_entries(&Vec::new()), Vec::<Json>::new());
}

#[test]
fn bulk_failure_reason_takes_the_text_unless_errors_is_true() {
    let raw = "raw".to_string();
    assert_eq!(ESHelper::bulk_failure_reason(raw.clone(), &Err("no json".to_string())), "raw");
    let not_itemized = Ok(object(vec![("errors", text("true"))]));
    assert_eq!(ESHelper::bulk_failure_reason(raw.clone(), &not_itemized), "raw");
    let itemized = Ok(object(vec![
        ("errors", Json::Bool(true)),
        ("items", Json::Array(vec![object(vec![("error", text("e"))])])),
    ]));
    assert_eq!(ESHelper::bulk_failure_reason(raw, &itemized), "[{\"error\":\"e\"}]");
}

#[test]
fn search_reads_the_hits_in_their_order() {
    let body = "{\"took\":3,\"hits\":{\"total\":2,\"hits\":[{\"_id\":\"a\",\"_index\":\"huts\",\"_score\":1.5,\"_source\":{\"name\":\"Alpha\"},\"_type\":\"_doc\"},{\"_id\":\"b\",\"_index\":\"huts\",\"_score\":2,\"_source\":null}]}}";
    let hits = helper().search(response(200, body)).unwrap();
    assert_eq!(
        hits,
        vec![
            ElasticsearchHit {
                _id: "a".to_string(),
                _index: "huts".to_string(),
                _score: "1.5".to_string(),
                _source: object(vec![("name", text("Alpha"))]),
            },
            ElasticsearchHit {
                _id: "b".to_string(),
                _index: "huts".to_string(),
                _score: "2".to_string(),
                _source: Json::Null,
            },
        ]
    );
}

#[test]
fn search_without_hits_finds_nothing() {
    assert_eq!(helper().search(response(200, "{}")), Ok(vec![]));
    assert_eq!(helper().search(response(200, "{\"hits\":{}}")), Ok(vec![]));
    assert_eq!(helper().search(response(200, "{\"hits\":{\"hits\":7}}")), Ok(vec![]));
    assert_eq!(helper().search(response(200, "{\"hits\":{\"hits\":[]}}")), Ok(vec![]));
    assert_eq!(helper().search(response(200, "[1,2]")), Ok(vec![]));
}

#[test]
fn search_reports_the_status_line_and_the_body() {
    assert_eq!(
        helper().search(response(404, "no such index")),
        Err(ElasticsearchSearchError {
            message: "non success status code received when trying to search: 404 Not Found: no such index"
                .to_string(),
        })
    );
}

#[test]
fn search_reports_a_body_that_could_not_be_read() {
    assert_eq!(
        helper().search(unread(500)),
        Err(ElasticsearchSearchError {
            message: "non success status code received when trying to search: 500 Internal Server Error: failed to get text from elasticserach response body"
                .to_string(),
        })
    );
    assert_eq!(
        helper().search(unread(200)),
        Err(ElasticsearchSearchError {
            message: "failed to get json from elasticsearch response body: connection reset"
                .to_string(),
        })
    );
}

#[test]
fn search_reports_a_body_that_is_no_json() {
    assert_eq!(
        helper().search(response(200, "<html>")),
        Err(ElasticsearchSearchError {
            message: "failed to get json from elasticsearch response body: expected value at line 1 column 1"
                .to_string(),
        })
    );
}

#[test]
fn search_fails_when_the_request_brings_no_response() {
    assert_eq!(
        helper().search(EsReply::Failed("dns failure".to_string())),
        Err(ElasticsearchSearchError { message: "dns failure".to_string() })
    );
}

#[test]
fn search_reports_the_first_entry_that_is_no_hit() {
    let body = "{\"hits\":{\"hits\":[{\"_id\":\"a\",\"_index\":\"huts\",\"_score\":1,\"_source\":{}},{\"_index\":\"huts\"},{\"_id\":3}]}}";
    assert_eq!(
        helper().search(response(200, body)),
        Err(ElasticsearchSearchError {
            message: "failed to get elasticsearch hits: missing field `_id`".to_string(),
        })
    );
}

#[test]
fn from_entry_names_each_defect() {
    let full = |id: Json, index: Json, score: Json| {
        object(vec![("_id", id), ("_index", index), ("_score", score), ("_source", Json::Null)])
    };
    let number = || Json::Number("1".to_string());
    assert_eq!(
        ElasticsearchHit::from_entry(&Json::Array(vec![])),
        Err("invalid type, expected an object".to_string())
    );
    assert_eq!(
        ElasticsearchHit::from_entry(&full(number(), text("i"), number())),
        Err("invalid type for field `_id`, expected a string".to_string())
    );
    assert_eq!(
        ElasticsearchHit::from_entry(&full(text("a"), Json::Null, number())),
        Err("invalid type for field `_index`, expected a string".to_string())
    );
    assert_eq!(
        ElasticsearchHit::from_entry(&full(text("a"), text("i"), Json::Null)),
        Err("invalid type for field `_score`, expected a number".to_string())
    );
    assert_eq!(
        ElasticsearchHit::from_entry(&object(vec![("_id", text("a"))])),
        Err("missing field `_index`".to_string())
    );
    assert_eq!(
        ElasticsearchHit::from_entry(&object(vec![("_id", text("a")), ("_index", text("i"))])),
        Err("missing field `_score`".to_string())
    );
    assert_eq!(
        ElasticsearchHit::from_entry(&object(vec![
            ("_id", text("a")),
            ("_index", text("i")),
            ("_score", number())
        ])),
        Err("missing field `_source`".to_string())
    );
    assert_eq!(
        ElasticsearchHit::from_entry(&full(text("a"), text("i"), number())),
        Ok(ElasticsearchHit {
            _id: "a".to_string(),
            _index: "i".to_string(),
            _score: "1".to_string(),
            _source: Json::Null,
        })
    );
}

#[test]
fn hits_from_document_reads_a_document_made_by_hand() {
    let entry = object(vec![
        ("_id", text("a")),
        ("_index", text("huts")),
        ("_score", Json::Number("0.25".to_string())),
        ("_source", object(vec![("k", text("x"))])),
    ]);
    let doc = object(vec![("hits", object(vec![("hits", Json::Array(vec![entry]))]))]);
    assert_eq!(
        ESHelper::hits_from_document(&doc),
        Ok(vec![hit("a", "0.25", object(vec![("k", text("x"))]))])
    );
}

#[test]
fn parse_scores_from_hits_drops_hits_without_a_key() {
    let hits = vec![
        hit("1", "1.0", object(vec![("k", text("x"))])),
        hit("2", "2.0", object(vec![("k", text(""))])),
        hit("3", "3.0", object(vec![])),
    ];
    let scores = ESHelper::parse_scores_from_hits(hits, "k");
    assert_eq!(scores.entries(), &vec![("x".to_string(), "1.0".to_string())]);
    assert_eq!(scores.get("x"), Some(&"1.0".to_string()));
    assert_eq!(scores.get(""), None);
}

#[test]
fn parse_scores_from_hits_takes_the_last_score_of_a_key() {
    let hits = vec![
        hit("1", "1.0", object(vec![("k", text("x"))])),
        hit("2", "2.0", object(vec![("k", text("y"))])),
        hit("3", "3.0", object(vec![("k", text("x"))])),
        hit("4", "4.0", object(vec![("k", Json::Number("7".to_string()))])),
        hit("5", "5.0", Json::Null),
    ];
    let scores = ESHelper::parse_scores_from_hits(hits, "k");
    assert_eq!(scores.get("x"), Some(&"3.0".to_string()));
    assert_eq!(scores.get("y"), Some(&"2.0".to_string()));
    assert_eq!(scores.get("7"), None);
    assert_eq!(scores.entries().len(), 2);
}

#[test]
fn parse_scores_from_hits_of_a_search_response() {
    let body = "{\"hits\":{\"hits\":[{\"_id\":\"a\",\"_index\":\"huts\",\"_score\":1.0,\"_source\":{\"k\":\"x\"}},{\"_id\":\"b\",\"_index\":\"huts\",\"_score\":2.0,\"_source\":{\"k\":\"\"}},{\"_id\":\"c\",\"_index\":\"huts\",\"_score\":3.0,\"_source\":{}}]}}";
    let hits = helper().search(response(200, body)).unwrap();
    let scores = ESHelper::parse_scores_from_hits(hits, "k");
    assert_eq!(scores.entries(), &vec![("x".to_string(), "1.0".to_string())]);
    let as_number: f32 = scores.get("x").unwrap().parse().unwrap();
    assert_eq!(as_number, 1.0);
}
