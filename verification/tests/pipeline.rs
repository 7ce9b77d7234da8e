use invoice_qa::api::{api_failure, api_success, category_directory, finish_request,
    BackendOutcome};
use invoice_qa::backend::interpret_backend_reply;
use invoice_qa::errors::{error_message, u16_to_decimal, ApiError};
use invoice_qa::json::normalize;
use invoice_qa::prompt::{build_prompt, calculator_preamble_text, processor_preamble_text,
    prompt_with_sources, Document};
use invoice_qa::request::build_generation_request;

fn doc(name: &str, content: &str) -> Document {
    Document { name: name.to_string(), content: content.to_string() }
}

#[test]
fn prompt_renders_preamble_documents_and_question() {
    let docs = vec![doc("inv_001.txt", "Total: R100.00")];
    let p = build_prompt("PRE", &docs, "what is the total");
    assert_eq!(
        p,
        "PRE\n--- Invoice from inv_001.txt ---\nTotal: R100.00\n\nQuestion: what is the total\n\nRespond with JSON only."
    );
}

#[test]
fn prompt_concatenates_documents_in_order() {
    let docs = vec![doc("a.txt", "first"), doc("b.txt", "second")];
    let p = build_prompt("P:", &docs, "q");
    assert_eq!(
        p,
        "P:\n--- Invoice from a.txt ---\nfirst\n\n--- Invoice from b.txt ---\nsecond\n\nQuestion: q\n\nRespond with JSON only."
    );
}

#[test]
fn used_files_equal_the_documents_in_the_prompt() {
    let docs = vec![doc("inv_001.txt", "one"), doc("inv_002.txt", "two")];
    let (p, used) = prompt_with_sources("PRE", &docs, "sum the invoices");
    assert_eq!(used, vec!["inv_001.txt".to_string(), "inv_002.txt".to_string()]);
    for d in &docs {
        assert!(p.contains(&d.content));
    }
}

#[test]
fn preambles_have_their_fixed_text() {
    assert!(processor_preamble_text().starts_with("You are a precise invoice processor."));
    assert!(processor_preamble_text().ends_with("Documents:"));
    assert!(calculator_preamble_text().starts_with("You are a precise invoice calculator."));
    assert!(calculator_preamble_text().ends_with("Documents:"));
}

#[test]
fn generation_request_pins_deterministic_settings() {
    let r = build_generation_request("llama3.2", "the prompt".to_string());
    assert_eq!(r.model, "llama3.2");
    assert_eq!(r.prompt, "the prompt");
    assert!(!r.stream);
    assert_eq!(r.format, "json");
    let opts = r.options.expect("options are always set");
    assert_eq!(opts.temperature_hundredths, 0);
    assert_eq!(opts.top_p_hundredths, 95);
}

#[test]
fn valid_json_normalizes_to_the_parsed_value() {
    let text = "{\"answer\": \"R100.00\", \"sources\": [\"inv_001.txt\"]}";
    let direct: serde_json::Value = serde_json::from_str(text).unwrap();
    assert_eq!(normalize(text), direct);
}

#[test]
fn non_json_text_normalizes_to_a_raw_wrapper() {
    let mut entries = serde_json::Map::new();
    entries.insert("raw".to_string(), serde_json::Value::String("hello".to_string()));
    let expected = serde_json::Value::Object(entries);
    assert_eq!(normalize("hello"), expected);
}

#[test]
fn successful_reply_decodes_response_and_done() {
    let body = "{\"response\": \"{\\\"answer\\\": 42}\", \"done\": true}".to_string();
    let reply = interpret_backend_reply(200, body).expect("a decodable success reply");
    assert_eq!(reply.response, "{\"answer\": 42}");
    assert!(reply.done);
}

#[test]
fn non_success_status_is_a_backend_error_with_the_body() {
    let outcome = interpret_backend_reply(500, "model not loaded".to_string());
    match outcome {
        Err(ApiError::BackendError { status, body }) => {
            assert_eq!(status, 500);
            assert_eq!(body, "model not loaded");
        }
        _ => panic!("expected a backend error"),
    }
}

#[test]
fn undecodable_success_body_is_malformed() {
    let outcome = interpret_backend_reply(200, "not json at all".to_string());
    assert!(matches!(outcome, Err(ApiError::MalformedBackendResponse)));
    let missing_field = interpret_backend_reply(200, "{\"done\": true}".to_string());
    assert!(matches!(missing_field, Err(ApiError::MalformedBackendResponse)));
}

#[test]
fn backend_error_keeps_used_files_and_body_in_message() {
    let used = vec!["inv_001.txt".to_string(), "inv_002.txt".to_string()];
    let r = finish_request(
        used.clone(),
        BackendOutcome::Reply { status: 500, body: "model not loaded".to_string() },
    );
    assert_eq!(r.used_files, used);
    assert!(r.answer.is_none());
    assert_eq!(r.error.as_deref(), Some("Ollama error 500: model not loaded"));
}

#[test]
fn unreachable_backend_is_reported_as_such() {
    let r = finish_request(vec!["inv_001.txt".to_string()], BackendOutcome::Unreachable);
    assert_eq!(r.error.as_deref(), Some("Cannot reach Ollama"));
    assert!(r.answer.is_none());
    assert_eq!(r.used_files, vec!["inv_001.txt".to_string()]);
}

#[test]
fn successful_round_trip_yields_the_parsed_answer() {
    let body = "{\"response\": \"{\\\"total\\\": \\\"R100.00\\\"}\", \"done\": true}".to_string();
    let r = finish_request(
        vec!["inv_001.txt".to_string()],
        BackendOutcome::Reply { status: 200, body },
    );
    assert!(r.error.is_none());
    let expected: serde_json::Value = serde_json::from_str("{\"total\": \"R100.00\"}").unwrap();
    assert_eq!(r.answer, Some(expected));
    assert_eq!(r.used_files, vec!["inv_001.txt".to_string()]);
}

#[test]
fn non_json_model_reply_still_succeeds_wrapped() {
    let body = "{\"response\": \"forty two\", \"done\": true}".to_string();
    let r = finish_request(Vec::new(), BackendOutcome::Reply { status: 200, body });
    assert!(r.error.is_none());
    let mut entries = serde_json::Map::new();
    entries.insert("raw".to_string(), serde_json::Value::String("forty two".to_string()));
    assert_eq!(r.answer, Some(serde_json::Value::Object(entries)));
}

#[test]
fn unknown_category_falls_back_to_invoices() {
    assert_eq!(category_directory("unknown-category"), "data/invoices");
    assert_eq!(category_directory(""), "data/invoices");
}

#[test]
fn known_categories_map_to_their_directories() {
    assert_eq!(category_directory("invoices"), "data/invoices");
    assert_eq!(category_directory("contracts"), "data/contracts");
    assert_eq!(category_directory("notes"), "data/notes");
}

#[test]
fn decimal_rendering_is_exact() {
    assert_eq!(u16_to_decimal(0), "0");
    assert_eq!(u16_to_decimal(7), "7");
    assert_eq!(u16_to_decimal(404), "404");
    assert_eq!(u16_to_decimal(65535), "65535");
}

#[test]
fn each_error_kind_has_its_message() {
    assert_eq!(
        error_message(&ApiError::CategoryNotFound { directory: "data/contracts".to_string() }),
        "Data folder not found: data/contracts"
    );
    assert_eq!(error_message(&ApiError::NoRelevantFiles), "No relevant files found");
    assert_eq!(
        error_message(&ApiError::DocumentReadFailure { file: "inv_001.txt".to_string() }),
        "Failed to read inv_001.txt"
    );
    assert_eq!(error_message(&ApiError::BackendUnreachable), "Cannot reach Ollama");
    assert_eq!(
        error_message(&ApiError::BackendError { status: 503, body: "busy".to_string() }),
        "Ollama error 503: busy"
    );
    assert_eq!(error_message(&ApiError::MalformedBackendResponse), "Invalid Ollama response");
}

#[test]
fn results_carry_exactly_one_of_answer_and_error() {
    let ok = api_success(serde_json::Value::Null, vec!["a.txt".to_string()]);
    assert!(ok.answer.is_some() && ok.error.is_none());
    assert_eq!(ok.used_files, vec!["a.txt".to_string()]);
    let err = api_failure(&ApiError::NoRelevantFiles, Vec::new());
    assert!(err.answer.is_none() && err.error.is_some());
    assert!(err.used_files.is_empty());
}
