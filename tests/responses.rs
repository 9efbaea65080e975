use tasksai::errors::{AppError, ValidationError};
use tasksai::gemini_client::{
    check_request, docs_request, envelope_text_of, extract_findings, extract_output,
    extract_response_text_plain, findings_from_json, findings_from_text, output_from_json,
    perf_request, plan_request, unescape_generated, GeminiClient, ResponseShape, BUG_OBJECTIVE,
};
use tasksai::json::Json;
use tasksai::prompts::{BUG_ANALYSIS_SYSTEM_PROMPT, PLAN_SYSTEM_PROMPT};
use tasksai::report::{contains_str, decimal_str, render_report, validate_generated_plan, AnalysisKind};

fn envelope(text_literal: &str) -> String {
    format!(
        "{{\"candidates\":[{{\"content\":{{\"parts\":[{{\"text\":{}}}],\"role\":\"model\"}},\"finishReason\":\"STOP\"}}],\"usageMetadata\":{{\"totalTokenCount\":7}}}}",
        text_literal
    )
}

#[test]
fn plain_text_is_taken_from_first_candidate() {
    let body = envelope("\"## Objectives\\n- ship\"");
    assert_eq!(extract_response_text_plain(&body).ok().unwrap(), "## Objectives\n- ship");
}

#[test]
fn missing_text_is_invalid_response() {
    let body = "{\"candidates\":[]}";
    assert!(matches!(extract_response_text_plain(body), Err(AppError::InvalidResponse(_))));
    let body = "{\"candidates\":[{\"content\":{\"parts\":[{\"text\":5}]}}]}";
    assert!(matches!(extract_response_text_plain(body), Err(AppError::InvalidResponse(_))));
}

#[test]
fn malformed_body_is_invalid_response() {
    assert!(matches!(extract_response_text_plain("not json"), Err(AppError::InvalidResponse(_))));
}

#[test]
fn findings_are_extracted_in_order() {
    let body = envelope("\"{\\\"list\\\": [\\\"A\\\", \\\"B\\\"]}\"");
    assert_eq!(extract_findings(&body).ok().unwrap(), vec!["A".to_string(), "B".to_string()]);
}

#[test]
fn empty_findings_list() {
    let body = envelope("\"{\\\"list\\\": []}\"");
    assert!(extract_findings(&body).ok().unwrap().is_empty());
}

fn invalid_message<T>(r: Result<T, AppError>) -> String {
    match r {
        Err(AppError::InvalidResponse(m)) => m,
        _ => panic!("expected an invalid response error"),
    }
}

#[test]
fn absent_list_is_invalid_response() {
    assert_eq!(invalid_message(findings_from_text("{\"other\": 1}")), "Missing list in response");
    assert_eq!(invalid_message(findings_from_text("[\"A\"]")), "Missing list in response");
    let body = envelope("\"{\\\"bugs\\\": []}\"");
    assert_eq!(invalid_message(extract_findings(&body)), "Missing list in response");
}

#[test]
fn missing_text_has_its_own_message() {
    assert_eq!(invalid_message(extract_response_text_plain("{\"candidates\":[]}")), "Missing text in response");
    assert_eq!(invalid_message(extract_findings("{\"candidates\":[]}")), "Missing text in response");
    assert_eq!(invalid_message(extract_output("{}")), "Missing text in response");
}

#[test]
fn answer_that_is_not_json_is_told_apart() {
    let body = envelope("\"oops\"");
    assert!(invalid_message(extract_findings(&body)).starts_with("Answer is not JSON: "));
    assert!(invalid_message(extract_output(&body)).starts_with("Answer is not JSON: "));
    assert!(invalid_message(findings_from_text("oops")).starts_with("Answer is not JSON: "));
}

fn object(entries: Vec<(&str, Json)>) -> Json {
    Json::Object(entries.into_iter().map(|(k, v)| (k.to_string(), v)).collect())
}

#[test]
fn findings_from_parsed_document() {
    let inner = object(vec![(
        "list",
        Json::Array(vec![Json::Str("A".to_string()), Json::Str("B".to_string())]),
    )]);
    assert_eq!(findings_from_json(&inner).ok().unwrap(), vec!["A".to_string(), "B".to_string()]);
    let bad = object(vec![("list", Json::Array(vec![Json::Str("A".to_string()), Json::Null]))]);
    assert_eq!(invalid_message(findings_from_json(&bad)), "List in response is not an array of strings");
    assert_eq!(invalid_message(findings_from_json(&Json::Null)), "Missing list in response");
}

#[test]
fn output_from_parsed_document() {
    let inner = object(vec![("output", Json::Str("code".to_string()))]);
    assert_eq!(output_from_json(&inner).ok().unwrap(), "code");
    let bad = object(vec![("output", Json::Bool(true))]);
    assert_eq!(invalid_message(output_from_json(&bad)), "Missing output in response");
}

#[test]
fn envelope_text_from_parsed_document() {
    let part = object(vec![("text", Json::Str("hello".to_string()))]);
    let content = object(vec![("parts", Json::Array(vec![part]))]);
    let candidate = object(vec![("content", content)]);
    let envelope = object(vec![("candidates", Json::Array(vec![candidate]))]);
    assert_eq!(envelope_text_of(&envelope), Some("hello".to_string()));
    assert_eq!(envelope_text_of(&object(vec![("candidates", Json::Array(vec![]))])), None);
}

#[test]
fn list_of_non_strings_is_invalid() {
    assert_eq!(invalid_message(findings_from_text("{\"list\": [1, 2]}")), "List in response is not an array of strings");
    assert_eq!(invalid_message(findings_from_text("{\"list\": 5}")), "List in response is not an array of strings");
}

#[test]
fn inner_text_that_is_not_json_is_invalid() {
    let body = envelope("\"list: A\"");
    assert!(matches!(extract_findings(&body), Err(AppError::InvalidResponse(_))));
}

#[test]
fn output_member_is_extracted() {
    let body = envelope("\"{\\\"output\\\": \\\"fn a() {}\\\\n\\\"}\"");
    assert_eq!(extract_output(&body).ok().unwrap(), "fn a() {}\n");
    let body = envelope("\"{\\\"other\\\": \\\"x\\\"}\"");
    assert_eq!(invalid_message(extract_output(&body)), "Missing output in response");
}

#[test]
fn quoted_text_is_unescaped() {
    assert_eq!(unescape_generated("\"a\\nb\""), "a\nb");
    assert_eq!(unescape_generated("fn main() {}"), "fn main() {}");
    assert_eq!(unescape_generated("[1]"), "[1]");
}

#[test]
fn findings_round_trip_into_report() {
    let body = envelope("\"{\\\"list\\\": [\\\"first\\\", \\\"second\\\", \\\"third\\\"]}\"");
    let fs = extract_findings(&body).ok().unwrap();
    assert_eq!(
        render_report(AnalysisKind::Bugs, &fs),
        "Bug Analysis Report:\n\n1. first\n2. second\n3. third\n\n"
    );
}

#[test]
fn empty_report_says_no_issues() {
    assert_eq!(render_report(AnalysisKind::Bugs, &[]), "Bug Analysis Report: No bugs found!\n\n");
    assert_eq!(render_report(AnalysisKind::Performance, &[]), "No improvements found!\n\n");
}

#[test]
fn report_numbers_findings_from_one() {
    let fs = vec!["A".to_string(), "B".to_string()];
    assert_eq!(render_report(AnalysisKind::Performance, &fs), "Performance Improvements:\n\n1. A\n2. B\n\n");
}

#[test]
fn decimal_numerals() {
    assert_eq!(decimal_str(0), "0");
    assert_eq!(decimal_str(9), "9");
    assert_eq!(decimal_str(10), "10");
    assert_eq!(decimal_str(4096), "4096");
}

#[test]
fn plan_with_all_sections_passes() {
    let plan = "# Plan\n## Objectives\n- a\n## Implementation Steps\n1. b\n## File Manifest\n- c";
    assert!(validate_generated_plan(plan).is_ok());
}

#[test]
fn plan_missing_sections_names_them() {
    match validate_generated_plan("## Objectives\nonly") {
        Err(ValidationError::MissingSections(m)) => {
            assert_eq!(m, vec!["## Implementation Steps".to_string(), "## File Manifest".to_string()])
        }
        _ => panic!("missing sections not reported"),
    }
    match validate_generated_plan("") {
        Err(ValidationError::MissingSections(m)) => assert_eq!(m.len(), 3),
        _ => panic!("missing sections not reported"),
    }
}

#[test]
fn substring_search() {
    assert!(contains_str("abc", "bc"));
    assert!(contains_str("abc", ""));
    assert!(!contains_str("abc", "abcd"));
    assert!(!contains_str("ab c", "bc"));
}

#[test]
fn requests_carry_template_and_text() {
    let r = plan_request("do it");
    assert_eq!(r.system_instruction, PLAN_SYSTEM_PROMPT);
    assert_eq!(r.user_text, "do it");
    assert!(matches!(r.shape, ResponseShape::PlainText));
    let r = check_request("code");
    assert_eq!(r.system_instruction, BUG_ANALYSIS_SYSTEM_PROMPT);
    assert_eq!(r.user_text, format!("{}code", BUG_OBJECTIVE));
    assert!(matches!(r.shape, ResponseShape::FindingsList));
    assert!(matches!(perf_request("c").shape, ResponseShape::FindingsList));
    assert!(matches!(docs_request("c").shape, ResponseShape::OutputText));
}

#[test]
fn request_url_carries_key() {
    let c = GeminiClient::new("test-key".to_string());
    assert!(c.request_url().ends_with(":generateContent?key=test-key"));
}
