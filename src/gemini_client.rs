use vstd::prelude::*;
use crate::errors::AppError;
use crate::file_utils::views;
use crate::json::{Json, json_of, parse_json, field, element, get_field, get_element};
use crate::prompts::{
    BUG_ANALYSIS_SYSTEM_PROMPT, GENERATE_DOCS_SYSTEM_PROMPT, PERFORMANCE_IMPROVEMENT_SYSTEM_PROMPT,
    PLAN_SYSTEM_PROMPT,
};

verus! {

/// The generation endpoint; the credential follows as the `key` query parameter.
pub const ENDPOINT: &'static str = "https://generativelanguage.googleapis.com/v1beta/models/gemini-2.0-flash-exp:generateContent?key=";

/// Sampling temperature.
pub const TEMPERATURE: u32 = 1;

/// Top-k sampling bound.
pub const TOP_K: u32 = 40;

/// Top-p sampling mass, in hundredths.
pub const TOP_P_HUNDREDTHS: u32 = 95;

/// Upper bound on the length of a generated answer, in tokens.
pub const MAX_OUTPUT_TOKENS: u32 = 8192;

/// Upper bound on the duration of one request, in seconds.
pub const TIMEOUT_SECS: u64 = 60;

/// The sentence put before the code in a bug analysis request.
pub const BUG_OBJECTIVE: &'static str = "Check this code for potential bugs and security issues";

/// The sentence put before the code in a performance analysis request.
pub const PERF_OBJECTIVE: &'static str = "Check this code for performance improvements";

/// The sentence put before the code in a documentation request.
pub const DOCS_OBJECTIVE: &'static str = "Add documentation comments to this code";

/// The shape that a request asks the answer to have.
pub enum ResponseShape {
    /// Free text.
    PlainText,
    /// A JSON object whose `list` member is an array of strings.
    FindingsList,
    /// A JSON object whose `output` member is a string.
    OutputText,
}

/// One generation request, without the transport.
pub struct GenerationRequest {
    pub system_instruction: String,
    pub user_text: String,
    pub shape: ResponseShape,
}

/// The service client's configuration: the credential it sends.
pub struct GeminiClient {
    pub api_key: String,
}

impl GeminiClient {
    /// A client that authenticates with `api_key`.
    pub fn new(api_key: String) -> (r: Self)
        ensures
            r.api_key@ == api_key@,
    {
        GeminiClient { api_key }
    }

    /// The address that every request is posted to.
    pub fn request_url(&self) -> (r: String)
        ensures
            r@ == ENDPOINT@ + self.api_key@,
    {
        String::from_str(ENDPOINT).concat(self.api_key.as_str())
    }
}

/// The request for a technical plan.
pub fn plan_request(prompt: &str) -> (r: GenerationRequest)
    ensures
        r.system_instruction@ == PLAN_SYSTEM_PROMPT@,
        r.user_text@ == prompt@,
        r.shape is PlainText,
{
    GenerationRequest {
        system_instruction: String::from_str(PLAN_SYSTEM_PROMPT),
        user_text: String::from_str(prompt),
        shape: ResponseShape::PlainText,
    }
}

/// The request for a bug and vulnerability analysis of `code`.
pub fn check_request(code: &str) -> (r: GenerationRequest)
    ensures
        r.system_instruction@ == BUG_ANALYSIS_SYSTEM_PROMPT@,
        r.user_text@ == BUG_OBJECTIVE@ + code@,
        r.shape is FindingsList,
{
    GenerationRequest {
        system_instruction: String::from_str(BUG_ANALYSIS_SYSTEM_PROMPT),
        user_text: String::from_str(BUG_OBJECTIVE).concat(code),
        shape: ResponseShape::FindingsList,
    }
}

/// The request for a performance analysis of `code`.
pub fn perf_request(code: &str) -> (r: GenerationRequest)
    ensures
        r.system_instruction@ == PERFORMANCE_IMPROVEMENT_SYSTEM_PROMPT@,
        r.user_text@ == PERF_OBJECTIVE@ + code@,
        r.shape is FindingsList,
{
    GenerationRequest {
        system_instruction: String::from_str(PERFORMANCE_IMPROVEMENT_SYSTEM_PROMPT),
        user_text: String::from_str(PERF_OBJECTIVE).concat(code),
        shape: ResponseShape::FindingsList,
    }
}

/// The request for a documented version of `code`.
pub fn docs_request(code: &str) -> (r: GenerationRequest)
    ensures
        r.system_instruction@ == GENERATE_DOCS_SYSTEM_PROMPT@,
        r.user_text@ == DOCS_OBJECTIVE@ + code@,
        r.shape is OutputText,
{
    GenerationRequest {
        system_instruction: String::from_str(GENERATE_DOCS_SYSTEM_PROMPT),
        user_text: String::from_str(DOCS_OBJECTIVE).concat(code),
        shape: ResponseShape::OutputText,
    }
}

/// The text of a string value.
pub open spec fn str_of(j: Option<Json>) -> Option<Seq<char>> {
    match j {
        Some(Json::Str(s)) => Some(s@),
        _ => None,
    }
}

/// `field` through an optional value.
pub open spec fn opt_field(j: Option<Json>, key: Seq<char>) -> Option<Json> {
    match j {
        Some(v) => field(v, key),
        None => None,
    }
}

/// `element` through an optional value.
pub open spec fn opt_element(j: Option<Json>, i: int) -> Option<Json> {
    match j {
        Some(v) => element(v, i),
        None => None,
    }
}

/// The generated text in a response envelope: the `text` of the first part
/// of the content of the first candidate.
pub open spec fn envelope_text(j: Json) -> Option<Seq<char>> {
    str_of(
        opt_field(
            opt_element(
                opt_field(opt_field(opt_element(field(j, "candidates"@), 0), "content"@), "parts"@),
                0,
            ),
            "text"@,
        ),
    )
}

/// The string value `key` of an object.
fn get_str_field(j: &Json, key: &str) -> (r: Option<String>)
    ensures
        match str_of(field(*j, key@)) {
            Some(t) => r matches Some(s) && s@ == t,
            None => r is None,
        },
{
    match get_field(j, key) {
        Some(Json::Str(s)) => Some(s.clone()),
        _ => None,
    }
}

/// The generated text inside a parsed response envelope.
pub fn envelope_text_of(j: &Json) -> (r: Option<String>)
    ensures
        match envelope_text(*j) {
            Some(t) => r matches Some(s) && s@ == t,
            None => r is None,
        },
{
    let candidates = match get_field(j, "candidates") {
        Some(c) => c,
        None => return None,
    };
    let first = match get_element(candidates, 0) {
        Some(c) => c,
        None => return None,
    };
    let content = match get_field(first, "content") {
        Some(c) => c,
        None => return None,
    };
    let parts = match get_field(content, "parts") {
        Some(p) => p,
        None => return None,
    };
    let part = match get_element(parts, 0) {
        Some(p) => p,
        None => return None,
    };
    get_str_field(part, "text")
}

/// The message of the error for a response envelope without generated text.
pub const MISSING_TEXT: &'static str = "Missing text in response";

/// The start of the message of the error for generated text that should be
/// JSON and is not; serde_json's own message follows.
pub const ANSWER_NOT_JSON: &'static str = "Answer is not JSON: ";

/// The message of the error for an answer document without a `list` member.
pub const MISSING_LIST: &'static str = "Missing list in response";

/// The message of the error for a `list` member that is not an array of strings.
pub const LIST_NOT_STRINGS: &'static str = "List in response is not an array of strings";

/// The message of the error for an answer document without a string `output` member.
pub const MISSING_OUTPUT: &'static str = "Missing output in response";

/// Whether an error message reports generated text that is not JSON.
pub open spec fn is_answer_not_json(m: Seq<char>) -> bool {
    m.len() >= ANSWER_NOT_JSON@.len() && m.subrange(0, ANSWER_NOT_JSON@.len() as int)
        == ANSWER_NOT_JSON@
}

/// The error for generated text that should be JSON and is not.
fn answer_not_json(reason: String) -> (r: AppError)
    ensures
        r matches AppError::InvalidResponse(m) && is_answer_not_json(m@),
{
    let m = String::from_str(ANSWER_NOT_JSON).concat(reason.as_str());
    assert(m@.subrange(0, ANSWER_NOT_JSON@.len() as int) =~= ANSWER_NOT_JSON@);
    AppError::InvalidResponse(m)
}

/// What extracting the generated text of `body` gives: serde_json's error
/// where the body is not JSON, `MISSING_TEXT` where it lacks the text.
pub open spec fn text_outcome(body: Seq<char>, r: Result<String, AppError>) -> bool {
    match json_of(body) {
        None => r matches Err(AppError::InvalidResponse(_)),
        Some(j) => match envelope_text(j) {
            Some(t) => r matches Ok(s) && s@ == t,
            None => r matches Err(AppError::InvalidResponse(m)) && m@ == MISSING_TEXT@,
        },
    }
}

/// Extracts the generated text from a response body.
pub fn extract_response_text_plain(body: &str) -> (r: Result<String, AppError>)
    ensures
        text_outcome(body@, r),
{
    let j = match parse_json(body) {
        Ok(j) => j,
        Err(m) => return Err(AppError::InvalidResponse(m)),
    };
    match envelope_text_of(&j) {
        Some(t) => Ok(t),
        None => Err(AppError::InvalidResponse(String::from_str(MISSING_TEXT))),
    }
}

/// The texts of a sequence of values, where every value is a string.
pub open spec fn strings_of(items: Seq<Json>) -> Option<Seq<Seq<char>>>
    decreases items.len(),
{
    if items.len() == 0 {
        Some(Seq::empty())
    } else {
        match (items.last(), strings_of(items.drop_last())) {
            (Json::Str(s), Some(front)) => Some(front.push(s@)),
            _ => None,
        }
    }
}

/// The findings that an answer document lists in its `list` member; `None`
/// where that member is missing or is not an array of strings.
pub open spec fn findings_of(inner: Json) -> Option<Seq<Seq<char>>> {
    match field(inner, "list"@) {
        Some(Json::Array(items)) => strings_of(items@),
        _ => None,
    }
}

/// The message of the error for an answer document without findings.
pub open spec fn findings_error(inner: Json) -> Seq<char> {
    if field(inner, "list"@) is None {
        MISSING_LIST@
    } else {
        LIST_NOT_STRINGS@
    }
}

/// What taking the findings out of an answer document gives.
pub open spec fn findings_outcome(inner: Json, r: Result<Vec<String>, AppError>) -> bool {
    match findings_of(inner) {
        Some(fs) => r matches Ok(v) && views(v@) == fs,
        None => r matches Err(AppError::InvalidResponse(m)) && m@ == findings_error(inner),
    }
}

/// What taking the findings out of an answer text gives.
pub open spec fn text_findings_outcome(text: Seq<char>, r: Result<Vec<String>, AppError>) -> bool {
    match json_of(text) {
        None => r matches Err(AppError::InvalidResponse(m)) && is_answer_not_json(m@),
        Some(inner) => findings_outcome(inner, r),
    }
}

/// What extracting the findings of a response body gives.
pub open spec fn body_findings_outcome(body: Seq<char>, r: Result<Vec<String>, AppError>) -> bool {
    match json_of(body) {
        None => r matches Err(AppError::InvalidResponse(_)),
        Some(j) => match envelope_text(j) {
            Some(t) => text_findings_outcome(t, r),
            None => r matches Err(AppError::InvalidResponse(m)) && m@ == MISSING_TEXT@,
        },
    }
}

/// Once a prefix holds a value that is not a string, so does the whole.
proof fn lemma_strings_prefix(items: Seq<Json>, k: int)
    requires
        0 <= k <= items.len(),
        strings_of(items.subrange(0, k)) is None,
    ensures
        strings_of(items) is None,
    decreases items.len() - k,
{
    if k == items.len() {
        assert(items.subrange(0, k) =~= items);
    } else {
        assert(items.subrange(0, k + 1).drop_last() =~= items.subrange(0, k));
        lemma_strings_prefix(items, k + 1);
    }
}

/// Takes the findings out of a parsed answer document: its `list` member
/// must be an array of strings.
pub fn findings_from_json(inner: &Json) -> (r: Result<Vec<String>, AppError>)
    ensures
        findings_outcome(*inner, r),
{
    match get_field(inner, "list") {
        None => Err(AppError::InvalidResponse(String::from_str(MISSING_LIST))),
        Some(Json::Array(items)) => {
            let mut out: Vec<String> = Vec::new();
            let mut i: usize = 0;
            assert(items@.subrange(0, 0) =~= Seq::<Json>::empty());
            assert(views(out@) =~= Seq::<Seq<char>>::empty());
            while i < items.len()
                invariant
                    i <= items@.len(),
                    field(*inner, "list"@) == Some(Json::Array(*items)),
                    strings_of(items@.subrange(0, i as int)) == Some(views(out@)),
                decreases items@.len() - i,
            {
                assert(items@.subrange(0, i + 1).drop_last() =~= items@.subrange(0, i as int));
                match &items[i] {
                    Json::Str(s) => {
                        let ghost before = out@;
                        out.push(s.clone());
                        assert(views(out@) =~= views(before).push(s@));
                    },
                    _ => {
                        proof {
                            lemma_strings_prefix(items@, i + 1);
                        }
                        return Err(AppError::InvalidResponse(String::from_str(LIST_NOT_STRINGS)));
                    },
                }
                i = i + 1;
            }
            assert(items@.subrange(0, items@.len() as int) =~= items@);
            Ok(out)
        },
        Some(_) => Err(AppError::InvalidResponse(String::from_str(LIST_NOT_STRINGS))),
    }
}

/// Parses an answer text and takes the findings out of it.
pub fn findings_from_text(text: &str) -> (r: Result<Vec<String>, AppError>)
    ensures
        text_findings_outcome(text@, r),
{
    match parse_json(text) {
        Ok(inner) => findings_from_json(&inner),
        Err(m) => Err(answer_not_json(m)),
    }
}

/// Extracts the findings from a response body: the generated text is itself
/// a JSON document whose `list` member holds them.
pub fn extract_findings(body: &str) -> (r: Result<Vec<String>, AppError>)
    ensures
        body_findings_outcome(body@, r),
{
    let text = extract_response_text_plain(body)?;
    findings_from_text(text.as_str())
}

/// The replacement text of an answer document: its `output` member.
pub open spec fn output_of(inner: Json) -> Option<Seq<char>> {
    str_of(field(inner, "output"@))
}

/// What taking the replacement text out of an answer document gives.
pub open spec fn output_outcome(inner: Json, r: Result<String, AppError>) -> bool {
    match output_of(inner) {
        Some(t) => r matches Ok(s) && s@ == t,
        None => r matches Err(AppError::InvalidResponse(m)) && m@ == MISSING_OUTPUT@,
    }
}

/// What extracting the replacement text of a response body gives.
pub open spec fn body_output_outcome(body: Seq<char>, r: Result<String, AppError>) -> bool {
    match json_of(body) {
        None => r matches Err(AppError::InvalidResponse(_)),
        Some(j) => match envelope_text(j) {
            Some(t) => match json_of(t) {
                None => r matches Err(AppError::InvalidResponse(m)) && is_answer_not_json(m@),
                Some(inner) => output_outcome(inner, r),
            },
            None => r matches Err(AppError::InvalidResponse(m)) && m@ == MISSING_TEXT@,
        },
    }
}

/// Takes the replacement text out of a parsed answer document.
pub fn output_from_json(inner: &Json) -> (r: Result<String, AppError>)
    ensures
        output_outcome(*inner, r),
{
    match get_str_field(inner, "output") {
        Some(t) => Ok(t),
        None => Err(AppError::InvalidResponse(String::from_str(MISSING_OUTPUT))),
    }
}

/// Extracts the replacement source text from a response body.
pub fn extract_output(body: &str) -> (r: Result<String, AppError>)
    ensures
        body_output_outcome(body@, r),
{
    let text = extract_response_text_plain(body)?;
    match parse_json(text.as_str()) {
        Ok(inner) => output_from_json(&inner),
        Err(m) => Err(answer_not_json(m)),
    }
}

/// What the text of a JSON string literal stands for; any other text as it is.
pub open spec fn unescaped(text: Seq<char>) -> Seq<char> {
    match json_of(text) {
        Some(Json::Str(s)) => s@,
        _ => text,
    }
}

/// Turns generated text that was quoted as a JSON string back into the text
/// it stands for; leaves other text unchanged.
pub fn unescape_generated(text: &str) -> (r: String)
    ensures
        r@ == unescaped(text@),
{
    match parse_json(text) {
        Ok(Json::Str(s)) => s,
        _ => String::from_str(text),
    }
}

} // verus!
