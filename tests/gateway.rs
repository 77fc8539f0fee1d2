use llm_gateway::citations::{
    citation_preview, summarize_citations, truncate_snippet, Citation, PREVIEW_LIMIT,
};
use llm_gateway::normalize::{
    apply_defaults, normalize, normalize_trimmed, CompleteRequest, ValidationError,
    DEFAULT_MAX_TOKENS, DEFAULT_TEMPERATURE_BITS,
};
use llm_gateway::request_id::{get_or_create_request_id, id_from_bytes, new_request_id, supplied_id};
use llm_gateway::response::{
    build_error, build_success, render_debug_list, HEALTH_BODY, REQUEST_ID_HEADER,
    STATUS_BAD_REQUEST, STATUS_OK,
};
use std::collections::HashSet;

fn is_generated(id: &str) -> bool {
    id.len() == 28
        && id.starts_with("req_")
        && id[4..].chars().all(|c| c.is_ascii_digit() || ('a'..='f').contains(&c))
}

fn raw(prompt: &str) -> CompleteRequest {
    CompleteRequest {
        prompt: prompt.to_string(),
        locale: None,
        model: None,
        temperature_bits: None,
        max_tokens: None,
        citations: None,
    }
}

fn cit(url: &str, title: Option<&str>, snippet: &str) -> Citation {
    Citation {
        url: url.to_string(),
        title: title.map(|t| t.to_string()),
        snippet: snippet.to_string(),
    }
}

#[test]
fn supplied_id_in_range_is_kept_trimmed() {
    assert_eq!(get_or_create_request_id(Some("  abcdefgh  ")), "abcdefgh");
    assert_eq!(get_or_create_request_id(Some("trace-123456")), "trace-123456");
    let longest = "x".repeat(128);
    assert_eq!(get_or_create_request_id(Some(&longest)), longest);
}

#[test]
fn supplied_id_out_of_range_is_replaced() {
    let id = get_or_create_request_id(Some("short"));
    assert_ne!(id, "short");
    assert!(is_generated(&id));
    let too_long = "y".repeat(129);
    assert!(is_generated(&get_or_create_request_id(Some(&too_long))));
    assert!(is_generated(&get_or_create_request_id(Some("   abc   "))));
    assert!(is_generated(&get_or_create_request_id(None)));
}

#[test]
fn supplied_id_length_counts_characters() {
    assert_eq!(supplied_id("\u{e9}".repeat(8).as_str()), Some("\u{e9}".repeat(8)));
    assert_eq!(supplied_id("\u{e9}".repeat(7).as_str()), None);
    assert_eq!(supplied_id("1234567"), None);
    assert_eq!(supplied_id("12345678"), Some("12345678".to_string()));
}

#[test]
fn id_from_bytes_is_prefixed_lower_hex() {
    let id = id_from_bytes([0, 1, 2, 3, 4, 5, 6, 7, 8, 9, 10, 255]);
    assert_eq!(id, "req_000102030405060708090aff");
}

#[test]
fn generated_ids_differ() {
    let mut seen = HashSet::new();
    for _ in 0..2000 {
        let id = new_request_id();
        assert!(is_generated(&id));
        assert!(seen.insert(id));
    }
}

#[test]
fn blank_prompts_are_refused() {
    for p in ["", "  ", "\t\n", " \u{3000} "] {
        let r = normalize(raw(p));
        assert!(matches!(r, Err(ValidationError::BadRequest)));
    }
    let e = ValidationError::BadRequest;
    assert_eq!(e.code(), "BAD_REQUEST");
    assert_eq!(e.message(), "prompt is required");
}

#[test]
fn other_prompts_are_accepted() {
    for p in ["hi", " x ", "\u{43f}\u{440}\u{438}\u{432}\u{435}\u{442}", "."] {
        let r = normalize(raw(p)).ok().unwrap();
        assert_eq!(r.prompt, p);
    }
}

#[test]
fn normalize_trimmed_decides_on_trimmed_text() {
    assert!(normalize_trimmed(raw("  "), "").is_err());
    assert!(normalize_trimmed(raw(" a "), "a").is_ok());
}

#[test]
fn defaults_fill_absent_fields() {
    let r = normalize(raw("hi")).ok().unwrap();
    assert_eq!(r.locale, "ru-RU");
    assert_eq!(r.model, "stub");
    assert_eq!(f64::from_bits(r.temperature_bits), 0.7);
    assert_eq!(r.max_tokens, 1024);
    assert!(r.citations.is_empty());
    assert_eq!(f64::from_bits(DEFAULT_TEMPERATURE_BITS), 0.7);
    assert_eq!(DEFAULT_MAX_TOKENS, 1024);
}

#[test]
fn defaults_are_independent_per_field() {
    let mut req = raw("hi");
    req.model = Some("gemini".to_string());
    req.max_tokens = Some(0);
    let r = apply_defaults(req);
    assert_eq!(r.locale, "ru-RU");
    assert_eq!(r.model, "gemini");
    assert_eq!(f64::from_bits(r.temperature_bits), 0.7);
    assert_eq!(r.max_tokens, 0);
}

#[test]
fn fully_specified_request_is_unchanged() {
    let req = CompleteRequest {
        prompt: "p".to_string(),
        locale: Some("en-US".to_string()),
        model: Some("m".to_string()),
        temperature_bits: Some((-1.5f64).to_bits()),
        max_tokens: Some(7),
        citations: Some(vec![cit("u", None, "s")]),
    };
    let r = normalize(req).ok().unwrap();
    assert_eq!(r.prompt, "p");
    assert_eq!(r.locale, "en-US");
    assert_eq!(r.model, "m");
    assert_eq!(f64::from_bits(r.temperature_bits), -1.5);
    assert_eq!(r.max_tokens, 7);
    assert_eq!(r.citations.len(), 1);
    assert_eq!(r.citations[0].url, "u");
}

#[test]
fn preview_holds_at_most_three_in_order() {
    let cits: Vec<Citation> = (0..5).map(|i| cit(&format!("u{}", i), None, "s")).collect();
    let s = summarize_citations(&cits);
    assert_eq!(s.count, 5);
    assert_eq!(s.preview.len(), PREVIEW_LIMIT);
    assert_eq!(s.preview, vec!["untitled | u0 | s", "untitled | u1 | s", "untitled | u2 | s"]);
    let two = summarize_citations(&vec![cit("a", None, "s"), cit("b", Some("B"), "t")]);
    assert_eq!(two.count, 2);
    assert_eq!(two.preview, vec!["untitled | a | s", "B | b | t"]);
    let none = summarize_citations(&Vec::new());
    assert_eq!(none.count, 0);
    assert!(none.preview.is_empty());
}

#[test]
fn preview_line_uses_title_and_separators() {
    assert_eq!(citation_preview(&cit("https://a.example", Some("A"), "text")), "A | https://a.example | text");
    assert_eq!(citation_preview(&cit("u", None, "")), "untitled | u | ");
}

#[test]
fn snippet_truncation_at_limit() {
    let s80 = "a".repeat(80);
    assert_eq!(truncate_snippet(&s80), s80);
    let s81 = "b".repeat(81);
    assert_eq!(truncate_snippet(&s81), format!("{}\u{2026}", "b".repeat(80)));
}

#[test]
fn snippet_truncation_keeps_multibyte_characters() {
    let s = "\u{436}".repeat(81);
    let t = truncate_snippet(&s);
    assert_eq!(t, format!("{}\u{2026}", "\u{436}".repeat(80)));
    assert_eq!(t.chars().count(), 81);
    let short = "\u{436}".repeat(50);
    assert_eq!(truncate_snippet(&short), short);
}

#[test]
fn debug_list_quotes_and_escapes() {
    assert_eq!(render_debug_list(&vec![]), "[]");
    let items = vec!["a\"b".to_string(), "c".to_string()];
    assert_eq!(render_debug_list(&items), format!("{:?}", items));
    assert_eq!(render_debug_list(&items), "[\"a\\\"b\", \"c\"]");
}

#[test]
fn complete_with_defaults_reports_stub_usage() {
    let id = get_or_create_request_id(None);
    let req = normalize(raw("hi")).ok().unwrap();
    let temp = f64::from_bits(req.temperature_bits).to_string();
    let r = build_success(id.clone(), req, &temp);
    assert_eq!(r.status(), STATUS_OK);
    assert_eq!(r.status(), 200);
    assert_eq!(r.request_id, id);
    assert_eq!(r.usage.model, "stub");
    assert_eq!(r.usage.locale, "ru-RU");
    assert_eq!(f64::from_bits(r.usage.temperature_bits), 0.7);
    assert_eq!(r.usage.max_tokens, 1024);
    assert_eq!(r.usage.citations, 0);
    assert!(r.usage.stub);
    assert_eq!(
        r.text,
        "stub: completion generated (model=stub, locale=ru-RU, temperature=0.7, maxTokens=1024, citations=0, preview=[])"
    );
}

#[test]
fn blank_prompt_gives_bad_request() {
    let id = get_or_create_request_id(Some("abcdefgh"));
    let err = normalize(raw("  ")).err().unwrap();
    let r = build_error(id, err);
    assert_eq!(r.status(), STATUS_BAD_REQUEST);
    assert_eq!(r.status(), 400);
    assert_eq!(r.request_id, "abcdefgh");
    assert_eq!(r.code, "BAD_REQUEST");
    assert_eq!(r.message, "prompt is required");
}

#[test]
fn short_header_gets_fresh_id() {
    let id = get_or_create_request_id(Some("short"));
    assert!(id.starts_with("req_"));
    assert_ne!(id, "short");
    let r = build_error(id.clone(), ValidationError::BadRequest);
    assert_eq!(r.request_id, id);
}

#[test]
fn five_citations_count_five_preview_three() {
    let mut req = raw("hi");
    req.citations = Some((0..5).map(|i| cit(&format!("u{}", i), Some("T"), "s")).collect());
    let req = normalize(req).ok().unwrap();
    let r = build_success("abcdefgh".to_string(), req, "0.7");
    assert_eq!(r.usage.citations, 5);
    assert_eq!(
        r.text,
        "stub: completion generated (model=stub, locale=ru-RU, temperature=0.7, maxTokens=1024, citations=5, preview=[\"T | u0 | s\", \"T | u1 | s\", \"T | u2 | s\"])"
    );
    assert_eq!(r.text.matches(" | s\"").count(), 3);
}

#[test]
fn health_probe_constants() {
    assert_eq!(HEALTH_BODY, "ok\n");
    assert_eq!(REQUEST_ID_HEADER, "x-request-id");
}
