//! Validation of a decoded completion request and substitution of defaults.
use vstd::prelude::*;
use vstd::string::StringExecFns;
use crate::citations::Citation;
use crate::request_id::{trim_of, trim_str};

verus! {

/// Bit pattern of the IEEE 754 double `0.7`, the default sampling temperature.
pub const DEFAULT_TEMPERATURE_BITS: u64 = 0x3FE6_6666_6666_6666;

/// Default token budget.
pub const DEFAULT_MAX_TOKENS: u32 = 1024;

/// A completion request as decoded from the wire: every optional field may be absent.
/// The temperature is carried as the bit pattern of an IEEE 754 double.
pub struct CompleteRequest {
    pub prompt: String,
    pub locale: Option<String>,
    pub model: Option<String>,
    pub temperature_bits: Option<u64>,
    pub max_tokens: Option<u32>,
    pub citations: Option<Vec<Citation>>,
}

/// A validated request with every field resolved.
pub struct CompletionRequest {
    pub prompt: String,
    pub locale: String,
    pub model: String,
    pub temperature_bits: u64,
    pub max_tokens: u32,
    pub citations: Vec<Citation>,
}

/// Why a request was refused.
#[derive(PartialEq, Eq, Structural, Debug, Clone, Copy)]
pub enum ValidationError {
    /// The prompt is empty once surrounding whitespace is removed.
    BadRequest,
}

impl ValidationError {
    /// Machine-readable category.
    pub fn code(&self) -> (r: String)
        ensures
            r@ == "BAD_REQUEST"@,
    {
        String::from_str("BAD_REQUEST")
    }

    /// Human-readable detail.
    pub fn message(&self) -> (r: String)
        ensures
            r@ == "prompt is required"@,
    {
        String::from_str("prompt is required")
    }
}

pub open spec fn default_locale() -> Seq<char> {
    "ru-RU"@
}

pub open spec fn default_model() -> Seq<char> {
    "stub"@
}

/// The text of an optional string, or `d` where it is absent.
pub open spec fn text_or(o: Option<String>, d: Seq<char>) -> Seq<char> {
    match o {
        Some(s) => s@,
        None => d,
    }
}

pub open spec fn resolved_citations(o: Option<Vec<Citation>>) -> Seq<Citation> {
    match o {
        Some(v) => v@,
        None => Seq::empty(),
    }
}

/// `r` is `raw` with each absent field replaced by its default, field by field.
pub open spec fn defaults_applied(raw: CompleteRequest, r: CompletionRequest) -> bool {
    &&& r.prompt@ == raw.prompt@
    &&& r.locale@ == text_or(raw.locale, default_locale())
    &&& r.model@ == text_or(raw.model, default_model())
    &&& r.temperature_bits == (match raw.temperature_bits {
        Some(t) => t,
        None => DEFAULT_TEMPERATURE_BITS,
    })
    &&& r.max_tokens == (match raw.max_tokens {
        Some(m) => m,
        None => DEFAULT_MAX_TOKENS,
    })
    &&& r.citations@ == resolved_citations(raw.citations)
}

/// Every optional field of `raw` is present.
pub open spec fn is_fully_specified(raw: CompleteRequest) -> bool {
    &&& raw.locale is Some
    &&& raw.model is Some
    &&& raw.temperature_bits is Some
    &&& raw.max_tokens is Some
    &&& raw.citations is Some
}

fn string_or(o: Option<String>, d: &str) -> (r: String)
    ensures
        r@ == text_or(o, d@),
{
    match o {
        Some(s) => s,
        None => String::from_str(d),
    }
}

/// Fills every absent optional field with its default; present fields pass through.
pub fn apply_defaults(raw: CompleteRequest) -> (r: CompletionRequest)
    ensures
        defaults_applied(raw, r),
{
    let ghost g = raw;
    let CompleteRequest { prompt, locale, model, temperature_bits, max_tokens, citations } = raw;
    let locale = string_or(locale, "ru-RU");
    let model = string_or(model, "stub");
    let temperature_bits = match temperature_bits {
        Some(t) => t,
        None => DEFAULT_TEMPERATURE_BITS,
    };
    let max_tokens = match max_tokens {
        Some(m) => m,
        None => DEFAULT_MAX_TOKENS,
    };
    let citations = match citations {
        Some(v) => v,
        None => Vec::new(),
    };
    CompletionRequest { prompt, locale, model, temperature_bits, max_tokens, citations }
}

/// Normalization once the prompt has been trimmed: an empty trimmed prompt is refused,
/// anything else gets its defaults.
pub fn normalize_trimmed(raw: CompleteRequest, trimmed_prompt: &str) -> (r: Result<
    CompletionRequest,
    ValidationError,
>)
    ensures
        trimmed_prompt@.len() == 0 <==> r is Err,
        r is Err ==> r->Err_0 == ValidationError::BadRequest,
        r is Ok ==> defaults_applied(raw, r->Ok_0),
{
    if trimmed_prompt.is_empty() {
        Err(ValidationError::BadRequest)
    } else {
        Ok(apply_defaults(raw))
    }
}

/// Validates a decoded request and resolves its defaults. The only refusal is a prompt
/// that is empty or whitespace alone.
pub fn normalize(raw: CompleteRequest) -> (r: Result<CompletionRequest, ValidationError>)
    ensures
        trim_of(raw.prompt@).len() == 0 <==> r is Err,
        r is Err ==> r->Err_0 == ValidationError::BadRequest,
        r is Ok ==> defaults_applied(raw, r->Ok_0),
{
    let empty = trim_str(raw.prompt.as_str()).is_empty();
    if empty {
        Err(ValidationError::BadRequest)
    } else {
        Ok(apply_defaults(raw))
    }
}

/// A request that already names every optional field comes out of normalization with
/// every field as it was given.
pub proof fn lemma_fully_specified_unchanged(raw: CompleteRequest, r: CompletionRequest)
    requires
        is_fully_specified(raw),
        defaults_applied(raw, r),
    ensures
        r.prompt@ == raw.prompt@,
        r.locale@ == raw.locale->0@,
        r.model@ == raw.model->0@,
        r.temperature_bits == raw.temperature_bits->0,
        r.max_tokens == raw.max_tokens->0,
        r.citations@ == raw.citations->0@,
{
}

/// Each omitted field takes its own default (`ru-RU`, `stub`, 0.7, 1024, no citations)
/// whatever the other fields hold, and each supplied field is kept.
pub proof fn lemma_defaults_independent(raw: CompleteRequest, r: CompletionRequest)
    requires
        defaults_applied(raw, r),
    ensures
        r.prompt@ == raw.prompt@,
        raw.locale is None ==> r.locale@ == "ru-RU"@,
        raw.locale is Some ==> r.locale@ == raw.locale->0@,
        raw.model is None ==> r.model@ == "stub"@,
        raw.model is Some ==> r.model@ == raw.model->0@,
        raw.temperature_bits is None ==> r.temperature_bits == DEFAULT_TEMPERATURE_BITS,
        raw.temperature_bits is Some ==> r.temperature_bits == raw.temperature_bits->0,
        raw.max_tokens is None ==> r.max_tokens == 1024,
        raw.max_tokens is Some ==> r.max_tokens == raw.max_tokens->0,
        raw.citations is None ==> r.citations@.len() == 0,
        raw.citations is Some ==> r.citations@ == raw.citations->0@,
{
}

} // verus!
