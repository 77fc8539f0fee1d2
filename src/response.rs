//! The outward payloads of the completion endpoint.
use vstd::prelude::*;
use vstd::string::StringExecFns;
use crate::citations::{preview_lines, summarize_citations};
use crate::normalize::{CompletionRequest, ValidationError};

verus! {

/// HTTP status of a synthesized completion.
pub const STATUS_OK: u16 = 200;

/// HTTP status of a refused request.
pub const STATUS_BAD_REQUEST: u16 = 400;

/// Body of the liveness probe.
pub const HEALTH_BODY: &'static str = "ok\n";

/// Response header that carries the correlation identifier.
pub const REQUEST_ID_HEADER: &'static str = "x-request-id";

/// Echo of the resolved parameters; `stub` marks the completion as synthetic.
pub struct CompletionUsage {
    pub model: String,
    pub locale: String,
    pub temperature_bits: u64,
    pub max_tokens: u32,
    pub citations: usize,
    pub stub: bool,
}

pub struct CompleteResponse {
    pub request_id: String,
    pub text: String,
    pub usage: CompletionUsage,
}

pub struct ErrorResponse {
    pub request_id: String,
    pub code: String,
    pub message: String,
}

/// What the `Debug` format gives for a string: quoted, with special characters escaped.
pub uninterp spec fn debug_quoted(s: Seq<char>) -> Seq<char>;

/// Decimal digits of a natural number, most significant first, without leading zeros.
pub open spec fn decimal(n: nat) -> Seq<char>
    decreases n,
{
    let d = seq!['0', '1', '2', '3', '4', '5', '6', '7', '8', '9'];
    if n < 10 {
        seq![d[n as int]]
    } else {
        decimal(n / 10) + seq![d[(n % 10) as int]]
    }
}

/// Quoted items separated by `, `.
pub open spec fn quoted_items(items: Seq<Seq<char>>) -> Seq<char>
    decreases items.len(),
{
    if items.len() == 0 {
        Seq::empty()
    } else if items.len() == 1 {
        debug_quoted(items[0])
    } else {
        quoted_items(items.drop_last()) + ", "@ + debug_quoted(items.last())
    }
}

/// A list of strings as the `Debug` format renders it: `["a", "b"]`.
pub open spec fn debug_list(items: Seq<Seq<char>>) -> Seq<char> {
    "["@ + quoted_items(items) + "]"@
}

/// The diagnostic text of a synthesized completion.
pub open spec fn completion_text(
    model: Seq<char>,
    locale: Seq<char>,
    temperature: Seq<char>,
    max_tokens: nat,
    count: nat,
    preview: Seq<Seq<char>>,
) -> Seq<char> {
    "stub: completion generated (model="@ + model + ", locale="@ + locale + ", temperature="@
        + temperature + ", maxTokens="@ + decimal(max_tokens) + ", citations="@ + decimal(count)
        + ", preview="@ + debug_list(preview) + ")"@
}

/// Relies on `u64`'s `Display`: plain decimal digits.
#[verifier::external_body]
fn decimal_text(n: u64) -> (r: String)
    ensures
        r@ == decimal(n as nat),
{
    n.to_string()
}

/// Relies on `str`'s `Debug`: the result depends on the characters of `s` alone.
#[verifier::external_body]
fn debug_text(s: &str) -> (r: String)
    ensures
        r@ == debug_quoted(s@),
{
    format!("{:?}", s)
}

/// Renders a list of strings as the `Debug` format does.
pub fn render_debug_list(items: &Vec<String>) -> (r: String)
    ensures
        r@ == debug_list(items@.map_values(|s: String| s@)),
{
    let ghost views = items@.map_values(|s: String| s@);
    let mut body = String::new();
    let mut i: usize = 0;
    assert(views.take(0) =~= Seq::<Seq<char>>::empty());
    while i < items.len()
        invariant
            i <= items@.len(),
            views == items@.map_values(|s: String| s@),
            body@ == quoted_items(views.take(i as int)),
        decreases items.len() - i,
    {
        let q = debug_text(items[i].as_str());
        if i > 0 {
            body.append(", ");
        }
        body.append(q.as_str());
        proof {
            let next = views.take(i + 1);
            assert(next.drop_last() =~= views.take(i as int));
            assert(next.last() == items@[i as int]@);
            assert(body@ =~= quoted_items(next));
        }
        i = i + 1;
    }
    let mut r = String::from_str("[");
    r.append(body.as_str());
    r.append("]");
    proof {
        assert(views.take(items@.len() as int) =~= views);
        assert(r@ =~= debug_list(views));
    }
    r
}

impl CompleteResponse {
    pub fn status(&self) -> (r: u16)
        ensures
            r == STATUS_OK,
    {
        STATUS_OK
    }
}

impl ErrorResponse {
    pub fn status(&self) -> (r: u16)
        ensures
            r == STATUS_BAD_REQUEST,
    {
        STATUS_BAD_REQUEST
    }
}

/// The error payload of a refused request, tagged with its correlation identifier.
pub fn build_error(request_id: String, err: ValidationError) -> (r: ErrorResponse)
    ensures
        r.request_id@ == request_id@,
        r.code@ == "BAD_REQUEST"@,
        r.message@ == "prompt is required"@,
{
    let code = err.code();
    let message = err.message();
    ErrorResponse { request_id, code, message }
}

/// The success payload of a normalized request. `temperature_text` is the decimal
/// rendering of the temperature that `req.temperature_bits` encodes.
pub fn build_success(request_id: String, req: CompletionRequest, temperature_text: &str) -> (r:
    CompleteResponse)
    ensures
        r.request_id@ == request_id@,
        r.usage.model@ == req.model@,
        r.usage.locale@ == req.locale@,
        r.usage.temperature_bits == req.temperature_bits,
        r.usage.max_tokens == req.max_tokens,
        r.usage.citations == req.citations@.len(),
        r.usage.stub,
        r.text@ == completion_text(
            req.model@,
            req.locale@,
            temperature_text@,
            req.max_tokens as nat,
            req.citations@.len(),
            preview_lines(req.citations@),
        ),
{
    let summary = summarize_citations(&req.citations);
    let preview = render_debug_list(&summary.preview);
    let max_tokens = decimal_text(req.max_tokens as u64);
    let count = decimal_text(summary.count as u64);
    let mut text = String::from_str("stub: completion generated (model=");
    text.append(req.model.as_str());
    text.append(", locale=");
    text.append(req.locale.as_str());
    text.append(", temperature=");
    text.append(temperature_text);
    text.append(", maxTokens=");
    text.append(max_tokens.as_str());
    text.append(", citations=");
    text.append(count.as_str());
    text.append(", preview=");
    text.append(preview.as_str());
    text.append(")");
    proof {
        assert(text@ =~= completion_text(
            req.model@,
            req.locale@,
            temperature_text@,
            req.max_tokens as nat,
            req.citations@.len(),
            preview_lines(req.citations@),
        ));
    }
    let CompletionRequest { prompt: _, locale, model, temperature_bits, max_tokens, citations: _ } =
        req;
    let usage = CompletionUsage {
        model,
        locale,
        temperature_bits,
        max_tokens,
        citations: summary.count,
        stub: true,
    };
    CompleteResponse { request_id, text, usage }
}

} // verus!
