//! Talking to the model router: the chat and ask exchanges, what is taken from their
//! answers, and the receipts that record them.

use vstd::prelude::*;
use vstd::utf8::encode_utf8;
use crate::ids::{is_v4, new_uuid_v4};
use crate::json::{JsonMap, JsonSpec, JsonValue, entries_view, lemma_object_view};
use crate::plan::{OsaiPlan, plan_validation, validation_error_message};
use crate::receipt::{Receipt, ReceiptStatus};
use crate::shared::{
    is_loopback_spec, is_loopback_url, join_spec, join_strings, parse_scheme_host, slug_from_request, slug_spec,
    texts_of, url_scheme_host,
};
use crate::text::{chars_of, concat, decimal_spec, decimal_text, owned, string_of_range};

verus! {

/// A message of a chat exchange.
#[derive(Debug, Clone)]
pub struct ChatMessage {
    pub role: String,
    pub content: String,
}

/// Metadata sent with a chat request.
#[derive(Debug, Clone)]
pub struct ChatMetadata {
    pub privacy: String,
}

/// Chat response from the model router.
#[derive(Debug, Clone)]
pub struct ChatResponse {
    pub id: String,
    pub model: String,
    pub choices: Vec<ChatChoice>,
    pub usage: Option<ChatUsage>,
}

/// One choice of a chat response.
#[derive(Debug, Clone)]
pub struct ChatChoice {
    pub message: ChatChoiceMessage,
    pub finish_reason: Option<String>,
}

/// The message of a choice.
#[derive(Debug, Clone)]
pub struct ChatChoiceMessage {
    pub role: String,
    pub content: Option<String>,
}

/// Token usage reported with a chat response.
#[derive(Debug, Clone)]
pub struct ChatUsage {
    pub prompt_tokens: Option<u32>,
    pub completion_tokens: Option<u32>,
    pub total_tokens: Option<u32>,
}

/// Result of a chat operation.
#[derive(Debug, Clone)]
pub struct ChatResult {
    pub status: String,
    pub content: Option<String>,
    pub response_length: Option<usize>,
    pub error: Option<String>,
}

/// Result of an ask operation.
#[derive(Debug, Clone)]
pub struct AskResult {
    pub status: String,
    pub output_path: Option<String>,
    pub validation: String,
    pub error: Option<String>,
}

/// Why a model router URL is refused.
pub open spec fn loopback_message(url: Seq<char>) -> Seq<char> {
    "Model router URL must be loopback only (127.0.0.1 or localhost): "@ + url
}

/// The refusal of a model router URL that is not loopback-only, if it is not.
pub fn loopback_url_error(url: &str) -> (r: Option<String>)
    ensures
        (r is Some) == !is_loopback_spec(url@),
        r matches Some(m) ==> m@ == loopback_message(url@),
{
    if is_loopback_url(url) {
        None
    } else {
        Some(concat("Model router URL must be loopback only (127.0.0.1 or localhost): ", url))
    }
}

/// The text a command acts on, given as `--message` or as positional words (joined
/// by spaces), but not both and not neither; `noun` names it in the errors.
pub open spec fn input_spec(arg: Option<Seq<char>>, positional: Seq<Seq<char>>, noun: Seq<char>) -> Result<
    Seq<char>,
    Seq<char>,
> {
    if positional.len() > 0 && arg is Some {
        Err("Cannot use both positional "@ + noun + " and --message flag. Use one or the other."@)
    } else if positional.len() == 0 && arg is None {
        Err("No "@ + noun + " provided. Use a positional "@ + noun + " or --message flag."@)
    } else if arg is Some {
        Ok(arg->0)
    } else {
        Ok(join_spec(positional, " "@))
    }
}

/// Resolves the text a command acts on.
pub fn resolve_input(arg: Option<&str>, positional: &Vec<String>, noun: &str) -> (r: Result<String, String>)
    ensures
        match r {
            Ok(t) => input_spec(
                match arg {
                    Some(a) => Some(a@),
                    None => None,
                },
                texts_of(positional@),
                noun@,
            ) == Ok::<Seq<char>, Seq<char>>(t@),
            Err(e) => input_spec(
                match arg {
                    Some(a) => Some(a@),
                    None => None,
                },
                texts_of(positional@),
                noun@,
            ) == Err::<Seq<char>, Seq<char>>(e@),
        },
{
    assert(texts_of(positional@).len() == positional@.len());
    if positional.len() > 0 && arg.is_some() {
        let a = concat("Cannot use both positional ", noun);
        let m = concat(a.as_str(), " and --message flag. Use one or the other.");
        return Err(m);
    }
    if positional.len() == 0 && arg.is_none() {
        let a = concat("No ", noun);
        let b = concat(a.as_str(), " provided. Use a positional ");
        let c = concat(b.as_str(), noun);
        let m = concat(c.as_str(), " or --message flag.");
        proof {
            assert(m@ =~= "No "@ + noun@ + " provided. Use a positional "@ + noun@ + " or --message flag."@);
        }
        return Err(m);
    }
    match arg {
        Some(a) => Ok(owned(a)),
        None => Ok(join_strings(positional, " ")),
    }
}

/// The messages of a chat: the user's message alone.
pub fn chat_messages(message: &str) -> (v: Vec<ChatMessage>)
    ensures
        v@.len() == 1,
        v@[0].role@ == "user"@,
        v@[0].content@ == message@,
{
    let mut v: Vec<ChatMessage> = Vec::new();
    v.push(ChatMessage { role: owned("user"), content: owned(message) });
    v
}

/// The messages of an ask: the system prompt, then the user's request.
pub fn ask_messages(system_prompt: &str, request: &str) -> (v: Vec<ChatMessage>)
    ensures
        v@.len() == 2,
        v@[0].role@ == "system"@,
        v@[0].content@ == system_prompt@,
        v@[1].role@ == "user"@,
        v@[1].content@ == request@,
{
    let mut v: Vec<ChatMessage> = Vec::new();
    v.push(ChatMessage { role: owned("system"), content: owned(system_prompt) });
    v.push(ChatMessage { role: owned("user"), content: owned(request) });
    v
}

/// The token limit of an ask: the one given, else 1200.
pub fn ask_max_tokens(max_tokens: Option<u32>) -> (r: Option<u32>)
    ensures
        r == match max_tokens {
            Some(m) => Some(m),
            None => Some(1200u32),
        },
{
    match max_tokens {
        Some(m) => Some(m),
        None => Some(1200),
    }
}

/// The assistant's answer: the content of the first choice, when it has one.
pub open spec fn content_spec(resp: ChatResponse) -> Option<Seq<char>> {
    if resp.choices@.len() > 0 {
        match resp.choices@[0].message.content {
            Some(c) => Some(c@),
            None => None,
        }
    } else {
        None
    }
}

/// The error a model router's error answer ends a chat or an ask with: its status
/// (code and reason) and the body it sent.
pub open spec fn router_status_message(status: Seq<char>, body: Seq<char>) -> Seq<char> {
    "Model router returned error "@ + status + ": "@ + body
}

/// The error a model router's error answer ends a chat or an ask with.
pub fn router_status_error(status: &str, body: &str) -> (r: String)
    ensures
        r@ == router_status_message(status@, body@),
{
    let a = concat("Model router returned error ", status);
    let b = concat(a.as_str(), ": ");
    concat(b.as_str(), body)
}

/// The error an ask run by the local API ends with when the model router could not be
/// called or gave no answer: the cause, after a fixed lead.
pub open spec fn router_call_failed_message(cause: Seq<char>) -> Seq<char> {
    "Model router call failed: "@ + cause
}

/// The error an ask run by the local API ends with when the model router failed.
pub fn router_call_failed(cause: &str) -> (r: String)
    ensures
        r@ == router_call_failed_message(cause@),
{
    concat("Model router call failed: ", cause)
}

/// The assistant's answer in a chat response, or `Model response missing content`.
pub fn response_content(resp: &ChatResponse) -> (r: Result<String, String>)
    ensures
        match r {
            Ok(c) => content_spec(*resp) == Some(c@),
            Err(e) => content_spec(*resp) is None && e@ == "Model response missing content"@,
        },
{
    if resp.choices.len() > 0 {
        match &resp.choices[0].message.content {
            Some(c) => Ok(c.clone()),
            None => Err(owned("Model response missing content")),
        }
    } else {
        Err(owned("Model response missing content"))
    }
}

/// The finish reason of the first choice, if any.
pub fn first_finish_reason(resp: &ChatResponse) -> (r: Option<String>)
    ensures
        match r {
            Some(f) => resp.choices@.len() > 0 && (resp.choices@[0].finish_reason matches Some(x) && x@ == f@),
            None => resp.choices@.len() == 0 || resp.choices@[0].finish_reason is None,
        },
{
    if resp.choices.len() > 0 {
        match &resp.choices[0].finish_reason {
            Some(f) => Some(f.clone()),
            None => None,
        }
    } else {
        None
    }
}

/// The result of a chat that got `content`: success, with the content's length in
/// UTF-8 bytes.
pub fn chat_result(content: String) -> (r: ChatResult)
    ensures
        r.status@ == "success"@,
        r.content matches Some(c) && c@ == content@,
        r.response_length == Some(encode_utf8(content@).len() as usize),
        r.error is None,
{
    let n = content.as_str().len();
    ChatResult { status: owned("success"), content: Some(content), response_length: Some(n), error: None }
}

/// The host a model router URL names, or `unknown` when it has none or does not parse.
pub open spec fn router_host_spec(url: Seq<char>) -> Seq<char> {
    match url_scheme_host(url) {
        Some((_, Some(h))) => h,
        _ => "unknown"@,
    }
}

/// The host a model router URL names, for receipts (no secrets).
pub fn router_host(url: &str) -> (h: String)
    ensures
        h@ == router_host_spec(url@),
{
    match parse_scheme_host(url) {
        Some((_, Some(h))) => h,
        _ => owned("unknown"),
    }
}

/// A JSON number for a count.
fn count_value(n: usize) -> (v: JsonValue)
    ensures
        v@ == JsonSpec::Number(decimal_spec(n as nat)),
{
    JsonValue::Number(decimal_text(n as u64))
}

/// The inputs a chat receipt records: the router's host, the model, the privacy
/// mode, the prompt's length in UTF-8 bytes, the temperature as JSON number text and
/// the token limit (null when none). Keys are in ascending order.
pub open spec fn chat_inputs_spec(
    host: Seq<char>,
    model: Seq<char>,
    privacy: Seq<char>,
    prompt_length: nat,
    temperature: Seq<char>,
    max_tokens: Option<u32>,
) -> JsonSpec {
    JsonSpec::Object(
        seq![
            ("max_tokens"@, match max_tokens {
                Some(m) => JsonSpec::Number(decimal_spec(m as nat)),
                None => JsonSpec::Null,
            }),
            ("model"@, JsonSpec::Str(model)),
            ("model_router_url_host"@, JsonSpec::Str(host)),
            ("privacy"@, JsonSpec::Str(privacy)),
            ("prompt_length"@, JsonSpec::Number(decimal_spec(prompt_length))),
            ("temperature"@, JsonSpec::Number(temperature)),
        ],
    )
}

/// The outputs a chat receipt records: the first choice's finish reason (null when
/// none) and the response's length in UTF-8 bytes.
pub open spec fn chat_outputs_spec(finish_reason: Option<Seq<char>>, response_length: nat) -> JsonSpec {
    JsonSpec::Object(
        seq![
            ("finish_reason"@, match finish_reason {
                Some(f) => JsonSpec::Str(f),
                None => JsonSpec::Null,
            }),
            ("response_length"@, JsonSpec::Number(decimal_spec(response_length))),
        ],
    )
}

/// `r` is a receipt of the agent's `action`, run by `tool`, at low risk with
/// automatic approval, with the given status, inputs and outputs.
pub open spec fn is_agent_receipt(
    r: Receipt,
    action: Seq<char>,
    tool: Seq<char>,
    status: ReceiptStatus,
    inputs: JsonSpec,
    outputs: JsonSpec,
) -> bool {
    &&& is_v4(r.id)
    &&& r.actor@ == "osai-agent"@
    &&& r.action@ == action
    &&& r.tool matches Some(t) && t@ == tool
    &&& r.plan_id is None
    &&& r.risk@ == "Low"@
    &&& r.approval@ == "Auto"@
    &&& r.status == status
    &&& r.inputs_redacted@ == inputs
    &&& r.outputs_redacted matches Some(o) && o@ == outputs
    &&& r.metadata.entries@.len() == 0
}

/// The receipt of a chat: the model router's host (from its URL), model, privacy,
/// prompt length, temperature (JSON number text) and token limit; and the answer's
/// finish reason and length.
pub fn chat_receipt(
    model_router_url: &str,
    model: &str,
    privacy: &str,
    message: &str,
    temperature_json: &str,
    max_tokens: Option<u32>,
    finish_reason: Option<&str>,
    content: &str,
) -> (r: Receipt)
    ensures
        is_agent_receipt(
            r,
            "ModelChat"@,
            "osai-agent chat"@,
            ReceiptStatus::Executed,
            chat_inputs_spec(
                router_host_spec(model_router_url@),
                model@,
                privacy@,
                message.len() as nat,
                temperature_json@,
                max_tokens,
            ),
            chat_outputs_spec(
                match finish_reason {
                    Some(f) => Some(f@),
                    None => None,
                },
                content.len() as nat,
            ),
        ),
        r.error is None,
{
    let host = router_host(model_router_url);
    let mut inputs: Vec<(String, JsonValue)> = Vec::new();
    inputs.push((owned("max_tokens"), match max_tokens {
        Some(m) => JsonValue::Number(decimal_text(m as u64)),
        None => JsonValue::Null,
    }));
    inputs.push((owned("model"), JsonValue::Str(owned(model))));
    inputs.push((owned("model_router_url_host"), JsonValue::Str(host)));
    inputs.push((owned("privacy"), JsonValue::Str(owned(privacy))));
    inputs.push((owned("prompt_length"), count_value(message.len())));
    inputs.push((owned("temperature"), JsonValue::Number(owned(temperature_json))));
    let mut outputs: Vec<(String, JsonValue)> = Vec::new();
    outputs.push((owned("finish_reason"), match finish_reason {
        Some(f) => JsonValue::Str(owned(f)),
        None => JsonValue::Null,
    }));
    outputs.push((owned("response_length"), count_value(content.len())));
    let im = JsonMap { entries: inputs };
    let om = JsonMap { entries: outputs };
    proof {
        lemma_object_view(im);
        lemma_object_view(om);
        assert(entries_view(im.entries@) =~= chat_inputs_spec(
            router_host_spec(model_router_url@),
            model@,
            privacy@,
            message.len() as nat,
            temperature_json@,
            max_tokens,
        )->Object_0);
        assert(entries_view(om.entries@) =~= chat_outputs_spec(
            match finish_reason {
                Some(f) => Some(f@),
                None => None,
            },
            content.len() as nat,
        )->Object_0);
    }
    Receipt::new("osai-agent", "ModelChat")
        .with_tool("osai-agent chat")
        .with_risk("Low")
        .with_approval("Auto")
        .with_status(ReceiptStatus::Executed)
        .with_inputs(JsonValue::Object(im))
        .with_outputs(JsonValue::Object(om))
}

/// The system prompt that asks the model for a plan.
pub const ASK_SYSTEM_PROMPT: &'static str = "You are an OSAI plan generator. Return ONLY valid OSAI Plan DSL YAML with no markdown fences, no explanation, and no additional text.

## REQUIRED YAML SCHEMA

Your output MUST match this exact top-level structure:
version: \"0.1\"
id: \"<generate a fresh UUID v4>\"
title: \"<short title>\"
description: \"<one-sentence description>\"
actor: \"user\"
risk: Low
approval: Auto
steps:
  - id: \"step-1\"
    action:
      type: FilesList
    description: \"<what this step does>\"
    requires_approval: false
    inputs:
      path: \"~/Downloads\"
rollback:
  available: false
metadata: {}

## CRITICAL RULES

1. Use `steps:` \u{2014} NEVER use `plan:` or any other top-level key for the action list.
2. Use exact action types: FilesList, FilesMove, FilesWrite, ModelChat, ReceiptCreate, DesktopNotify, BrowserOpenUrl, ShellRunSandboxed, Custom. Do NOT invent names like ListDirectory or ReadFile.
3. Each step needs id, action.type, description, requires_approval, inputs.
4. For listing a directory, use:
   action:
     type: FilesList
   inputs:
     path: \"~/Downloads\"
5. Omit rollback entirely (or use: rollback: ~). Do not add rollback.steps unless rollback is obvious.
6. Use metadata: {}.
7. Generate a fresh UUID v4 for id \u{2014} do not reuse the example UUID.

## VALID EXAMPLE

For the request \"List my Downloads folder\", output exactly:

version: \"0.1\"
id: \"00000000-0000-4000-8000-000000000001\"
title: \"List Downloads folder\"
description: \"List files in the user's Downloads folder\"
actor: \"user\"
risk: Low
approval: Auto
steps:
  - id: \"step-1\"
    action:
      type: FilesList
    description: \"List files in Downloads\"
    requires_approval: false
    inputs:
      path: \"~/Downloads\"
metadata: {}

## SAFETY

- Do NOT include ShellRunSandboxed unless user explicitly asks to run a command.
- Do NOT include FilesWrite, FilesMove, FilesDelete (refuse destructive actions).
- Prefer ModelChat or ReceiptCreate for information-only tasks.
- risk: Low by default, Medium only with clear justification.
- approval: Auto for read-only, Ask for anything that modifies state.";

/// The id of the example plan the system prompt shows
/// (`00000000-0000-4000-8000-000000000001`).
pub const EXAMPLE_PLAN_ID: u128 = 0x0000_0000_0000_4000_8000_0000_0000_0001u128;

/// Gives a plan that reuses the example's id a fresh random one; any other plan is
/// left as it is.
pub fn refresh_example_id(plan: &mut OsaiPlan)
    ensures
        old(plan).id == EXAMPLE_PLAN_ID ==> is_v4(final(plan).id),
        old(plan).id != EXAMPLE_PLAN_ID ==> final(plan).id == old(plan).id,
        *final(plan) == (OsaiPlan { id: final(plan).id, ..*old(plan) }),
{
    if plan.id == EXAMPLE_PLAN_ID {
        plan.id = new_uuid_v4();
    }
}

/// The first `n` characters of `s`, or all of them.
pub fn take_chars(s: &str, n: usize) -> (r: String)
    ensures
        r@ == (if s@.len() > n {
            s@.take(n as int)
        } else {
            s@
        }),
{
    let cs = chars_of(s);
    let e = if cs.len() > n {
        n
    } else {
        cs.len()
    };
    let r = string_of_range(&cs, 0, e);
    proof {
        assert(cs@.subrange(0, cs@.len() as int) =~= cs@);
    }
    r
}

/// How a generated plan is refused: the error a receipt records and the error the
/// command returns.
#[derive(Debug)]
pub struct AskRefusal {
    pub receipt_error: String,
    pub message: String,
}

/// Accepts the plan the model generated as `yaml` (`parsed` is what parsing it gave):
/// an unparsable or invalid plan is refused; a valid one is kept, with a fresh id if
/// it reused the example's.
pub fn accept_generated_plan(parsed: Result<OsaiPlan, String>, yaml: &str) -> (r: Result<OsaiPlan, AskRefusal>)
    ensures
        match parsed {
            Err(e) => r matches Err(f) && f.receipt_error@ == "YAML parse error: "@ + e@ && f.message@
                == "Model returned invalid YAML: "@ + e@ + "\nRaw response: "@ + (if yaml@.len() > 200 {
                yaml@.take(200)
            } else {
                yaml@
            }),
            Ok(p) => match plan_validation(p) {
                Err(v) => r matches Err(f) && f.receipt_error@ == "Validation error: "@ + validation_error_message(v)
                    && f.message@ == "Generated plan is invalid: "@ + validation_error_message(v) + "\nYAML:\n"@
                    + yaml@,
                Ok(()) => r matches Ok(q) && q == (OsaiPlan { id: q.id, ..p }) && (p.id == EXAMPLE_PLAN_ID
                    ==> is_v4(q.id)) && (p.id != EXAMPLE_PLAN_ID ==> q.id == p.id),
            },
        },
{
    match parsed {
        Err(e) => {
            let head = take_chars(yaml, 200);
            let a = concat("Model returned invalid YAML: ", e.as_str());
            let b = concat(a.as_str(), "\nRaw response: ");
            let m = concat(b.as_str(), head.as_str());
            proof {
                assert(m@ =~= "Model returned invalid YAML: "@ + e@ + "\nRaw response: "@ + head@);
            }
            Err(AskRefusal { receipt_error: concat("YAML parse error: ", e.as_str()), message: m })
        },
        Ok(p) => {
            let mut plan = p;
            match plan.validate() {
                Err(v) => {
                    let msg = v.message();
                    let a = concat("Generated plan is invalid: ", msg.as_str());
                    let b = concat(a.as_str(), "\nYAML:\n");
                    let m = concat(b.as_str(), yaml);
                    proof {
                        assert(m@ =~= "Generated plan is invalid: "@ + msg@ + "\nYAML:\n"@ + yaml@);
                    }
                    Err(AskRefusal { receipt_error: concat("Validation error: ", msg.as_str()), message: m })
                },
                Ok(()) => {
                    refresh_example_id(&mut plan);
                    Ok(plan)
                },
            }
        },
    }
}

/// The file name a generated plan is saved under: the request's slug, a dash, the
/// time in seconds since the Unix epoch, and `.yml`.
pub fn ask_file_name(request: &str, timestamp_secs: u64) -> (r: String)
    ensures
        r@ == slug_spec(request@) + "-"@ + decimal_spec(timestamp_secs as nat) + ".yml"@,
{
    let slug = slug_from_request(request);
    let ts = decimal_text(timestamp_secs);
    let a = concat(slug.as_str(), "-");
    let b = concat(a.as_str(), ts.as_str());
    let r = concat(b.as_str(), ".yml");
    proof {
        assert(r@ =~= slug_spec(request@) + "-"@ + decimal_spec(timestamp_secs as nat) + ".yml"@);
    }
    r
}

/// The inputs an ask receipt records: the router's host, the model, the privacy mode
/// and the request's length in UTF-8 bytes. Keys are in ascending order.
pub open spec fn ask_inputs_spec(host: Seq<char>, model: Seq<char>, privacy: Seq<char>, request_length: nat) -> JsonSpec {
    JsonSpec::Object(
        seq![
            ("model"@, JsonSpec::Str(model)),
            ("model_router_url_host"@, JsonSpec::Str(host)),
            ("privacy"@, JsonSpec::Str(privacy)),
            ("request_length"@, JsonSpec::Number(decimal_spec(request_length))),
        ],
    )
}

/// The outputs an ask receipt records: the saved plan's path, when one was saved, and
/// the validation status, `executed` or `failed`.
pub open spec fn ask_outputs_spec(output_path: Option<Seq<char>>, executed: bool) -> JsonSpec {
    let status = JsonSpec::Str(if executed { "executed"@ } else { "failed"@ });
    match output_path {
        Some(p) => JsonSpec::Object(seq![("output_path"@, JsonSpec::Str(p)), ("validation_status"@, status)]),
        None => JsonSpec::Object(seq![("validation_status"@, status)]),
    }
}

/// The receipt of an ask: executed when a valid plan was saved at `output_path`,
/// failed otherwise, with the error.
pub fn ask_receipt(
    model_router_url: &str,
    model: &str,
    privacy: &str,
    request: &str,
    output_path: Option<&str>,
    executed: bool,
    error: Option<&str>,
) -> (r: Receipt)
    ensures
        is_agent_receipt(
            r,
            "PlanGenerate"@,
            "osai-agent ask"@,
            if executed {
                ReceiptStatus::Executed
            } else {
                ReceiptStatus::Failed
            },
            ask_inputs_spec(router_host_spec(model_router_url@), model@, privacy@, request.len() as nat),
            ask_outputs_spec(
                match output_path {
                    Some(p) => Some(p@),
                    None => None,
                },
                executed,
            ),
        ),
        match r.error {
            Some(e) => error matches Some(x) && x@ == e@,
            None => error is None,
        },
{
    let host = router_host(model_router_url);
    let mut inputs: Vec<(String, JsonValue)> = Vec::new();
    inputs.push((owned("model"), JsonValue::Str(owned(model))));
    inputs.push((owned("model_router_url_host"), JsonValue::Str(host)));
    inputs.push((owned("privacy"), JsonValue::Str(owned(privacy))));
    inputs.push((owned("request_length"), count_value(request.len())));
    let status_text = if executed {
        owned("executed")
    } else {
        owned("failed")
    };
    let mut outputs: Vec<(String, JsonValue)> = Vec::new();
    if let Some(p) = output_path {
        outputs.push((owned("output_path"), JsonValue::Str(owned(p))));
    }
    outputs.push((owned("validation_status"), JsonValue::Str(status_text)));
    let im = JsonMap { entries: inputs };
    let om = JsonMap { entries: outputs };
    proof {
        lemma_object_view(im);
        lemma_object_view(om);
        assert(entries_view(im.entries@) =~= ask_inputs_spec(
            router_host_spec(model_router_url@),
            model@,
            privacy@,
            request.len() as nat,
        )->Object_0);
        assert(entries_view(om.entries@) =~= ask_outputs_spec(
            match output_path {
                Some(p) => Some(p@),
                None => None,
            },
            executed,
        )->Object_0);
    }
    let status = if executed {
        ReceiptStatus::Executed
    } else {
        ReceiptStatus::Failed
    };
    let mut receipt = Receipt::new("osai-agent", "PlanGenerate")
        .with_tool("osai-agent ask")
        .with_risk("Low")
        .with_approval("Auto")
        .with_status(status)
        .with_inputs(JsonValue::Object(im))
        .with_outputs(JsonValue::Object(om));
    if let Some(e) = error {
        receipt = receipt.with_error(e);
    }
    receipt
}

/// The result of an ask that saved a valid plan at `output_path`.
pub fn ask_success(output_path: &str) -> (r: AskResult)
    ensures
        r.status@ == "success"@,
        r.output_path matches Some(p) && p@ == output_path@,
        r.validation@ == "valid"@,
        r.error is None,
{
    AskResult { status: owned("success"), output_path: Some(owned(output_path)), validation: owned("valid"), error: None }
}

/// The result the API reports for an ask that failed with `error`.
pub fn ask_failure(error: &str) -> (r: AskResult)
    ensures
        r.status@ == "error"@,
        r.output_path is None,
        r.validation@ == "invalid"@,
        r.error matches Some(e) && e@ == error@,
{
    AskResult { status: owned("error"), output_path: None, validation: owned("invalid"), error: Some(owned(error)) }
}

/// The result the API reports for a chat that failed with `error`.
pub fn chat_failure(error: &str) -> (r: ChatResult)
    ensures
        r.status@ == "error"@,
        r.content is None,
        r.response_length is None,
        r.error matches Some(e) && e@ == error@,
{
    ChatResult { status: owned("error"), content: None, response_length: None, error: Some(owned(error)) }
}

} // verus!
