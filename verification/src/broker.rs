//! The tool broker: policy-based authorization of tool requests, and the audit
//! receipt of every decision.

use vstd::prelude::*;
use crate::ids::{is_v4, new_uuid_v4};
use crate::json::{
    JsonMap, JsonSpec, JsonValue, entries_view, find_key, insert_spec, json_view, lemma_find_key_bounds,
    lemma_object_view, lookup, position_of,
};
use crate::plan::{ActionKind, RiskLevel, input_flag, input_flag_exec};
use crate::receipt::{Receipt, ReceiptStatus, ReceiptStore, receipt_validation};
use crate::text::{concat, contains_spec, contains_str, owned, starts_with_spec, to_lowercase, unicode_lowercase};

verus! {

/// Policy mode for authorization.
#[derive(Debug, Clone, Copy, PartialEq, Eq, Structural)]
pub enum PolicyMode {
    Allow,
    Ask,
    Deny,
}

impl PolicyMode {
    /// Returns true if this mode allows execution.
    pub fn is_allow(&self) -> (b: bool)
        ensures
            b == (*self == PolicyMode::Allow),
    {
        matches!(self, PolicyMode::Allow)
    }

    /// Returns true if this mode requires approval.
    pub fn requires_approval(&self) -> (b: bool)
        ensures
            b == (*self == PolicyMode::Ask),
    {
        matches!(self, PolicyMode::Ask)
    }

    /// Returns true if this mode denies execution.
    pub fn is_deny(&self) -> (b: bool)
        ensures
            b == (*self == PolicyMode::Deny),
    {
        matches!(self, PolicyMode::Deny)
    }
}

/// Exactly one of allow, ask and deny holds of every mode.
pub proof fn lemma_policy_mode_exclusive(m: PolicyMode)
    ensures
        (m == PolicyMode::Allow) as int + (m == PolicyMode::Ask) as int + (m == PolicyMode::Deny) as int
            == 1,
{
}

/// The name of an action, as used in policies and receipts.
pub open spec fn action_name_spec(a: ActionKind) -> Seq<char> {
    match a {
        ActionKind::FilesList => "FilesList"@,
        ActionKind::FilesRead => "FilesRead"@,
        ActionKind::FilesWrite => "FilesWrite"@,
        ActionKind::FilesMove => "FilesMove"@,
        ActionKind::FilesDelete => "FilesDelete"@,
        ActionKind::BrowserOpenUrl => "BrowserOpenUrl"@,
        ActionKind::DesktopNotify => "DesktopNotify"@,
        ActionKind::ShellRunSandboxed => "ShellRunSandboxed"@,
        ActionKind::ModelChat => "ModelChat"@,
        ActionKind::MemoryRead => "MemoryRead"@,
        ActionKind::MemoryWrite => "MemoryWrite"@,
        ActionKind::ReceiptCreate => "ReceiptCreate"@,
        ActionKind::Custom(name) => "Custom("@ + name@ + ")"@,
    }
}

/// The name of an action.
pub fn action_name_of(a: &ActionKind) -> (s: String)
    ensures
        s@ == action_name_spec(*a),
{
    match a {
        ActionKind::FilesList => owned("FilesList"),
        ActionKind::FilesRead => owned("FilesRead"),
        ActionKind::FilesWrite => owned("FilesWrite"),
        ActionKind::FilesMove => owned("FilesMove"),
        ActionKind::FilesDelete => owned("FilesDelete"),
        ActionKind::BrowserOpenUrl => owned("BrowserOpenUrl"),
        ActionKind::DesktopNotify => owned("DesktopNotify"),
        ActionKind::ShellRunSandboxed => owned("ShellRunSandboxed"),
        ActionKind::ModelChat => owned("ModelChat"),
        ActionKind::MemoryRead => owned("MemoryRead"),
        ActionKind::MemoryWrite => owned("MemoryWrite"),
        ActionKind::ReceiptCreate => owned("ReceiptCreate"),
        ActionKind::Custom(name) => {
            let a = concat("Custom(", name.as_str());
            concat(a.as_str(), ")")
        },
    }
}

/// The name of a risk level.
pub open spec fn risk_name_spec(r: RiskLevel) -> Seq<char> {
    match r {
        RiskLevel::Low => "Low"@,
        RiskLevel::Medium => "Medium"@,
        RiskLevel::High => "High"@,
        RiskLevel::Critical => "Critical"@,
    }
}

/// The name of a risk level.
pub fn risk_name(r: RiskLevel) -> (s: String)
    ensures
        s@ == risk_name_spec(r),
{
    match r {
        RiskLevel::Low => owned("Low"),
        RiskLevel::Medium => owned("Medium"),
        RiskLevel::High => owned("High"),
        RiskLevel::Critical => owned("Critical"),
    }
}

/// The name of a policy mode.
pub open spec fn mode_name_spec(m: PolicyMode) -> Seq<char> {
    match m {
        PolicyMode::Allow => "Allow"@,
        PolicyMode::Ask => "Ask"@,
        PolicyMode::Deny => "Deny"@,
    }
}

/// The name of a policy mode.
pub fn mode_name(m: PolicyMode) -> (s: String)
    ensures
        s@ == mode_name_spec(m),
{
    match m {
        PolicyMode::Allow => owned("Allow"),
        PolicyMode::Ask => owned("Ask"),
        PolicyMode::Deny => owned("Deny"),
    }
}

/// A request to authorize a tool action.
#[derive(Debug)]
pub struct ToolRequest {
    /// Unique identifier for this request.
    pub id: u128,
    /// The actor (agent or user) making the request.
    pub actor: String,
    /// Associated plan, if this is part of a plan.
    pub plan_id: Option<u128>,
    /// Associated step within the plan.
    pub step_id: Option<String>,
    /// The action being requested.
    pub action: ActionKind,
    /// Human-readable description of the action.
    pub description: String,
    /// Input parameters for the action.
    pub inputs: JsonMap,
    /// Risk level of the action.
    pub risk: RiskLevel,
}

/// The result of an authorization decision.
#[derive(Debug)]
pub struct AuthorizationDecision {
    /// The request this decision is for.
    pub request_id: u128,
    /// Whether the action is allowed.
    pub allowed: bool,
    /// Whether user approval is required before execution.
    pub requires_user_approval: bool,
    /// Human-readable reason for the decision.
    pub reason: String,
    /// The policy mode that was applied.
    pub policy_mode: PolicyMode,
}

impl ToolRequest {
    /// Creates a request with a fresh random id, no plan, step or inputs, and low risk.
    pub fn new(actor: &str, action: ActionKind, description: &str) -> (r: ToolRequest)
        ensures
            is_v4(r.id),
            r.actor@ == actor@,
            r.plan_id is None,
            r.step_id is None,
            r.action == action,
            r.description@ == description@,
            r.inputs.entries@.len() == 0,
            r.risk == RiskLevel::Low,
    {
        ToolRequest {
            id: new_uuid_v4(),
            actor: owned(actor),
            plan_id: None,
            step_id: None,
            action,
            description: owned(description),
            inputs: JsonMap::new(),
            risk: RiskLevel::Low,
        }
    }

    /// Sets the plan id.
    pub fn with_plan_id(self, plan_id: u128) -> (r: ToolRequest)
        ensures
            r == (ToolRequest { plan_id: Some(plan_id), ..self }),
    {
        ToolRequest { plan_id: Some(plan_id), ..self }
    }

    /// Sets the step id.
    pub fn with_step_id(self, step_id: &str) -> (r: ToolRequest)
        ensures
            r.step_id matches Some(s) && s@ == step_id@,
            r == (ToolRequest { step_id: r.step_id, ..self }),
    {
        ToolRequest { step_id: Some(owned(step_id)), ..self }
    }

    /// Sets the inputs.
    pub fn with_inputs(self, inputs: JsonMap) -> (r: ToolRequest)
        ensures
            r == (ToolRequest { inputs, ..self }),
    {
        ToolRequest { inputs, ..self }
    }

    /// Sets the risk level.
    pub fn with_risk(self, risk: RiskLevel) -> (r: ToolRequest)
        ensures
            r == (ToolRequest { risk, ..self }),
    {
        ToolRequest { risk, ..self }
    }

    /// Returns the action name.
    pub fn action_name(&self) -> (s: String)
        ensures
            s@ == action_name_spec(self.action),
    {
        action_name_of(&self.action)
    }

    /// Returns true if this action requires explicit approval under any policy.
    pub fn action_requires_approval(&self) -> (b: bool)
        ensures
            b == self.action.requires_approval_spec(),
    {
        self.action.requires_approval()
    }
}

/// Per-action policy modes, each action name at most once.
#[derive(Debug, Clone)]
pub struct ModeTable {
    pub entries: Vec<(String, PolicyMode)>,
}

impl ModeTable {
    /// An empty table.
    pub fn new() -> (t: ModeTable)
        ensures
            t.entries@.len() == 0,
    {
        ModeTable { entries: Vec::new() }
    }

    /// The mode stored for `name`, if any.
    pub fn get(&self, name: &str) -> (r: Option<PolicyMode>)
        ensures
            r == lookup(self.entries@, name@),
    {
        proof {
            lemma_find_key_bounds(self.entries@, name@);
        }
        match position_of(&self.entries, name) {
            Some(i) => Some(self.entries[i].1),
            None => None,
        }
    }

    /// Stores `mode` for `name`, replacing an existing mode.
    pub fn insert(&mut self, name: String, mode: PolicyMode)
        ensures
            final(self).entries@ == insert_spec(old(self).entries@, name, mode),
    {
        proof {
            lemma_find_key_bounds(self.entries@, name@);
        }
        match position_of(&self.entries, name.as_str()) {
            Some(i) => {
                self.entries.set(i, (name, mode));
            },
            None => {
                self.entries.push((name, mode));
            },
        }
    }
}

/// The names and modes of a table, in order.
pub open spec fn table_view(t: Seq<(String, PolicyMode)>) -> Seq<(Seq<char>, PolicyMode)> {
    Seq::new(t.len(), |i: int| (t[i].0@, t[i].1))
}

/// The action modes of the secure default policy.
pub open spec fn secure_default_table() -> Seq<(Seq<char>, PolicyMode)> {
    seq![
        ("ModelChat"@, PolicyMode::Allow),
        ("DesktopNotify"@, PolicyMode::Allow),
        ("MemoryRead"@, PolicyMode::Allow),
        ("FilesList"@, PolicyMode::Allow),
        ("FilesRead"@, PolicyMode::Allow),
        ("MemoryWrite"@, PolicyMode::Allow),
        ("ReceiptCreate"@, PolicyMode::Allow),
        ("FilesWrite"@, PolicyMode::Ask),
        ("FilesMove"@, PolicyMode::Ask),
        ("FilesDelete"@, PolicyMode::Ask),
        ("ShellRunSandboxed"@, PolicyMode::Ask),
        ("BrowserOpenUrl"@, PolicyMode::Ask),
        ("Custom"@, PolicyMode::Deny),
    ]
}

/// Policy configuration for the broker.
#[derive(Debug, Clone)]
pub struct ToolPolicy {
    /// Default mode for actions without explicit configuration.
    pub default_mode: PolicyMode,
    /// Per-action policy modes.
    pub action_modes: ModeTable,
    /// Allowed root directories for filesystem actions.
    pub allowed_roots: Vec<String>,
    /// Whether shell network access is allowed.
    pub shell_network_allowed: bool,
    /// Whether shell commands must be sandboxed.
    pub shell_requires_sandbox: bool,
}

/// Why text could not be read as a policy.
#[derive(Debug, Clone)]
pub enum ToolPolicyParseError {
    YamlError(String),
}

/// Why a policy could not be written as text.
#[derive(Debug, Clone)]
pub enum ToolPolicySerializeError {
    YamlError(String),
}

/// Errors of broker operations.
#[derive(Debug, Clone)]
pub enum ToolBrokerError {
    ReceiptWrite(String),
    ReceiptValidation(String),
}

/// The mode a policy applies to the action named `name`: its own entry, else the
/// `Custom` entry for custom actions, else the default mode.
pub open spec fn action_mode_spec(p: ToolPolicy, name: Seq<char>) -> PolicyMode {
    match lookup(p.action_modes.entries@, name) {
        Some(m) => m,
        None => if name.len() >= 7 && name.subrange(0, 7) == "Custom("@ && lookup(
            p.action_modes.entries@,
            "Custom"@,
        ) is Some {
            lookup(p.action_modes.entries@, "Custom"@)->0
        } else {
            p.default_mode
        },
    }
}

impl ToolPolicy {
    /// The secure default policy: read-only and informational actions are allowed,
    /// file changes, shell and browser actions ask for approval, custom actions are
    /// denied, everything else asks; shell needs a sandbox and has no network.
    pub fn default_secure() -> (p: ToolPolicy)
        ensures
            p.default_mode == PolicyMode::Ask,
            table_view(p.action_modes.entries@) == secure_default_table(),
            p.allowed_roots@.len() == 0,
            !p.shell_network_allowed,
            p.shell_requires_sandbox,
    {
        let mut e: Vec<(String, PolicyMode)> = Vec::new();
        e.push((owned("ModelChat"), PolicyMode::Allow));
        e.push((owned("DesktopNotify"), PolicyMode::Allow));
        e.push((owned("MemoryRead"), PolicyMode::Allow));
        e.push((owned("FilesList"), PolicyMode::Allow));
        e.push((owned("FilesRead"), PolicyMode::Allow));
        e.push((owned("MemoryWrite"), PolicyMode::Allow));
        e.push((owned("ReceiptCreate"), PolicyMode::Allow));
        e.push((owned("FilesWrite"), PolicyMode::Ask));
        e.push((owned("FilesMove"), PolicyMode::Ask));
        e.push((owned("FilesDelete"), PolicyMode::Ask));
        e.push((owned("ShellRunSandboxed"), PolicyMode::Ask));
        e.push((owned("BrowserOpenUrl"), PolicyMode::Ask));
        e.push((owned("Custom"), PolicyMode::Deny));
        assert(table_view(e@) =~= secure_default_table());
        ToolPolicy {
            default_mode: PolicyMode::Ask,
            action_modes: ModeTable { entries: e },
            allowed_roots: Vec::new(),
            shell_network_allowed: false,
            shell_requires_sandbox: true,
        }
    }

    /// The mode this policy applies to the action named `action_name`.
    pub fn get_action_mode(&self, action_name: &str) -> (m: PolicyMode)
        ensures
            m == action_mode_spec(*self, action_name@),
    {
        if let Some(mode) = self.action_modes.get(action_name) {
            return mode;
        }
        if crate::text::starts_with(action_name, "Custom(") {
            proof {
                reveal_strlit("Custom(");
            }
            if let Some(mode) = self.action_modes.get("Custom") {
                return mode;
            }
        }
        proof {
            reveal_strlit("Custom(");
        }
        self.default_mode
    }
}

/// The reason given when a shell request asks for network that the policy forbids.
pub open spec fn network_denied_reason() -> Seq<char> {
    "ShellRunSandboxed with network=true denied: shell_network_allowed is false"@
}

/// The reason given when a shell request lacks a sandbox that the policy requires.
pub open spec fn sandbox_denied_reason() -> Seq<char> {
    "ShellRunSandboxed denied: sandbox required but inputs.sandbox != true"@
}

/// The decision a policy makes on a request: whether it is allowed, whether it needs
/// user approval, the mode applied, and the reason given.
pub open spec fn decision_spec(p: ToolPolicy, req: ToolRequest) -> (bool, bool, PolicyMode, Seq<char>) {
    decision_on(p, req.action, req.inputs)
}

/// The decision a policy makes on an action with the given inputs; it depends on
/// nothing else of a request.
pub open spec fn decision_on(p: ToolPolicy, action: ActionKind, inputs: JsonMap) -> (bool, bool, PolicyMode, Seq<char>) {
    let name = action_name_spec(action);
    let network = input_flag(inputs, "network"@);
    let sandbox = input_flag(inputs, "sandbox"@);
    if action is ShellRunSandboxed && network && !p.shell_network_allowed {
        (false, false, PolicyMode::Deny, network_denied_reason())
    } else if action is ShellRunSandboxed && !sandbox && p.shell_requires_sandbox {
        (false, false, PolicyMode::Deny, sandbox_denied_reason())
    } else {
        match action_mode_spec(p, name) {
            PolicyMode::Allow => (true, false, PolicyMode::Allow, "Action "@ + name + " allowed by policy"@),
            PolicyMode::Ask => (true, true, PolicyMode::Ask, "Action "@ + name + " requires user approval"@),
            PolicyMode::Deny => (false, false, PolicyMode::Deny, "Action "@ + name + " denied by policy"@),
        }
    }
}

/// The receipt status recorded for a decision.
pub open spec fn decision_status(allowed: bool, requires_user_approval: bool) -> ReceiptStatus {
    if allowed && !requires_user_approval {
        ReceiptStatus::Approved
    } else if allowed {
        ReceiptStatus::Planned
    } else {
        ReceiptStatus::Denied
    }
}

/// The keys whose values are secret: those whose lowercase form contains
/// `key`, `token`, `secret`, `password` or `credential`.
pub open spec fn is_secret_key(k: Seq<char>) -> bool {
    let l = unicode_lowercase(k);
    contains_spec(l, "key"@) || contains_spec(l, "token"@) || contains_spec(l, "secret"@)
        || contains_spec(l, "password"@) || contains_spec(l, "credential"@)
}

/// An entry with a secret key has its value replaced by the text `[REDACTED]`.
pub open spec fn redact_entry(e: (Seq<char>, JsonSpec)) -> (Seq<char>, JsonSpec) {
    if is_secret_key(e.0) {
        (e.0, JsonSpec::Str("[REDACTED]"@))
    } else {
        e
    }
}

/// The redacted form of the inputs: same keys in the same order, secret values replaced.
pub open spec fn redacted_inputs_spec(inputs: Seq<(Seq<char>, JsonSpec)>) -> JsonSpec {
    JsonSpec::Object(Seq::new(inputs.len(), |i: int| redact_entry(inputs[i])))
}

/// Whether `key` names a secret.
pub fn is_secret_key_exec(key: &str) -> (b: bool)
    ensures
        b == is_secret_key(key@),
{
    let l = to_lowercase(key);
    contains_str(l.as_str(), "key") || contains_str(l.as_str(), "token") || contains_str(
        l.as_str(),
        "secret",
    ) || contains_str(l.as_str(), "password") || contains_str(l.as_str(), "credential")
}

/// Redacts secret-looking values from inputs.
pub fn redact_secret_inputs(inputs: &JsonMap) -> (r: JsonValue)
    ensures
        r@ == redacted_inputs_spec(inputs@),
{
    let mut out: Vec<(String, JsonValue)> = Vec::new();
    let n = inputs.entries.len();
    let mut i: usize = 0;
    while i < n
        invariant
            0 <= i <= n,
            n == inputs.entries@.len(),
            out@.len() == i,
            forall|j: int| 0 <= j < i ==> ((#[trigger] out@[j]).0@, json_view(out@[j].1)) == redact_entry(inputs@[j]),
        decreases n - i,
    {
        let key = inputs.entries[i].0.clone();
        let v = if is_secret_key_exec(key.as_str()) {
            JsonValue::Str(owned("[REDACTED]"))
        } else {
            inputs.entries[i].1.copy_value()
        };
        proof {
            assert(inputs@[i as int] == (inputs.entries@[i as int].0@, json_view(inputs.entries@[i as int].1)));
        }
        out.push((key, v));
        i = i + 1;
    }
    let m = JsonMap { entries: out };
    proof {
        lemma_object_view(m);
        assert(entries_view(out@) =~= Seq::new(inputs@.len(), |i: int| redact_entry(inputs@[i])));
    }
    JsonValue::Object(m)
}

/// The redacted inputs a broker receipt records: the action name, the description
/// and the redacted inputs.
pub open spec fn broker_receipt_inputs(req: ToolRequest) -> JsonSpec {
    JsonSpec::Object(
        seq![
            ("action"@, JsonSpec::Str(action_name_spec(req.action))),
            ("description"@, JsonSpec::Str(req.description@)),
            ("inputs"@, redacted_inputs_spec(req.inputs@)),
        ],
    )
}

/// Action, risk and mode names are never empty.
pub proof fn lemma_names_non_empty(a: ActionKind, r: RiskLevel, m: PolicyMode)
    ensures
        action_name_spec(a).len() > 0,
        risk_name_spec(r).len() > 0,
        mode_name_spec(m).len() > 0,
{
    reveal_strlit("FilesList");
    reveal_strlit("FilesRead");
    reveal_strlit("FilesWrite");
    reveal_strlit("FilesMove");
    reveal_strlit("FilesDelete");
    reveal_strlit("BrowserOpenUrl");
    reveal_strlit("DesktopNotify");
    reveal_strlit("ShellRunSandboxed");
    reveal_strlit("ModelChat");
    reveal_strlit("MemoryRead");
    reveal_strlit("MemoryWrite");
    reveal_strlit("ReceiptCreate");
    reveal_strlit("Custom(");
    reveal_strlit("Low");
    reveal_strlit("Medium");
    reveal_strlit("High");
    reveal_strlit("Critical");
    reveal_strlit("Allow");
    reveal_strlit("Ask");
    reveal_strlit("Deny");
}

/// A decision is coherent: the mode applied is Allow exactly when the request is
/// allowed without approval, Ask exactly when it is allowed pending user approval,
/// and Deny exactly when it is not allowed.
pub proof fn lemma_decision_coherent(p: ToolPolicy, req: ToolRequest)
    ensures
        ({
            let (allowed, approval, mode, _reason) = decision_spec(p, req);
            &&& (mode == PolicyMode::Allow <==> allowed && !approval)
            &&& (mode == PolicyMode::Ask <==> allowed && approval)
            &&& (mode == PolicyMode::Deny <==> !allowed)
            &&& (approval ==> allowed)
        }),
{
}

/// A shell request that asks for network is denied whenever the policy forbids shell
/// network access, whatever mode the policy gives shell actions.
pub proof fn lemma_shell_network_denied(p: ToolPolicy, req: ToolRequest)
    requires
        req.action is ShellRunSandboxed,
        input_flag(req.inputs, "network"@),
        !p.shell_network_allowed,
    ensures
        decision_spec(p, req) == (false, false, PolicyMode::Deny, network_denied_reason()),
{
}

/// A shell request without a sandbox is denied whenever the policy requires one,
/// whatever mode the policy gives shell actions.
pub proof fn lemma_shell_sandbox_required(p: ToolPolicy, req: ToolRequest)
    requires
        req.action is ShellRunSandboxed,
        !input_flag(req.inputs, "sandbox"@),
        p.shell_requires_sandbox,
    ensures
        !decision_spec(p, req).0,
        decision_spec(p, req).2 == PolicyMode::Deny,
{
}

/// Under a policy that allows shell network access, a sandboxed shell request is
/// decided by the policy's own mode for shell actions, whether or not it asks for
/// network: allowed unless that mode denies, pending approval exactly when it asks.
pub proof fn lemma_shell_network_allowed_follows_mode(p: ToolPolicy, req: ToolRequest)
    requires
        req.action is ShellRunSandboxed,
        input_flag(req.inputs, "sandbox"@),
        p.shell_network_allowed,
    ensures
        decision_spec(p, req).2 == action_mode_spec(p, "ShellRunSandboxed"@),
        decision_spec(p, req).0 == (action_mode_spec(p, "ShellRunSandboxed"@) != PolicyMode::Deny),
        decision_spec(p, req).1 == (action_mode_spec(p, "ShellRunSandboxed"@) == PolicyMode::Ask),
{
}

/// A request for any action but a sandboxed shell is decided by the policy's mode for
/// that action alone, whatever its network and sandbox inputs say.
pub proof fn lemma_other_actions_follow_mode(p: ToolPolicy, req: ToolRequest)
    requires
        !(req.action is ShellRunSandboxed),
    ensures
        decision_spec(p, req).2 == action_mode_spec(p, action_name_spec(req.action)),
        decision_spec(p, req).0 == (action_mode_spec(p, action_name_spec(req.action)) != PolicyMode::Deny),
        decision_spec(p, req).1 == (action_mode_spec(p, action_name_spec(req.action)) == PolicyMode::Ask),
{
}

/// The mode a policy gives an action is its own entry when the policy has one; a
/// custom action without one falls back to the `Custom` entry when there is one;
/// anything else gets the default mode.
pub proof fn lemma_action_mode_choice(p: ToolPolicy, name: Seq<char>)
    ensures
        lookup(p.action_modes.entries@, name) matches Some(m) ==> action_mode_spec(p, name) == m,
        lookup(p.action_modes.entries@, name) is None && starts_with_spec(name, "Custom("@) && lookup(
            p.action_modes.entries@,
            "Custom"@,
        ) is Some ==> action_mode_spec(p, name) == lookup(p.action_modes.entries@, "Custom"@)->0,
        lookup(p.action_modes.entries@, name) is None && !(starts_with_spec(name, "Custom("@) && lookup(
            p.action_modes.entries@,
            "Custom"@,
        ) is Some) ==> action_mode_spec(p, name) == p.default_mode,
{
    reveal_strlit("Custom(");
}

/// Every input whose key, in lower case, contains `key`, `token`, `secret`,
/// `password` or `credential` has its value replaced by `[REDACTED]`; every other
/// input keeps its value; keys and their order are kept.
pub proof fn lemma_redaction_by_key_words(inputs: Seq<(Seq<char>, JsonSpec)>)
    ensures
        redacted_inputs_spec(inputs) is Object,
        redacted_inputs_spec(inputs)->Object_0.len() == inputs.len(),
        forall|i: int|
            0 <= i < inputs.len() ==> {
                let l = unicode_lowercase(inputs[i].0);
                let secret = contains_spec(l, "key"@) || contains_spec(l, "token"@) || contains_spec(l, "secret"@)
                    || contains_spec(l, "password"@) || contains_spec(l, "credential"@);
                &&& (#[trigger] redacted_inputs_spec(inputs)->Object_0[i]).0 == inputs[i].0
                &&& secret ==> redacted_inputs_spec(inputs)->Object_0[i].1 == JsonSpec::Str("[REDACTED]"@)
                &&& !secret ==> redacted_inputs_spec(inputs)->Object_0[i].1 == inputs[i].1
            },
{
}

/// Redaction keeps every key in its place; no secret value survives it, and every
/// other value is kept as it was.
pub proof fn lemma_secret_values_withheld(inputs: Seq<(Seq<char>, JsonSpec)>)
    ensures
        redacted_inputs_spec(inputs)->Object_0.len() == inputs.len(),
        forall|i: int|
            0 <= i < inputs.len() ==> (#[trigger] redacted_inputs_spec(inputs)->Object_0[i]).0 == inputs[i].0,
        forall|i: int|
            0 <= i < inputs.len() && is_secret_key(inputs[i].0) ==> (#[trigger] redacted_inputs_spec(
                inputs,
            )->Object_0[i]).1 == JsonSpec::Str("[REDACTED]"@),
        forall|i: int|
            0 <= i < inputs.len() && !is_secret_key(inputs[i].0) ==> (#[trigger] redacted_inputs_spec(
                inputs,
            )->Object_0[i]).1 == inputs[i].1,
{
}

/// Redacting twice gives the same as redacting once.
pub proof fn lemma_redaction_idempotent(inputs: Seq<(Seq<char>, JsonSpec)>)
    ensures
        redacted_inputs_spec(redacted_inputs_spec(inputs)->Object_0) == redacted_inputs_spec(inputs),
{
    assert(redacted_inputs_spec(redacted_inputs_spec(inputs)->Object_0)->Object_0 =~= redacted_inputs_spec(
        inputs,
    )->Object_0);
}

/// The broker: a policy and the store its receipts go to.
#[derive(Debug, Clone)]
pub struct ToolBroker {
    policy: ToolPolicy,
    receipt_store: ReceiptStore,
}

impl ToolBroker {
    /// The policy this broker enforces.
    pub closed spec fn policy_spec(&self) -> ToolPolicy {
        self.policy
    }

    /// The store this broker's receipts go to.
    pub closed spec fn store_spec(&self) -> ReceiptStore {
        self.receipt_store
    }

    /// Creates a broker with the given policy and receipt store.
    pub fn new(policy: ToolPolicy, receipt_store: ReceiptStore) -> (b: ToolBroker)
        ensures
            b.policy_spec() == policy,
            b.store_spec() == receipt_store,
    {
        ToolBroker { policy, receipt_store }
    }

    /// The policy this broker enforces.
    pub fn policy(&self) -> (p: &ToolPolicy)
        ensures
            *p == self.policy_spec(),
    {
        &self.policy
    }

    /// The store this broker's receipts go to.
    pub fn receipt_store(&self) -> (s: &ReceiptStore)
        ensures
            *s == self.store_spec(),
    {
        &self.receipt_store
    }

    /// Decides a request under this broker's policy.
    pub fn decide(&self, request: &ToolRequest) -> (d: AuthorizationDecision)
        ensures
            d.request_id == request.id,
            (d.allowed, d.requires_user_approval, d.policy_mode, d.reason@) == decision_spec(
                self.policy_spec(),
                *request,
            ),
    {
        let action_name = request.action_name();
        let mode = self.policy.get_action_mode(action_name.as_str());
        if let ActionKind::ShellRunSandboxed = &request.action {
            let network = input_flag_exec(&request.inputs, "network");
            let sandbox = input_flag_exec(&request.inputs, "sandbox");
            if network && !self.policy.shell_network_allowed {
                return AuthorizationDecision {
                    request_id: request.id,
                    allowed: false,
                    requires_user_approval: false,
                    reason: owned(
                        "ShellRunSandboxed with network=true denied: shell_network_allowed is false",
                    ),
                    policy_mode: PolicyMode::Deny,
                };
            } else if !sandbox && self.policy.shell_requires_sandbox {
                return AuthorizationDecision {
                    request_id: request.id,
                    allowed: false,
                    requires_user_approval: false,
                    reason: owned(
                        "ShellRunSandboxed denied: sandbox required but inputs.sandbox != true",
                    ),
                    policy_mode: PolicyMode::Deny,
                };
            }
        }
        let prefix = concat("Action ", action_name.as_str());
        match mode {
            PolicyMode::Allow => AuthorizationDecision {
                request_id: request.id,
                allowed: true,
                requires_user_approval: false,
                reason: concat(prefix.as_str(), " allowed by policy"),
                policy_mode: PolicyMode::Allow,
            },
            PolicyMode::Ask => AuthorizationDecision {
                request_id: request.id,
                allowed: true,
                requires_user_approval: true,
                reason: concat(prefix.as_str(), " requires user approval"),
                policy_mode: PolicyMode::Ask,
            },
            PolicyMode::Deny => AuthorizationDecision {
                request_id: request.id,
                allowed: false,
                requires_user_approval: false,
                reason: concat(prefix.as_str(), " denied by policy"),
                policy_mode: PolicyMode::Deny,
            },
        }
    }

    /// The audit receipt of a decision: it carries the request's id, actor and plan,
    /// the action name, the risk and applied mode by name, the status the decision
    /// maps to, and the redacted inputs.
    pub fn create_receipt(&self, request: &ToolRequest, decision: &AuthorizationDecision) -> (r: Receipt)
        ensures
            r.id == request.id,
            r.timestamp.nanos < 2_000_000_000u32,
            r.actor@ == request.actor@,
            r.action@ == action_name_spec(request.action),
            r.tool matches Some(t) && t@ == "ToolBroker"@,
            r.plan_id == request.plan_id,
            r.risk@ == risk_name_spec(request.risk),
            r.approval@ == mode_name_spec(decision.policy_mode),
            r.status == decision_status(decision.allowed, decision.requires_user_approval),
            r.inputs_redacted@ == broker_receipt_inputs(*request),
            r.outputs_redacted is None,
            r.error is None,
            r.metadata.entries@.len() == 0,
            receipt_validation(r) is Ok <==> request.actor@.len() > 0,
    {
        proof {
            lemma_names_non_empty(request.action, request.risk, decision.policy_mode);
        }
        let action_name = request.action_name();
        let status = if decision.allowed && !decision.requires_user_approval {
            ReceiptStatus::Approved
        } else if decision.allowed {
            ReceiptStatus::Planned
        } else {
            ReceiptStatus::Denied
        };
        let mut entries: Vec<(String, JsonValue)> = Vec::new();
        entries.push((owned("action"), JsonValue::Str(action_name.clone())));
        entries.push((owned("description"), JsonValue::Str(request.description.clone())));
        entries.push((owned("inputs"), redact_secret_inputs(&request.inputs)));
        let m = JsonMap { entries };
        proof {
            lemma_object_view(m);
            assert(entries_view(m.entries@) =~= broker_receipt_inputs(*request)->Object_0);
        }
        let risk = risk_name(request.risk);
        let approval = mode_name(decision.policy_mode);
        let mut receipt = Receipt::new(request.actor.as_str(), action_name.as_str())
            .with_tool("ToolBroker")
            .with_risk(risk.as_str())
            .with_approval(approval.as_str())
            .with_status(status)
            .with_inputs(JsonValue::Object(m));
        receipt.id = request.id;
        if let Some(plan_id) = request.plan_id {
            receipt = receipt.with_plan_id(plan_id);
        }
        receipt
    }

    /// Authorizes a request: the decision this broker's policy makes, and the
    /// receipt that records it (to be written to the broker's store before the
    /// decision is acted on).
    pub fn authorize(&self, request: &ToolRequest) -> (r: (AuthorizationDecision, Receipt))
        ensures
            r.0.request_id == request.id,
            (r.0.allowed, r.0.requires_user_approval, r.0.policy_mode, r.0.reason@) == decision_spec(
                self.policy_spec(),
                *request,
            ),
            r.1.id == request.id,
            r.1.actor@ == request.actor@,
            r.1.action@ == action_name_spec(request.action),
            r.1.tool matches Some(t) && t@ == "ToolBroker"@,
            r.1.plan_id == request.plan_id,
            r.1.risk@ == risk_name_spec(request.risk),
            r.1.approval@ == mode_name_spec(r.0.policy_mode),
            r.1.status == decision_status(r.0.allowed, r.0.requires_user_approval),
            r.1.inputs_redacted@ == broker_receipt_inputs(*request),
            r.1.outputs_redacted is None,
            r.1.error is None,
            r.1.metadata.entries@.len() == 0,
            receipt_validation(r.1) is Ok <==> request.actor@.len() > 0,
    {
        let decision = self.decide(request);
        let receipt = self.create_receipt(request, &decision);
        (decision, receipt)
    }
}

} // verus!
