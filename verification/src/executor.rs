//! The tool executor: what happens to an already-authorized request. Only the safest
//! actions run, and only in simulation; every attempt leaves a receipt.

use vstd::prelude::*;
use crate::broker::{
    AuthorizationDecision, ToolRequest, action_name_of, action_name_spec, redact_secret_inputs, redacted_inputs_spec,
    risk_name, risk_name_spec, lemma_names_non_empty, mode_name, mode_name_spec,
};
use crate::json::{
    JsonMap, JsonSpec, JsonValue, entries_view, find_key, json_view, lemma_find_key_bounds, lemma_find_key_same_view,
    lemma_object_view,
    lookup,
};
use crate::api::opt_str;
use crate::paths::{canonical_admits, opt_seq, roots_admit};
use crate::plan::{ActionKind, input_flag};
use crate::receipt::{Receipt, ReceiptStatus, ReceiptStore, receipt_validation};
use crate::text::{
    concat, owned, path_join, path_join_spec, starts_with, starts_with_spec,
    trim_start_all, trim_start_matches,
};

verus! {

/// For each resolved target path, whether it lies within roots whose resolved forms
/// are `canonical_roots`.
pub open spec fn path_flags_spec(resolved_targets: Seq<Option<String>>, canonical_roots: Seq<Option<String>>) -> Seq<bool> {
    Seq::new(resolved_targets.len(), |i: int| canonical_admits(opt_seq(resolved_targets[i]), canonical_roots))
}

/// Result status of an execution attempt.
#[derive(Debug, Clone, Copy, PartialEq, Eq, Structural)]
pub enum ExecutionStatus {
    Executed,
    Failed,
    Skipped,
}

/// Result of executing a tool request.
#[derive(Debug)]
pub struct ExecutionResult {
    /// The request this result is for.
    pub request_id: u128,
    /// The status of execution.
    pub status: ExecutionStatus,
    /// The action that was executed.
    pub action: ActionKind,
    /// Output from execution, if any.
    pub output: Option<JsonValue>,
    /// Error message if execution failed or was skipped.
    pub error: Option<String>,
}

/// Errors of executor operations.
#[derive(Debug, Clone)]
pub enum ToolExecutorError {
    ReceiptWrite(String),
}

/// An execution decided: the result to return and the receipt to record first.
#[derive(Debug)]
pub struct ExecutionOutcome {
    pub result: ExecutionResult,
    pub receipt: Receipt,
}

/// The executor: the store its receipts go to and the roots file actions may touch.
#[derive(Debug, Clone)]
pub struct ToolExecutor {
    receipt_store: ReceiptStore,
    allowed_roots: Vec<String>,
}

/// `path` with a leading `~/` expanded against the home directory, when one is known.
pub open spec fn expand_path_spec(path: Seq<char>, home: Option<Seq<char>>) -> Seq<char> {
    if starts_with_spec(path, "~/"@) && home is Some {
        path_join_spec(home->0, trim_start_all(path, "~/"@))
    } else {
        path
    }
}

/// Expands a leading `~/` against `home`.
pub fn expand_path(path: &str, home: Option<&str>) -> (r: String)
    ensures
        r@ == expand_path_spec(path@, match home {
            Some(h) => Some(h@),
            None => None,
        }),
{
    if starts_with(path, "~/") {
        if let Some(h) = home {
            let rest = trim_start_matches(path, "~/");
            return path_join(h, rest.as_str());
        }
    }
    owned(path)
}


/// The text input `key`, if present and a string.
pub open spec fn text_input(inputs: JsonMap, key: Seq<char>) -> Option<Seq<char>> {
    match lookup(inputs.entries@, key) {
        Some(JsonValue::Str(s)) => Some(s@),
        _ => None,
    }
}

/// The outcome of listing files: the requested path must be given and, once `~/`
/// is expanded, lie within the allowed roots; the listing itself is simulated as empty.
pub open spec fn files_list_spec(inputs: JsonMap, home: Option<Seq<char>>, path_allowed: bool) -> Result<JsonSpec, Seq<char>> {
    match text_input(inputs, "path"@) {
        Some(p) => if path_allowed {
            Ok(JsonSpec::Array(Seq::empty()))
        } else {
            Err("Path '"@ + expand_path_spec(p, home) + "' is not within allowed roots"@)
        },
        None => Err("FilesList requires 'path' input"@),
    }
}

/// The simulated notification: its title (default `Notification`) and body (default empty).
pub open spec fn notify_output_spec(inputs: JsonMap) -> JsonSpec {
    let title = match text_input(inputs, "title"@) {
        Some(t) => t,
        None => "Notification"@,
    };
    let body = match text_input(inputs, "body"@) {
        Some(b) => b,
        None => ""@,
    };
    JsonSpec::Object(
        seq![
            ("body"@, JsonSpec::Str(body)),
            ("simulated"@, JsonSpec::Bool(true)),
            ("title"@, JsonSpec::Str(title)),
        ],
    )
}

/// The simulated model chat output.
pub open spec fn model_chat_output_spec() -> JsonSpec {
    JsonSpec::Object(
        seq![
            ("message"@, JsonSpec::Str("ModelChat execution is not implemented yet"@)),
            ("simulated"@, JsonSpec::Bool(true)),
        ],
    )
}

/// What execution yields: status, output and error of the result. A denied request is
/// skipped with the denial reason; one awaiting approval is skipped; an allowed one
/// runs only if it lists files, notifies or chats, and fails otherwise.
pub open spec fn execution_spec(
    req: ToolRequest,
    d: AuthorizationDecision,
    home: Option<Seq<char>>,
    path_allowed: bool,
) -> (ExecutionStatus, Option<JsonSpec>, Option<Seq<char>>) {
    if !d.allowed {
        (ExecutionStatus::Skipped, None, Some("Action denied: "@ + d.reason@))
    } else if d.requires_user_approval {
        (ExecutionStatus::Skipped, None, Some("Execution skipped: requires user approval"@))
    } else {
        allowed_execution_spec(req.action, req.inputs, home, path_allowed)
    }
}

/// What running an allowed action that needs no approval yields: file listings,
/// notifications and model chats run; every other action fails.
pub open spec fn allowed_execution_spec(
    action: ActionKind,
    inputs: JsonMap,
    home: Option<Seq<char>>,
    path_allowed: bool,
) -> (ExecutionStatus, Option<JsonSpec>, Option<Seq<char>>) {
    match action {
        ActionKind::FilesList => match files_list_spec(inputs, home, path_allowed) {
            Ok(o) => (ExecutionStatus::Executed, Some(o), None),
            Err(e) => (ExecutionStatus::Failed, None, Some(e)),
        },
        ActionKind::DesktopNotify => (ExecutionStatus::Executed, Some(notify_output_spec(inputs)), None),
        ActionKind::ModelChat => (ExecutionStatus::Executed, Some(model_chat_output_spec()), None),
        _ => (ExecutionStatus::Failed, None, Some("Action is not executable in ToolExecutor v0.1"@)),
    }
}


/// Inputs with the same view read the same flags and the same texts.
pub proof fn lemma_inputs_same_view(a: JsonMap, b: JsonMap)
    requires
        a@ == b@,
    ensures
        forall|k: Seq<char>| #[trigger] input_flag(a, k) == input_flag(b, k),
        forall|k: Seq<char>| #[trigger] text_input(a, k) == text_input(b, k),
{
    assert forall|k: Seq<char>| #[trigger] input_flag(a, k) == input_flag(b, k) by {
        lemma_find_key_same_view(a.entries@, b.entries@, k);
        lemma_find_key_bounds(a.entries@, k);
        let i = find_key(a.entries@, k);
        if i >= 0 {
            assert(json_view(a.entries@[i].1) == json_view(b.entries@[i].1));
        }
    }
    assert forall|k: Seq<char>| #[trigger] text_input(a, k) == text_input(b, k) by {
        lemma_find_key_same_view(a.entries@, b.entries@, k);
        lemma_find_key_bounds(a.entries@, k);
        let i = find_key(a.entries@, k);
        if i >= 0 {
            assert(json_view(a.entries@[i].1) == json_view(b.entries@[i].1));
        }
    }
}

/// The receipt status recorded for an execution.
pub open spec fn execution_receipt_status(d: AuthorizationDecision, status: ExecutionStatus) -> ReceiptStatus {
    if !d.allowed {
        ReceiptStatus::Denied
    } else if d.requires_user_approval {
        ReceiptStatus::Planned
    } else if status == ExecutionStatus::Executed {
        ReceiptStatus::Executed
    } else {
        ReceiptStatus::Failed
    }
}

impl ExecutionResult {
    /// The output's view, if any.
    pub open spec fn output_view(self) -> Option<JsonSpec> {
        match self.output {
            Some(o) => Some(o@),
            None => None,
        }
    }

    /// The error's text, if any.
    pub open spec fn error_view(self) -> Option<Seq<char>> {
        match self.error {
            Some(e) => Some(e@),
            None => None,
        }
    }
}

impl ToolExecutor {
    /// The name of an action, as receipts record it.
    pub fn action_name(action: &ActionKind) -> (s: String)
        ensures
            s@ == action_name_spec(*action),
    {
        action_name_of(action)
    }

    /// The store this executor's receipts go to.
    pub closed spec fn store_spec(&self) -> ReceiptStore {
        self.receipt_store
    }

    /// The roots file actions may touch.
    pub closed spec fn roots_spec(&self) -> Seq<String> {
        self.allowed_roots@
    }

    /// Creates an executor.
    pub fn new(receipt_store: ReceiptStore, allowed_roots: Vec<String>) -> (e: ToolExecutor)
        ensures
            e.store_spec() == receipt_store,
            e.roots_spec() == allowed_roots@,
    {
        ToolExecutor { receipt_store, allowed_roots }
    }

    /// The store this executor's receipts go to.
    pub fn receipt_store(&self) -> (s: &ReceiptStore)
        ensures
            *s == self.store_spec(),
    {
        &self.receipt_store
    }

    /// The roots file actions may touch.
    pub fn allowed_roots(&self) -> (r: &Vec<String>)
        ensures
            r@ == self.roots_spec(),
    {
        &self.allowed_roots
    }

    /// Whether a path lies within this executor's allowed roots, given the resolved
    /// form of the path and of each root, in the order of the roots (`None` where one
    /// could not be resolved): the path must resolve and begin, component by
    /// component, with a root that resolves. With no roots, nothing is allowed.
    pub fn is_path_allowed(&self, canonical_path: Option<&str>, canonical_roots: &Vec<Option<String>>) -> (b: bool)
        requires
            canonical_roots@.len() == self.roots_spec().len(),
        ensures
            b == canonical_admits(opt_str(canonical_path), canonical_roots@),
    {
        roots_admit(canonical_path, canonical_roots)
    }

    /// For each resolved target path (one per plan step, `None` where there is none or
    /// it could not be resolved), whether it lies within this executor's allowed
    /// roots, given their resolved forms in order.
    pub fn path_flags(&self, resolved_targets: &Vec<Option<String>>, canonical_roots: &Vec<Option<String>>) -> (v: Vec<bool>)
        requires
            canonical_roots@.len() == self.roots_spec().len(),
        ensures
            v@ == path_flags_spec(resolved_targets@, canonical_roots@),
    {
        let mut v: Vec<bool> = Vec::new();
        let mut i: usize = 0;
        while i < resolved_targets.len()
            invariant
                0 <= i <= resolved_targets@.len(),
                canonical_roots@.len() == self.roots_spec().len(),
                v@.len() == i,
                forall|k: int| 0 <= k < i ==> v@[k] == #[trigger] path_flags_spec(resolved_targets@, canonical_roots@)[k],
            decreases resolved_targets@.len() - i,
        {
            let target: Option<&str> = match &resolved_targets[i] {
                Some(t) => Some(t.as_str()),
                None => None,
            };
            let b = self.is_path_allowed(target, canonical_roots);
            v.push(b);
            i = i + 1;
        }
        proof {
            assert(v@ =~= path_flags_spec(resolved_targets@, canonical_roots@));
        }
        v
    }

    /// The path a file-listing request targets once `~/` is expanded, if it names one.
    pub fn files_list_target(request: &ToolRequest, home: Option<&str>) -> (r: Option<String>)
        ensures
            match text_input(request.inputs, "path"@) {
                Some(p) => r matches Some(t) && t@ == expand_path_spec(p, match home {
                    Some(h) => Some(h@),
                    None => None,
                }),
                None => r is None,
            },
    {
        match request.inputs.get("path") {
            Some(v) => match v.as_str() {
                Some(p) => Some(expand_path(p, home)),
                None => None,
            },
            None => None,
        }
    }

    /// Decides what executing `request` under `decision` yields, given the home
    /// directory and whether the targeted path of a file listing lies within the
    /// allowed roots. The receipt carries the request's id, actor and plan, the action
    /// name, the risk, the approval mode that the decision applied, the redacted inputs,
    /// and the result's output and error (an approval skip records no error).
    pub fn execute_authorized(
        &self,
        request: &ToolRequest,
        decision: &AuthorizationDecision,
        home: Option<&str>,
        path_allowed: bool,
    ) -> (o: ExecutionOutcome)
        ensures
            ({
                let h = match home {
                    Some(h) => Some(h@),
                    None => None,
                };
                let (status, output, error) = execution_spec(*request, *decision, h, path_allowed);
                &&& o.result.request_id == request.id
                &&& o.result.action == request.action
                &&& o.result.status == status
                &&& o.result.output_view() == output
                &&& o.result.error_view() == error
                &&& o.receipt.id == request.id
                &&& o.receipt.actor@ == request.actor@
                &&& o.receipt.action@ == action_name_spec(request.action)
                &&& o.receipt.tool matches Some(t) && t@ == "ToolExecutor"@
                &&& o.receipt.plan_id == request.plan_id
                &&& o.receipt.risk@ == risk_name_spec(request.risk)
                &&& o.receipt.approval@ == mode_name_spec(decision.policy_mode)
                &&& o.receipt.status == execution_receipt_status(*decision, status)
                &&& o.receipt.inputs_redacted@ == redacted_inputs_spec(request.inputs@)
                &&& (match o.receipt.outputs_redacted {
                    Some(v) => output == Some(v@),
                    None => output is None,
                })
                &&& (match o.receipt.error {
                    Some(e) => error == Some(e@) && o.receipt.status != ReceiptStatus::Planned,
                    None => error is None || o.receipt.status == ReceiptStatus::Planned,
                })
                &&& o.receipt.metadata.entries@.len() == 0
                &&& (receipt_validation(o.receipt) is Ok <==> request.actor@.len() > 0)
            }),
    {
        let ghost h = match home {
            Some(h) => Some(h@),
            None => None,
        };
        let (status, output, error, receipt_status): (ExecutionStatus, Option<JsonValue>, Option<String>, ReceiptStatus) =
            if !decision.allowed {
            (ExecutionStatus::Skipped, None, Some(concat("Action denied: ", decision.reason.as_str())), ReceiptStatus::Denied)
        } else if decision.requires_user_approval {
            (
                ExecutionStatus::Skipped,
                None,
                Some(owned("Execution skipped: requires user approval")),
                ReceiptStatus::Planned,
            )
        } else {
            match &request.action {
                ActionKind::FilesList => {
                    match Self::files_list_target(request, home) {
                        Some(target) => {
                            if path_allowed {
                                let items: Vec<JsonValue> = Vec::new();
                                proof {
                                    assert(json_view(JsonValue::Array(items))->Array_0 =~= Seq::<JsonSpec>::empty());
                                }
                                (ExecutionStatus::Executed, Some(JsonValue::Array(items)), None, ReceiptStatus::Executed)
                            } else {
                                let a = concat("Path '", target.as_str());
                                let msg = concat(a.as_str(), "' is not within allowed roots");
                                (ExecutionStatus::Failed, None, Some(msg), ReceiptStatus::Failed)
                            }
                        },
                        None => (
                            ExecutionStatus::Failed,
                            None,
                            Some(owned("FilesList requires 'path' input")),
                            ReceiptStatus::Failed,
                        ),
                    }
                },
                ActionKind::DesktopNotify => {
                    let title = match request.inputs.get("title") {
                        Some(v) => match v.as_str() {
                            Some(t) => owned(t),
                            None => owned("Notification"),
                        },
                        None => owned("Notification"),
                    };
                    let body = match request.inputs.get("body") {
                        Some(v) => match v.as_str() {
                            Some(b) => owned(b),
                            None => owned(""),
                        },
                        None => owned(""),
                    };
                    let mut entries: Vec<(String, JsonValue)> = Vec::new();
                    entries.push((owned("body"), JsonValue::Str(body)));
                    entries.push((owned("simulated"), JsonValue::Bool(true)));
                    entries.push((owned("title"), JsonValue::Str(title)));
                    let m = JsonMap { entries };
                    proof {
                        lemma_object_view(m);
                        assert(entries_view(m.entries@) =~= notify_output_spec(request.inputs)->Object_0);
                    }
                    (ExecutionStatus::Executed, Some(JsonValue::Object(m)), None, ReceiptStatus::Executed)
                },
                ActionKind::ModelChat => {
                    let mut entries: Vec<(String, JsonValue)> = Vec::new();
                    entries.push(
                        (owned("message"), JsonValue::Str(owned("ModelChat execution is not implemented yet"))),
                    );
                    entries.push((owned("simulated"), JsonValue::Bool(true)));
                    let m = JsonMap { entries };
                    proof {
                        lemma_object_view(m);
                        assert(entries_view(m.entries@) =~= model_chat_output_spec()->Object_0);
                    }
                    (ExecutionStatus::Executed, Some(JsonValue::Object(m)), None, ReceiptStatus::Executed)
                },
                _ => (
                    ExecutionStatus::Failed,
                    None,
                    Some(owned("Action is not executable in ToolExecutor v0.1")),
                    ReceiptStatus::Failed,
                ),
            }
        };
        proof {
            lemma_names_non_empty(request.action, request.risk, decision.policy_mode);
            reveal_strlit("Custom(");
        }
        let action_name = Self::action_name(&request.action);
        let risk = risk_name(request.risk);
        let approval = mode_name(decision.policy_mode);
        let mut receipt = Receipt::new(request.actor.as_str(), action_name.as_str())
            .with_tool("ToolExecutor")
            .with_risk(risk.as_str())
            .with_approval(approval.as_str())
            .with_status(receipt_status)
            .with_inputs(redact_secret_inputs(&request.inputs));
        receipt.id = request.id;
        if let Some(plan_id) = request.plan_id {
            receipt = receipt.with_plan_id(plan_id);
        }
        if let Some(out) = &output {
            receipt = receipt.with_outputs(out.copy_value());
        }
        if receipt_status != ReceiptStatus::Planned {
            if let Some(err) = &error {
                receipt = receipt.with_error(err.as_str());
            }
        }
        let result = ExecutionResult {
            request_id: request.id,
            status,
            action: request.action.copy_kind(),
            output,
            error,
        };
        ExecutionOutcome { result, receipt }
    }
}

/// A request that was not allowed is never executed: it is skipped, and its receipt
/// records the denial.
pub proof fn lemma_denied_never_executes(
    req: ToolRequest,
    d: AuthorizationDecision,
    home: Option<Seq<char>>,
    path_allowed: bool,
)
    requires
        !d.allowed,
    ensures
        execution_spec(req, d, home, path_allowed).0 == ExecutionStatus::Skipped,
        execution_receipt_status(d, execution_spec(req, d, home, path_allowed).0) == ReceiptStatus::Denied,
{
}

/// Only an allowed request that needs no further approval, for one of the simulated
/// actions (file listing, notification, model chat), is ever executed.
pub proof fn lemma_executed_only_when_allowed(
    req: ToolRequest,
    d: AuthorizationDecision,
    home: Option<Seq<char>>,
    path_allowed: bool,
)
    requires
        execution_spec(req, d, home, path_allowed).0 == ExecutionStatus::Executed,
    ensures
        d.allowed,
        !d.requires_user_approval,
        req.action is FilesList || req.action is DesktopNotify || req.action is ModelChat,
{
}

} // verus!
