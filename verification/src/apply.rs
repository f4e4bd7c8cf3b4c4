//! Applying a plan: every step is authorized under a policy, then run, skipped or
//! denied, and the whole run is summarized and recorded in a receipt.

use vstd::prelude::*;
use crate::broker::{
    AuthorizationDecision, PolicyMode, ToolBroker, ToolPolicy, ToolRequest, action_name_spec,
    broker_receipt_inputs, decision_on, decision_status, mode_name, mode_name_spec, redacted_inputs_spec, risk_name_spec,
};
use crate::executor::{
    ExecutionStatus, ToolExecutor, allowed_execution_spec, execution_spec, lemma_inputs_same_view, path_flags_spec, text_input,
};
use crate::ids::{is_v4, new_uuid_v4, uuid_hyphenated, uuid_to_string};
use crate::api::opt_str;
use crate::json::{JsonMap, JsonSpec, JsonValue, entries_view, json_view, lemma_array_view, lemma_object_view};
use crate::model::{loopback_message, loopback_url_error};
use crate::plan::{
    ActionKind, OsaiPlan, PlanStep, PlanValidationError, plan_validation, validation_error_message,
};
use crate::receipt::{Receipt, ReceiptStatus, ReceiptStore, receipt_validation};
use crate::shared::is_loopback_spec;
use crate::text::{concat, decimal_spec, decimal_text, owned, str_eq};

verus! {

/// Result of an apply operation.
#[derive(Debug, Clone)]
pub struct ApplyResult {
    pub status: String,
    pub executed: u32,
    pub skipped: u32,
    pub denied: u32,
    pub approval_required: u32,
    pub failed: u32,
    pub approved_steps: Vec<String>,
    pub dry_run: bool,
    pub error: Option<String>,
}

/// Authorization preview for a single step.
#[derive(Debug, Clone)]
pub struct StepPreview {
    pub id: String,
    pub action: String,
    pub allowed: bool,
    pub approval_required: bool,
    pub mode: String,
    pub reason: Option<String>,
}

/// Authorization preview result for a plan.
#[derive(Debug, Clone)]
pub struct AuthorizePreviewResult {
    pub ok: bool,
    pub plan_id: String,
    pub summary: AuthorizeSummary,
    pub steps: Vec<StepPreview>,
    pub error: Option<String>,
}

/// Summary counts for authorization preview.
#[derive(Debug, Clone)]
pub struct AuthorizeSummary {
    pub allowed: u32,
    pub denied: u32,
    pub approval_required: u32,
}

/// Authorization summary emitted before execution.
#[derive(Debug, Clone)]
pub struct ApplyAuthorizationReport {
    pub plan_id: String,
    pub plan_path: String,
    pub policy_path: String,
    pub dry_run: bool,
    pub steps: Vec<ApplyStepAuthorization>,
    pub denied_count: u32,
    pub approval_required_count: u32,
}

/// Authorization details for one apply step.
#[derive(Debug, Clone)]
pub struct ApplyStepAuthorization {
    pub step_id: String,
    pub action: String,
    pub allowed: bool,
    pub approval: bool,
    pub mode: String,
}

/// Execution status emitted for one apply step.
#[derive(Debug, Clone)]
pub struct ApplyStepExecution {
    pub step_id: String,
    pub action: String,
    pub status: String,
    pub error: Option<String>,
    pub denied: bool,
    pub approval_skipped: bool,
    pub approved_by_cli: bool,
}

/// Complete core apply output. Contains data only; callers own presentation.
#[derive(Debug, Clone)]
pub struct ApplyCoreOutput {
    pub authorization: ApplyAuthorizationReport,
    pub executions: Vec<ApplyStepExecution>,
    pub result: ApplyResult,
    pub receipt_id: Option<String>,
}

/// The policy's verdict on one step, as the authorization pass records it.
#[derive(Debug)]
pub struct StepDecision {
    pub step_id: String,
    pub action_name: String,
    pub allowed: bool,
    pub requires_approval: bool,
    pub policy_mode: PolicyMode,
    pub reason: String,
}

/// The decision a policy makes on a step: allowed, needs approval, mode, reason.
pub open spec fn step_verdict(p: ToolPolicy, s: PlanStep) -> (bool, bool, PolicyMode, Seq<char>) {
    decision_on(p, s.action, s.inputs)
}

/// `d` records the policy's verdict on step `s`.
pub open spec fn records_verdict(d: StepDecision, p: ToolPolicy, s: PlanStep) -> bool {
    let (allowed, approval, mode, reason) = step_verdict(p, s);
    &&& d.step_id@ == s.id@
    &&& d.action_name@ == action_name_spec(s.action)
    &&& d.allowed == allowed
    &&& d.requires_approval == approval
    &&& d.policy_mode == mode
    &&& d.reason@ == reason
}

/// `r` is a request for step `s` of `plan`: the plan's actor, id and risk, the step's
/// id, action, description and inputs.
pub open spec fn requests_step(r: ToolRequest, plan: OsaiPlan, s: PlanStep) -> bool {
    &&& r.actor@ == plan.actor@
    &&& r.plan_id == Some(plan.id)
    &&& r.step_id matches Some(id) && id@ == s.id@
    &&& r.action == s.action
    &&& r.description@ == s.description@
    &&& r.inputs@ == s.inputs@
    &&& r.risk == plan.risk
}

/// The inputs the broker's receipt of step `s` records: the action name, the
/// description and the inputs with secret values withheld.
pub open spec fn step_receipt_inputs(s: PlanStep) -> JsonSpec {
    JsonSpec::Object(
        seq![
            ("action"@, JsonSpec::Str(action_name_spec(s.action))),
            ("description"@, JsonSpec::Str(s.description@)),
            ("inputs"@, redacted_inputs_spec(s.inputs@)),
        ],
    )
}

/// `rc` is the broker's receipt of its verdict on step `s` of `plan` under `p`.
pub open spec fn broker_step_receipt(rc: Receipt, p: ToolPolicy, plan: OsaiPlan, s: PlanStep) -> bool {
    let (allowed, approval, mode, _reason) = step_verdict(p, s);
    &&& is_v4(rc.id)
    &&& rc.actor@ == plan.actor@
    &&& rc.action@ == action_name_spec(s.action)
    &&& rc.tool matches Some(t) && t@ == "ToolBroker"@
    &&& rc.plan_id == Some(plan.id)
    &&& rc.risk@ == risk_name_spec(plan.risk)
    &&& rc.approval@ == mode_name_spec(mode)
    &&& rc.status == decision_status(allowed, approval)
    &&& rc.inputs_redacted@ == step_receipt_inputs(s)
    &&& rc.outputs_redacted is None
    &&& rc.error is None
    &&& rc.metadata.entries@.len() == 0
    &&& (receipt_validation(rc) is Ok <==> plan.actor@.len() > 0)
}

/// Whether `id` is among the step ids approved one by one.
pub open spec fn listed(approve: Seq<String>, id: Seq<char>) -> bool {
    exists|j: int| 0 <= j < approve.len() && (#[trigger] approve[j])@ == id
}

/// Whether `id` is listed in `approve`.
pub fn is_listed(approve: &Vec<String>, id: &str) -> (b: bool)
    ensures
        b == listed(approve@, id@),
{
    let mut j: usize = 0;
    while j < approve.len()
        invariant
            0 <= j <= approve@.len(),
            forall|k: int| 0 <= k < j ==> (#[trigger] approve@[k])@ != id@,
        decreases approve@.len() - j,
    {
        if str_eq(approve[j].as_str(), id) {
            return true;
        }
        j = j + 1;
    }
    false
}

/// The request that authorizes or runs `step` of `plan`, under a fresh random id.
pub fn step_to_request(plan: &OsaiPlan, step: &PlanStep) -> (r: ToolRequest)
    ensures
        is_v4(r.id),
        requests_step(r, *plan, *step),
{
    let mut request = ToolRequest::new(plan.actor.as_str(), step.action.copy_kind(), step.description.as_str())
        .with_plan_id(plan.id)
        .with_step_id(step.id.as_str())
        .with_inputs(step.inputs.copy_map())
        .with_risk(plan.risk);
    request.id = new_uuid_v4();
    request
}

/// The decision on a request for a step is the policy's verdict on that step.
proof fn lemma_request_verdict(p: ToolPolicy, r: ToolRequest, plan: OsaiPlan, s: PlanStep)
    requires
        requests_step(r, plan, s),
    ensures
        decision_on(p, r.action, r.inputs) == step_verdict(p, s),
        allowed_execution_spec(r.action, r.inputs, None, true) == allowed_execution_spec(s.action, s.inputs, None, true),
        forall|h: Option<Seq<char>>, ok: bool| #[trigger] allowed_execution_spec(r.action, r.inputs, h, ok)
            == allowed_execution_spec(s.action, s.inputs, h, ok),
{
    lemma_inputs_same_view(r.inputs, s.inputs);
}

/// The policy's verdict on every step of `plan`, and the broker's receipt of each,
/// in step order.
pub fn authorize_steps(broker: &ToolBroker, plan: &OsaiPlan) -> (r: (Vec<StepDecision>, Vec<Receipt>))
    ensures
        r.0@.len() == plan.steps@.len(),
        r.1@.len() == plan.steps@.len(),
        forall|i: int| 0 <= i < plan.steps@.len() ==> records_verdict(#[trigger] r.0@[i], broker.policy_spec(), plan.steps@[i]),
        forall|i: int| 0 <= i < plan.steps@.len() ==> broker_step_receipt(#[trigger] r.1@[i], broker.policy_spec(), *plan, plan.steps@[i]),
{
    let mut decisions: Vec<StepDecision> = Vec::new();
    let mut receipts: Vec<Receipt> = Vec::new();
    let n = plan.steps.len();
    let mut i: usize = 0;
    while i < n
        invariant
            0 <= i <= n,
            n == plan.steps@.len(),
            decisions@.len() == i,
            receipts@.len() == i,
            forall|k: int| 0 <= k < i ==> records_verdict(#[trigger] decisions@[k], broker.policy_spec(), plan.steps@[k]),
            forall|k: int| 0 <= k < i ==> broker_step_receipt(#[trigger] receipts@[k], broker.policy_spec(), *plan, plan.steps@[k]),
        decreases n - i,
    {
        let step = &plan.steps[i];
        let request = step_to_request(plan, step);
        let decision = broker.decide(&request);
        proof {
            lemma_request_verdict(broker.policy_spec(), request, *plan, *step);
        }
        let receipt = broker.create_receipt(&request, &decision);
        decisions.push(StepDecision {
            step_id: step.id.clone(),
            action_name: request.action_name(),
            allowed: decision.allowed,
            requires_approval: decision.requires_user_approval,
            policy_mode: decision.policy_mode,
            reason: decision.reason,
        });
        receipts.push(receipt);
        i = i + 1;
    }
    (decisions, receipts)
}


/// The number of the first `n` items of `s` that satisfy `pred`.
pub open spec fn count_upto<A>(s: Seq<A>, pred: spec_fn(A) -> bool, n: int) -> nat
    decreases n,
{
    if n <= 0 {
        0
    } else {
        count_upto(s, pred, n - 1) + if pred(s[n - 1]) {
            1nat
        } else {
            0nat
        }
    }
}

/// The number of items of `s` that satisfy `pred`.
pub open spec fn count_where<A>(s: Seq<A>, pred: spec_fn(A) -> bool) -> nat {
    count_upto(s, pred, s.len() as int)
}

/// Counting among the first `n` items finds at most `n`.
pub proof fn lemma_count_upto_bound<A>(s: Seq<A>, pred: spec_fn(A) -> bool, n: int)
    requires
        0 <= n,
    ensures
        count_upto(s, pred, n) <= n,
    decreases n,
{
    if n > 0 {
        lemma_count_upto_bound(s, pred, n - 1);
    }
}

/// When every one of the first `n` items satisfies exactly one of three predicates,
/// the three counts add up to `n`.
pub proof fn lemma_three_way_count<A>(
    s: Seq<A>,
    a: spec_fn(A) -> bool,
    b: spec_fn(A) -> bool,
    c: spec_fn(A) -> bool,
    n: int,
)
    requires
        0 <= n <= s.len(),
        forall|i: int|
            0 <= i < n ==> (#[trigger] a(s[i]) && !b(s[i]) && !c(s[i])) || (!a(s[i]) && b(s[i]) && !c(s[i]))
                || (!a(s[i]) && !b(s[i]) && c(s[i])),
    ensures
        count_upto(s, a, n) + count_upto(s, b, n) + count_upto(s, c, n) == n,
    decreases n,
{
    if n > 0 {
        lemma_three_way_count(s, a, b, c, n - 1);
        assert(a(s[n - 1]) || !a(s[n - 1]));
    }
}

/// Whether an action works on the file system, so that its `path` input must lie
/// within the allowed roots.
pub open spec fn is_fs_action(a: ActionKind) -> bool {
    a is FilesList || a is FilesRead || a is FilesWrite || a is FilesMove || a is FilesDelete
}

/// The `path` input of a step as text, empty when it is missing or not text.
pub open spec fn path_text(inputs: JsonMap) -> Seq<char> {
    match text_input(inputs, "path"@) {
        Some(p) => p,
        None => ""@,
    }
}

/// What the preview shows of a step: whether it is allowed, whether it needs approval,
/// and the reason. A file-system step whose path lies outside the allowed roots is
/// denied like one the policy denies, and no approval can override either; a step
/// needing approval notes when it was approved from the command line.
pub open spec fn preview_spec(p: ToolPolicy, s: PlanStep, path_ok: bool, approved: bool) -> (bool, bool, Seq<char>) {
    let (allowed, approval, _mode, reason) = step_verdict(p, s);
    let in_roots = !is_fs_action(s.action) || path_ok;
    if !allowed || !in_roots {
        (
            false,
            false,
            if !in_roots {
                "Path "@ + path_text(s.inputs) + (if allowed {
                    "; ToolBroker reason: "@ + reason
                } else {
                    ""@
                }) + " is outside allowed roots"@
            } else {
                reason
            },
        )
    } else if approval {
        (true, true, if approved { "Explicitly approved via CLI: "@ + reason } else { reason })
    } else {
        (true, false, reason)
    }
}

/// The preview of every step of `plan`, given which steps' paths lie within the
/// allowed roots and which steps were approved from the command line.
pub open spec fn previews(
    p: ToolPolicy,
    plan: OsaiPlan,
    path_ok: Seq<bool>,
    approve: Seq<String>,
    approve_all: bool,
) -> Seq<(bool, bool, Seq<char>)> {
    Seq::new(
        plan.steps@.len(),
        |i: int| preview_spec(p, plan.steps@[i], path_ok[i], approve_all || listed(approve, plan.steps@[i].id@)),
    )
}

/// A previewed step that is allowed and needs no approval.
pub open spec fn preview_allowed(t: (bool, bool, Seq<char>)) -> bool {
    t.0 && !t.1
}

/// A previewed step that is denied.
pub open spec fn preview_denied(t: (bool, bool, Seq<char>)) -> bool {
    !t.0
}

/// A previewed step that needs approval.
pub open spec fn preview_needs_approval(t: (bool, bool, Seq<char>)) -> bool {
    t.0 && t.1
}

/// `v` shows step `s` as `t` previews it, with the policy's mode.
pub open spec fn shows_step(v: StepPreview, p: ToolPolicy, s: PlanStep, t: (bool, bool, Seq<char>)) -> bool {
    &&& v.id@ == s.id@
    &&& v.action@ == action_name_spec(s.action)
    &&& v.allowed == t.0
    &&& v.approval_required == t.1
    &&& v.mode@ == mode_name_spec(step_verdict(p, s).2)
    &&& v.reason matches Some(r) && r@ == t.2
}

/// The error an invalid plan is refused with.
pub open spec fn invalid_plan_message(e: PlanValidationError) -> Seq<char> {
    "plan validation failed: "@ + validation_error_message(e)
}

/// The text of the `path` input of `inputs`, empty when it is missing or not text.
fn path_input(inputs: &JsonMap) -> (r: String)
    ensures
        r@ == path_text(*inputs),
{
    proof {
        reveal_strlit("");
    }
    match inputs.get("path") {
        Some(v) => match v.as_str() {
            Some(t) => owned(t),
            None => String::new(),
        },
        None => String::new(),
    }
}

/// Whether `a` works on the file system.
fn fs_action(a: &ActionKind) -> (b: bool)
    ensures
        b == is_fs_action(*a),
{
    match a {
        ActionKind::FilesList | ActionKind::FilesRead | ActionKind::FilesWrite | ActionKind::FilesMove
        | ActionKind::FilesDelete => true,
        _ => false,
    }
}

/// Authorizes every step of `plan` under `policy` without running any, returning the
/// preview and the broker's receipts to record (kept in `receipts_dir`), in step order.
/// `path_in_allowed[i]` tells whether step `i`'s `path` lies within the allowed roots;
/// it counts only for file-system steps. An invalid plan is refused.
pub fn authorize_plan_preview(
    plan: &OsaiPlan,
    policy: ToolPolicy,
    receipts_dir: &str,
    path_in_allowed: &Vec<bool>,
    approve: &Vec<String>,
    approve_all: bool,
) -> (r: Result<(AuthorizePreviewResult, Vec<Receipt>), String>)
    requires
        path_in_allowed@.len() == plan.steps@.len(),
        plan.steps@.len() <= u32::MAX,
    ensures
        (r is Err) == (plan_validation(*plan) is Err),
        r matches Err(m) ==> m@ == invalid_plan_message(plan_validation(*plan)->Err_0),
        r matches Ok((res, receipts)) ==> {
            let t = previews(policy, *plan, path_in_allowed@, approve@, approve_all);
            &&& res.ok
            &&& res.plan_id@ == uuid_hyphenated(plan.id)
            &&& res.error is None
            &&& res.steps@.len() == plan.steps@.len()
            &&& forall|i: int| 0 <= i < plan.steps@.len() ==> shows_step(#[trigger] res.steps@[i], policy, plan.steps@[i], t[i])
            &&& res.summary.allowed == count_where(t, |x| preview_allowed(x))
            &&& res.summary.denied == count_where(t, |x| preview_denied(x))
            &&& res.summary.approval_required == count_where(t, |x| preview_needs_approval(x))
            &&& receipts@.len() == plan.steps@.len()
            &&& forall|i: int| 0 <= i < plan.steps@.len() ==> broker_step_receipt(#[trigger] receipts@[i], policy, *plan, plan.steps@[i])
        },
{
    if let Err(e) = plan.validate() {
        let m = e.message();
        return Err(concat("plan validation failed: ", m.as_str()));
    }
    let broker = ToolBroker::new(policy, ReceiptStore::new(receipts_dir));
    let ghost t = previews(policy, *plan, path_in_allowed@, approve@, approve_all);
    let ghost fa = |x: (bool, bool, Seq<char>)| preview_allowed(x);
    let ghost fd = |x: (bool, bool, Seq<char>)| preview_denied(x);
    let ghost fq = |x: (bool, bool, Seq<char>)| preview_needs_approval(x);
    let mut denied_count: u32 = 0;
    let mut approval_required_count: u32 = 0;
    let mut allowed_count: u32 = 0;
    let mut step_previews: Vec<StepPreview> = Vec::new();
    let mut receipts: Vec<Receipt> = Vec::new();
    let n = plan.steps.len();
    let mut i: usize = 0;
    while i < n
        invariant
            0 <= i <= n,
            n == plan.steps@.len(),
            n <= u32::MAX,
            path_in_allowed@.len() == n,
            broker.policy_spec() == policy,
            t == previews(policy, *plan, path_in_allowed@, approve@, approve_all),
            fa == (|x: (bool, bool, Seq<char>)| preview_allowed(x)),
            fd == (|x: (bool, bool, Seq<char>)| preview_denied(x)),
            fq == (|x: (bool, bool, Seq<char>)| preview_needs_approval(x)),
            step_previews@.len() == i,
            receipts@.len() == i,
            allowed_count == count_upto(t, fa, i as int),
            denied_count == count_upto(t, fd, i as int),
            approval_required_count == count_upto(t, fq, i as int),
            forall|k: int| 0 <= k < i ==> shows_step(#[trigger] step_previews@[k], policy, plan.steps@[k], t[k]),
            forall|k: int| 0 <= k < i ==> broker_step_receipt(#[trigger] receipts@[k], policy, *plan, plan.steps@[k]),
        decreases n - i,
    {
        proof {
            lemma_count_upto_bound(t, fa, i as int);
            lemma_count_upto_bound(t, fd, i as int);
            lemma_count_upto_bound(t, fq, i as int);
        }
        let step = &plan.steps[i];
        let request = step_to_request(plan, step);
        let decision = broker.decide(&request);
        proof {
            lemma_request_verdict(policy, request, *plan, *step);
        }
        receipts.push(broker.create_receipt(&request, &decision));
        let action_name = request.action_name();
        let mode = mode_name(decision.policy_mode);
        let path_ok = if fs_action(&step.action) {
            path_in_allowed[i]
        } else {
            true
        };
        let approved = approve_all || is_listed(approve, step.id.as_str());
        if !decision.allowed || !path_ok {
            denied_count = denied_count + 1;
            let reason = if !path_ok {
                let path = path_input(&step.inputs);
                let a = concat("Path ", path.as_str());
                let b = if decision.allowed {
                    let x = concat(a.as_str(), "; ToolBroker reason: ");
                    concat(x.as_str(), decision.reason.as_str())
                } else {
                    a
                };
                let full = concat(b.as_str(), " is outside allowed roots");
                proof {
                    reveal_strlit("");
                    let ghost tail = if decision.allowed {
                        "; ToolBroker reason: "@ + decision.reason@
                    } else {
                        ""@
                    };
                    assert(full@ =~= "Path "@ + path_text(step.inputs) + tail + " is outside allowed roots"@);
                }
                full
            } else {
                decision.reason
            };
            step_previews.push(StepPreview {
                id: step.id.clone(),
                action: action_name,
                allowed: false,
                approval_required: false,
                mode,
                reason: Some(reason),
            });
        } else if decision.requires_user_approval {
            approval_required_count = approval_required_count + 1;
            let reason = if approved {
                concat("Explicitly approved via CLI: ", decision.reason.as_str())
            } else {
                decision.reason
            };
            step_previews.push(StepPreview {
                id: step.id.clone(),
                action: action_name,
                allowed: true,
                approval_required: true,
                mode,
                reason: Some(reason),
            });
        } else {
            allowed_count = allowed_count + 1;
            step_previews.push(StepPreview {
                id: step.id.clone(),
                action: action_name,
                allowed: true,
                approval_required: false,
                mode,
                reason: Some(decision.reason),
            });
        }
        proof {
            assert(t[i as int] == preview_spec(policy, plan.steps@[i as int], path_in_allowed@[i as int], approved));
        }
        i = i + 1;
    }
    let result = AuthorizePreviewResult {
        ok: true,
        plan_id: uuid_to_string(plan.id),
        summary: AuthorizeSummary {
            allowed: allowed_count,
            denied: denied_count,
            approval_required: approval_required_count,
        },
        steps: step_previews,
        error: None,
    };
    Ok((result, receipts))
}

/// In a preview, the allowed, denied and approval-needing steps add up to all steps.
pub proof fn lemma_preview_counts_add_up(
    p: ToolPolicy,
    plan: OsaiPlan,
    path_ok: Seq<bool>,
    approve: Seq<String>,
    approve_all: bool,
)
    ensures
        ({
            let t = previews(p, plan, path_ok, approve, approve_all);
            count_where(t, |x| preview_allowed(x)) + count_where(t, |x| preview_denied(x)) + count_where(
                t,
                |x| preview_needs_approval(x),
            ) == plan.steps@.len()
        }),
{
    let t = previews(p, plan, path_ok, approve, approve_all);
    lemma_three_way_count(
        t,
        |x| preview_allowed(x),
        |x| preview_denied(x),
        |x| preview_needs_approval(x),
        t.len() as int,
    );
}

/// Counting among the first `n` items of two sequences on which `pred` agrees finds
/// the same number.
pub proof fn lemma_count_upto_agree<A>(s1: Seq<A>, s2: Seq<A>, pred: spec_fn(A) -> bool, n: int)
    requires
        forall|k: int| 0 <= k < n ==> pred(#[trigger] s1[k]) == pred(s2[k]),
    ensures
        count_upto(s1, pred, n) == count_upto(s2, pred, n),
    decreases n,
{
    if n > 0 {
        lemma_count_upto_agree(s1, s2, pred, n - 1);
        assert(pred(s1[n - 1]) == pred(s2[n - 1]));
    }
}

/// Approving steps, one by one or all at once, changes nothing in a preview but the
/// reason shown for a step that needs approval: every step stays allowed or denied,
/// needing approval or not, and the summary's counts stay the same.
pub proof fn lemma_preview_approval_changes_only_reasons(
    p: ToolPolicy,
    plan: OsaiPlan,
    path_ok: Seq<bool>,
    approve1: Seq<String>,
    approve_all1: bool,
    approve2: Seq<String>,
    approve_all2: bool,
)
    ensures
        ({
            let t1 = previews(p, plan, path_ok, approve1, approve_all1);
            let t2 = previews(p, plan, path_ok, approve2, approve_all2);
            &&& t1.len() == t2.len()
            &&& forall|i: int|
                0 <= i < t1.len() ==> {
                    &&& (#[trigger] t1[i]).0 == t2[i].0
                    &&& t1[i].1 == t2[i].1
                    &&& !(t1[i].0 && t1[i].1) ==> t1[i].2 == t2[i].2
                }
            &&& count_where(t1, |x| preview_allowed(x)) == count_where(t2, |x| preview_allowed(x))
            &&& count_where(t1, |x| preview_denied(x)) == count_where(t2, |x| preview_denied(x))
            &&& count_where(t1, |x| preview_needs_approval(x)) == count_where(t2, |x| preview_needs_approval(x))
        }),
{
    let t1 = previews(p, plan, path_ok, approve1, approve_all1);
    let t2 = previews(p, plan, path_ok, approve2, approve_all2);
    assert forall|i: int| 0 <= i < t1.len() implies {
        &&& (#[trigger] t1[i]).0 == t2[i].0
        &&& t1[i].1 == t2[i].1
        &&& !(t1[i].0 && t1[i].1) ==> t1[i].2 == t2[i].2
    } by {
    }
    let n = t1.len() as int;
    lemma_count_upto_agree(t1, t2, |x| preview_allowed(x), n);
    lemma_count_upto_agree(t1, t2, |x| preview_denied(x), n);
    lemma_count_upto_agree(t1, t2, |x| preview_needs_approval(x), n);
}

/// A step that lists, reads, writes, moves or deletes files, and whose path lies
/// outside the allowed roots, is previewed as denied and not as awaiting approval,
/// whatever the policy says of the action and whatever was approved.
pub proof fn lemma_preview_file_step_outside_roots_denied(p: ToolPolicy, s: PlanStep, approved: bool)
    requires
        s.action is FilesList || s.action is FilesRead || s.action is FilesWrite || s.action is FilesMove
            || s.action is FilesDelete,
    ensures
        !preview_spec(p, s, false, approved).0,
        !preview_spec(p, s, false, approved).1,
{
}

/// For a step that does not touch files, where its path lies has no bearing on its
/// preview.
pub proof fn lemma_preview_other_steps_ignore_roots(p: ToolPolicy, s: PlanStep, approved: bool)
    requires
        !(s.action is FilesList || s.action is FilesRead || s.action is FilesWrite || s.action is FilesMove
            || s.action is FilesDelete),
    ensures
        preview_spec(p, s, false, approved) == preview_spec(p, s, true, approved),
{
}

/// No approval flag lets a preview allow a step the policy denies, or a file-system
/// step whose path lies outside the allowed roots.
pub proof fn lemma_preview_denial_stands(p: ToolPolicy, s: PlanStep, path_ok: bool, approved: bool)
    requires
        !step_verdict(p, s).0 || (is_fs_action(s.action) && !path_ok),
    ensures
        !preview_spec(p, s, path_ok, approved).0,
{
}


/// The text of each string.
pub open spec fn strings_view(v: Seq<String>) -> Seq<Seq<char>> {
    v.map_values(|x: String| x@)
}

/// A JSON array of the given strings.
pub open spec fn str_array(v: Seq<Seq<char>>) -> JsonSpec {
    JsonSpec::Array(v.map_values(|x: Seq<char>| JsonSpec::Str(x)))
}

/// The outputs an apply receipt records: the plan and the paths it came from, whether
/// the run was dry, the run's counts, the steps approved from the command line that
/// ran, and the approval flags given. Keys are in ascending order.
pub open spec fn apply_outputs(
    plan_id: u128,
    plan_path: Seq<char>,
    policy_path: Seq<char>,
    dry_run: bool,
    counts: (nat, nat, nat, nat, nat),
    approved_steps: Seq<Seq<char>>,
    approve_all: bool,
    approve: Seq<Seq<char>>,
) -> JsonSpec {
    let (executed, skipped, denied, approval_required, failed) = counts;
    JsonSpec::Object(
        seq![
            ("approval_required_count"@, JsonSpec::Number(decimal_spec(approval_required))),
            ("approve_all"@, JsonSpec::Bool(approve_all)),
            ("approve_flags"@, str_array(approve)),
            ("approved_steps"@, str_array(approved_steps)),
            ("denied_count"@, JsonSpec::Number(decimal_spec(denied))),
            ("dry_run"@, JsonSpec::Bool(dry_run)),
            ("executed_count"@, JsonSpec::Number(decimal_spec(executed))),
            ("failed_count"@, JsonSpec::Number(decimal_spec(failed))),
            ("plan_id"@, JsonSpec::Str(uuid_hyphenated(plan_id))),
            ("plan_path"@, JsonSpec::Str(plan_path)),
            ("policy_path"@, JsonSpec::Str(policy_path)),
            ("skipped_count"@, JsonSpec::Number(decimal_spec(skipped))),
        ],
    )
}

/// `rc` is an apply receipt with the given status, outputs and error: a fresh id, the
/// agent as actor, `PlanApply` as action, low risk and automatic approval.
pub open spec fn is_apply_receipt(rc: Receipt, status: ReceiptStatus, outputs: JsonSpec, error: Option<Seq<char>>) -> bool {
    &&& is_v4(rc.id)
    &&& rc.actor@ == "osai-agent"@
    &&& rc.action@ == "PlanApply"@
    &&& rc.tool matches Some(t) && t@ == "osai-agent apply"@
    &&& rc.plan_id is None
    &&& rc.risk@ == "Low"@
    &&& rc.approval@ == "Auto"@
    &&& rc.status == status
    &&& rc.inputs_redacted == JsonValue::Null
    &&& rc.outputs_redacted matches Some(o) && o@ == outputs
    &&& (match rc.error {
        Some(e) => error == Some(e@),
        None => error is None,
    })
    &&& rc.metadata.entries@.len() == 0
}

/// A JSON array of copies of the given strings.
fn string_array(v: &Vec<String>) -> (r: JsonValue)
    ensures
        r@ == str_array(strings_view(v@)),
{
    let mut out: Vec<JsonValue> = Vec::new();
    let mut i: usize = 0;
    while i < v.len()
        invariant
            0 <= i <= v@.len(),
            out@.len() == i,
            forall|k: int| 0 <= k < i ==> json_view(#[trigger] out@[k]) == JsonSpec::Str(v@[k]@),
        decreases v@.len() - i,
    {
        out.push(JsonValue::Str(v[i].clone()));
        i = i + 1;
    }
    proof {
        lemma_array_view(out);
        assert(Seq::new(out@.len(), |k: int| json_view(out@[k])) =~= strings_view(v@).map_values(
            |x: Seq<char>| JsonSpec::Str(x),
        ));
    }
    JsonValue::Array(out)
}

/// The receipt that records an apply run: succeeded (`Executed`) or not (`Failed`),
/// with the run's outputs and error.
fn apply_receipt(
    plan_id: u128,
    plan_path: &str,
    policy_path: &str,
    dry_run: bool,
    counts: (u32, u32, u32, u32, u32),
    approved_steps: &Vec<String>,
    approve_all: bool,
    approve: &Vec<String>,
    succeeded: bool,
    error: Option<String>,
) -> (rc: Receipt)
    ensures
        is_apply_receipt(
            rc,
            if succeeded {
                ReceiptStatus::Executed
            } else {
                ReceiptStatus::Failed
            },
            apply_outputs(
                plan_id,
                plan_path@,
                policy_path@,
                dry_run,
                (counts.0 as nat, counts.1 as nat, counts.2 as nat, counts.3 as nat, counts.4 as nat),
                strings_view(approved_steps@),
                approve_all,
                strings_view(approve@),
            ),
            match error {
                Some(e) => Some(e@),
                None => None,
            },
        ),
{
    let (executed, skipped, denied, approval_required, failed) = counts;
    let mut entries: Vec<(String, JsonValue)> = Vec::new();
    entries.push((owned("approval_required_count"), JsonValue::Number(decimal_text(approval_required as u64))));
    entries.push((owned("approve_all"), JsonValue::Bool(approve_all)));
    entries.push((owned("approve_flags"), string_array(approve)));
    entries.push((owned("approved_steps"), string_array(approved_steps)));
    entries.push((owned("denied_count"), JsonValue::Number(decimal_text(denied as u64))));
    entries.push((owned("dry_run"), JsonValue::Bool(dry_run)));
    entries.push((owned("executed_count"), JsonValue::Number(decimal_text(executed as u64))));
    entries.push((owned("failed_count"), JsonValue::Number(decimal_text(failed as u64))));
    entries.push((owned("plan_id"), JsonValue::Str(uuid_to_string(plan_id))));
    entries.push((owned("plan_path"), JsonValue::Str(owned(plan_path))));
    entries.push((owned("policy_path"), JsonValue::Str(owned(policy_path))));
    entries.push((owned("skipped_count"), JsonValue::Number(decimal_text(skipped as u64))));
    let m = JsonMap { entries };
    proof {
        lemma_object_view(m);
        assert(entries_view(m.entries@) =~= apply_outputs(
            plan_id,
            plan_path@,
            policy_path@,
            dry_run,
            (executed as nat, skipped as nat, denied as nat, approval_required as nat, failed as nat),
            strings_view(approved_steps@),
            approve_all,
            strings_view(approve@),
        )->Object_0);
    }
    let status = if succeeded {
        ReceiptStatus::Executed
    } else {
        ReceiptStatus::Failed
    };
    let mut receipt = Receipt::new("osai-agent", "PlanApply")
        .with_tool("osai-agent apply")
        .with_risk("Low")
        .with_approval("Auto")
        .with_status(status)
        .with_outputs(JsonValue::Object(m));
    receipt.error = error;
    receipt
}

/// A refused apply: the error to return, the broker's receipts written before the
/// refusal, and the failed receipt of the run, when one is written.
#[derive(Debug)]
pub struct ApplyFailure {
    pub message: String,
    pub authorization_receipts: Vec<Receipt>,
    pub receipt: Option<Receipt>,
}

/// The refusal of the model router URL handed to the executor: one that is not
/// loopback-only is refused.
pub open spec fn router_refusal(url: Option<Seq<char>>) -> Option<Seq<char>> {
    match url {
        Some(u) => if is_loopback_spec(u) {
            None
        } else {
            Some("invalid model router URL: "@ + loopback_message(u))
        },
        None => None,
    }
}

/// Checks the model router URL handed to the executor.
fn check_router_url(url: Option<&str>) -> (r: Option<String>)
    ensures
        match r {
            Some(m) => router_refusal(opt_str(url)) == Some(m@),
            None => router_refusal(opt_str(url)) is None,
        },
{
    match url {
        Some(u) => match loopback_url_error(u) {
            Some(e) => Some(concat("invalid model router URL: ", e.as_str())),
            None => None,
        },
        None => None,
    }
}

/// The refusal of an invalid plan, whose validation failed with `e`: the error
/// `plan validation failed: ...` and a failed receipt with all counts zero.
pub fn apply_validation_failure(
    plan: &OsaiPlan,
    plan_path: &str,
    policy_path: &str,
    approve: &Vec<String>,
    approve_all: bool,
    dry_run: bool,
    e: &PlanValidationError,
) -> (f: ApplyFailure)
    ensures
        f.message@ == invalid_plan_message(*e),
        f.authorization_receipts@.len() == 0,
        f.receipt matches Some(rc) && is_apply_receipt(
            rc,
            ReceiptStatus::Failed,
            apply_outputs(
                plan.id,
                plan_path@,
                policy_path@,
                dry_run,
                (0, 0, 0, 0, 0),
                Seq::empty(),
                approve_all,
                strings_view(approve@),
            ),
            Some("Plan validation failed: "@ + validation_error_message(*e)),
        ),
{
    let m = e.message();
    let none: Vec<String> = Vec::new();
    let receipt = apply_receipt(
        plan.id,
        plan_path,
        policy_path,
        dry_run,
        (0, 0, 0, 0, 0),
        &none,
        approve_all,
        approve,
        false,
        Some(concat("Plan validation failed: ", m.as_str())),
    );
    proof {
        assert(strings_view(none@) =~= Seq::<Seq<char>>::empty());
    }
    ApplyFailure {
        message: concat("plan validation failed: ", m.as_str()),
        authorization_receipts: Vec::new(),
        receipt: Some(receipt),
    }
}


/// What becomes of a step when a plan is applied.
pub enum StepFate {
    /// The policy denied it.
    Denied,
    /// It needs an approval that the command line did not give.
    AwaitingApproval,
    /// It ran, with this status and (non-empty) error, approved from the command
    /// line or needing no approval.
    Ran(ExecutionStatus, Option<Seq<char>>, bool),
}

/// An error text, when it is not empty.
pub open spec fn nonempty(e: Option<Seq<char>>) -> Option<Seq<char>> {
    match e {
        Some(t) => if t.len() > 0 {
            Some(t)
        } else {
            None
        },
        None => None,
    }
}

/// The fate of step `s` under `p`: denied steps are denied whatever was approved,
/// steps needing approval wait unless approved, and every other step runs.
pub open spec fn step_fate(p: ToolPolicy, s: PlanStep, approved: bool, home: Option<Seq<char>>, path_ok: bool) -> StepFate {
    let (allowed, approval, _mode, _reason) = step_verdict(p, s);
    if !allowed {
        StepFate::Denied
    } else if approval && !approved {
        StepFate::AwaitingApproval
    } else {
        let (status, _output, error) = allowed_execution_spec(s.action, s.inputs, home, path_ok);
        StepFate::Ran(status, nonempty(error), approval)
    }
}

/// The fate of every step of `plan`.
pub open spec fn fates(
    p: ToolPolicy,
    plan: OsaiPlan,
    approve: Seq<String>,
    approve_all: bool,
    home: Option<Seq<char>>,
    path_ok: Seq<bool>,
) -> Seq<StepFate> {
    Seq::new(
        plan.steps@.len(),
        |i: int| step_fate(p, plan.steps@[i], approve_all || listed(approve, plan.steps@[i].id@), home, path_ok[i]),
    )
}

/// A step that ran to completion.
pub open spec fn fate_executed(f: StepFate) -> bool {
    f matches StepFate::Ran(ExecutionStatus::Executed, _, _)
}

/// A step that ran and failed.
pub open spec fn fate_failed(f: StepFate) -> bool {
    f matches StepFate::Ran(ExecutionStatus::Failed, _, _)
}

/// A step that did not run to an end: denied, awaiting approval, or skipped.
pub open spec fn fate_skipped(f: StepFate) -> bool {
    f is Denied || f is AwaitingApproval || f matches StepFate::Ran(ExecutionStatus::Skipped, _, _)
}

/// The ids of the steps among the first `n` that ran to completion on an approval
/// given from the command line, in step order.
pub open spec fn approved_upto(steps: Seq<PlanStep>, f: Seq<StepFate>, n: int) -> Seq<Seq<char>>
    decreases n,
{
    if n <= 0 {
        Seq::empty()
    } else {
        let prev = approved_upto(steps, f, n - 1);
        if f[n - 1] matches StepFate::Ran(ExecutionStatus::Executed, _, true) {
            prev.push(steps[n - 1].id@)
        } else {
            prev
        }
    }
}

/// The indices of the steps among the first `n` that ran, in order.
pub open spec fn ran_upto(f: Seq<StepFate>, n: int) -> Seq<int>
    decreases n,
{
    if n <= 0 {
        Seq::empty()
    } else if f[n - 1] is Ran {
        ran_upto(f, n - 1).push(n - 1)
    } else {
        ran_upto(f, n - 1)
    }
}

/// The name of an execution status.
pub open spec fn status_name(st: ExecutionStatus) -> Seq<char> {
    match st {
        ExecutionStatus::Executed => "Executed"@,
        ExecutionStatus::Failed => "Failed"@,
        ExecutionStatus::Skipped => "Skipped"@,
    }
}

/// `e` records that step `s` met fate `f`.
pub open spec fn records_fate(e: ApplyStepExecution, s: PlanStep, f: StepFate) -> bool {
    &&& e.step_id@ == s.id@
    &&& e.action@ == action_name_spec(s.action)
    &&& match f {
        StepFate::Denied => {
            &&& e.status@ == "Denied"@
            &&& e.error matches Some(x) && x@ == "Policy denied"@
            &&& e.denied && !e.approval_skipped && !e.approved_by_cli
        },
        StepFate::AwaitingApproval => {
            &&& e.status@ == "Skipped"@
            &&& e.error matches Some(x) && x@ == "requires user approval"@
            &&& !e.denied && e.approval_skipped && !e.approved_by_cli
        },
        StepFate::Ran(st, err, by_cli) => {
            &&& e.status@ == status_name(st)
            &&& (match e.error {
                Some(x) => err == Some(x@),
                None => err is None,
            })
            &&& !e.denied && !e.approval_skipped && e.approved_by_cli == by_cli
        },
    }
}

/// `rc` is the executor's receipt of running step `s` of `plan` under `p` (with `~/`
/// expanded against `home`, and `path_ok` telling whether its path lies within the
/// allowed roots): it records the policy mode applied to the step, the step's redacted
/// inputs and what running it gave.
pub open spec fn execution_step_receipt(
    rc: Receipt,
    p: ToolPolicy,
    plan: OsaiPlan,
    s: PlanStep,
    home: Option<Seq<char>>,
    path_ok: bool,
) -> bool {
    let (st, output, error) = allowed_execution_spec(s.action, s.inputs, home, path_ok);
    let (_allowed, _approval, mode, _reason) = step_verdict(p, s);
    &&& is_v4(rc.id)
    &&& rc.actor@ == plan.actor@
    &&& rc.action@ == action_name_spec(s.action)
    &&& rc.tool matches Some(t) && t@ == "ToolExecutor"@
    &&& rc.plan_id == Some(plan.id)
    &&& rc.risk@ == risk_name_spec(plan.risk)
    &&& rc.approval@ == mode_name_spec(mode)
    &&& rc.status == (if st == ExecutionStatus::Executed {
        ReceiptStatus::Executed
    } else {
        ReceiptStatus::Failed
    })
    &&& rc.inputs_redacted@ == redacted_inputs_spec(s.inputs@)
    &&& (match rc.outputs_redacted {
        Some(v) => output == Some(v@),
        None => output is None,
    })
    &&& (match rc.error {
        Some(e) => error == Some(e@),
        None => error is None,
    })
    &&& rc.metadata.entries@.len() == 0
    &&& (receipt_validation(rc) is Ok <==> plan.actor@.len() > 0)
}

/// The policy's verdict on every step of `plan`.
pub open spec fn verdicts(p: ToolPolicy, plan: OsaiPlan) -> Seq<(bool, bool, PolicyMode, Seq<char>)> {
    Seq::new(plan.steps@.len(), |i: int| step_verdict(p, plan.steps@[i]))
}

/// A verdict that denies.
pub open spec fn verdict_denies(v: (bool, bool, PolicyMode, Seq<char>)) -> bool {
    !v.0
}

/// A verdict that asks for approval.
pub open spec fn verdict_asks(v: (bool, bool, PolicyMode, Seq<char>)) -> bool {
    v.1
}

/// `a` reports the policy's verdict on every step of `plan`, and their counts.
pub open spec fn reports_authorization(
    a: ApplyAuthorizationReport,
    p: ToolPolicy,
    plan: OsaiPlan,
    plan_path: Seq<char>,
    policy_path: Seq<char>,
    dry_run: bool,
) -> bool {
    let v = verdicts(p, plan);
    &&& a.plan_id@ == uuid_hyphenated(plan.id)
    &&& a.plan_path@ == plan_path
    &&& a.policy_path@ == policy_path
    &&& a.dry_run == dry_run
    &&& a.steps@.len() == plan.steps@.len()
    &&& forall|i: int|
        0 <= i < plan.steps@.len() ==> {
            let e = #[trigger] a.steps@[i];
            &&& e.step_id@ == plan.steps@[i].id@
            &&& e.action@ == action_name_spec(plan.steps@[i].action)
            &&& e.allowed == v[i].0
            &&& e.approval == v[i].1
            &&& e.mode@ == mode_name_spec(v[i].2)
        }
    &&& a.denied_count == count_where(v, |x| verdict_denies(x))
    &&& a.approval_required_count == count_where(v, |x| verdict_asks(x))
}

/// The error a run with failed steps ends with.
pub open spec fn failed_steps_message(failed: nat) -> Seq<char> {
    decimal_spec(failed) + " step(s) failed"@
}

/// The outcome of applying `plan` under `policy`.
pub struct ApplyRun {
    /// What the run reports.
    pub output: ApplyCoreOutput,
    /// The broker's receipts, one per step, to record first.
    pub authorization_receipts: Vec<Receipt>,
    /// The executor's receipts, one per step that ran, to record next.
    pub execution_receipts: Vec<Receipt>,
    /// The receipt of the whole run, to record last.
    pub apply_receipt: Receipt,
}

/// `run` is what applying `plan` under `p` yields: the authorization report and the
/// broker's receipts; then, in a dry run, nothing executed; otherwise every step's
/// fate, counted, with the steps approved from the command line that ran, and a
/// receipt per step that ran; and the receipt of the run, whose id the output names.
pub open spec fn applies(
    run: ApplyRun,
    plan: OsaiPlan,
    plan_path: Seq<char>,
    policy_path: Seq<char>,
    p: ToolPolicy,
    approve: Seq<String>,
    approve_all: bool,
    dry_run: bool,
    home: Option<Seq<char>>,
    path_ok: Seq<bool>,
) -> bool {
    let n = plan.steps@.len();
    let v = verdicts(p, plan);
    let denied = count_where(v, |x| verdict_denies(x));
    let asked = count_where(v, |x| verdict_asks(x));
    let f = fates(p, plan, approve, approve_all, home, path_ok);
    let out = run.output;
    let res = out.result;
    &&& reports_authorization(out.authorization, p, plan, plan_path, policy_path, dry_run)
    &&& run.authorization_receipts@.len() == n
    &&& forall|i: int| 0 <= i < n ==> broker_step_receipt(#[trigger] run.authorization_receipts@[i], p, plan, plan.steps@[i])
    &&& out.receipt_id matches Some(id) && id@ == uuid_hyphenated(run.apply_receipt.id)
    &&& res.dry_run == dry_run
    &&& res.denied == denied
    &&& res.approval_required == asked
    &&& if dry_run {
        &&& out.executions@.len() == 0
        &&& run.execution_receipts@.len() == 0
        &&& res.status@ == "Executed"@
        &&& res.executed == 0 && res.skipped == 0 && res.failed == 0
        &&& res.approved_steps@.len() == 0
        &&& res.error is None
        &&& is_apply_receipt(
            run.apply_receipt,
            ReceiptStatus::Executed,
            apply_outputs(plan.id, plan_path, policy_path, true, (0, 0, denied, asked, 0), Seq::empty(), approve_all, strings_view(approve)),
            None,
        )
    } else {
        let executed = count_where(f, |x| fate_executed(x));
        let skipped = count_where(f, |x| fate_skipped(x));
        let failed = count_where(f, |x| fate_failed(x));
        let approved = approved_upto(plan.steps@, f, n as int);
        let ran = ran_upto(f, n as int);
        let error = if failed > 0 { Some(failed_steps_message(failed)) } else { None };
        &&& out.executions@.len() == n
        &&& forall|i: int| 0 <= i < n ==> records_fate(#[trigger] out.executions@[i], plan.steps@[i], f[i])
        &&& res.executed == executed && res.skipped == skipped && res.failed == failed
        &&& strings_view(res.approved_steps@) == approved
        &&& res.status@ == (if failed > 0 { "Failed"@ } else { "Executed"@ })
        &&& (match res.error {
            Some(e) => error == Some(e@),
            None => error is None,
        })
        &&& run.execution_receipts@.len() == ran.len()
        &&& forall|k: int|
            0 <= k < ran.len() ==> execution_step_receipt(
                #[trigger] run.execution_receipts@[k],
                p,
                plan,
                plan.steps@[ran[k]],
                home,
                path_ok[ran[k]],
            )
        &&& is_apply_receipt(
            run.apply_receipt,
            if failed > 0 { ReceiptStatus::Failed } else { ReceiptStatus::Executed },
            apply_outputs(plan.id, plan_path, policy_path, false, (executed, skipped, denied, asked, failed), approved, approve_all, strings_view(approve)),
            error,
        )
    }
}


/// The report of the verdicts recorded in `decisions`, one per step of `plan`.
fn authorization_report(
    plan: &OsaiPlan,
    plan_path: &str,
    policy_path: &str,
    dry_run: bool,
    decisions: &Vec<StepDecision>,
    Ghost(p): Ghost<ToolPolicy>,
) -> (a: ApplyAuthorizationReport)
    requires
        decisions@.len() == plan.steps@.len(),
        plan.steps@.len() <= u32::MAX,
        forall|i: int| 0 <= i < plan.steps@.len() ==> records_verdict(#[trigger] decisions@[i], p, plan.steps@[i]),
    ensures
        reports_authorization(a, p, *plan, plan_path@, policy_path@, dry_run),
{
    let ghost v = verdicts(p, *plan);
    let ghost fd = |x: (bool, bool, PolicyMode, Seq<char>)| verdict_denies(x);
    let ghost fq = |x: (bool, bool, PolicyMode, Seq<char>)| verdict_asks(x);
    let mut steps: Vec<ApplyStepAuthorization> = Vec::new();
    let mut denied: u32 = 0;
    let mut asked: u32 = 0;
    let n = decisions.len();
    let mut i: usize = 0;
    while i < n
        invariant
            0 <= i <= n,
            n == decisions@.len(),
            n == plan.steps@.len(),
            n <= u32::MAX,
            v == verdicts(p, *plan),
            fd == (|x: (bool, bool, PolicyMode, Seq<char>)| verdict_denies(x)),
            fq == (|x: (bool, bool, PolicyMode, Seq<char>)| verdict_asks(x)),
            forall|k: int| 0 <= k < n ==> records_verdict(#[trigger] decisions@[k], p, plan.steps@[k]),
            steps@.len() == i,
            forall|k: int|
                0 <= k < i ==> {
                    let e = #[trigger] steps@[k];
                    &&& e.step_id@ == plan.steps@[k].id@
                    &&& e.action@ == action_name_spec(plan.steps@[k].action)
                    &&& e.allowed == v[k].0
                    &&& e.approval == v[k].1
                    &&& e.mode@ == mode_name_spec(v[k].2)
                },
            denied == count_upto(v, fd, i as int),
            asked == count_upto(v, fq, i as int),
        decreases n - i,
    {
        proof {
            lemma_count_upto_bound(v, fd, i as int);
            lemma_count_upto_bound(v, fq, i as int);
            assert(records_verdict(decisions@[i as int], p, plan.steps@[i as int]));
        }
        let d = &decisions[i];
        if !d.allowed {
            denied = denied + 1;
        }
        if d.requires_approval {
            asked = asked + 1;
        }
        steps.push(ApplyStepAuthorization {
            step_id: d.step_id.clone(),
            action: d.action_name.clone(),
            allowed: d.allowed,
            approval: d.requires_approval,
            mode: mode_name(d.policy_mode),
        });
        i = i + 1;
    }
    ApplyAuthorizationReport {
        plan_id: uuid_to_string(plan.id),
        plan_path: owned(plan_path),
        policy_path: owned(policy_path),
        dry_run,
        steps,
        denied_count: denied,
        approval_required_count: asked,
    }
}

/// The error of a run in which `failed` steps failed, none when none did.
fn failure_text(failed: u32) -> (r: Option<String>)
    ensures
        match r {
            Some(e) => failed > 0 && e@ == failed_steps_message(failed as nat),
            None => failed == 0,
        },
{
    if failed > 0 {
        let d = decimal_text(failed as u64);
        Some(concat(d.as_str(), " step(s) failed"))
    } else {
        None
    }
}

/// The name of an execution status.
fn status_text(st: ExecutionStatus) -> (s: String)
    ensures
        s@ == status_name(st),
{
    match st {
        ExecutionStatus::Executed => owned("Executed"),
        ExecutionStatus::Failed => owned("Failed"),
        ExecutionStatus::Skipped => owned("Skipped"),
    }
}

/// `f` is how applying `plan` under `p` is refused: an invalid plan with the error
/// `plan validation failed: ...`, no broker receipts and a failed receipt of the run
/// with all counts zero; a valid plan (refused for its model router URL) with the
/// broker's receipts, one per step, and no receipt of the run.
pub open spec fn refuses_apply(
    f: ApplyFailure,
    plan: OsaiPlan,
    plan_path: Seq<char>,
    policy_path: Seq<char>,
    p: ToolPolicy,
    approve: Seq<String>,
    approve_all: bool,
    dry_run: bool,
) -> bool {
    match plan_validation(plan) {
        Err(e) => {
            &&& f.message@ == invalid_plan_message(e)
            &&& f.authorization_receipts@.len() == 0
            &&& f.receipt matches Some(rc) && is_apply_receipt(
                rc,
                ReceiptStatus::Failed,
                apply_outputs(plan.id, plan_path, policy_path, dry_run, (0, 0, 0, 0, 0), Seq::empty(), approve_all, strings_view(approve)),
                Some("Plan validation failed: "@ + validation_error_message(e)),
            )
        },
        Ok(()) => {
            &&& f.receipt is None
            &&& f.authorization_receipts@.len() == plan.steps@.len()
            &&& forall|i: int|
                0 <= i < plan.steps@.len() ==> broker_step_receipt(#[trigger] f.authorization_receipts@[i], p, plan, plan.steps@[i])
        },
    }
}

/// Applies `plan` under `policy`: refuses an invalid plan; authorizes every step;
/// then, unless this is a dry run, refuses a model router URL that is not
/// loopback-only, runs each allowed step (a step needing approval only when
/// `approve_all` is set or its id is in `approve`), and summarizes the run.
/// `home` is the home directory `~/` expands to; `resolved_targets[i]` is the resolved
/// form of the path step `i` lists (it counts only for file listings) and
/// `canonical_roots` that of each allowed root, in order (`None` where one could not be
/// resolved); the executor admits a path as `ToolExecutor::is_path_allowed` decides.
/// Receipts are returned for the caller to record, in order.
pub fn run_apply_core(
    plan: &OsaiPlan,
    plan_path: &str,
    policy_path: &str,
    policy: ToolPolicy,
    store: ReceiptStore,
    allowed_roots: Vec<String>,
    approve: &Vec<String>,
    approve_all: bool,
    model_router_url: Option<&str>,
    dry_run: bool,
    home: Option<&str>,
    resolved_targets: &Vec<Option<String>>,
    canonical_roots: &Vec<Option<String>>,
) -> (r: Result<ApplyRun, ApplyFailure>)
    requires
        resolved_targets@.len() == plan.steps@.len(),
        canonical_roots@.len() == allowed_roots@.len(),
        plan.steps@.len() <= u32::MAX,
    ensures
        (r is Err) == (plan_validation(*plan) is Err || (!dry_run && router_refusal(opt_str(model_router_url)) is Some)),
        r matches Err(f) ==> refuses_apply(f, *plan, plan_path@, policy_path@, policy, approve@, approve_all, dry_run),
        r matches Err(f) ==> plan_validation(*plan) is Ok ==> f.message@ == router_refusal(opt_str(model_router_url))->0,
        r matches Ok(run) ==> applies(
            run,
            *plan,
            plan_path@,
            policy_path@,
            policy,
            approve@,
            approve_all,
            dry_run,
            match home {
                Some(h) => Some(h@),
                None => None,
            },
            path_flags_spec(resolved_targets@, canonical_roots@),
        ),
{
    if let Err(e) = plan.validate() {
        return Err(apply_validation_failure(plan, plan_path, policy_path, approve, approve_all, dry_run, &e));
    }
    let ghost hv = match home {
        Some(h) => Some(h@),
        None => None,
    };
    let broker = ToolBroker::new(policy, ReceiptStore::new(store.root_dir()));
    let executor = ToolExecutor::new(store, allowed_roots);
    let path_flags = executor.path_flags(resolved_targets, canonical_roots);
    let path_allowed: &Vec<bool> = &path_flags;
    let (decisions, authorization_receipts) = authorize_steps(&broker, plan);
    let authorization = authorization_report(plan, plan_path, policy_path, dry_run, &decisions, Ghost(policy));
    let denied = authorization.denied_count;
    let asked = authorization.approval_required_count;
    if !dry_run {
        if let Some(m) = check_router_url(model_router_url) {
            return Err(ApplyFailure { message: m, authorization_receipts, receipt: None });
        }
    }
    if dry_run {
        let none: Vec<String> = Vec::new();
        let apply_receipt = apply_receipt(
            plan.id,
            plan_path,
            policy_path,
            dry_run,
            (0, 0, denied, asked, 0),
            &none,
            approve_all,
            approve,
            true,
            None,
        );
        proof {
            assert(strings_view(none@) =~= Seq::<Seq<char>>::empty());
        }
        let receipt_id = uuid_to_string(apply_receipt.id);
        return Ok(ApplyRun {
            output: ApplyCoreOutput {
                authorization,
                executions: Vec::new(),
                result: ApplyResult {
                    status: owned("Executed"),
                    executed: 0,
                    skipped: 0,
                    denied,
                    approval_required: asked,
                    failed: 0,
                    approved_steps: Vec::new(),
                    dry_run,
                    error: None,
                },
                receipt_id: Some(receipt_id),
            },
            authorization_receipts,
            execution_receipts: Vec::new(),
            apply_receipt,
        });
    }
    let ghost f = fates(policy, *plan, approve@, approve_all, hv, path_allowed@);
    let ghost fe = |x: StepFate| fate_executed(x);
    let ghost fs = |x: StepFate| fate_skipped(x);
    let ghost ff = |x: StepFate| fate_failed(x);
    let mut executed: u32 = 0;
    let mut skipped: u32 = 0;
    let mut failed: u32 = 0;
    let mut approved: Vec<String> = Vec::new();
    let mut executions: Vec<ApplyStepExecution> = Vec::new();
    let mut execution_receipts: Vec<Receipt> = Vec::new();
    let n = plan.steps.len();
    let mut i: usize = 0;
    while i < n
        invariant
            0 <= i <= n,
            n == plan.steps@.len(),
            n <= u32::MAX,
            path_allowed@.len() == n,
            decisions@.len() == n,
            forall|k: int| 0 <= k < n ==> records_verdict(#[trigger] decisions@[k], policy, plan.steps@[k]),
            hv == (match home {
                Some(h) => Some(h@),
                None => None,
            }),
            f == fates(policy, *plan, approve@, approve_all, hv, path_allowed@),
            fe == (|x: StepFate| fate_executed(x)),
            fs == (|x: StepFate| fate_skipped(x)),
            ff == (|x: StepFate| fate_failed(x)),
            executions@.len() == i,
            forall|k: int| 0 <= k < i ==> records_fate(#[trigger] executions@[k], plan.steps@[k], f[k]),
            executed == count_upto(f, fe, i as int),
            skipped == count_upto(f, fs, i as int),
            failed == count_upto(f, ff, i as int),
            executed + skipped + failed == i,
            strings_view(approved@) == approved_upto(plan.steps@, f, i as int),
            execution_receipts@.len() == ran_upto(f, i as int).len(),
            forall|k: int|
                0 <= k < ran_upto(f, i as int).len() ==> execution_step_receipt(
                    #[trigger] execution_receipts@[k],
                    policy,
                    *plan,
                    plan.steps@[ran_upto(f, i as int)[k]],
                    hv,
                    path_allowed@[ran_upto(f, i as int)[k]],
                ),
            forall|k: int| 0 <= k < ran_upto(f, i as int).len() ==> 0 <= #[trigger] ran_upto(f, i as int)[k] < i,
        decreases n - i,
    {
        let step = &plan.steps[i];
        let d = &decisions[i];
        proof {
            assert(records_verdict(decisions@[i as int], policy, plan.steps@[i as int]));
        }
        let ghost before = ran_upto(f, i as int);
        let ghost ap = approved@;
        if !d.allowed {
            executions.push(ApplyStepExecution {
                step_id: d.step_id.clone(),
                action: d.action_name.clone(),
                status: owned("Denied"),
                error: Some(owned("Policy denied")),
                denied: true,
                approval_skipped: false,
                approved_by_cli: false,
            });
            skipped = skipped + 1;
        } else if d.requires_approval && !(approve_all || is_listed(approve, d.step_id.as_str())) {
            executions.push(ApplyStepExecution {
                step_id: d.step_id.clone(),
                action: d.action_name.clone(),
                status: owned("Skipped"),
                error: Some(owned("requires user approval")),
                denied: false,
                approval_skipped: true,
                approved_by_cli: false,
            });
            skipped = skipped + 1;
        } else {
            let approved_by_cli = d.requires_approval;
            let reason = if approved_by_cli {
                concat("Explicitly approved by CLI: ", d.reason.as_str())
            } else {
                d.reason.clone()
            };
            let auth = AuthorizationDecision {
                request_id: new_uuid_v4(),
                allowed: true,
                requires_user_approval: false,
                reason,
                policy_mode: d.policy_mode,
            };
            let request = step_to_request(plan, step);
            proof {
                lemma_request_verdict(policy, request, *plan, *step);
            }
            let o = executor.execute_authorized(&request, &auth, home, path_allowed[i]);
            let status = o.result.status;
            let error = match o.result.error {
                Some(e) => if e.as_str().is_empty() {
                    None
                } else {
                    Some(e)
                },
                None => None,
            };
            execution_receipts.push(o.receipt);
            executions.push(ApplyStepExecution {
                step_id: d.step_id.clone(),
                action: d.action_name.clone(),
                status: status_text(status),
                error,
                denied: false,
                approval_skipped: false,
                approved_by_cli,
            });
            match status {
                ExecutionStatus::Executed => {
                    executed = executed + 1;
                    if approved_by_cli {
                        approved.push(d.step_id.clone());
                    }
                },
                ExecutionStatus::Failed => {
                    failed = failed + 1;
                },
                ExecutionStatus::Skipped => {
                    skipped = skipped + 1;
                },
            }
            proof {
                assert(ran_upto(f, i + 1) == before.push(i as int));
            }
        }
        proof {
            assert(f[i as int] == step_fate(
                policy,
                plan.steps@[i as int],
                approve_all || listed(approve@, plan.steps@[i as int].id@),
                hv,
                path_allowed@[i as int],
            ));
            if !(f[i as int] is Ran) {
                assert(ran_upto(f, i + 1) == before);
            }
            if f[i as int] matches StepFate::Ran(ExecutionStatus::Executed, _, true) {
                assert(strings_view(approved@) =~= strings_view(ap).push(plan.steps@[i as int].id@));
            } else {
                assert(strings_view(approved@) =~= strings_view(ap));
            }
        }
        i = i + 1;
    }
    let apply_receipt = apply_receipt(
        plan.id,
        plan_path,
        policy_path,
        dry_run,
        (executed, skipped, denied, asked, failed),
        &approved,
        approve_all,
        approve,
        failed == 0,
        failure_text(failed),
    );
    let receipt_id = uuid_to_string(apply_receipt.id);
    let status = if failed > 0 {
        owned("Failed")
    } else {
        owned("Executed")
    };
    Ok(ApplyRun {
        output: ApplyCoreOutput {
            authorization,
            executions,
            result: ApplyResult {
                status,
                executed,
                skipped,
                denied,
                approval_required: asked,
                failed,
                approved_steps: approved,
                dry_run,
                error: failure_text(failed),
            },
            receipt_id: Some(receipt_id),
        },
        authorization_receipts,
        execution_receipts,
        apply_receipt,
    })
}


/// Applies a plan as `run_apply_core` does; the second part of the result is what the
/// command ends with once the output is presented: an error when any step failed.
pub fn run_apply(
    plan: &OsaiPlan,
    plan_path: &str,
    policy_path: &str,
    policy: ToolPolicy,
    store: ReceiptStore,
    allowed_roots: Vec<String>,
    approve: &Vec<String>,
    approve_all: bool,
    model_router_url: Option<&str>,
    dry_run: bool,
    home: Option<&str>,
    resolved_targets: &Vec<Option<String>>,
    canonical_roots: &Vec<Option<String>>,
) -> (r: Result<(ApplyRun, Result<(), String>), ApplyFailure>)
    requires
        resolved_targets@.len() == plan.steps@.len(),
        canonical_roots@.len() == allowed_roots@.len(),
        plan.steps@.len() <= u32::MAX,
    ensures
        (r is Err) == (plan_validation(*plan) is Err || (!dry_run && router_refusal(opt_str(model_router_url)) is Some)),
        r matches Err(f) ==> refuses_apply(f, *plan, plan_path@, policy_path@, policy, approve@, approve_all, dry_run),
        r matches Err(f) ==> plan_validation(*plan) is Ok ==> f.message@ == router_refusal(opt_str(model_router_url))->0,
        r matches Ok((run, end)) ==> {
            &&& applies(
                run,
                *plan,
                plan_path@,
                policy_path@,
                policy,
                approve@,
                approve_all,
                dry_run,
                match home {
                    Some(h) => Some(h@),
                    None => None,
                },
                path_flags_spec(resolved_targets@, canonical_roots@),
            )
            &&& (end is Err) == (run.output.result.failed > 0)
            &&& end matches Err(m) ==> m@ == failed_steps_message(run.output.result.failed as nat)
        },
{
    match run_apply_core(
        plan,
        plan_path,
        policy_path,
        policy,
        store,
        allowed_roots,
        approve,
        approve_all,
        model_router_url,
        dry_run,
        home,
        resolved_targets,
        canonical_roots,
    ) {
        Ok(run) => {
            let end = match failure_text(run.output.result.failed) {
                Some(m) => Err(m),
                None => Ok(()),
            };
            Ok((run, end))
        },
        Err(f) => Err(f),
    }
}

/// Every step of an applied plan is counted exactly once: as executed, as skipped
/// (denied, awaiting approval, or skipped by the executor), or as failed.
pub proof fn lemma_apply_counts_add_up(
    p: ToolPolicy,
    plan: OsaiPlan,
    approve: Seq<String>,
    approve_all: bool,
    home: Option<Seq<char>>,
    path_ok: Seq<bool>,
)
    ensures
        ({
            let f = fates(p, plan, approve, approve_all, home, path_ok);
            count_where(f, |x| fate_executed(x)) + count_where(f, |x| fate_skipped(x)) + count_where(
                f,
                |x| fate_failed(x),
            ) == plan.steps@.len()
        }),
{
    let f = fates(p, plan, approve, approve_all, home, path_ok);
    lemma_three_way_count(f, |x| fate_executed(x), |x| fate_skipped(x), |x| fate_failed(x), f.len() as int);
}

/// A step the policy denies never runs, whatever was approved.
pub proof fn lemma_denied_step_never_runs(
    p: ToolPolicy,
    s: PlanStep,
    approved: bool,
    home: Option<Seq<char>>,
    path_ok: bool,
)
    requires
        !step_verdict(p, s).0,
    ensures
        step_fate(p, s, approved, home, path_ok) is Denied,
{
}

/// A step runs only if the policy allows it and, when it needs approval, the
/// approval was given; only then is it marked as approved from the command line.
pub proof fn lemma_runs_only_when_authorized(
    p: ToolPolicy,
    s: PlanStep,
    approved: bool,
    home: Option<Seq<char>>,
    path_ok: bool,
)
    ensures
        step_fate(p, s, approved, home, path_ok) is Ran ==> step_verdict(p, s).0 && (step_verdict(p, s).1 ==> approved),
        step_fate(p, s, approved, home, path_ok) matches StepFate::Ran(_, _, true) ==> step_verdict(p, s).1 && approved,
        step_verdict(p, s).0 && step_verdict(p, s).1 && !approved ==> step_fate(p, s, approved, home, path_ok) is AwaitingApproval,
{
}


/// The policy's verdict on every step of a plan, and the broker's receipts.
#[derive(Debug)]
pub struct PlanAuthorization {
    pub decisions: Vec<StepDecision>,
    pub receipts: Vec<Receipt>,
    pub any_denied: bool,
}

/// Authorizes every step of `plan` under `policy` (receipts kept in
/// `receipts_dir`): the verdicts, the broker's receipts, and whether any step was
/// denied. An invalid plan is refused.
pub fn authorize_plan(plan: &OsaiPlan, policy: ToolPolicy, receipts_dir: &str) -> (r: Result<PlanAuthorization, String>)
    ensures
        (r is Err) == (plan_validation(*plan) is Err),
        r matches Err(m) ==> m@ == invalid_plan_message(plan_validation(*plan)->Err_0),
        r matches Ok(a) ==> {
            &&& a.decisions@.len() == plan.steps@.len()
            &&& a.receipts@.len() == plan.steps@.len()
            &&& forall|i: int| 0 <= i < plan.steps@.len() ==> records_verdict(#[trigger] a.decisions@[i], policy, plan.steps@[i])
            &&& forall|i: int| 0 <= i < plan.steps@.len() ==> broker_step_receipt(#[trigger] a.receipts@[i], policy, *plan, plan.steps@[i])
            &&& a.any_denied == exists|i: int| 0 <= i < plan.steps@.len() && !(#[trigger] step_verdict(policy, plan.steps@[i])).0
        },
{
    if let Err(e) = plan.validate() {
        let m = e.message();
        return Err(concat("plan validation failed: ", m.as_str()));
    }
    let broker = ToolBroker::new(policy, ReceiptStore::new(receipts_dir));
    let (decisions, receipts) = authorize_steps(&broker, plan);
    let mut any_denied = false;
    let mut i: usize = 0;
    while i < decisions.len()
        invariant
            0 <= i <= decisions@.len(),
            decisions@.len() == plan.steps@.len(),
            forall|k: int| 0 <= k < plan.steps@.len() ==> records_verdict(#[trigger] decisions@[k], policy, plan.steps@[k]),
            any_denied == exists|k: int| 0 <= k < i && !(#[trigger] step_verdict(policy, plan.steps@[k])).0,
        decreases decisions@.len() - i,
    {
        proof {
            assert(records_verdict(decisions@[i as int], policy, plan.steps@[i as int]));
        }
        if !decisions[i].allowed {
            any_denied = true;
        }
        proof {
            if !step_verdict(policy, plan.steps@[i as int]).0 {
                assert(exists|k: int| 0 <= k < i + 1 && !(#[trigger] step_verdict(policy, plan.steps@[k])).0);
            }
        }
        i = i + 1;
    }
    Ok(PlanAuthorization { decisions, receipts, any_denied })
}

/// What running one step of a plan gave: the verdict, the broker's receipt, and
/// the execution's status, error and receipt.
#[derive(Debug)]
pub struct PlanStepRun {
    pub step_id: String,
    pub action_name: String,
    pub allowed: bool,
    pub requires_approval: bool,
    pub policy_mode: PolicyMode,
    pub reason: String,
    pub approved_by_cli: bool,
    pub status: String,
    pub error: String,
    pub broker_receipt: Receipt,
    pub execution_receipt: Option<Receipt>,
}

/// `r` records running step `s` of `plan` under `p` to fate `f`: a denied step is
/// skipped as denied, one awaiting approval is skipped, and one that ran carries its
/// status, error (empty when none) and the executor's receipt.
pub open spec fn records_plan_step(
    r: PlanStepRun,
    p: ToolPolicy,
    plan: OsaiPlan,
    s: PlanStep,
    f: StepFate,
    home: Option<Seq<char>>,
    path_ok: bool,
) -> bool {
    let (allowed, approval, mode, reason) = step_verdict(p, s);
    &&& r.step_id@ == s.id@
    &&& r.action_name@ == action_name_spec(s.action)
    &&& r.allowed == allowed
    &&& r.requires_approval == approval
    &&& r.policy_mode == mode
    &&& r.reason@ == reason
    &&& broker_step_receipt(r.broker_receipt, p, plan, s)
    &&& match f {
        StepFate::Denied => {
            &&& r.status@ == "Skipped"@
            &&& r.error@ == "Action denied"@
            &&& !r.approved_by_cli
            &&& r.execution_receipt is None
        },
        StepFate::AwaitingApproval => {
            &&& r.status@ == "Skipped"@
            &&& r.error@ == "Execution skipped: requires user approval"@
            &&& !r.approved_by_cli
            &&& r.execution_receipt is None
        },
        StepFate::Ran(st, err, by_cli) => {
            &&& r.status@ == status_name(st)
            &&& r.error@ == (match err {
                Some(e) => e,
                None => Seq::empty(),
            })
            &&& r.approved_by_cli == by_cli
            &&& r.execution_receipt matches Some(rc) && execution_step_receipt(rc, p, plan, s, home, path_ok)
        },
    }
}

/// The error a plan run ends with: denials first, then failures.
pub open spec fn plan_run_outcome(f: Seq<StepFate>) -> Result<(), Seq<char>> {
    if exists|i: int| 0 <= i < f.len() && (#[trigger] f[i]) is Denied {
        Err("authorization failed: one or more steps were denied"@)
    } else if exists|i: int| 0 <= i < f.len() && fate_failed(#[trigger] f[i]) {
        Err("execution failed: one or more steps failed"@)
    } else {
        Ok(())
    }
}

/// Runs `plan` under `policy` step by step: each step is authorized, then run when
/// allowed (a step needing approval only when `approve_all` is set or its id is in
/// `approve`). `home`, `resolved_targets` and `canonical_roots` are as for `run_apply_core`. Returns what
/// each step gave, in order, and how the run ends. An invalid plan is refused, and
/// so is a model router URL that is not loopback-only.
pub fn run_plan(
    plan: &OsaiPlan,
    policy: ToolPolicy,
    store: ReceiptStore,
    allowed_roots: Vec<String>,
    approve: &Vec<String>,
    approve_all: bool,
    model_router_url: Option<&str>,
    home: Option<&str>,
    resolved_targets: &Vec<Option<String>>,
    canonical_roots: &Vec<Option<String>>,
) -> (r: Result<(Vec<PlanStepRun>, Result<(), String>), String>)
    requires
        resolved_targets@.len() == plan.steps@.len(),
        canonical_roots@.len() == allowed_roots@.len(),
    ensures
        (r is Err) == (plan_validation(*plan) is Err || router_refusal(opt_str(model_router_url)) is Some),
        r matches Err(m) ==> m@ == match plan_validation(*plan) {
            Err(e) => invalid_plan_message(e),
            Ok(()) => router_refusal(opt_str(model_router_url))->0,
        },
        r matches Ok((steps, end)) ==> {
            let f = fates(
                policy,
                *plan,
                approve@,
                approve_all,
                match home {
                    Some(h) => Some(h@),
                    None => None,
                },
                path_flags_spec(resolved_targets@, canonical_roots@),
            );
            &&& steps@.len() == plan.steps@.len()
            &&& forall|i: int|
                0 <= i < plan.steps@.len() ==> records_plan_step(
                    #[trigger] steps@[i],
                    policy,
                    *plan,
                    plan.steps@[i],
                    f[i],
                    match home {
                        Some(h) => Some(h@),
                        None => None,
                    },
                    path_flags_spec(resolved_targets@, canonical_roots@)[i],
                )
            &&& match end {
                Ok(()) => plan_run_outcome(f) is Ok,
                Err(m) => plan_run_outcome(f) == Err::<(), Seq<char>>(m@),
            }
        },
{
    if let Err(e) = plan.validate() {
        let m = e.message();
        return Err(concat("plan validation failed: ", m.as_str()));
    }
    if let Some(m) = check_router_url(model_router_url) {
        return Err(m);
    }
    let ghost hv = match home {
        Some(h) => Some(h@),
        None => None,
    };
    let broker = ToolBroker::new(policy, ReceiptStore::new(store.root_dir()));
    let executor = ToolExecutor::new(store, allowed_roots);
    let path_flags = executor.path_flags(resolved_targets, canonical_roots);
    let path_allowed: &Vec<bool> = &path_flags;
    let ghost f = fates(policy, *plan, approve@, approve_all, hv, path_allowed@);
    let mut runs: Vec<PlanStepRun> = Vec::new();
    let mut any_denied = false;
    let mut any_failed = false;
    let n = plan.steps.len();
    let mut i: usize = 0;
    while i < n
        invariant
            0 <= i <= n,
            n == plan.steps@.len(),
            path_allowed@.len() == n,
            broker.policy_spec() == policy,
            hv == (match home {
                Some(h) => Some(h@),
                None => None,
            }),
            f == fates(policy, *plan, approve@, approve_all, hv, path_allowed@),
            runs@.len() == i,
            forall|k: int|
                0 <= k < i ==> records_plan_step(#[trigger] runs@[k], policy, *plan, plan.steps@[k], f[k], hv, path_allowed@[k]),
            any_denied == exists|k: int| 0 <= k < i && (#[trigger] f[k]) is Denied,
            any_failed == exists|k: int| 0 <= k < i && fate_failed(#[trigger] f[k]),
        decreases n - i,
    {
        let step = &plan.steps[i];
        let request = step_to_request(plan, step);
        let decision = broker.decide(&request);
        proof {
            lemma_request_verdict(policy, request, *plan, *step);
        }
        let broker_receipt = broker.create_receipt(&request, &decision);
        let action_name = request.action_name();
        let (status, error, approved_by_cli, execution_receipt, failed_now): (
            String,
            String,
            bool,
            Option<Receipt>,
            bool,
        ) = if !decision.allowed {
            (owned("Skipped"), owned("Action denied"), false, None, false)
        } else if decision.requires_user_approval && !(approve_all || is_listed(approve, step.id.as_str())) {
            (owned("Skipped"), owned("Execution skipped: requires user approval"), false, None, false)
        } else {
            let by_cli = decision.requires_user_approval;
            let auth = if by_cli {
                AuthorizationDecision {
                    request_id: decision.request_id,
                    allowed: true,
                    requires_user_approval: false,
                    reason: concat("Explicitly approved by CLI: ", decision.reason.as_str()),
                    policy_mode: decision.policy_mode,
                }
            } else {
                AuthorizationDecision {
                    request_id: decision.request_id,
                    allowed: decision.allowed,
                    requires_user_approval: decision.requires_user_approval,
                    reason: decision.reason.clone(),
                    policy_mode: decision.policy_mode,
                }
            };
            let o = executor.execute_authorized(&request, &auth, home, path_allowed[i]);
            let st = o.result.status;
            let err = match o.result.error {
                Some(e) => e,
                None => String::new(),
            };
            proof {
                assert(err@ == (match nonempty(o.result.error_view()) {
                    Some(e) => e,
                    None => Seq::<char>::empty(),
                }));
            }
            (status_text(st), err, by_cli, Some(o.receipt), st == ExecutionStatus::Failed)
        };
        proof {
            assert(f[i as int] == step_fate(
                policy,
                plan.steps@[i as int],
                approve_all || listed(approve@, plan.steps@[i as int].id@),
                hv,
                path_allowed@[i as int],
            ));
        }
        let denied_now = !decision.allowed;
        proof {
            assert(failed_now == fate_failed(f[i as int]));
            assert(denied_now == (f[i as int] is Denied));
        }
        runs.push(PlanStepRun {
            step_id: step.id.clone(),
            action_name,
            allowed: decision.allowed,
            requires_approval: decision.requires_user_approval,
            policy_mode: decision.policy_mode,
            reason: decision.reason,
            approved_by_cli,
            status,
            error,
            broker_receipt,
            execution_receipt,
        });
        if denied_now {
            any_denied = true;
        }
        if failed_now {
            any_failed = true;
        }
        proof {
            if f[i as int] is Denied {
                assert(exists|k: int| 0 <= k < i + 1 && (#[trigger] f[k]) is Denied);
            }
            if fate_failed(f[i as int]) {
                assert(exists|k: int| 0 <= k < i + 1 && fate_failed(#[trigger] f[k]));
            }
        }
        i = i + 1;
    }
    let end = if any_denied {
        Err(owned("authorization failed: one or more steps were denied"))
    } else if any_failed {
        Err(owned("execution failed: one or more steps failed"))
    } else {
        Ok(())
    };
    Ok((runs, end))
}

} // verus!
