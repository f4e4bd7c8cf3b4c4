//! The lines the command line reports runs with. An apply run: the authorization
//! summary, one line per step that was considered, the receipt and the totals (in
//! JSON mode the authorization summary and the totals are JSON documents, which the
//! caller renders; the lines here are the rest). An authorization pass: a line per
//! step. A step-by-step run: a few lines per step.

use vstd::prelude::*;
use crate::apply::{
    ApplyAuthorizationReport, ApplyCoreOutput, ApplyResult, ApplyStepAuthorization, ApplyStepExecution, PlanStepRun,
    StepDecision,
};
use crate::broker::{mode_name, mode_name_spec};
use crate::shared::texts_of;
use crate::text::{concat, decimal_spec, decimal_text, owned};

verus! {

/// The text of a boolean.
pub open spec fn bool_name(b: bool) -> Seq<char> {
    if b {
        "true"@
    } else {
        "false"@
    }
}

/// The text of a count.
pub open spec fn count_text(n: u32) -> Seq<char> {
    decimal_spec(n as nat)
}

/// The line of one step of the authorization summary.
pub open spec fn authorization_step_line(a: ApplyStepAuthorization) -> Seq<char> {
    "step="@ + a.step_id@ + " action="@ + a.action@ + " allowed="@ + bool_name(a.allowed) + " approval="@
        + bool_name(a.approval) + " mode="@ + a.mode@
}

/// The authorization summary: the plan and policy, a line per step, and the counts.
pub open spec fn authorization_lines(r: ApplyAuthorizationReport) -> Seq<Seq<char>> {
    seq!["Authorization summary for plan: "@ + r.plan_path@, "policy: "@ + r.policy_path@]
        + Seq::new(r.steps@.len(), |i: int| authorization_step_line(r.steps@[i]))
        + seq!["denied="@ + count_text(r.denied_count) + " approval_required="@ + count_text(r.approval_required_count)]
}

/// An optional error's text, empty when there is none.
pub open spec fn error_text(e: Option<String>) -> Seq<char> {
    match e {
        Some(x) => x@,
        None => Seq::empty(),
    }
}

/// The line of one step of the run: denied, skipped for want of approval, or with
/// its status and error; as a small JSON object in JSON mode.
pub open spec fn execution_line(e: ApplyStepExecution, json: bool) -> Seq<char> {
    if json {
        let head = "{\"step\":\""@ + e.step_id@ + "\",\"action\":\""@ + e.action@;
        if e.denied {
            head + "\",\"status\":\"Denied\"}"@
        } else if e.approval_skipped {
            head + "\",\"status\":\"Skipped\",\"reason\":\"requires approval\"}"@
        } else {
            head + "\",\"status\":\""@ + e.status@ + "\",\"error\":\""@ + error_text(e.error) + "\"}"@
        }
    } else {
        let head = "step="@ + e.step_id@ + " action="@ + e.action@;
        if e.denied {
            head + " execution=Denied reason=\"Policy denied\""@
        } else if e.approval_skipped {
            head + " execution=Skipped reason=\"requires user approval\""@
        } else {
            head + " execution="@ + e.status@ + " error=\""@ + error_text(e.error) + "\""@
        }
    }
}

/// The totals of a run.
pub open spec fn summary_line(r: ApplyResult) -> Seq<char> {
    "Apply complete: executed="@ + count_text(r.executed) + " skipped="@ + count_text(r.skipped) + " denied="@
        + count_text(r.denied) + " approval_required="@ + count_text(r.approval_required) + " failed="@
        + count_text(r.failed)
}

/// The line naming the receipt of the run, when there is one.
pub open spec fn receipt_lines(id: Option<String>) -> Seq<Seq<char>> {
    match id {
        Some(i) => seq!["Receipt written: "@ + i@],
        None => Seq::empty(),
    }
}

/// The lines reporting a run: in text mode the authorization summary first; then, for
/// a dry run, only that nothing was executed; otherwise a line per step, the receipt,
/// and in text mode the totals.
pub open spec fn apply_lines(out: ApplyCoreOutput, json: bool) -> Seq<Seq<char>> {
    let head = if json {
        Seq::empty()
    } else {
        authorization_lines(out.authorization)
    };
    if out.result.dry_run {
        head + seq!["Dry run complete; no steps executed."@]
    } else {
        let steps = Seq::new(out.executions@.len(), |i: int| execution_line(out.executions@[i], json));
        let tail = if json {
            Seq::empty()
        } else {
            seq![summary_line(out.result)]
        };
        head + steps + receipt_lines(out.receipt_id) + tail
    }
}

/// `s` followed by `t`.
fn append(s: String, t: &str) -> (r: String)
    ensures
        r@ == s@ + t@,
{
    concat(s.as_str(), t)
}

/// The text of a boolean.
fn bool_text(b: bool) -> (s: &'static str)
    ensures
        s@ == bool_name(b),
{
    if b {
        "true"
    } else {
        "false"
    }
}

/// The text of a count.
fn count_string(n: u32) -> (s: String)
    ensures
        s@ == count_text(n),
{
    decimal_text(n as u64)
}

/// The line of one step of the authorization summary.
pub fn authorization_step_text(a: &ApplyStepAuthorization) -> (s: String)
    ensures
        s@ == authorization_step_line(*a),
{
    let mut l = append(owned("step="), a.step_id.as_str());
    l = append(l, " action=");
    l = append(l, a.action.as_str());
    l = append(l, " allowed=");
    l = append(l, bool_text(a.allowed));
    l = append(l, " approval=");
    l = append(l, bool_text(a.approval));
    l = append(l, " mode=");
    append(l, a.mode.as_str())
}

/// The authorization summary.
pub fn authorization_text(r: &ApplyAuthorizationReport) -> (v: Vec<String>)
    ensures
        texts_of(v@) == authorization_lines(*r),
{
    let mut v: Vec<String> = Vec::new();
    v.push(concat("Authorization summary for plan: ", r.plan_path.as_str()));
    v.push(concat("policy: ", r.policy_path.as_str()));
    let mut i: usize = 0;
    while i < r.steps.len()
        invariant
            0 <= i <= r.steps@.len(),
            v@.len() == i + 2,
            v@[0]@ == "Authorization summary for plan: "@ + r.plan_path@,
            v@[1]@ == "policy: "@ + r.policy_path@,
            forall|k: int| 0 <= k < i ==> #[trigger] v@[k + 2]@ == authorization_step_line(r.steps@[k]),
        decreases r.steps@.len() - i,
    {
        v.push(authorization_step_text(&r.steps[i]));
        i = i + 1;
    }
    let mut last = append(owned("denied="), count_string(r.denied_count).as_str());
    last = append(last, " approval_required=");
    last = append(last, count_string(r.approval_required_count).as_str());
    v.push(last);
    proof {
        let want = authorization_lines(*r);
        let got = texts_of(v@);
        assert(got.len() == want.len());
        assert forall|k: int| 0 <= k < got.len() implies got[k] == want[k] by {
            if 2 <= k < r.steps@.len() + 2 {
                assert(v@[(k - 2) + 2]@ == authorization_step_line(r.steps@[k - 2]));
            }
        }
        assert(got =~= want);
    }
    v
}

/// An optional error's text.
fn error_string(e: &Option<String>) -> (s: String)
    ensures
        s@ == error_text(*e),
{
    match e {
        Some(x) => x.clone(),
        None => String::new(),
    }
}

/// The line of one step of a run.
pub fn execution_text(e: &ApplyStepExecution, json: bool) -> (s: String)
    ensures
        s@ == execution_line(*e, json),
{
    if json {
        let mut l = append(owned("{\"step\":\""), e.step_id.as_str());
        l = append(l, "\",\"action\":\"");
        l = append(l, e.action.as_str());
        if e.denied {
            append(l, "\",\"status\":\"Denied\"}")
        } else if e.approval_skipped {
            append(l, "\",\"status\":\"Skipped\",\"reason\":\"requires approval\"}")
        } else {
            l = append(l, "\",\"status\":\"");
            l = append(l, e.status.as_str());
            l = append(l, "\",\"error\":\"");
            l = append(l, error_string(&e.error).as_str());
            append(l, "\"}")
        }
    } else {
        let mut l = append(owned("step="), e.step_id.as_str());
        l = append(l, " action=");
        l = append(l, e.action.as_str());
        if e.denied {
            append(l, " execution=Denied reason=\"Policy denied\"")
        } else if e.approval_skipped {
            append(l, " execution=Skipped reason=\"requires user approval\"")
        } else {
            l = append(l, " execution=");
            l = append(l, e.status.as_str());
            l = append(l, " error=\"");
            l = append(l, error_string(&e.error).as_str());
            append(l, "\"")
        }
    }
}

/// The totals of a run.
pub fn summary_text(r: &ApplyResult) -> (s: String)
    ensures
        s@ == summary_line(*r),
{
    let mut l = append(owned("Apply complete: executed="), count_string(r.executed).as_str());
    l = append(l, " skipped=");
    l = append(l, count_string(r.skipped).as_str());
    l = append(l, " denied=");
    l = append(l, count_string(r.denied).as_str());
    l = append(l, " approval_required=");
    l = append(l, count_string(r.approval_required).as_str());
    l = append(l, " failed=");
    append(l, count_string(r.failed).as_str())
}

/// The lines reporting a run (see `apply_lines`).
pub fn apply_output_lines(out: &ApplyCoreOutput, json: bool) -> (v: Vec<String>)
    ensures
        texts_of(v@) == apply_lines(*out, json),
{
    let mut v: Vec<String> = if json {
        Vec::new()
    } else {
        authorization_text(&out.authorization)
    };
    let ghost head = texts_of(v@);
    if out.result.dry_run {
        v.push(owned("Dry run complete; no steps executed."));
        proof {
            assert(texts_of(v@) =~= head + seq!["Dry run complete; no steps executed."@]);
        }
        return v;
    }
    let ghost steps = Seq::new(out.executions@.len(), |i: int| execution_line(out.executions@[i], json));
    let mut i: usize = 0;
    while i < out.executions.len()
        invariant
            0 <= i <= out.executions@.len(),
            v@.len() == head.len() + i,
            forall|k: int| 0 <= k < head.len() ==> #[trigger] v@[k]@ == head[k],
            forall|k: int| 0 <= k < i ==> #[trigger] v@[head.len() + k]@ == execution_line(out.executions@[k], json),
        decreases out.executions@.len() - i,
    {
        v.push(execution_text(&out.executions[i], json));
        i = i + 1;
    }
    let ghost body = texts_of(v@);
    proof {
        assert(body.len() == head.len() + steps.len());
        assert forall|k: int| 0 <= k < body.len() implies body[k] == (head + steps)[k] by {
            if k >= head.len() {
                assert(v@[head.len() + (k - head.len())]@ == execution_line(out.executions@[k - head.len()], json));
            }
        }
        assert(body =~= head + steps);
    }
    match &out.receipt_id {
        Some(id) => {
            v.push(concat("Receipt written: ", id.as_str()));
        },
        None => {},
    }
    let ghost with_receipt = texts_of(v@);
    proof {
        assert(with_receipt =~= head + steps + receipt_lines(out.receipt_id));
    }
    if !json {
        v.push(summary_text(&out.result));
    }
    proof {
        let tail = if json {
            Seq::<Seq<char>>::empty()
        } else {
            seq![summary_line(out.result)]
        };
        assert(texts_of(v@) =~= head + steps + receipt_lines(out.receipt_id) + tail);
    }
    v
}

/// The line of one step of an authorization pass.
pub open spec fn decision_line(d: StepDecision) -> Seq<char> {
    "step="@ + d.step_id@ + " action="@ + d.action_name@ + " allowed="@ + bool_name(d.allowed) + " approval="@
        + bool_name(d.requires_approval) + " mode="@ + mode_name_spec(d.policy_mode) + " reason=\""@ + d.reason@
        + "\""@
}

/// The lines of one step of a step-by-step run: the step, its authorization, the
/// approval given on the command line when it was, and its execution.
pub open spec fn plan_step_lines(r: PlanStepRun) -> Seq<Seq<char>> {
    let approval = if r.approved_by_cli {
        seq!["approval: source=cli step="@ + r.step_id@]
    } else {
        Seq::empty()
    };
    seq![
        "step="@ + r.step_id@,
        "authorization: allowed="@ + bool_name(r.allowed) + " approval="@ + bool_name(r.requires_approval) + " mode="@
            + mode_name_spec(r.policy_mode) + " reason=\""@ + r.reason@ + "\""@,
    ] + approval + seq!["execution: status="@ + r.status@ + " action="@ + r.action_name@ + " error=\""@ + r.error@ + "\""@]
}

/// The line of one step of an authorization pass.
pub fn decision_text(d: &StepDecision) -> (s: String)
    ensures
        s@ == decision_line(*d),
{
    let mut l = append(owned("step="), d.step_id.as_str());
    l = append(l, " action=");
    l = append(l, d.action_name.as_str());
    l = append(l, " allowed=");
    l = append(l, bool_text(d.allowed));
    l = append(l, " approval=");
    l = append(l, bool_text(d.requires_approval));
    l = append(l, " mode=");
    l = append(l, mode_name(d.policy_mode).as_str());
    l = append(l, " reason=\"");
    l = append(l, d.reason.as_str());
    append(l, "\"")
}

/// The lines of one step of a step-by-step run.
pub fn plan_step_text(r: &PlanStepRun) -> (v: Vec<String>)
    ensures
        texts_of(v@) == plan_step_lines(*r),
{
    let mut v: Vec<String> = Vec::new();
    v.push(concat("step=", r.step_id.as_str()));
    let mut a = append(owned("authorization: allowed="), bool_text(r.allowed));
    a = append(a, " approval=");
    a = append(a, bool_text(r.requires_approval));
    a = append(a, " mode=");
    a = append(a, mode_name(r.policy_mode).as_str());
    a = append(a, " reason=\"");
    a = append(a, r.reason.as_str());
    v.push(append(a, "\""));
    if r.approved_by_cli {
        v.push(concat("approval: source=cli step=", r.step_id.as_str()));
    }
    let mut e = append(owned("execution: status="), r.status.as_str());
    e = append(e, " action=");
    e = append(e, r.action_name.as_str());
    e = append(e, " error=\"");
    e = append(e, r.error.as_str());
    v.push(append(e, "\""));
    proof {
        assert(texts_of(v@) =~= plan_step_lines(*r));
    }
    v
}

} // verus!
