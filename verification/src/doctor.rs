//! The doctor: checks of a checkout and of the local stack, tallied into a report.

use vstd::prelude::*;
use crate::plan::{OsaiPlan, plan_validation, validation_error_message};
use crate::shared::{is_loopback_spec, is_loopback_url, join_spec, join_strings, texts_of};
use crate::text::{concat, contains_spec, contains_str, decimal_spec, decimal_text, owned, str_eq};

verus! {

/// The result of one check.
#[derive(Debug, Clone)]
pub struct CheckResult {
    pub name: String,
    pub status: String,
    pub message: String,
}

/// All checks, with their tally and the overall status.
#[derive(Debug)]
pub struct DoctorReport {
    pub status: String,
    pub checks: Vec<CheckResult>,
    pub summary: DoctorSummary,
}

/// How many checks passed, warned and failed.
#[derive(Debug)]
pub struct DoctorSummary {
    pub ok: usize,
    pub warn: usize,
    pub fail: usize,
}

/// The number of the first `n` checks whose status is `status`.
pub open spec fn status_count(checks: Seq<CheckResult>, status: Seq<char>, n: int) -> nat
    decreases n,
{
    if n <= 0 {
        0
    } else {
        status_count(checks, status, n - 1) + if checks[n - 1].status@ == status {
            1nat
        } else {
            0nat
        }
    }
}

/// The report of `checks`: each status counted, and `fail` overall when any check
/// failed, else `ok`.
pub fn doctor_report(checks: Vec<CheckResult>) -> (r: DoctorReport)
    ensures
        r.checks@ == checks@,
        r.summary.ok == status_count(checks@, "OK"@, checks@.len() as int),
        r.summary.warn == status_count(checks@, "WARN"@, checks@.len() as int),
        r.summary.fail == status_count(checks@, "FAIL"@, checks@.len() as int),
        r.status@ == (if r.summary.fail > 0 {
            "fail"@
        } else {
            "ok"@
        }),
{
    let mut ok: usize = 0;
    let mut warn: usize = 0;
    let mut fail: usize = 0;
    let mut i: usize = 0;
    while i < checks.len()
        invariant
            0 <= i <= checks@.len(),
            ok + warn + fail <= i,
            ok == status_count(checks@, "OK"@, i as int),
            warn == status_count(checks@, "WARN"@, i as int),
            fail == status_count(checks@, "FAIL"@, i as int),
        decreases checks@.len() - i,
    {
        let st = checks[i].status.as_str();
        proof {
            reveal_strlit("OK");
            reveal_strlit("WARN");
            reveal_strlit("FAIL");
            assert("OK"@ != "WARN"@ && "OK"@ != "FAIL"@ && "WARN"@ != "FAIL"@) by {
                assert("OK"@.len() != "WARN"@.len());
                assert("OK"@.len() != "FAIL"@.len());
                assert("WARN"@[0] != "FAIL"@[0]);
            }
        }
        if str_eq(st, "OK") {
            ok = ok + 1;
        } else if str_eq(st, "WARN") {
            warn = warn + 1;
        } else if str_eq(st, "FAIL") {
            fail = fail + 1;
        }
        i = i + 1;
    }
    let status = if fail > 0 {
        owned("fail")
    } else {
        owned("ok")
    };
    DoctorReport { status, checks, summary: DoctorSummary { ok, warn, fail } }
}

/// The failed check of a model router URL that is not loopback-only, if it is not.
pub fn model_router_url_check(model_router_url: &str) -> (r: Option<CheckResult>)
    ensures
        (r is Some) == !is_loopback_spec(model_router_url@),
        r matches Some(c) ==> c.name@ == "model_router_url"@ && c.status@ == "FAIL"@ && c.message@
            == "Model router URL must be loopback only (127.0.0.1 or localhost): "@ + model_router_url@,
{
    if is_loopback_url(model_router_url) {
        None
    } else {
        Some(CheckResult {
            name: owned("model_router_url"),
            status: owned("FAIL"),
            message: concat("Model router URL must be loopback only (127.0.0.1 or localhost): ", model_router_url),
        })
    }
}

/// How a doctor run ends: with an error when any check failed; a run stopped because
/// the model router URL is not loopback-only says so.
pub fn doctor_outcome(report: &DoctorReport, url_refused: bool) -> (r: Result<(), String>)
    ensures
        (r is Err) == (url_refused || report.summary.fail > 0),
        r matches Err(m) ==> m@ == (if url_refused {
            "invalid model router URL"@
        } else {
            "doctor checks failed"@
        }),
{
    if url_refused {
        Err(owned("invalid model router URL"))
    } else if report.summary.fail > 0 {
        Err(owned("doctor checks failed"))
    } else {
        Ok(())
    }
}

/// The line of one check in the text report.
pub open spec fn check_line(c: CheckResult) -> Seq<char> {
    "["@ + c.status@ + "] "@ + c.name@ + ": "@ + c.message@
}

/// The text report: a title, a line per check, and the tally.
pub open spec fn doctor_lines_spec(r: DoctorReport) -> Seq<Seq<char>> {
    seq!["OSAI Doctor"@, Seq::empty()] + Seq::new(r.checks@.len(), |i: int| check_line(r.checks@[i])) + seq![
        Seq::empty(),
        "Summary: "@ + decimal_spec(r.summary.ok as nat) + " ok, "@ + decimal_spec(r.summary.warn as nat) + " warn, "@
            + decimal_spec(r.summary.fail as nat) + " fail"@,
    ]
}

/// The text report of a doctor run.
pub fn doctor_lines(r: &DoctorReport) -> (v: Vec<String>)
    ensures
        texts_of(v@) == doctor_lines_spec(*r),
{
    let mut v: Vec<String> = Vec::new();
    v.push(owned("OSAI Doctor"));
    v.push(String::new());
    let mut i: usize = 0;
    while i < r.checks.len()
        invariant
            0 <= i <= r.checks@.len(),
            v@.len() == i + 2,
            v@[0]@ == "OSAI Doctor"@,
            v@[1]@ == Seq::<char>::empty(),
            forall|k: int| 0 <= k < i ==> #[trigger] v@[k + 2]@ == check_line(r.checks@[k]),
        decreases r.checks@.len() - i,
    {
        let c = &r.checks[i];
        let a = concat("[", c.status.as_str());
        let b = concat(a.as_str(), "] ");
        let d = concat(b.as_str(), c.name.as_str());
        let e = concat(d.as_str(), ": ");
        v.push(concat(e.as_str(), c.message.as_str()));
        i = i + 1;
    }
    v.push(String::new());
    let ok = decimal_text(r.summary.ok as u64);
    let warn = decimal_text(r.summary.warn as u64);
    let fail = decimal_text(r.summary.fail as u64);
    let a = concat("Summary: ", ok.as_str());
    let b = concat(a.as_str(), " ok, ");
    let c = concat(b.as_str(), warn.as_str());
    let d = concat(c.as_str(), " warn, ");
    let e = concat(d.as_str(), fail.as_str());
    v.push(concat(e.as_str(), " fail"));
    proof {
        let want = doctor_lines_spec(*r);
        let got = texts_of(v@);
        assert(got.len() == want.len());
        assert forall|k: int| 0 <= k < got.len() implies got[k] == want[k] by {
            if 2 <= k < r.checks@.len() + 2 {
                assert(v@[(k - 2) + 2]@ == check_line(r.checks@[k - 2]));
            }
        }
        assert(got =~= want);
    }
    v
}

/// What asking the model router gave.
#[derive(Debug)]
pub enum RouterAnswer {
    /// The HTTP client could not be built; why.
    NoClient(String),
    /// The request failed; why.
    Failed(String),
    /// The router answered with this status code, shown as this text.
    Answered(u16, String),
}

/// Whether a status code is a success (2xx).
pub open spec fn is_success(code: u16) -> bool {
    200 <= code < 300
}

/// Why asking the model router for `what` failed, if it did: no client, a failed
/// request, or an answer that is not a success.
pub open spec fn router_failure(a: RouterAnswer, what: Seq<char>) -> Option<Seq<char>> {
    match a {
        RouterAnswer::NoClient(e) => Some("Failed to create HTTP client: "@ + e@),
        RouterAnswer::Failed(e) => Some(what + " failed: "@ + e@),
        RouterAnswer::Answered(c, shown) => if is_success(c) {
            None
        } else {
            Some(what + " returned "@ + shown@)
        },
    }
}

/// The failed check for `what`, if asking the router failed.
fn router_failure_check(a: &RouterAnswer, what: &str) -> (r: Option<(String, String)>)
    ensures
        match router_failure(*a, what@) {
            Some(m) => r matches Some(x) && x.0@ == "FAIL"@ && x.1@ == m,
            None => r is None,
        },
{
    match a {
        RouterAnswer::NoClient(e) => Some((owned("FAIL"), concat("Failed to create HTTP client: ", e.as_str()))),
        RouterAnswer::Failed(e) => {
            let m = concat(what, " failed: ");
            Some((owned("FAIL"), concat(m.as_str(), e.as_str())))
        },
        RouterAnswer::Answered(c, shown) => if 200 <= *c && *c < 300 {
            None
        } else {
            let m = concat(what, " returned ");
            Some((owned("FAIL"), concat(m.as_str(), shown.as_str())))
        },
    }
}

/// The model router's health check: `OK` when it answered with success, naming the
/// status, else `FAIL` with why.
pub fn health_check(a: &RouterAnswer) -> (r: (String, String))
    ensures
        match router_failure(*a, "Health check"@) {
            Some(m) => r.0@ == "FAIL"@ && r.1@ == m,
            None => r.0@ == "OK"@ && (a matches RouterAnswer::Answered(_, shown) && r.1@ == "Health check returned "@
                + shown@),
        },
{
    match router_failure_check(a, "Health check") {
        Some(f) => f,
        None => match a {
            RouterAnswer::Answered(_, shown) => (owned("OK"), concat("Health check returned ", shown.as_str())),
            _ => (owned("OK"), String::new()),
        },
    }
}

/// The failed check of the model router's model list, if asking for it failed; when
/// it did not, the answer's body is checked next (`models_body_check`).
pub fn models_failure(a: &RouterAnswer) -> (r: Option<(String, String)>)
    ensures
        match router_failure(*a, "Models endpoint"@) {
            Some(m) => r matches Some(x) && x.0@ == "FAIL"@ && x.1@ == m,
            None => r is None,
        },
{
    router_failure_check(a, "Models endpoint")
}

/// The check of the model list's body, given what reading it gave.
pub fn models_body_check(body: Result<&str, &str>) -> (r: (String, String))
    ensures
        match body {
            Err(e) => r.0@ == "FAIL"@ && r.1@ == "Failed to read response: "@ + e@,
            Ok(b) => ({
                let present = Seq::new(4, |i: int| contains_spec(b@, required_models()[i]));
                let missing = missing_upto(required_models(), present, 4);
                &&& missing.len() == 0 ==> r.0@ == "OK"@ && r.1@ == "All required models present"@
                &&& missing.len() > 0 ==> r.0@ == "FAIL"@ && r.1@ == "Missing models: "@ + join_spec(missing, ", "@)
            }),
        },
{
    match body {
        Err(e) => (owned("FAIL"), concat("Failed to read response: ", e)),
        Ok(b) => check_models_body(b),
    }
}

/// The paths a checkout of the repository must have.
pub open spec fn required_repo_paths() -> Seq<Seq<char>> {
    seq![
        "Cargo.toml"@,
        "crates/osai-plan-dsl"@,
        "crates/osai-receipt-logger"@,
        "crates/osai-toolbroker"@,
        "crates/osai-tool-executor"@,
        "crates/osai-agent-cli"@,
        "services/model-router"@,
        "examples/plans"@,
        "examples/policies"@,
    ]
}

/// The paths a checkout of the repository must have.
pub fn repo_required_paths() -> (v: Vec<String>)
    ensures
        texts_of(v@) == required_repo_paths(),
{
    let mut v: Vec<String> = Vec::new();
    v.push(owned("Cargo.toml"));
    v.push(owned("crates/osai-plan-dsl"));
    v.push(owned("crates/osai-receipt-logger"));
    v.push(owned("crates/osai-toolbroker"));
    v.push(owned("crates/osai-tool-executor"));
    v.push(owned("crates/osai-agent-cli"));
    v.push(owned("services/model-router"));
    v.push(owned("examples/plans"));
    v.push(owned("examples/policies"));
    assert(texts_of(v@) =~= required_repo_paths());
    v
}

/// Those of the first `n` of `names` that are not present, in order.
pub open spec fn missing_upto(names: Seq<Seq<char>>, present: Seq<bool>, n: int) -> Seq<Seq<char>>
    decreases n,
{
    if n <= 0 {
        Seq::empty()
    } else if present[n - 1] {
        missing_upto(names, present, n - 1)
    } else {
        missing_upto(names, present, n - 1).push(names[n - 1])
    }
}

/// The names of `v` that are not present, in order.
fn missing_names(v: &Vec<String>, present: &Vec<bool>) -> (r: Vec<String>)
    requires
        present@.len() == v@.len(),
    ensures
        texts_of(r@) == missing_upto(texts_of(v@), present@, v@.len() as int),
{
    let mut r: Vec<String> = Vec::new();
    let mut i: usize = 0;
    while i < v.len()
        invariant
            0 <= i <= v@.len(),
            present@.len() == v@.len(),
            texts_of(r@) == missing_upto(texts_of(v@), present@, i as int),
        decreases v@.len() - i,
    {
        if !present[i] {
            let ghost before = texts_of(r@);
            r.push(v[i].clone());
            assert(texts_of(r@) =~= before.push(v@[i as int]@));
        }
        i = i + 1;
    }
    r
}

/// Checks the layout of a checkout, given which of `repo_required_paths` exist:
/// `OK` when all do, else `FAIL` naming those missing.
pub fn check_repo_structure(present: &Vec<bool>) -> (r: (String, String))
    requires
        present@.len() == 9,
    ensures
        ({
            let missing = missing_upto(required_repo_paths(), present@, 9);
            &&& missing.len() == 0 ==> r.0@ == "OK"@ && r.1@ == "All required paths exist"@
            &&& missing.len() > 0 ==> r.0@ == "FAIL"@ && r.1@ == "Missing paths: "@ + join_spec(missing, ", "@)
        }),
{
    let paths = repo_required_paths();
    assert(texts_of(paths@).len() == paths@.len());
    let missing = missing_names(&paths, present);
    assert(texts_of(missing@).len() == missing@.len());
    if missing.len() == 0 {
        (owned("OK"), owned("All required paths exist"))
    } else {
        let j = join_strings(&missing, ", ");
        (owned("FAIL"), concat("Missing paths: ", j.as_str()))
    }
}

/// The example plans a checkout must carry, each with whether it is meant to fail
/// validation.
pub open spec fn example_plans() -> Seq<(Seq<char>, bool)> {
    seq![
        ("examples/plans/organize-downloads.yml"@, false),
        ("examples/plans/model-chat.yml"@, false),
        ("examples/plans/risky-shell.yml"@, true),
    ]
}

/// The example plans, in the order of `example_plans`.
pub fn example_plan_paths() -> (v: Vec<String>)
    ensures
        v@.len() == 3,
        forall|i: int| 0 <= i < 3 ==> #[trigger] v@[i]@ == example_plans()[i].0,
{
    let mut v: Vec<String> = Vec::new();
    v.push(owned("examples/plans/organize-downloads.yml"));
    v.push(owned("examples/plans/model-chat.yml"));
    v.push(owned("examples/plans/risky-shell.yml"));
    v
}

/// What reading an example plan gave.
#[derive(Debug)]
pub enum ExamplePlan {
    /// The file is not there.
    Missing,
    /// The file could not be read or parsed; the error's message.
    Unreadable(String),
    /// The file held a plan.
    Parsed(OsaiPlan),
}

/// Whether a validation failure is the shell or network safety failure expected.
pub open spec fn is_safety_failure(m: Seq<char>) -> bool {
    contains_spec(m, "sandbox"@) || contains_spec(m, "network"@) || contains_spec(m, "shell"@)
}

/// The line reporting an example plan, and whether it is as expected.
pub open spec fn example_report(path: Seq<char>, expect_failure: bool, e: ExamplePlan) -> (Seq<char>, bool) {
    match e {
        ExamplePlan::Missing => (path + ": missing"@, false),
        ExamplePlan::Unreadable(m) => (path + ": FAIL (parse error: "@ + m@ + ")"@, false),
        ExamplePlan::Parsed(p) => match plan_validation(p) {
            Ok(()) => if expect_failure {
                (path + ": OK (expected failure but passed)"@, true)
            } else {
                (path + ": OK"@, true)
            },
            Err(v) => {
                let m = validation_error_message(v);
                if expect_failure && is_safety_failure(m) {
                    (path + ": OK (expected shell/network safety failure)"@, true)
                } else if expect_failure {
                    (path + ": FAIL (unexpected validation error: "@ + m + ")"@, false)
                } else {
                    (path + ": FAIL ("@ + m + ")"@, false)
                }
            },
        },
    }
}

/// The report of one example plan.
fn example_line(path: &str, expect_failure: bool, e: &ExamplePlan) -> (r: (String, bool))
    ensures
        (r.0@, r.1) == example_report(path@, expect_failure, *e),
{
    match e {
        ExamplePlan::Missing => (concat(path, ": missing"), false),
        ExamplePlan::Unreadable(m) => {
            let a = concat(path, ": FAIL (parse error: ");
            let b = concat(a.as_str(), m.as_str());
            let c = concat(b.as_str(), ")");
            proof {
                assert(c@ =~= path@ + ": FAIL (parse error: "@ + m@ + ")"@);
            }
            (c, false)
        },
        ExamplePlan::Parsed(p) => match p.validate() {
            Ok(()) => if expect_failure {
                (concat(path, ": OK (expected failure but passed)"), true)
            } else {
                (concat(path, ": OK"), true)
            },
            Err(v) => {
                let m = v.message();
                let safety = contains_str(m.as_str(), "sandbox") || contains_str(m.as_str(), "network")
                    || contains_str(m.as_str(), "shell");
                if expect_failure && safety {
                    (concat(path, ": OK (expected shell/network safety failure)"), true)
                } else if expect_failure {
                    let a = concat(path, ": FAIL (unexpected validation error: ");
                    let b = concat(a.as_str(), m.as_str());
                    let c = concat(b.as_str(), ")");
                    proof {
                        assert(c@ =~= path@ + ": FAIL (unexpected validation error: "@ + m@ + ")"@);
                    }
                    (c, false)
                } else {
                    let a = concat(path, ": FAIL (");
                    let b = concat(a.as_str(), m.as_str());
                    let c = concat(b.as_str(), ")");
                    proof {
                        assert(c@ =~= path@ + ": FAIL ("@ + m@ + ")"@);
                    }
                    (c, false)
                }
            },
        },
    }
}

/// The reports of the first `n` example plans.
pub open spec fn example_lines(examples: Seq<ExamplePlan>, n: int) -> Seq<Seq<char>> {
    Seq::new(n as nat, |i: int| example_report(example_plans()[i].0, example_plans()[i].1, examples[i]).0)
}

/// Whether the first `n` example plans are as expected.
pub open spec fn examples_ok(examples: Seq<ExamplePlan>, n: int) -> bool {
    forall|i: int| 0 <= i < n ==> #[trigger] example_report(example_plans()[i].0, example_plans()[i].1, examples[i]).1
}

/// Checks the example plans, given what reading each of `example_plan_paths` gave:
/// `OK` when each is as expected (valid, or failing for shell or network safety when
/// meant to fail), else `FAIL`; the message joins the report of each with `; `.
pub fn check_examples_validate(examples: &Vec<ExamplePlan>) -> (r: (String, String))
    requires
        examples@.len() == 3,
    ensures
        r.0@ == (if examples_ok(examples@, 3) {
            "OK"@
        } else {
            "FAIL"@
        }),
        r.1@ == join_spec(example_lines(examples@, 3), "; "@),
{
    let paths = example_plan_paths();
    let mut messages: Vec<String> = Vec::new();
    let mut all_ok = true;
    let mut i: usize = 0;
    while i < 3
        invariant
            0 <= i <= 3,
            examples@.len() == 3,
            paths@.len() == 3,
            forall|k: int| 0 <= k < 3 ==> #[trigger] paths@[k]@ == example_plans()[k].0,
            texts_of(messages@) == example_lines(examples@, i as int),
            all_ok == examples_ok(examples@, i as int),
        decreases 3 - i,
    {
        let expect_failure = i == 2;
        proof {
            assert(example_plans()[i as int].1 == expect_failure);
        }
        let (line, ok) = example_line(paths[i].as_str(), expect_failure, &examples[i]);
        let ghost before = texts_of(messages@);
        let ghost rep = example_report(example_plans()[i as int].0, example_plans()[i as int].1, examples@[i as int]);
        assert(rep == (line@, ok));
        messages.push(line);
        proof {
            let t = texts_of(messages@);
            let e = example_lines(examples@, i + 1);
            assert(before.len() == example_lines(examples@, i as int).len());
            assert(example_lines(examples@, i as int).len() == i);
            assert(before.len() == i);
            assert(messages@.len() == i + 1);
            assert(e.len() == i + 1);
            assert(t.len() == e.len());
            assert forall|k: int| 0 <= k < t.len() implies t[k] == e[k] by {
                if k < i {
                    assert(t[k] == before[k]);
                    assert(before[k] == example_lines(examples@, i as int)[k]);
                } else {
                    assert(t[k] == line@);
                }
            }
            assert(t =~= e);
            if all_ok && ok {
                assert forall|k: int| 0 <= k < i + 1 implies #[trigger] example_report(
                    example_plans()[k].0,
                    example_plans()[k].1,
                    examples@[k],
                ).1 by {
                    if k < i {
                    }
                }
            }
            if !ok {
                assert(!example_report(example_plans()[i as int].0, example_plans()[i as int].1, examples@[i as int]).1);
                assert(!examples_ok(examples@, i + 1));
            }
        }
        all_ok = all_ok && ok;
        i = i + 1;
    }
    let joined = join_strings(&messages, "; ");
    if all_ok {
        (owned("OK"), joined)
    } else {
        (owned("FAIL"), joined)
    }
}

/// The models the model router must serve.
pub open spec fn required_models() -> Seq<Seq<char>> {
    seq!["osai-local"@, "osai-cloud"@, "osai-auto"@, "MiniMax-M2.7"@]
}

/// Checks the model router's model list: `OK` when its body names every required
/// model, else `FAIL` naming those missing.
pub fn check_models_body(body: &str) -> (r: (String, String))
    ensures
        ({
            let present = Seq::new(4, |i: int| contains_spec(body@, required_models()[i]));
            let missing = missing_upto(required_models(), present, 4);
            &&& missing.len() == 0 ==> r.0@ == "OK"@ && r.1@ == "All required models present"@
            &&& missing.len() > 0 ==> r.0@ == "FAIL"@ && r.1@ == "Missing models: "@ + join_spec(missing, ", "@)
        }),
{
    let mut models: Vec<String> = Vec::new();
    models.push(owned("osai-local"));
    models.push(owned("osai-cloud"));
    models.push(owned("osai-auto"));
    models.push(owned("MiniMax-M2.7"));
    assert(texts_of(models@) =~= required_models());
    let mut present: Vec<bool> = Vec::new();
    let mut i: usize = 0;
    while i < 4
        invariant
            0 <= i <= 4,
            models@.len() == 4,
            texts_of(models@) == required_models(),
            present@.len() == i,
            forall|k: int| 0 <= k < i ==> present@[k] == contains_spec(body@, required_models()[k]),
        decreases 4 - i,
    {
        proof {
            assert(texts_of(models@)[i as int] == models@[i as int]@);
        }
        present.push(contains_str(body, models[i].as_str()));
        i = i + 1;
    }
    assert(present@ =~= Seq::new(4, |i: int| contains_spec(body@, required_models()[i])));
    assert(texts_of(models@).len() == models@.len());
    let missing = missing_names(&models, &present);
    assert(texts_of(missing@).len() == missing@.len());
    if missing.len() == 0 {
        (owned("OK"), owned("All required models present"))
    } else {
        let j = join_strings(&missing, ", ");
        (owned("FAIL"), concat("Missing models: ", j.as_str()))
    }
}

} // verus!
