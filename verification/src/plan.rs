//! The OSAI Plan DSL: typed plans of steps, and the rules a plan must satisfy.

use vstd::prelude::*;
use crate::ids::{is_v4, new_uuid_v4};
use crate::json::{JsonMap, JsonValue, lookup};
use crate::text::{concat, debug_string, debug_text, owned};
use crate::broker::{action_name_of, action_name_spec, risk_name, risk_name_spec};

verus! {

/// Risk level classification for plan execution.
#[derive(Debug, Clone, Copy, PartialEq, Eq, Structural)]
pub enum RiskLevel {
    Low,
    Medium,
    High,
    Critical,
}

/// Approval mode for plan execution.
#[derive(Debug, Clone, Copy, PartialEq, Eq, Structural)]
pub enum ApprovalMode {
    Auto,
    Ask,
    AlwaysDeny,
}

/// Action kinds that can be executed through the tool broker.
#[derive(Debug, Clone, PartialEq, Eq)]
pub enum ActionKind {
    FilesList,
    FilesRead,
    FilesWrite,
    FilesMove,
    FilesDelete,
    BrowserOpenUrl,
    DesktopNotify,
    ShellRunSandboxed,
    ModelChat,
    MemoryRead,
    MemoryWrite,
    ReceiptCreate,
    Custom(String),
}

/// A single step in a plan.
#[derive(Debug)]
pub struct PlanStep {
    /// Unique identifier for this step.
    pub id: String,
    /// The action to be performed.
    pub action: ActionKind,
    /// Human-readable description of this step.
    pub description: String,
    /// Whether this step requires explicit approval before execution.
    pub requires_approval: bool,
    /// Input parameters for this step.
    pub inputs: JsonMap,
}

/// Rollback plan for reverting a failed plan execution.
#[derive(Debug)]
pub struct RollbackPlan {
    /// Whether rollback is available.
    pub available: bool,
    /// Steps to execute for rollback.
    pub steps: Vec<PlanStep>,
}

/// A plan: metadata and the steps to execute in order.
#[derive(Debug)]
pub struct OsaiPlan {
    /// Plan DSL version.
    pub version: String,
    /// Unique identifier for this plan (the 128 bits of its UUID).
    pub id: u128,
    /// Human-readable title for this plan.
    pub title: String,
    /// Optional detailed description.
    pub description: Option<String>,
    /// The actor (agent or user) this plan is for.
    pub actor: String,
    /// Risk level of executing this plan.
    pub risk: RiskLevel,
    /// Approval mode required for execution.
    pub approval: ApprovalMode,
    /// Steps to execute in order.
    pub steps: Vec<PlanStep>,
    /// Optional rollback plan.
    pub rollback: Option<RollbackPlan>,
    /// Additional metadata.
    pub metadata: JsonMap,
}

/// Why a plan fails validation.
#[derive(Debug, Clone)]
pub enum PlanValidationError {
    EmptyVersion,
    EmptyTitle,
    EmptyActor,
    EmptySteps,
    EmptyStepId(String),
    DuplicateStepId(String),
    CriticalRiskRequiresApproval(RiskLevel),
    ActionRequiresApproval(ActionKind),
    ShellSandboxNetworkConflict,
}

/// Why text could not be read as a plan.
#[derive(Debug, Clone)]
pub enum PlanParseError {
    YamlError(String),
    JsonError(String),
}

/// Why a plan could not be written as text.
#[derive(Debug, Clone)]
pub enum PlanSerializeError {
    YamlError(String),
    JsonError(String),
}

/// The `Debug` name of an action.
pub open spec fn action_debug_spec(a: ActionKind) -> Seq<char> {
    match a {
        ActionKind::Custom(name) => "Custom("@ + debug_text(name@) + ")"@,
        _ => action_name_spec(a),
    }
}

/// The `Debug` name of an action.
pub fn action_debug(a: &ActionKind) -> (s: String)
    ensures
        s@ == action_debug_spec(*a),
{
    match a {
        ActionKind::Custom(name) => {
            let d = debug_string(name.as_str());
            let x = concat("Custom(", d.as_str());
            concat(x.as_str(), ")")
        },
        _ => action_name_of(a),
    }
}

/// The message of a validation error.
pub open spec fn validation_error_message(e: PlanValidationError) -> Seq<char> {
    match e {
        PlanValidationError::EmptyVersion => "version must not be empty"@,
        PlanValidationError::EmptyTitle => "title must not be empty"@,
        PlanValidationError::EmptyActor => "actor must not be empty"@,
        PlanValidationError::EmptySteps => "steps must not be empty"@,
        PlanValidationError::EmptyStepId(id) => "step id '"@ + id@ + "' must not be empty"@,
        PlanValidationError::DuplicateStepId(id) => "step id '"@ + id@ + "' is duplicated"@,
        PlanValidationError::CriticalRiskRequiresApproval(r) =>
            "critical risk requires ApprovalMode::Ask or ApprovalMode::AlwaysDeny, got "@ + risk_name_spec(r),
        PlanValidationError::ActionRequiresApproval(a) => "action "@ + action_debug_spec(a) + " must require approval"@,
        PlanValidationError::ShellSandboxNetworkConflict => "ShellRunSandboxed with network=true requires sandbox=true"@,
    }
}

impl PlanValidationError {
    /// The message describing this error.
    pub fn message(&self) -> (m: String)
        ensures
            m@ == validation_error_message(*self),
    {
        match self {
            PlanValidationError::EmptyVersion => owned("version must not be empty"),
            PlanValidationError::EmptyTitle => owned("title must not be empty"),
            PlanValidationError::EmptyActor => owned("actor must not be empty"),
            PlanValidationError::EmptySteps => owned("steps must not be empty"),
            PlanValidationError::EmptyStepId(id) => {
                let a = concat("step id '", id.as_str());
                concat(a.as_str(), "' must not be empty")
            },
            PlanValidationError::DuplicateStepId(id) => {
                let a = concat("step id '", id.as_str());
                concat(a.as_str(), "' is duplicated")
            },
            PlanValidationError::CriticalRiskRequiresApproval(r) => {
                let n = risk_name(*r);
                concat("critical risk requires ApprovalMode::Ask or ApprovalMode::AlwaysDeny, got ", n.as_str())
            },
            PlanValidationError::ActionRequiresApproval(a) => {
                let d = action_debug(a);
                let x = concat("action ", d.as_str());
                concat(x.as_str(), " must require approval")
            },
            PlanValidationError::ShellSandboxNetworkConflict => owned(
                "ShellRunSandboxed with network=true requires sandbox=true",
            ),
        }
    }
}

impl ActionKind {
    /// Destructive or high-impact actions.
    pub open spec fn is_destructive_spec(self) -> bool {
        self is FilesDelete || self is FilesWrite || self is FilesMove
    }

    /// Actions that must always carry an approval requirement.
    pub open spec fn requires_approval_spec(self) -> bool {
        self is FilesDelete || self is FilesWrite || self is FilesMove || self is ShellRunSandboxed
            || self is Custom
    }

    /// Returns true if this action is a destructive or high-impact action.
    pub fn is_destructive(&self) -> (b: bool)
        ensures
            b == self.is_destructive_spec(),
    {
        match self {
            ActionKind::FilesDelete | ActionKind::FilesWrite | ActionKind::FilesMove => true,
            _ => false,
        }
    }

    /// Returns true if this action requires approval.
    pub fn requires_approval(&self) -> (b: bool)
        ensures
            b == self.requires_approval_spec(),
    {
        match self {
            ActionKind::FilesDelete
            | ActionKind::FilesWrite
            | ActionKind::FilesMove
            | ActionKind::ShellRunSandboxed
            | ActionKind::Custom(_) => true,
            _ => false,
        }
    }

    /// A copy of this action.
    pub fn copy_kind(&self) -> (r: ActionKind)
        ensures
            r == *self,
    {
        match self {
            ActionKind::FilesList => ActionKind::FilesList,
            ActionKind::FilesRead => ActionKind::FilesRead,
            ActionKind::FilesWrite => ActionKind::FilesWrite,
            ActionKind::FilesMove => ActionKind::FilesMove,
            ActionKind::FilesDelete => ActionKind::FilesDelete,
            ActionKind::BrowserOpenUrl => ActionKind::BrowserOpenUrl,
            ActionKind::DesktopNotify => ActionKind::DesktopNotify,
            ActionKind::ShellRunSandboxed => ActionKind::ShellRunSandboxed,
            ActionKind::ModelChat => ActionKind::ModelChat,
            ActionKind::MemoryRead => ActionKind::MemoryRead,
            ActionKind::MemoryWrite => ActionKind::MemoryWrite,
            ActionKind::ReceiptCreate => ActionKind::ReceiptCreate,
            ActionKind::Custom(name) => ActionKind::Custom(name.clone()),
        }
    }
}

/// The boolean input `key` of a step: true only when the input is present and is `true`.
pub open spec fn input_flag(inputs: JsonMap, key: Seq<char>) -> bool {
    match lookup(inputs.entries@, key) {
        Some(JsonValue::Bool(b)) => b,
        _ => false,
    }
}

/// Reads the boolean input `key`, treating a missing or non-boolean input as false.
pub fn input_flag_exec(inputs: &JsonMap, key: &str) -> (b: bool)
    ensures
        b == input_flag(*inputs, key@),
{
    match inputs.get(key) {
        Some(v) => match v.as_bool() {
            Some(b) => b,
            None => false,
        },
        None => false,
    }
}

/// The rule that step `i` of `p` breaks first, if any.
pub open spec fn step_error(p: OsaiPlan, i: int) -> Option<PlanValidationError> {
    let step = p.steps@[i];
    if step.id@.len() == 0 {
        Some(PlanValidationError::EmptyStepId(step.id))
    } else if exists|j: int| 0 <= j < i && (#[trigger] p.steps@[j]).id@ == step.id@ {
        Some(PlanValidationError::DuplicateStepId(step.id))
    } else if p.risk == RiskLevel::Critical && p.approval != ApprovalMode::Ask && p.approval
        != ApprovalMode::AlwaysDeny {
        Some(PlanValidationError::CriticalRiskRequiresApproval(p.risk))
    } else if step.action.requires_approval_spec() && !step.requires_approval {
        Some(PlanValidationError::ActionRequiresApproval(step.action))
    } else if step.action is ShellRunSandboxed && input_flag(step.inputs, "network"@)
        && !input_flag(step.inputs, "sandbox"@) {
        Some(PlanValidationError::ShellSandboxNetworkConflict)
    } else if step.action is Custom && !step.requires_approval {
        Some(PlanValidationError::ActionRequiresApproval(step.action))
    } else {
        None
    }
}

/// The outcome of checking steps `i..` of `p` in order.
pub open spec fn steps_validation(p: OsaiPlan, i: int) -> Result<(), PlanValidationError>
    decreases p.steps@.len() - i,
{
    if i >= p.steps@.len() || i < 0 {
        Ok(())
    } else {
        match step_error(p, i) {
            Some(e) => Err(e),
            None => steps_validation(p, i + 1),
        }
    }
}

/// The outcome of validating `p`: the first rule broken, in the order the rules are listed.
pub open spec fn plan_validation(p: OsaiPlan) -> Result<(), PlanValidationError> {
    if p.version@.len() == 0 {
        Err(PlanValidationError::EmptyVersion)
    } else if p.title@.len() == 0 {
        Err(PlanValidationError::EmptyTitle)
    } else if p.actor@.len() == 0 {
        Err(PlanValidationError::EmptyActor)
    } else if p.steps@.len() == 0 {
        Err(PlanValidationError::EmptySteps)
    } else {
        steps_validation(p, 0)
    }
}

/// Every rule of the DSL holds of `p`.
pub open spec fn plan_rules_hold(p: OsaiPlan) -> bool {
    &&& p.version@.len() > 0
    &&& p.title@.len() > 0
    &&& p.actor@.len() > 0
    &&& p.steps@.len() > 0
    &&& forall|i: int| 0 <= i < p.steps@.len() ==> (#[trigger] p.steps@[i]).id@.len() > 0
    &&& forall|i: int, j: int|
        0 <= i < j < p.steps@.len() ==> (#[trigger] p.steps@[i]).id@ != (#[trigger] p.steps@[j]).id@
    &&& p.risk == RiskLevel::Critical ==> p.approval != ApprovalMode::Auto
    &&& forall|i: int|
        0 <= i < p.steps@.len() && (#[trigger] p.steps@[i]).action.requires_approval_spec()
            ==> p.steps@[i].requires_approval
    &&& forall|i: int|
        0 <= i < p.steps@.len() && (#[trigger] p.steps@[i]).action is ShellRunSandboxed
            && input_flag(p.steps@[i].inputs, "network"@) ==> input_flag(
            p.steps@[i].inputs,
            "sandbox"@,
        )
}

proof fn lemma_steps_validation_ok(p: OsaiPlan, i: int)
    requires
        0 <= i <= p.steps@.len(),
    ensures
        steps_validation(p, i) is Ok <==> forall|j: int|
            i <= j < p.steps@.len() ==> #[trigger] step_error(p, j) is None,
    decreases p.steps@.len() - i,
{
    if i < p.steps@.len() {
        lemma_steps_validation_ok(p, i + 1);
    }
}

/// Validation passes exactly when every rule of the DSL holds: non-empty version,
/// title, actor and step list; every step id non-empty and distinct; critical risk
/// never auto-approved; every destructive, shell or custom action marked as requiring
/// approval; and no shell step asking for network without a sandbox.
pub proof fn lemma_validation_iff_rules(p: OsaiPlan)
    ensures
        plan_validation(p) is Ok <==> plan_rules_hold(p),
{
    lemma_steps_validation_ok(p, 0);
    if plan_validation(p) is Ok {
        assert forall|i: int, j: int|
            0 <= i < j < p.steps@.len() implies (#[trigger] p.steps@[i]).id@ != (
            #[trigger] p.steps@[j]).id@ by {
            assert(step_error(p, j) is None);
        }
        assert forall|i: int| 0 <= i < p.steps@.len() implies (#[trigger] p.steps@[i]).id@.len() > 0 by {
            assert(step_error(p, i) is None);
        }
        assert forall|i: int|
            0 <= i < p.steps@.len() && (#[trigger] p.steps@[i]).action.requires_approval_spec()
                implies p.steps@[i].requires_approval by {
            assert(step_error(p, i) is None);
        }
        assert forall|i: int|
            0 <= i < p.steps@.len() && (#[trigger] p.steps@[i]).action is ShellRunSandboxed
                && input_flag(p.steps@[i].inputs, "network"@) implies input_flag(
            p.steps@[i].inputs,
            "sandbox"@,
        ) by {
            assert(step_error(p, i) is None);
        }
        if p.risk == RiskLevel::Critical {
            assert(step_error(p, 0) is None);
        }
    }
    if plan_rules_hold(p) {
        assert forall|j: int| 0 <= j < p.steps@.len() implies #[trigger] step_error(p, j) is None by {
            assert(p.steps@[j].id@.len() > 0);
            if exists|k: int| 0 <= k < j && (#[trigger] p.steps@[k]).id@ == p.steps@[j].id@ {
                let k = choose|k: int| 0 <= k < j && (#[trigger] p.steps@[k]).id@ == p.steps@[j].id@;
                assert(p.steps@[k].id@ != p.steps@[j].id@);
            }
        }
    }
}

/// Every destructive action is one that requires approval.
pub proof fn lemma_destructive_requires_approval(a: ActionKind)
    ensures
        a.is_destructive_spec() ==> a.requires_approval_spec(),
{
}

impl OsaiPlan {
    /// Creates a plan with version "0.1", a fresh random id, no steps and no metadata.
    pub fn new(title: String, actor: String, risk: RiskLevel, approval: ApprovalMode) -> (p: OsaiPlan)
        ensures
            p.version@ == "0.1"@,
            is_v4(p.id),
            p.title == title,
            p.description is None,
            p.actor == actor,
            p.risk == risk,
            p.approval == approval,
            p.steps@.len() == 0,
            p.rollback is None,
            p.metadata.entries@.len() == 0,
    {
        OsaiPlan {
            version: owned("0.1"),
            id: new_uuid_v4(),
            title,
            description: None,
            actor,
            risk,
            approval,
            steps: Vec::new(),
            rollback: None,
            metadata: JsonMap::new(),
        }
    }

    /// Validates this plan according to the DSL rules, reporting the first rule broken.
    pub fn validate(&self) -> (r: Result<(), PlanValidationError>)
        ensures
            r == plan_validation(*self),
    {
        if self.version.as_str().is_empty() {
            return Err(PlanValidationError::EmptyVersion);
        }
        if self.title.as_str().is_empty() {
            return Err(PlanValidationError::EmptyTitle);
        }
        if self.actor.as_str().is_empty() {
            return Err(PlanValidationError::EmptyActor);
        }
        if self.steps.len() == 0 {
            return Err(PlanValidationError::EmptySteps);
        }
        let n = self.steps.len();
        let mut i: usize = 0;
        assert(plan_validation(*self) == steps_validation(*self, 0));
        while i < n
            invariant
                0 <= i <= n,
                n == self.steps@.len(),
                plan_validation(*self) == steps_validation(*self, i as int),
            decreases n - i,
        {
            let step = &self.steps[i];
            assert(steps_validation(*self, i as int) == match step_error(*self, i as int) {
                Some(e) => Err(e),
                None => steps_validation(*self, i + 1),
            });
            if step.id.as_str().is_empty() {
                assert(step_error(*self, i as int) == Some(PlanValidationError::EmptyStepId(step.id)));
                return Err(PlanValidationError::EmptyStepId(step.id.clone()));
            }
            let mut j: usize = 0;
            let mut dup = false;
            while j < i
                invariant
                    0 <= j <= i < n,
                    n == self.steps@.len(),
                    *step == self.steps@[i as int],
                    dup == exists|k: int| 0 <= k < j && (#[trigger] self.steps@[k]).id@ == step.id@,
                decreases i - j,
            {
                if self.steps[j].id == step.id {
                    dup = true;
                }
                j = j + 1;
            }
            if dup {
                return Err(PlanValidationError::DuplicateStepId(step.id.clone()));
            }
            if self.risk == RiskLevel::Critical {
                if self.approval != ApprovalMode::Ask && self.approval != ApprovalMode::AlwaysDeny {
                    return Err(PlanValidationError::CriticalRiskRequiresApproval(self.risk));
                }
            }
            if step.action.requires_approval() && !step.requires_approval {
                return Err(PlanValidationError::ActionRequiresApproval(step.action.copy_kind()));
            }
            if let ActionKind::ShellRunSandboxed = &step.action {
                let network = input_flag_exec(&step.inputs, "network");
                let sandbox = input_flag_exec(&step.inputs, "sandbox");
                if network && !sandbox {
                    return Err(PlanValidationError::ShellSandboxNetworkConflict);
                }
            }
            if let ActionKind::Custom(_) = &step.action {
                if !step.requires_approval {
                    return Err(PlanValidationError::ActionRequiresApproval(step.action.copy_kind()));
                }
            }
            i = i + 1;
        }
        Ok(())
    }
}

} // verus!
