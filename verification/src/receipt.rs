//! Receipts: the audit record of every AI-mediated action, and where a store keeps them.

use vstd::prelude::*;
use crate::ids::{compact_timestamp, compact_timestamp_text, is_v4, new_uuid_v4, utc_now, uuid_hyphenated, uuid_to_string};
use crate::json::{JsonMap, JsonValue};
use crate::text::{concat, owned, path_join, path_join_spec};

verus! {

/// Status of a receipt/execution.
#[derive(Debug, Clone, Copy, PartialEq, Eq, Structural)]
pub enum ReceiptStatus {
    Planned,
    Approved,
    Denied,
    Executed,
    Failed,
    RolledBack,
}

/// A UTC instant: whole seconds since the Unix epoch and nanoseconds past that second.
#[derive(Debug, Clone, Copy, PartialEq, Eq, Structural)]
pub struct UtcTime {
    pub secs: i64,
    pub nanos: u32,
}

impl UtcTime {
    /// The current time.
    pub fn now() -> (t: UtcTime)
        ensures
            t.nanos < 2_000_000_000u32,
    {
        let (secs, nanos) = utc_now();
        UtcTime { secs, nanos }
    }
}

/// A receipt recording an AI-mediated action.
#[derive(Debug)]
pub struct Receipt {
    /// Unique identifier for this receipt (the 128 bits of its UUID).
    pub id: u128,
    /// When the receipt was created.
    pub timestamp: UtcTime,
    /// The actor (agent or user) who initiated the action.
    pub actor: String,
    /// The action that was performed.
    pub action: String,
    /// The tool that executed the action, if applicable.
    pub tool: Option<String>,
    /// The plan this receipt belongs to, if applicable.
    pub plan_id: Option<u128>,
    /// Risk level of the action.
    pub risk: String,
    /// Approval mode used.
    pub approval: String,
    /// Current status of the action.
    pub status: ReceiptStatus,
    /// Redacted inputs for the action.
    pub inputs_redacted: JsonValue,
    /// Redacted outputs from the action, if available.
    pub outputs_redacted: Option<JsonValue>,
    /// Error message if the action failed.
    pub error: Option<String>,
    /// Additional metadata.
    pub metadata: JsonMap,
}

/// Why a receipt fails validation.
#[derive(Debug, Clone, Copy, PartialEq, Eq, Structural)]
pub enum ReceiptValidationError {
    EmptyActor,
    EmptyAction,
    EmptyRisk,
    EmptyApproval,
    MissingErrorOnFailed,
    MissingOutputsOnSuccess,
}

/// Why text could not be read as a receipt.
#[derive(Debug, Clone)]
pub enum ReceiptParseError {
    JsonError(String),
}

/// Why a receipt could not be written as text.
#[derive(Debug, Clone)]
pub enum ReceiptSerializeError {
    JsonError(String),
}

/// Errors of receipt store operations.
#[derive(Debug, Clone)]
pub enum ReceiptStoreError {
    CreateDir(String),
    ReadDir(String),
    ReadFile(String),
    WriteFile(String),
    ParseReceipt(String),
    Validation(String),
    FileExists(String),
    NotFound(u128),
}

/// The outcome of validating `r`: the first rule broken, in the order listed.
pub open spec fn receipt_validation(r: Receipt) -> Result<(), ReceiptValidationError> {
    if r.actor@.len() == 0 {
        Err(ReceiptValidationError::EmptyActor)
    } else if r.action@.len() == 0 {
        Err(ReceiptValidationError::EmptyAction)
    } else if r.risk@.len() == 0 {
        Err(ReceiptValidationError::EmptyRisk)
    } else if r.approval@.len() == 0 {
        Err(ReceiptValidationError::EmptyApproval)
    } else if r.status == ReceiptStatus::Failed && r.error is None {
        Err(ReceiptValidationError::MissingErrorOnFailed)
    } else if (r.status == ReceiptStatus::Executed || r.status == ReceiptStatus::RolledBack)
        && r.outputs_redacted is None {
        Err(ReceiptValidationError::MissingOutputsOnSuccess)
    } else {
        Ok(())
    }
}

/// The message each validation error carries.
pub open spec fn validation_message(e: ReceiptValidationError) -> Seq<char> {
    match e {
        ReceiptValidationError::EmptyActor => "actor must not be empty"@,
        ReceiptValidationError::EmptyAction => "action must not be empty"@,
        ReceiptValidationError::EmptyRisk => "risk must not be empty"@,
        ReceiptValidationError::EmptyApproval => "approval must not be empty"@,
        ReceiptValidationError::MissingErrorOnFailed => "error must be present if status is Failed"@,
        ReceiptValidationError::MissingOutputsOnSuccess =>
            "outputs_redacted should be present if status is Executed or RolledBack"@,
    }
}

impl ReceiptValidationError {
    /// The human-readable message for this error.
    pub fn message(&self) -> (m: String)
        ensures
            m@ == validation_message(*self),
    {
        match self {
            ReceiptValidationError::EmptyActor => owned("actor must not be empty"),
            ReceiptValidationError::EmptyAction => owned("action must not be empty"),
            ReceiptValidationError::EmptyRisk => owned("risk must not be empty"),
            ReceiptValidationError::EmptyApproval => owned("approval must not be empty"),
            ReceiptValidationError::MissingErrorOnFailed => owned(
                "error must be present if status is Failed",
            ),
            ReceiptValidationError::MissingOutputsOnSuccess => owned(
                "outputs_redacted should be present if status is Executed or RolledBack",
            ),
        }
    }
}

impl Receipt {
    /// Creates a receipt for `actor` and `action` with a fresh random id, the current
    /// time, status Planned, null inputs and every other field empty.
    pub fn new(actor: &str, action: &str) -> (r: Receipt)
        ensures
            is_v4(r.id),
            r.timestamp.nanos < 2_000_000_000u32,
            r.actor@ == actor@,
            r.action@ == action@,
            r.tool is None,
            r.plan_id is None,
            r.risk@.len() == 0,
            r.approval@.len() == 0,
            r.status == ReceiptStatus::Planned,
            r.inputs_redacted == JsonValue::Null,
            r.outputs_redacted is None,
            r.error is None,
            r.metadata.entries@.len() == 0,
    {
        Receipt {
            id: new_uuid_v4(),
            timestamp: UtcTime::now(),
            actor: owned(actor),
            action: owned(action),
            tool: None,
            plan_id: None,
            risk: String::new(),
            approval: String::new(),
            status: ReceiptStatus::Planned,
            inputs_redacted: JsonValue::Null,
            outputs_redacted: None,
            error: None,
            metadata: JsonMap::new(),
        }
    }

    /// Sets the tool.
    pub fn with_tool(self, tool: &str) -> (r: Receipt)
        ensures
            r.tool matches Some(t) && t@ == tool@,
            r == (Receipt { tool: r.tool, ..self }),
    {
        Receipt { tool: Some(owned(tool)), ..self }
    }

    /// Sets the plan id.
    pub fn with_plan_id(self, plan_id: u128) -> (r: Receipt)
        ensures
            r == (Receipt { plan_id: Some(plan_id), ..self }),
    {
        Receipt { plan_id: Some(plan_id), ..self }
    }

    /// Sets the risk level.
    pub fn with_risk(self, risk: &str) -> (r: Receipt)
        ensures
            r.risk@ == risk@,
            r == (Receipt { risk: r.risk, ..self }),
    {
        Receipt { risk: owned(risk), ..self }
    }

    /// Sets the approval mode.
    pub fn with_approval(self, approval: &str) -> (r: Receipt)
        ensures
            r.approval@ == approval@,
            r == (Receipt { approval: r.approval, ..self }),
    {
        Receipt { approval: owned(approval), ..self }
    }

    /// Sets the status.
    pub fn with_status(self, status: ReceiptStatus) -> (r: Receipt)
        ensures
            r == (Receipt { status, ..self }),
    {
        Receipt { status, ..self }
    }

    /// Sets the redacted inputs.
    pub fn with_inputs(self, inputs: JsonValue) -> (r: Receipt)
        ensures
            r == (Receipt { inputs_redacted: inputs, ..self }),
    {
        Receipt { inputs_redacted: inputs, ..self }
    }

    /// Sets the redacted outputs.
    pub fn with_outputs(self, outputs: JsonValue) -> (r: Receipt)
        ensures
            r == (Receipt { outputs_redacted: Some(outputs), ..self }),
    {
        Receipt { outputs_redacted: Some(outputs), ..self }
    }

    /// Sets the error.
    pub fn with_error(self, error: &str) -> (r: Receipt)
        ensures
            r.error matches Some(e) && e@ == error@,
            r == (Receipt { error: r.error, ..self }),
    {
        Receipt { error: Some(owned(error)), ..self }
    }

    /// Validates this receipt, reporting the first rule broken.
    pub fn validate(&self) -> (r: Result<(), ReceiptValidationError>)
        ensures
            r == receipt_validation(*self),
    {
        if self.actor.as_str().is_empty() {
            return Err(ReceiptValidationError::EmptyActor);
        }
        if self.action.as_str().is_empty() {
            return Err(ReceiptValidationError::EmptyAction);
        }
        if self.risk.as_str().is_empty() {
            return Err(ReceiptValidationError::EmptyRisk);
        }
        if self.approval.as_str().is_empty() {
            return Err(ReceiptValidationError::EmptyApproval);
        }
        if self.status == ReceiptStatus::Failed && self.error.is_none() {
            return Err(ReceiptValidationError::MissingErrorOnFailed);
        }
        if (self.status == ReceiptStatus::Executed || self.status == ReceiptStatus::RolledBack)
            && self.outputs_redacted.is_none() {
            return Err(ReceiptValidationError::MissingOutputsOnSuccess);
        }
        Ok(())
    }
}

/// The file name a receipt is stored under: `<compact timestamp>-<uuid>.json`.
pub open spec fn receipt_file_name_spec(r: Receipt) -> Option<Seq<char>> {
    match compact_timestamp_text(r.timestamp.secs, r.timestamp.nanos) {
        Some(ts) => Some(ts + "-"@ + uuid_hyphenated(r.id) + ".json"@),
        None => None,
    }
}

/// A store that keeps receipts as files under a root directory.
#[derive(Debug, Clone)]
pub struct ReceiptStore {
    root_dir: String,
}

impl ReceiptStore {
    /// The root directory of this store.
    pub closed spec fn root(&self) -> Seq<char> {
        self.root_dir@
    }

    /// Creates a store rooted at `root_dir`.
    pub fn new(root_dir: &str) -> (s: ReceiptStore)
        ensures
            s.root() == root_dir@,
    {
        ReceiptStore { root_dir: owned(root_dir) }
    }

    /// Returns the root directory path.
    pub fn root_dir(&self) -> (p: &str)
        ensures
            p@ == self.root(),
    {
        self.root_dir.as_str()
    }

    /// The path a receipt is stored at, `None` when its timestamp cannot be formatted.
    pub fn receipt_path(&self, receipt: &Receipt) -> (p: Option<String>)
        ensures
            match receipt_file_name_spec(*receipt) {
                Some(name) => p matches Some(path) && path@ == path_join_spec(self.root(), name),
                None => p is None,
            },
    {
        match compact_timestamp(receipt.timestamp.secs, receipt.timestamp.nanos) {
            Some(ts) => {
                let id = uuid_to_string(receipt.id);
                let a = concat(ts.as_str(), "-");
                let b = concat(a.as_str(), id.as_str());
                let name = concat(b.as_str(), ".json");
                Some(path_join(self.root_dir.as_str(), name.as_str()))
            },
            None => None,
        }
    }

    /// Checks a receipt before it is written and gives the path to write it to:
    /// an invalid receipt is refused with its validation message, and a receipt
    /// whose timestamp cannot be formatted is refused as unwritable.
    pub fn prepare_write(&self, receipt: &Receipt) -> (r: Result<String, ReceiptStoreError>)
        ensures
            match receipt_validation(*receipt) {
                Err(e) => r matches Err(ReceiptStoreError::Validation(m)) && m@ == validation_message(e),
                Ok(()) => match receipt_file_name_spec(*receipt) {
                    Some(name) => r matches Ok(path) && path@ == path_join_spec(self.root(), name),
                    None => r matches Err(ReceiptStoreError::WriteFile(_)),
                },
            },
    {
        match receipt.validate() {
            Err(e) => Err(ReceiptStoreError::Validation(e.message())),
            Ok(()) => match self.receipt_path(receipt) {
                Some(p) => Ok(p),
                None => Err(ReceiptStoreError::WriteFile(owned("receipt timestamp is out of range"))),
            },
        }
    }
}

} // verus!
