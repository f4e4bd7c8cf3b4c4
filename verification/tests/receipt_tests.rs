use osai::json::{JsonMap, JsonValue};
use osai::receipt::{Receipt, ReceiptStatus, ReceiptStore, ReceiptStoreError, ReceiptValidationError};

fn uuid_to_string(id: u128) -> String {
    uuid::Uuid::from_u128(id).to_string()
}

fn object(pairs: Vec<(&str, JsonValue)>) -> JsonValue {
    JsonValue::Object(JsonMap { entries: pairs.into_iter().map(|(k, v)| (k.to_string(), v)).collect() })
}

fn create_valid_receipt() -> Receipt {
    Receipt::new("osai-agent", "FilesWrite")
        .with_risk("Medium")
        .with_approval("Ask")
        .with_status(ReceiptStatus::Executed)
        .with_inputs(object(vec![("path", JsonValue::Str("/tmp/test.txt".to_string()))]))
        .with_outputs(object(vec![("success", JsonValue::Bool(true))]))
}

#[test]
fn test_receipt_new_generates_uuid() {
    let receipt = Receipt::new("agent", "action");
    assert_ne!(receipt.id, 0);
}

#[test]
fn test_receipt_new_has_timestamp() {
    let before = chrono::Utc::now();
    let receipt = Receipt::new("agent", "action");
    let after = chrono::Utc::now();
    let at = (receipt.timestamp.secs, receipt.timestamp.nanos);
    assert!(at >= (before.timestamp(), before.timestamp_subsec_nanos()));
    assert!(at <= (after.timestamp(), after.timestamp_subsec_nanos()));
}

#[test]
fn test_receipt_builder_chain() {
    let receipt = create_valid_receipt();
    assert_eq!(receipt.actor, "osai-agent");
    assert_eq!(receipt.action, "FilesWrite");
    assert_eq!(receipt.risk, "Medium");
    assert_eq!(receipt.approval, "Ask");
    assert_eq!(receipt.status, ReceiptStatus::Executed);
}

#[test]
fn test_receipt_with_tool() {
    let receipt = Receipt::new("agent", "action").with_tool("ToolBroker");
    assert_eq!(receipt.tool, Some("ToolBroker".to_string()));
}

#[test]
fn test_receipt_with_plan_id() {
    let plan_id = uuid::Uuid::new_v4().as_u128();
    let receipt = Receipt::new("agent", "action").with_plan_id(plan_id);
    assert_eq!(receipt.plan_id, Some(plan_id));
}

#[test]
fn test_receipt_with_error() {
    let receipt = Receipt::new("agent", "action").with_error("Something went wrong");
    assert_eq!(receipt.error, Some("Something went wrong".to_string()));
}

#[test]
fn test_validate_valid_receipt() {
    let receipt = create_valid_receipt();
    assert!(receipt.validate().is_ok());
}

#[test]
fn test_validate_empty_actor() {
    let receipt = Receipt::new("", "action").with_risk("Low").with_approval("Auto");
    let err = receipt.validate().unwrap_err();
    assert!(matches!(err, ReceiptValidationError::EmptyActor));
}

#[test]
fn test_validate_empty_action() {
    let receipt = Receipt::new("agent", "").with_risk("Low").with_approval("Auto");
    let err = receipt.validate().unwrap_err();
    assert!(matches!(err, ReceiptValidationError::EmptyAction));
}

#[test]
fn test_validate_empty_risk() {
    let receipt = Receipt::new("agent", "action").with_risk("").with_approval("Auto");
    let err = receipt.validate().unwrap_err();
    assert!(matches!(err, ReceiptValidationError::EmptyRisk));
}

#[test]
fn test_validate_empty_approval() {
    let receipt = Receipt::new("agent", "action").with_risk("Low").with_approval("");
    let err = receipt.validate().unwrap_err();
    assert!(matches!(err, ReceiptValidationError::EmptyApproval));
}

#[test]
fn test_validate_failed_without_error() {
    let receipt = Receipt::new("agent", "action")
        .with_risk("High")
        .with_approval("Ask")
        .with_status(ReceiptStatus::Failed);
    let err = receipt.validate().unwrap_err();
    assert!(matches!(err, ReceiptValidationError::MissingErrorOnFailed));
}

#[test]
fn test_validate_failed_with_error() {
    let receipt = Receipt::new("agent", "action")
        .with_risk("High")
        .with_approval("Ask")
        .with_status(ReceiptStatus::Failed)
        .with_error("Network timeout");
    assert!(receipt.validate().is_ok());
}

#[test]
fn test_validate_executed_without_outputs() {
    let receipt = Receipt::new("agent", "action")
        .with_risk("Medium")
        .with_approval("Ask")
        .with_status(ReceiptStatus::Executed)
        .with_inputs(object(vec![]));
    let err = receipt.validate().unwrap_err();
    assert!(matches!(err, ReceiptValidationError::MissingOutputsOnSuccess));
}

#[test]
fn test_validate_rolled_back_without_outputs() {
    let receipt = Receipt::new("agent", "action")
        .with_risk("Medium")
        .with_approval("Ask")
        .with_status(ReceiptStatus::RolledBack)
        .with_inputs(object(vec![]));
    let err = receipt.validate().unwrap_err();
    assert!(matches!(err, ReceiptValidationError::MissingOutputsOnSuccess));
}

#[test]
fn test_validate_planned_without_outputs() {
    let receipt = Receipt::new("agent", "action")
        .with_risk("Medium")
        .with_approval("Ask")
        .with_status(ReceiptStatus::Planned)
        .with_inputs(object(vec![]));
    assert!(receipt.validate().is_ok());
}

#[test]
fn test_store_new() {
    let store = ReceiptStore::new("/tmp/receipts");
    assert_eq!(store.root_dir(), "/tmp/receipts");
}

#[test]
fn test_store_write_validates_before_saving() {
    let store = ReceiptStore::new("/tmp/receipts");
    let invalid_receipt = Receipt::new("", "action")
        .with_risk("Low")
        .with_approval("Auto")
        .with_status(ReceiptStatus::Planned)
        .with_inputs(object(vec![]));
    let result = store.prepare_write(&invalid_receipt);
    assert!(matches!(result, Err(ReceiptStoreError::Validation(_))));
}

#[test]
fn test_receipt_path_format() {
    let store = ReceiptStore::new("/tmp/receipts");
    let receipt = create_valid_receipt();
    let path = store.receipt_path(&receipt).unwrap();
    let filename = path.rsplit('/').next().unwrap();
    assert!(filename.ends_with(".json"));
    assert!(filename.contains(&uuid_to_string(receipt.id)));
    assert!(path.starts_with("/tmp/receipts/"));
}

#[test]
fn validation_messages_are_the_documented_ones() {
    assert_eq!(ReceiptValidationError::EmptyActor.message(), "actor must not be empty");
    assert_eq!(ReceiptValidationError::EmptyRisk.message(), "risk must not be empty");
    assert_eq!(ReceiptValidationError::MissingErrorOnFailed.message(), "error must be present if status is Failed");
}

#[test]
fn prepare_write_gives_the_path_of_a_valid_receipt() {
    let store = ReceiptStore::new("/tmp/receipts");
    let receipt = create_valid_receipt();
    let path = store.prepare_write(&receipt).ok().unwrap();
    assert_eq!(Some(path), store.receipt_path(&receipt));
}
