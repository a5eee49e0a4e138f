// Smoke tests of the entry points: version text, the last-error slot, and
// the rejection of missing handles and unknown providers. String arguments
// are given as their bytes, a null pointer as `None`.

use pheno_bridge::{
    backend_reply, pheno_bridge_version, pheno_last_error, pheno_memory_forget, pheno_memory_new,
    pheno_memory_recall, pheno_memory_store, recall_reply, ErrorSlot, RecallOutcome,
};

fn assert_last_error_contains(slot: &ErrorSlot, sub: &str) {
    let e = pheno_last_error(slot);
    assert!(e.is_some(), "expected last_error to be non-null");
    let s = e.unwrap();
    assert!(
        s.contains(sub),
        "expected last_error to contain '{sub}', got: {s}"
    );
}

#[test]
fn cabi_version_returns_valid_string() {
    let s = pheno_bridge_version();
    assert!(!s.is_empty(), "version string should not be empty");
    assert!(s.as_bytes()[0].is_ascii_digit(), "version should start with a digit: {s}");
}

#[test]
fn cabi_last_error_returns_valid_string_or_null() {
    let mut slot = ErrorSlot::new();
    assert!(pheno_last_error(&slot).is_none());
    let _ = pheno_memory_store(&mut slot, false, None, None, None);
    let _ = backend_reply(&mut slot, Err(String::new()));
    let _ = recall_reply(&mut slot, RecallOutcome::Failed(String::new()));
    let _ = pheno_memory_new(&mut slot, Some(b"not-a-real-provider".as_slice()));
    let e = pheno_last_error(&slot);
    if let Some(s) = e {
        assert!(!s.is_empty(), "error string should not be empty");
    }
}

#[test]
fn cabi_memory_store_null_handle_returns_error() {
    let mut slot = ErrorSlot::new();
    let rc = pheno_memory_store(
        &mut slot,
        false,
        Some(b"episodic".as_slice()),
        Some(b"k".as_slice()),
        Some(b"v".as_slice()),
    );
    assert_eq!(rc.err(), Some(1), "null handle should return error code 1");
    assert_last_error_contains(&slot, "null handle");
}

#[test]
fn cabi_memory_recall_null_handle_returns_error() {
    let mut slot = ErrorSlot::new();
    let rc = pheno_memory_recall(
        &mut slot,
        false,
        false,
        Some(b"episodic".as_slice()),
        Some(b"q".as_slice()),
    );
    assert_eq!(rc.err(), Some(1), "null handle/out should return error code 1");
    assert_last_error_contains(&slot, "null handle");
}

#[test]
fn cabi_memory_forget_null_handle_returns_error() {
    let mut slot = ErrorSlot::new();
    let rc = pheno_memory_forget(
        &mut slot,
        false,
        Some(b"episodic".as_slice()),
        Some(b"k".as_slice()),
    );
    assert_eq!(rc.err(), Some(1), "null handle should return error code 1");
    assert_last_error_contains(&slot, "null handle");
}

#[test]
fn cabi_memory_new_unknown_provider_returns_null() {
    let mut slot = ErrorSlot::new();
    let h = pheno_memory_new(&mut slot, Some(b"not-a-real-provider".as_slice()));
    assert!(h.is_none(), "unknown provider should return null handle");
    assert_last_error_contains(&slot, "unknown provider");
}
