// Behaviour of the verified core, case by case.

use pheno_bridge::{
    backend_reply, cstr, decimal_text, first_nul, pheno_bridge_version, pheno_last_error,
    pheno_memory_forget, pheno_memory_new, pheno_memory_recall, pheno_memory_store,
    provider_from_str, recall_reply, record_error, same_text, scope_from_str, ErrorSlot,
    Provider, RecallOutcome, Scope, BACKEND_ERROR, INTERNAL_ERROR, INVALID_ARGUMENT, SUCCESS,
};

fn b(s: &str) -> Option<&[u8]> {
    Some(s.as_bytes())
}

fn last(slot: &ErrorSlot) -> Option<String> {
    pheno_last_error(slot)
}

#[test]
fn status_codes_are_the_documented_numbers() {
    assert_eq!(SUCCESS, 0);
    assert_eq!(INVALID_ARGUMENT, 1);
    assert_eq!(BACKEND_ERROR, 2);
    assert_eq!(INTERNAL_ERROR, 3);
}

#[test]
fn every_provider_name_opens_its_provider() {
    let cases = [
        ("sm", Provider::Supermemory),
        ("supermemory", Provider::Supermemory),
        ("letta", Provider::Letta),
        ("cognee", Provider::Cognee),
        ("mem0", Provider::Mem0),
        ("composite", Provider::Composite),
    ];
    for (name, p) in cases {
        let mut slot = ErrorSlot::new();
        assert_eq!(pheno_memory_new(&mut slot, b(name)), Some(p));
        assert_eq!(last(&slot), None);
        assert_eq!(provider_from_str(&mut slot, name), Ok(p));
    }
}

#[test]
fn provider_names_are_case_sensitive_and_exact() {
    let mut slot = ErrorSlot::new();
    assert_eq!(provider_from_str(&mut slot, "Letta"), Err(1));
    assert_eq!(last(&slot).as_deref(), Some("unknown provider: Letta"));
    assert_eq!(provider_from_str(&mut slot, "sm "), Err(1));
    assert_eq!(last(&slot).as_deref(), Some("unknown provider: sm "));
    assert_eq!(provider_from_str(&mut slot, ""), Err(1));
    assert_eq!(last(&slot).as_deref(), Some("unknown provider: "));
}

#[test]
fn every_scope_name_reads_as_its_scope() {
    let cases = [
        ("episodic", Scope::Episodic),
        ("identity", Scope::Identity),
        ("project_knowledge", Scope::ProjectKnowledge),
        ("project", Scope::ProjectKnowledge),
        ("fallback", Scope::Fallback),
    ];
    for (name, sc) in cases {
        let mut slot = ErrorSlot::new();
        assert_eq!(scope_from_str(&mut slot, name), Ok(sc));
        assert_eq!(last(&slot), None);
    }
    let mut slot = ErrorSlot::new();
    assert_eq!(scope_from_str(&mut slot, "semantic"), Err(1));
    assert_eq!(last(&slot).as_deref(), Some("unknown scope: semantic"));
}

#[test]
fn null_provider_is_a_null_pointer() {
    let mut slot = ErrorSlot::new();
    assert_eq!(pheno_memory_new(&mut slot, None), None);
    assert_eq!(last(&slot).as_deref(), Some("null pointer"));
}

#[test]
fn cstr_decodes_utf8_and_rejects_the_rest() {
    let mut slot = ErrorSlot::new();
    assert_eq!(cstr(&mut slot, b("h\u{e9}llo \u{1f600}")), Ok("h\u{e9}llo \u{1f600}".to_string()));
    assert_eq!(last(&slot), None);
    assert_eq!(cstr(&mut slot, None), Err(1));
    assert_eq!(last(&slot).as_deref(), Some("null pointer"));
    let bad: &[u8] = &[0x61, 0xff, 0x62];
    assert_eq!(cstr(&mut slot, Some(bad)), Err(1));
    let msg = last(&slot).unwrap();
    let expected = format!("invalid UTF-8: {}", std::str::from_utf8(bad).unwrap_err());
    assert_eq!(msg, expected);
    assert!(msg.starts_with("invalid UTF-8: "));
}

#[test]
fn store_accepts_valid_arguments_and_keeps_the_slot() {
    let mut slot = ErrorSlot::new();
    record_error(&mut slot, "earlier".to_string());
    let call = pheno_memory_store(&mut slot, true, b("project"), b("k1"), b("hello")).unwrap();
    assert_eq!(call.scope, Scope::ProjectKnowledge);
    assert_eq!(call.key, "k1");
    assert_eq!(call.value, "hello");
    assert_eq!(last(&slot).as_deref(), Some("earlier"));
}

#[test]
fn store_checks_arguments_in_order() {
    let mut slot = ErrorSlot::new();
    // An unknown scope name is read only after every argument decoded.
    let r = pheno_memory_store(&mut slot, true, b("nowhere"), b("k"), None);
    assert_eq!(r.err(), Some(1));
    assert_eq!(last(&slot).as_deref(), Some("null pointer"));
    let r = pheno_memory_store(&mut slot, true, b("nowhere"), b("k"), b("v"));
    assert_eq!(r.err(), Some(1));
    assert_eq!(last(&slot).as_deref(), Some("unknown scope: nowhere"));
    // A missing handle wins over everything else.
    let r = pheno_memory_store(&mut slot, false, None, None, None);
    assert_eq!(r.err(), Some(1));
    assert_eq!(last(&slot).as_deref(), Some("null handle"));
}

#[test]
fn recall_checks_handle_and_out() {
    let mut slot = ErrorSlot::new();
    let r = pheno_memory_recall(&mut slot, true, false, b("episodic"), b("q"));
    assert_eq!(r.err(), Some(1));
    assert_eq!(last(&slot).as_deref(), Some("null handle or out"));
    let r = pheno_memory_recall(&mut slot, false, true, b("episodic"), b("q"));
    assert_eq!(r.err(), Some(1));
    assert_eq!(last(&slot).as_deref(), Some("null handle or out"));
    let mut slot = ErrorSlot::new();
    let call = pheno_memory_recall(&mut slot, true, true, b("fallback"), b("what")).unwrap();
    assert_eq!(call.scope, Scope::Fallback);
    assert_eq!(call.query, "what");
    assert_eq!(last(&slot), None);
    let r = pheno_memory_recall(&mut slot, true, true, b("fallback"), None);
    assert_eq!(r.err(), Some(1));
    assert_eq!(last(&slot).as_deref(), Some("null pointer"));
}

#[test]
fn forget_accepts_valid_arguments() {
    let mut slot = ErrorSlot::new();
    let call = pheno_memory_forget(&mut slot, true, b("identity"), b("k9")).unwrap();
    assert_eq!(call.scope, Scope::Identity);
    assert_eq!(call.key, "k9");
    assert_eq!(last(&slot), None);
    let r = pheno_memory_forget(&mut slot, true, None, b("k9"));
    assert_eq!(r.err(), Some(1));
    assert_eq!(last(&slot).as_deref(), Some("null pointer"));
}

#[test]
fn backend_reply_maps_outcomes_to_codes() {
    let mut slot = ErrorSlot::new();
    assert_eq!(backend_reply(&mut slot, Ok(())), 0);
    assert_eq!(last(&slot), None);
    assert_eq!(backend_reply(&mut slot, Err("unavailable".to_string())), 2);
    assert_eq!(last(&slot).as_deref(), Some("unavailable"));
}

#[test]
fn recall_reply_hands_out_json() {
    let mut slot = ErrorSlot::new();
    let json = "[{\"id\":\"1\",\"text\":\"hello\"}]".to_string();
    assert_eq!(recall_reply(&mut slot, RecallOutcome::Serialized(json.clone())), Ok(json));
    assert_eq!(last(&slot), None);
}

#[test]
fn recall_reply_failures() {
    let mut slot = ErrorSlot::new();
    let r = recall_reply(&mut slot, RecallOutcome::Failed("network down".to_string()));
    assert_eq!(r, Err(2));
    assert_eq!(last(&slot).as_deref(), Some("network down"));
    let r = recall_reply(&mut slot, RecallOutcome::Unserializable("key must be a string".to_string()));
    assert_eq!(r, Err(3));
    assert_eq!(last(&slot).as_deref(), Some("serde_json::to_string: key must be a string"));
    let r = recall_reply(&mut slot, RecallOutcome::Serialized("ab\u{e9}c\0d\0".to_string()));
    assert_eq!(r, Err(3));
    assert_eq!(
        last(&slot).as_deref(),
        Some("CString::new: nul byte found in provided data at position: 5")
    );
}

#[test]
fn last_error_reads_back_what_was_recorded() {
    let mut slot = ErrorSlot::new();
    assert_eq!(last(&slot), None);
    record_error(&mut slot, "first".to_string());
    assert_eq!(last(&slot).as_deref(), Some("first"));
    record_error(&mut slot, "second".to_string());
    assert_eq!(last(&slot).as_deref(), Some("second"));
    record_error(&mut slot, "has\0nul".to_string());
    assert_eq!(last(&slot), None);
}

#[test]
fn decimal_text_writes_numbers() {
    assert_eq!(decimal_text(0), "0");
    assert_eq!(decimal_text(7), "7");
    assert_eq!(decimal_text(10), "10");
    assert_eq!(decimal_text(1234567890), "1234567890");
    assert_eq!(decimal_text(usize::MAX), usize::MAX.to_string());
}

#[test]
fn first_nul_finds_the_first_zero_byte() {
    assert_eq!(first_nul("abc"), None);
    assert_eq!(first_nul(""), None);
    assert_eq!(first_nul("\0"), Some(0));
    assert_eq!(first_nul("\u{e9}\0x\0"), Some(2));
}

#[test]
fn same_text_compares_whole_texts() {
    assert!(same_text("sm", "sm"));
    assert!(!same_text("sm", "smx"));
    assert!(!same_text("\u{e9}", "e"));
    assert!(same_text("", ""));
}

#[test]
fn version_is_the_package_version() {
    assert_eq!(pheno_bridge_version(), "0.1.0");
}

#[test]
fn text_arguments_round_trip() {
    let mut slot = ErrorSlot::new();
    for t in ["", "k", "\u{1f600} emoji", "tab\tand\nnewline"] {
        assert_eq!(cstr(&mut slot, Some(t.as_bytes())), Ok(t.to_string()));
    }
    assert_eq!(last(&slot), None);
}

#[test]
fn empty_messages_are_not_handed_out() {
    let mut slot = ErrorSlot::new();
    assert_eq!(backend_reply(&mut slot, Err(String::new())), 2);
    assert_eq!(last(&slot), None);
    record_error(&mut slot, "real failure".to_string());
    assert_eq!(last(&slot).as_deref(), Some("real failure"));
    assert_eq!(recall_reply(&mut slot, RecallOutcome::Failed(String::new())), Err(2));
    assert_eq!(last(&slot), None);
    // Any failure of the bridge's own leaves a non-empty message.
    let _ = pheno_memory_forget(&mut slot, false, None, None);
    let m = last(&slot).unwrap();
    assert!(!m.is_empty());
    assert_eq!(m, "null handle");
}
