use vstd::prelude::*;
use vstd::string::StringExecFns;

use crate::error::{
    record_error, ErrorSlot, BACKEND_ERROR, INTERNAL_ERROR, INVALID_ARGUMENT, SUCCESS,
};
use crate::names::{
    provider_from_str, provider_named, scope_from_str, scope_named, unknown_provider_message,
    unknown_scope_message, Provider, Scope,
};
use crate::text::{arg_bytes, decimal, decimal_text, decoded_arg, first_nul, is_first_nul, nul_free, utf8_bytes, utf8_text};

verus! {

/// Decodes a C string argument, given as its bytes (`None` for a null
/// pointer). A null pointer or bytes that are not UTF-8 are an invalid
/// argument, and the message says which.
pub fn cstr(slot: &mut ErrorSlot, arg: Option<&[u8]>) -> (r: Result<String, i32>)
    ensures
        match decoded_arg(arg_bytes(arg)) {
            Ok(t) => r matches Ok(s) && s@ == t && final(slot)@ == old(slot)@,
            Err(m) => r == Err::<String, i32>(INVALID_ARGUMENT) && final(slot)@ == Some(m),
        },
{
    match arg {
        None => {
            record_error(slot, String::from_str("null pointer"));
            Err(INVALID_ARGUMENT)
        },
        Some(bytes) => match utf8_text(bytes) {
            Ok(s) => Ok(s),
            Err(m) => {
                record_error(slot, String::from_str("invalid UTF-8: ").concat(m.as_str()));
                Err(INVALID_ARGUMENT)
            },
        },
    }
}


/// What a request to open a port comes to: the provider, or the message
/// that rejects it.
pub open spec fn open_outcome(provider: Option<Seq<u8>>) -> Result<Provider, Seq<char>> {
    match decoded_arg(provider) {
        Err(m) => Err(m),
        Ok(name) => match provider_named(name) {
            Some(p) => Ok(p),
            None => Err(unknown_provider_message(name)),
        },
    }
}

/// Decides which provider a port is opened on. `None` stands for the null
/// handle the caller receives; the slot then holds why.
pub fn pheno_memory_new(slot: &mut ErrorSlot, provider: Option<&[u8]>) -> (r: Option<Provider>)
    ensures
        match open_outcome(arg_bytes(provider)) {
            Ok(p) => r == Some(p) && final(slot)@ == old(slot)@,
            Err(m) => r is None && final(slot)@ == Some(m),
        },
{
    let name = match cstr(slot, provider) {
        Ok(s) => s,
        Err(_) => return None,
    };
    match provider_from_str(slot, name.as_str()) {
        Ok(p) => Some(p),
        Err(_) => None,
    }
}

/// The store a port is asked to make.
pub struct StoreCall {
    pub scope: Scope,
    pub key: String,
    pub value: String,
}

/// The lookup a port is asked to run.
pub struct RecallCall {
    pub scope: Scope,
    pub query: String,
}

/// The deletion a port is asked to make.
pub struct ForgetCall {
    pub scope: Scope,
    pub key: String,
}

/// The message for a missing handle.
pub open spec fn null_handle_message() -> Seq<char> {
    "null handle"@
}

/// The message for a missing handle or result pointer.
pub open spec fn null_handle_or_out_message() -> Seq<char> {
    "null handle or out"@
}

/// A scope name, read after it was decoded.
pub open spec fn scope_outcome(name: Seq<char>) -> Result<Scope, Seq<char>> {
    match scope_named(name) {
        Some(sc) => Ok(sc),
        None => Err(unknown_scope_message(name)),
    }
}

/// What a store request comes to: the scope, key and value to store, or the
/// message that rejects it. The handle is checked first, then the scope,
/// key and value are decoded in that order, then the scope name is read.
pub open spec fn store_outcome(
    handle: bool,
    scope: Option<Seq<u8>>,
    key: Option<Seq<u8>>,
    value: Option<Seq<u8>>,
) -> Result<(Scope, Seq<char>, Seq<char>), Seq<char>> {
    if !handle {
        Err(null_handle_message())
    } else {
        match decoded_arg(scope) {
            Err(m) => Err(m),
            Ok(sn) => match decoded_arg(key) {
                Err(m) => Err(m),
                Ok(k) => match decoded_arg(value) {
                    Err(m) => Err(m),
                    Ok(v) => match scope_outcome(sn) {
                        Err(m) => Err(m),
                        Ok(sc) => Ok((sc, k, v)),
                    },
                },
            },
        }
    }
}

/// What a recall request comes to: the scope and query, or the message that
/// rejects it. Handle and result pointer are checked first, then the scope
/// and query are decoded in that order, then the scope name is read.
pub open spec fn recall_outcome(
    handle: bool,
    out: bool,
    scope: Option<Seq<u8>>,
    query: Option<Seq<u8>>,
) -> Result<(Scope, Seq<char>), Seq<char>> {
    if !handle || !out {
        Err(null_handle_or_out_message())
    } else {
        match decoded_arg(scope) {
            Err(m) => Err(m),
            Ok(sn) => match decoded_arg(query) {
                Err(m) => Err(m),
                Ok(q) => match scope_outcome(sn) {
                    Err(m) => Err(m),
                    Ok(sc) => Ok((sc, q)),
                },
            },
        }
    }
}

/// What a forget request comes to: the scope and key, or the message that
/// rejects it. The handle is checked first, then the scope and key are
/// decoded in that order, then the scope name is read.
pub open spec fn forget_outcome(
    handle: bool,
    scope: Option<Seq<u8>>,
    key: Option<Seq<u8>>,
) -> Result<(Scope, Seq<char>), Seq<char>> {
    if !handle {
        Err(null_handle_message())
    } else {
        match decoded_arg(scope) {
            Err(m) => Err(m),
            Ok(sn) => match decoded_arg(key) {
                Err(m) => Err(m),
                Ok(k) => match scope_outcome(sn) {
                    Err(m) => Err(m),
                    Ok(sc) => Ok((sc, k)),
                },
            },
        }
    }
}

/// Checks a store request. `handle` tells whether the handle is non-null;
/// each string argument is given by its bytes, `None` for a null pointer.
/// A rejected request answers `INVALID_ARGUMENT` and records why; an
/// accepted one leaves the slot as it was and says what to store.
pub fn pheno_memory_store(
    slot: &mut ErrorSlot,
    handle: bool,
    scope: Option<&[u8]>,
    key: Option<&[u8]>,
    value: Option<&[u8]>,
) -> (r: Result<StoreCall, i32>)
    ensures
        match store_outcome(handle, arg_bytes(scope), arg_bytes(key), arg_bytes(value)) {
            Ok((sc, k, v)) => r matches Ok(c) && c.scope == sc && c.key@ == k && c.value@ == v
                && final(slot)@ == old(slot)@,
            Err(m) => r matches Err(code) && code == INVALID_ARGUMENT && final(slot)@ == Some(m),
        },
{
    if !handle {
        record_error(slot, String::from_str("null handle"));
        return Err(INVALID_ARGUMENT);
    }
    let scope_name = match cstr(slot, scope) {
        Ok(s) => s,
        Err(c) => return Err(c),
    };
    let key = match cstr(slot, key) {
        Ok(s) => s,
        Err(c) => return Err(c),
    };
    let value = match cstr(slot, value) {
        Ok(s) => s,
        Err(c) => return Err(c),
    };
    let scope = match scope_from_str(slot, scope_name.as_str()) {
        Ok(s) => s,
        Err(c) => return Err(c),
    };
    Ok(StoreCall { scope, key, value })
}

/// Checks a recall request; `out` tells whether the result pointer is
/// non-null. Otherwise as `pheno_memory_store`.
pub fn pheno_memory_recall(
    slot: &mut ErrorSlot,
    handle: bool,
    out: bool,
    scope: Option<&[u8]>,
    query: Option<&[u8]>,
) -> (r: Result<RecallCall, i32>)
    ensures
        match recall_outcome(handle, out, arg_bytes(scope), arg_bytes(query)) {
            Ok((sc, q)) => r matches Ok(c) && c.scope == sc && c.query@ == q && final(slot)@ == old(slot)@,
            Err(m) => r matches Err(code) && code == INVALID_ARGUMENT && final(slot)@ == Some(m),
        },
{
    if !handle || !out {
        record_error(slot, String::from_str("null handle or out"));
        return Err(INVALID_ARGUMENT);
    }
    let scope_name = match cstr(slot, scope) {
        Ok(s) => s,
        Err(c) => return Err(c),
    };
    let query = match cstr(slot, query) {
        Ok(s) => s,
        Err(c) => return Err(c),
    };
    let scope = match scope_from_str(slot, scope_name.as_str()) {
        Ok(s) => s,
        Err(c) => return Err(c),
    };
    Ok(RecallCall { scope, query })
}

/// Checks a forget request, as `pheno_memory_store` does.
pub fn pheno_memory_forget(
    slot: &mut ErrorSlot,
    handle: bool,
    scope: Option<&[u8]>,
    key: Option<&[u8]>,
) -> (r: Result<ForgetCall, i32>)
    ensures
        match forget_outcome(handle, arg_bytes(scope), arg_bytes(key)) {
            Ok((sc, k)) => r matches Ok(c) && c.scope == sc && c.key@ == k && final(slot)@ == old(slot)@,
            Err(m) => r matches Err(code) && code == INVALID_ARGUMENT && final(slot)@ == Some(m),
        },
{
    if !handle {
        record_error(slot, String::from_str("null handle"));
        return Err(INVALID_ARGUMENT);
    }
    let scope_name = match cstr(slot, scope) {
        Ok(s) => s,
        Err(c) => return Err(c),
    };
    let key = match cstr(slot, key) {
        Ok(s) => s,
        Err(c) => return Err(c),
    };
    let scope = match scope_from_str(slot, scope_name.as_str()) {
        Ok(s) => s,
        Err(c) => return Err(c),
    };
    Ok(ForgetCall { scope, key })
}

/// Answers a store or forget from what the backend reported: success, or
/// the text of its error, which becomes the recorded message.
pub fn backend_reply(slot: &mut ErrorSlot, outcome: Result<(), String>) -> (code: i32)
    ensures
        match outcome {
            Ok(_) => code == SUCCESS && final(slot)@ == old(slot)@,
            Err(m) => code == BACKEND_ERROR && final(slot)@ == Some(m@),
        },
{
    match outcome {
        Ok(_) => SUCCESS,
        Err(m) => {
            record_error(slot, m);
            BACKEND_ERROR
        },
    }
}

/// What came of a recall: the records written as JSON, the text of the
/// error that stopped them being written, or the text of the backend's error.
pub enum RecallOutcome {
    Serialized(String),
    Unserializable(String),
    Failed(String),
}

/// The message for JSON that cannot be handed out as a C string because
/// byte `p` of it is zero.
pub open spec fn interior_nul_message(p: nat) -> Seq<char> {
    "CString::new: nul byte found in provided data at position: "@ + decimal(p)
}

/// The message for records that could not be written as JSON.
pub open spec fn unserializable_message(m: Seq<char>) -> Seq<char> {
    "serde_json::to_string: "@ + m
}

/// Answers a recall. JSON that can travel as a C string is handed out with
/// `SUCCESS` and the slot unchanged; a backend error answers `BACKEND_ERROR`;
/// records that could not be written, or JSON with a zero byte, answer
/// `INTERNAL_ERROR`. Each failure records its message.
pub fn recall_reply(slot: &mut ErrorSlot, outcome: RecallOutcome) -> (r: Result<String, i32>)
    ensures
        match outcome {
            RecallOutcome::Failed(m) => r == Err::<String, i32>(BACKEND_ERROR) && final(slot)@ == Some(m@),
            RecallOutcome::Unserializable(m) => r == Err::<String, i32>(INTERNAL_ERROR) && final(slot)@ == Some(unserializable_message(m@)),
            RecallOutcome::Serialized(json) => if nul_free(json@) {
                r matches Ok(s) && s@ == json@ && final(slot)@ == old(slot)@
            } else {
                r == Err::<String, i32>(INTERNAL_ERROR) && exists|p: int|
                    is_first_nul(utf8_bytes(json@), p) && final(slot)@ == Some(
                        interior_nul_message(p as nat),
                    )
            },
        },
{
    match outcome {
        RecallOutcome::Failed(m) => {
            record_error(slot, m);
            Err(BACKEND_ERROR)
        },
        RecallOutcome::Unserializable(m) => {
            record_error(slot, String::from_str("serde_json::to_string: ").concat(m.as_str()));
            Err(INTERNAL_ERROR)
        },
        RecallOutcome::Serialized(json) => match first_nul(json.as_str()) {
            None => Ok(json),
            Some(p) => {
                let pos = decimal_text(p);
                let msg = String::from_str(
                    "CString::new: nul byte found in provided data at position: ",
                ).concat(pos.as_str());
                record_error(slot, msg);
                Err(INTERNAL_ERROR)
            },
        },
    }
}

/// The message `pheno_last_error` hands out for a slot: the recorded one,
/// unless none is recorded, it is empty, or it holds a zero byte and so
/// cannot travel as a C string.
pub open spec fn last_error_text(slot: Option<Seq<char>>) -> Option<Seq<char>> {
    match slot {
        Some(m) => if m.len() > 0 && nul_free(m) {
            Some(m)
        } else {
            None
        },
        None => None,
    }
}

/// The most recent failure's message, `None` standing for the null pointer.
/// A message handed out is never empty.
pub fn pheno_last_error(slot: &ErrorSlot) -> (r: Option<String>)
    ensures
        r matches Some(s) ==> last_error_text(slot@) == Some(s@),
        r is None <==> last_error_text(slot@) is None,
        r matches Some(s) ==> s@.len() > 0,
{
    match &slot.message {
        None => None,
        Some(m) => if m.as_str().is_empty() {
            None
        } else {
            match first_nul(m.as_str()) {
                Some(_) => None,
                None => Some(m.clone()),
            }
        },
    }
}

/// The version of the bridge.
pub open spec fn bridge_version() -> Seq<char> {
    "0.1.0"@
}

/// The version of the bridge, as semver text.
pub fn pheno_bridge_version() -> (v: &'static str)
    ensures
        v@ == bridge_version(),
{
    "0.1.0"
}

} // verus!
