//! Verified core of a C-ABI bridge over memory ports: argument decoding,
//! provider and scope names, the last-error slot, and the status codes and
//! messages that every entry point answers with. The entry points are split
//! around the call into the memory backend: a check of the arguments that
//! says what to ask the backend, and a reply built from what it answered.

pub mod bridge;
pub mod error;
pub mod laws;
pub mod names;
pub mod text;

pub use bridge::{
    backend_reply, cstr, pheno_bridge_version, pheno_last_error, pheno_memory_forget,
    pheno_memory_new, pheno_memory_recall, pheno_memory_store, recall_reply, ForgetCall,
    RecallCall, RecallOutcome, StoreCall,
};
pub use error::{
    record_error, ErrorSlot, BACKEND_ERROR, INTERNAL_ERROR, INVALID_ARGUMENT, SUCCESS,
};
pub use names::{provider_from_str, scope_from_str, Provider, Scope};
pub use text::{decimal_text, first_nul, same_text};
