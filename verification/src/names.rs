use vstd::prelude::*;
use vstd::string::StringExecFns;

use crate::error::{record_error, ErrorSlot, INVALID_ARGUMENT};
use crate::text::same_text;

verus! {

/// The memory backends a port can be opened on.
#[derive(Clone, Copy, Debug, PartialEq, Eq, Structural)]
pub enum Provider {
    Supermemory,
    Letta,
    Cognee,
    Mem0,
    Composite,
}

/// The scopes a value can be stored under.
#[derive(Clone, Copy, Debug, PartialEq, Eq, Structural)]
pub enum Scope {
    Episodic,
    Identity,
    ProjectKnowledge,
    Fallback,
}

/// The provider a name stands for: `sm` and `supermemory` both name
/// Supermemory; `letta`, `cognee`, `mem0` and `composite` name the others.
pub open spec fn provider_named(name: Seq<char>) -> Option<Provider> {
    if name == "sm"@ || name == "supermemory"@ {
        Some(Provider::Supermemory)
    } else if name == "letta"@ {
        Some(Provider::Letta)
    } else if name == "cognee"@ {
        Some(Provider::Cognee)
    } else if name == "mem0"@ {
        Some(Provider::Mem0)
    } else if name == "composite"@ {
        Some(Provider::Composite)
    } else {
        None
    }
}

/// The scope a name stands for: `project_knowledge` and `project` both name
/// ProjectKnowledge; `episodic`, `identity` and `fallback` name the others.
pub open spec fn scope_named(name: Seq<char>) -> Option<Scope> {
    if name == "episodic"@ {
        Some(Scope::Episodic)
    } else if name == "identity"@ {
        Some(Scope::Identity)
    } else if name == "project_knowledge"@ || name == "project"@ {
        Some(Scope::ProjectKnowledge)
    } else if name == "fallback"@ {
        Some(Scope::Fallback)
    } else {
        None
    }
}

/// The message recorded for a provider name that names none.
pub open spec fn unknown_provider_message(name: Seq<char>) -> Seq<char> {
    "unknown provider: "@ + name
}

/// The message recorded for a scope name that names none.
pub open spec fn unknown_scope_message(name: Seq<char>) -> Seq<char> {
    "unknown scope: "@ + name
}

/// Reads a provider name. An unknown name is an invalid argument, and the
/// message names it.
pub fn provider_from_str(slot: &mut ErrorSlot, s: &str) -> (r: Result<Provider, i32>)
    ensures
        match provider_named(s@) {
            Some(p) => r == Ok::<Provider, i32>(p) && final(slot)@ == old(slot)@,
            None => r == Err::<Provider, i32>(INVALID_ARGUMENT) && final(slot)@ == Some(
                unknown_provider_message(s@),
            ),
        },
{
    if same_text(s, "sm") || same_text(s, "supermemory") {
        Ok(Provider::Supermemory)
    } else if same_text(s, "letta") {
        Ok(Provider::Letta)
    } else if same_text(s, "cognee") {
        Ok(Provider::Cognee)
    } else if same_text(s, "mem0") {
        Ok(Provider::Mem0)
    } else if same_text(s, "composite") {
        Ok(Provider::Composite)
    } else {
        let msg = String::from_str("unknown provider: ").concat(s);
        record_error(slot, msg);
        Err(INVALID_ARGUMENT)
    }
}

/// Reads a scope name. An unknown name is an invalid argument, and the
/// message names it.
pub fn scope_from_str(slot: &mut ErrorSlot, s: &str) -> (r: Result<Scope, i32>)
    ensures
        match scope_named(s@) {
            Some(sc) => r == Ok::<Scope, i32>(sc) && final(slot)@ == old(slot)@,
            None => r == Err::<Scope, i32>(INVALID_ARGUMENT) && final(slot)@ == Some(
                unknown_scope_message(s@),
            ),
        },
{
    if same_text(s, "episodic") {
        Ok(Scope::Episodic)
    } else if same_text(s, "identity") {
        Ok(Scope::Identity)
    } else if same_text(s, "project_knowledge") || same_text(s, "project") {
        Ok(Scope::ProjectKnowledge)
    } else if same_text(s, "fallback") {
        Ok(Scope::Fallback)
    } else {
        let msg = String::from_str("unknown scope: ").concat(s);
        record_error(slot, msg);
        Err(INVALID_ARGUMENT)
    }
}

} // verus!
