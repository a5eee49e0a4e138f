use vstd::prelude::*;
use vstd::utf8::{encode_utf8_decode_utf8, encode_utf8_valid_utf8};

use crate::bridge::{
    bridge_version, forget_outcome, last_error_text, null_handle_message,
    null_handle_or_out_message, open_outcome, recall_outcome, store_outcome,
};
use crate::names::{provider_named, scope_named, unknown_scope_message, Provider, Scope};
use crate::text::{decoded_arg, nul_free, utf8_bytes};

verus! {

/// A message recorded by a failure is what `pheno_last_error` gives back,
/// provided it is not empty and no byte of it is zero; with no failure
/// recorded, or an empty message, it gives nothing.
pub proof fn lemma_last_error_reads_back(m: Seq<char>)
    ensures
        m.len() > 0 && nul_free(m) ==> last_error_text(Some(m)) == Some(m),
        m.len() == 0 || !nul_free(m) ==> last_error_text(Some(m)) is None,
        last_error_text(None) is None,
{
}

/// Whatever has been recorded, a message `pheno_last_error` gives back is
/// never empty and can travel as a C string.
pub proof fn lemma_last_error_is_nonempty_text(slot: Option<Seq<char>>)
    ensures
        last_error_text(slot) matches Some(t) ==> t.len() > 0 && nul_free(t),
{
}

/// Any text, handed over as its UTF-8 bytes, is decoded back to itself.
pub proof fn lemma_text_arg_round_trip(t: Seq<char>)
    ensures
        decoded_arg(Some(utf8_bytes(t))) == Ok::<Seq<char>, Seq<char>>(t),
{
    encode_utf8_valid_utf8(t);
    encode_utf8_decode_utf8(t);
}

/// Opening a port on the UTF-8 bytes of a name picks the provider that the
/// name stands for, and rejects exactly the names that stand for none.
pub proof fn lemma_open_by_name(name: Seq<char>)
    ensures
        open_outcome(Some(utf8_bytes(name))) is Ok <==> provider_named(name) is Some,
        provider_named(name) matches Some(p) ==> open_outcome(Some(utf8_bytes(name))) == Ok::<
            Provider,
            Seq<char>,
        >(p),
{
    lemma_text_arg_round_trip(name);
}

/// `sm` and `supermemory` name the same provider, and `project` and
/// `project_knowledge` the same scope.
pub proof fn lemma_name_aliases()
    ensures
        provider_named("sm"@) == Some(Provider::Supermemory),
        provider_named("supermemory"@) == Some(Provider::Supermemory),
        scope_named("project"@) == Some(Scope::ProjectKnowledge),
        scope_named("project_knowledge"@) == Some(Scope::ProjectKnowledge),
{
    reveal_strlit("project");
    reveal_strlit("project_knowledge");
    reveal_strlit("episodic");
    reveal_strlit("identity");
    assert("project"@.len() == 7);
    assert("project_knowledge"@.len() == 17);
    assert("episodic"@.len() == 8);
    assert("identity"@.len() == 8);
}

/// A missing handle is rejected before any other argument is looked at:
/// whatever the other arguments, the request fails with the null-handle
/// message (for recall, a missing result pointer too).
pub proof fn lemma_null_handle_first(
    out: bool,
    scope: Option<Seq<u8>>,
    key: Option<Seq<u8>>,
    value: Option<Seq<u8>>,
)
    ensures
        store_outcome(false, scope, key, value) == Err::<(Scope, Seq<char>, Seq<char>), Seq<char>>(
            null_handle_message(),
        ),
        forget_outcome(false, scope, key) == Err::<(Scope, Seq<char>), Seq<char>>(
            null_handle_message(),
        ),
        recall_outcome(false, out, scope, key) == Err::<(Scope, Seq<char>), Seq<char>>(
            null_handle_or_out_message(),
        ),
        recall_outcome(true, false, scope, key) == Err::<(Scope, Seq<char>), Seq<char>>(
            null_handle_or_out_message(),
        ),
{
}

/// The version is semver text: it is not empty and starts with a digit.
pub proof fn lemma_version_is_semver()
    ensures
        bridge_version().len() > 0,
        '0' <= bridge_version()[0] <= '9',
{
    reveal_strlit("0.1.0");
}


/// The five scope names read as the scopes they name, and as nothing else.
pub proof fn lemma_scope_names()
    ensures
        scope_named("episodic"@) == Some(Scope::Episodic),
        scope_named("identity"@) == Some(Scope::Identity),
        scope_named("project_knowledge"@) == Some(Scope::ProjectKnowledge),
        scope_named("project"@) == Some(Scope::ProjectKnowledge),
        scope_named("fallback"@) == Some(Scope::Fallback),
{
    reveal_strlit("episodic");
    reveal_strlit("identity");
    reveal_strlit("project_knowledge");
    reveal_strlit("project");
    reveal_strlit("fallback");
    assert("episodic"@[0] == 'e');
    assert("identity"@[0] == 'i');
    assert("fallback"@[0] == 'f');
    assert("project"@.len() == 7);
    assert("project_knowledge"@.len() == 17);
    assert("episodic"@.len() == 8);
    assert("identity"@.len() == 8);
    assert("fallback"@.len() == 8);
}

/// With a handle, a store given any scope name, key and value as UTF-8 is
/// accepted exactly when the name names a scope, and then asks the backend
/// to store that very key and value under that scope; an unknown name is
/// rejected with a message that names it. Each of the five scope names goes
/// to its own scope, whatever the key and value.
pub proof fn lemma_store_forwards_what_it_was_given(s: Seq<char>, k: Seq<char>, v: Seq<char>)
    ensures
        store_outcome(true, Some(utf8_bytes(s)), Some(utf8_bytes(k)), Some(utf8_bytes(v))) is Ok
            <==> scope_named(s) is Some,
        scope_named(s) matches Some(sc) ==> store_outcome(
            true,
            Some(utf8_bytes(s)),
            Some(utf8_bytes(k)),
            Some(utf8_bytes(v)),
        ) == Ok::<(Scope, Seq<char>, Seq<char>), Seq<char>>((sc, k, v)),
        scope_named(s) is None ==> store_outcome(
            true,
            Some(utf8_bytes(s)),
            Some(utf8_bytes(k)),
            Some(utf8_bytes(v)),
        ) == Err::<(Scope, Seq<char>, Seq<char>), Seq<char>>(unknown_scope_message(s)),
        store_outcome(
            true,
            Some(utf8_bytes("episodic"@)),
            Some(utf8_bytes(k)),
            Some(utf8_bytes(v)),
        ) == Ok::<(Scope, Seq<char>, Seq<char>), Seq<char>>((Scope::Episodic, k, v)),
        store_outcome(
            true,
            Some(utf8_bytes("identity"@)),
            Some(utf8_bytes(k)),
            Some(utf8_bytes(v)),
        ) == Ok::<(Scope, Seq<char>, Seq<char>), Seq<char>>((Scope::Identity, k, v)),
        store_outcome(
            true,
            Some(utf8_bytes("project_knowledge"@)),
            Some(utf8_bytes(k)),
            Some(utf8_bytes(v)),
        ) == Ok::<(Scope, Seq<char>, Seq<char>), Seq<char>>((Scope::ProjectKnowledge, k, v)),
        store_outcome(
            true,
            Some(utf8_bytes("project"@)),
            Some(utf8_bytes(k)),
            Some(utf8_bytes(v)),
        ) == Ok::<(Scope, Seq<char>, Seq<char>), Seq<char>>((Scope::ProjectKnowledge, k, v)),
        store_outcome(
            true,
            Some(utf8_bytes("fallback"@)),
            Some(utf8_bytes(k)),
            Some(utf8_bytes(v)),
        ) == Ok::<(Scope, Seq<char>, Seq<char>), Seq<char>>((Scope::Fallback, k, v)),
{
    lemma_scope_names();
    lemma_text_arg_round_trip(s);
    lemma_text_arg_round_trip(k);
    lemma_text_arg_round_trip(v);
    lemma_text_arg_round_trip("episodic"@);
    lemma_text_arg_round_trip("identity"@);
    lemma_text_arg_round_trip("project_knowledge"@);
    lemma_text_arg_round_trip("project"@);
    lemma_text_arg_round_trip("fallback"@);
}

/// With a handle and a result pointer, a recall given any scope name and
/// query as UTF-8 is accepted exactly when the name names a scope, and then
/// runs that very query in that scope; an unknown name is rejected with a
/// message that names it. Each of the five scope names goes to its own scope,
/// whatever the query.
pub proof fn lemma_recall_forwards_what_it_was_given(s: Seq<char>, q: Seq<char>)
    ensures
        recall_outcome(true, true, Some(utf8_bytes(s)), Some(utf8_bytes(q))) is Ok
            <==> scope_named(s) is Some,
        scope_named(s) matches Some(sc) ==> recall_outcome(
            true,
            true,
            Some(utf8_bytes(s)),
            Some(utf8_bytes(q)),
        ) == Ok::<(Scope, Seq<char>), Seq<char>>((sc, q)),
        scope_named(s) is None ==> recall_outcome(
            true,
            true,
            Some(utf8_bytes(s)),
            Some(utf8_bytes(q)),
        ) == Err::<(Scope, Seq<char>), Seq<char>>(unknown_scope_message(s)),
        recall_outcome(true, true, Some(utf8_bytes("episodic"@)), Some(utf8_bytes(q))) == Ok::<
            (Scope, Seq<char>),
            Seq<char>,
        >((Scope::Episodic, q)),
        recall_outcome(true, true, Some(utf8_bytes("identity"@)), Some(utf8_bytes(q))) == Ok::<
            (Scope, Seq<char>),
            Seq<char>,
        >((Scope::Identity, q)),
        recall_outcome(
            true,
            true,
            Some(utf8_bytes("project_knowledge"@)),
            Some(utf8_bytes(q)),
        ) == Ok::<(Scope, Seq<char>), Seq<char>>((Scope::ProjectKnowledge, q)),
        recall_outcome(true, true, Some(utf8_bytes("project"@)), Some(utf8_bytes(q))) == Ok::<
            (Scope, Seq<char>),
            Seq<char>,
        >((Scope::ProjectKnowledge, q)),
        recall_outcome(true, true, Some(utf8_bytes("fallback"@)), Some(utf8_bytes(q))) == Ok::<
            (Scope, Seq<char>),
            Seq<char>,
        >((Scope::Fallback, q)),
{
    lemma_scope_names();
    lemma_text_arg_round_trip(s);
    lemma_text_arg_round_trip(q);
    lemma_text_arg_round_trip("episodic"@);
    lemma_text_arg_round_trip("identity"@);
    lemma_text_arg_round_trip("project_knowledge"@);
    lemma_text_arg_round_trip("project"@);
    lemma_text_arg_round_trip("fallback"@);
}

/// With a handle, a forget given any scope name and key as UTF-8 is accepted
/// exactly when the name names a scope, and then deletes that very key in
/// that scope; an unknown name is rejected with a message that names it.
/// Each of the five scope names goes to its own scope, whatever the key.
pub proof fn lemma_forget_forwards_what_it_was_given(s: Seq<char>, k: Seq<char>)
    ensures
        forget_outcome(true, Some(utf8_bytes(s)), Some(utf8_bytes(k))) is Ok
            <==> scope_named(s) is Some,
        scope_named(s) matches Some(sc) ==> forget_outcome(
            true,
            Some(utf8_bytes(s)),
            Some(utf8_bytes(k)),
        ) == Ok::<(Scope, Seq<char>), Seq<char>>((sc, k)),
        scope_named(s) is None ==> forget_outcome(true, Some(utf8_bytes(s)), Some(utf8_bytes(k)))
            == Err::<(Scope, Seq<char>), Seq<char>>(unknown_scope_message(s)),
        forget_outcome(true, Some(utf8_bytes("episodic"@)), Some(utf8_bytes(k))) == Ok::<
            (Scope, Seq<char>),
            Seq<char>,
        >((Scope::Episodic, k)),
        forget_outcome(true, Some(utf8_bytes("identity"@)), Some(utf8_bytes(k))) == Ok::<
            (Scope, Seq<char>),
            Seq<char>,
        >((Scope::Identity, k)),
        forget_outcome(true, Some(utf8_bytes("project_knowledge"@)), Some(utf8_bytes(k)))
            == Ok::<(Scope, Seq<char>), Seq<char>>((Scope::ProjectKnowledge, k)),
        forget_outcome(true, Some(utf8_bytes("project"@)), Some(utf8_bytes(k))) == Ok::<
            (Scope, Seq<char>),
            Seq<char>,
        >((Scope::ProjectKnowledge, k)),
        forget_outcome(true, Some(utf8_bytes("fallback"@)), Some(utf8_bytes(k))) == Ok::<
            (Scope, Seq<char>),
            Seq<char>,
        >((Scope::Fallback, k)),
{
    lemma_scope_names();
    lemma_text_arg_round_trip(s);
    lemma_text_arg_round_trip(k);
    lemma_text_arg_round_trip("episodic"@);
    lemma_text_arg_round_trip("identity"@);
    lemma_text_arg_round_trip("project_knowledge"@);
    lemma_text_arg_round_trip("project"@);
    lemma_text_arg_round_trip("fallback"@);
}


/// Each documented provider name opens a port on its own provider: `sm` and
/// `supermemory` on Supermemory, `letta`, `cognee`, `mem0` and `composite`
/// on the provider of that name.
pub proof fn lemma_provider_names()
    ensures
        open_outcome(Some(utf8_bytes("sm"@))) == Ok::<Provider, Seq<char>>(Provider::Supermemory),
        open_outcome(Some(utf8_bytes("supermemory"@))) == Ok::<Provider, Seq<char>>(
            Provider::Supermemory,
        ),
        open_outcome(Some(utf8_bytes("letta"@))) == Ok::<Provider, Seq<char>>(Provider::Letta),
        open_outcome(Some(utf8_bytes("cognee"@))) == Ok::<Provider, Seq<char>>(Provider::Cognee),
        open_outcome(Some(utf8_bytes("mem0"@))) == Ok::<Provider, Seq<char>>(Provider::Mem0),
        open_outcome(Some(utf8_bytes("composite"@))) == Ok::<Provider, Seq<char>>(
            Provider::Composite,
        ),
{
    reveal_strlit("sm");
    reveal_strlit("supermemory");
    reveal_strlit("letta");
    reveal_strlit("cognee");
    reveal_strlit("mem0");
    reveal_strlit("composite");
    assert("sm"@.len() == 2);
    assert("supermemory"@.len() == 11);
    assert("letta"@.len() == 5);
    assert("cognee"@.len() == 6);
    assert("mem0"@.len() == 4);
    assert("composite"@.len() == 9);
    lemma_text_arg_round_trip("sm"@);
    lemma_text_arg_round_trip("supermemory"@);
    lemma_text_arg_round_trip("letta"@);
    lemma_text_arg_round_trip("cognee"@);
    lemma_text_arg_round_trip("mem0"@);
    lemma_text_arg_round_trip("composite"@);
}

} // verus!
