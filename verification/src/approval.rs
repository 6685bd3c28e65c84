//! The authorization rules: a per-user approved/disapproved flag kept in the
//! durable store under the user's decimal-id key.
//!
//! The store itself is external, so the flag's handling is verified in two halves that
//! meet at the stored strings: `is_approved_value` pins down exactly how a
//! stored value is read back, and the state-machine law below pins down what
//! the approve/disapprove writes do to a store modeled as a map from key
//! strings to value strings.

use vstd::prelude::*;
use vstd::string::StringExecFns;
use crate::command::Command;
use crate::render::{dec, lemma_dec_of, u64_string, val_of};
use crate::store::StoreError;

verus! {

/// The stored token that grants access.
pub open spec fn approved_token() -> Seq<char> {
    "approved"@
}

/// The stored token that revokes access.
pub open spec fn disapproved_token() -> Seq<char> {
    "disapproved"@
}

/// The store key of a user's approval flag: the user id in decimal.
pub open spec fn user_key(u: u64) -> Seq<char> {
    dec(u as nat)
}

/// How a stored approval value is read: true exactly for the approved token.
/// An absent value or any other token (in particular the disapproved token)
/// reads as not approved.
pub fn is_approved_value(v: &Option<String>) -> (r: bool)
    ensures
        r == (v matches Some(s) && s@ == approved_token()),
{
    match v {
        Some(s) => {
            let token = String::from_str("approved");
            *s == token
        },
        None => false,
    }
}

/// What a raw store read of an approval flag denotes: a read failure passes
/// through untouched - it must never look like permission - and a value
/// reads as approved exactly when it is the approved token.
pub open spec fn spec_approval_of_read(read: Result<Option<String>, StoreError>) -> Result<
    bool,
    StoreError,
> {
    match read {
        Err(e) => Err(e),
        Ok(v) => Ok(v matches Some(s) && s@ == approved_token()),
    }
}

/// Interprets a raw store read of an approval flag, per
/// `spec_approval_of_read`: an unreachable store answers `Err`, never
/// `Ok(true)`.
pub fn approval_of_read(read: Result<Option<String>, StoreError>) -> (r: Result<bool, StoreError>)
    ensures
        r == spec_approval_of_read(read),
        read is Err ==> r is Err,
{
    match read {
        Err(e) => Err(e),
        Ok(v) => Ok(is_approved_value(&v)),
    }
}

/// The key-value pair an approval mutation writes to the store: the user's
/// decimal-id key, and the approved or disapproved token per the command.
pub fn approval_write(cmd: &Command) -> (kv: (String, String))
    requires
        !(cmd is Status),
    ensures
        cmd matches Command::Approve { user_id } ==> kv.0@ == user_key(*user_id) && kv.1@
            == approved_token(),
        cmd matches Command::Disapprove { user_id } ==> kv.0@ == user_key(*user_id) && kv.1@
            == disapproved_token(),
{
    match cmd {
        Command::Approve { user_id } => (u64_string(*user_id), String::from_str("approved")),
        Command::Disapprove { user_id } => (
            u64_string(*user_id),
            String::from_str("disapproved"),
        ),
        Command::Status => (String::new(), String::new()),
    }
}

/// A model of the store's key-value contents, for stating what the approval
/// writes do.
pub open spec fn approve_in(m: Map<Seq<char>, Seq<char>>, u: u64) -> Map<Seq<char>, Seq<char>> {
    m.insert(user_key(u), approved_token())
}

/// The store contents after disapproving `u`.
pub open spec fn disapprove_in(m: Map<Seq<char>, Seq<char>>, u: u64) -> Map<Seq<char>, Seq<char>> {
    m.insert(user_key(u), disapproved_token())
}

/// Whether a reader of store contents `m` finds `u` approved.
pub open spec fn is_approved_in(m: Map<Seq<char>, Seq<char>>, u: u64) -> bool {
    m.contains_key(user_key(u)) && m[user_key(u)] == approved_token()
}

/// Law of the approval state machine: a user with no flag is not approved;
/// after an approve the user is approved and after a subsequent disapprove
/// not; re-applying the same state changes nothing; and either write leaves
/// every other user's standing untouched, because decimal ids are distinct
/// keys.
pub proof fn lemma_approval_state_machine(m: Map<Seq<char>, Seq<char>>, u: u64, v: u64)
    ensures
        !m.contains_key(user_key(u)) ==> !is_approved_in(m, u),
        is_approved_in(approve_in(m, u), u),
        !is_approved_in(disapprove_in(m, u), u),
        approve_in(approve_in(m, u), u) =~= approve_in(m, u),
        disapprove_in(disapprove_in(m, u), u) =~= disapprove_in(m, u),
        u != v ==> is_approved_in(approve_in(m, u), v) == is_approved_in(m, v),
        u != v ==> is_approved_in(disapprove_in(m, u), v) == is_approved_in(m, v),
{
    reveal_strlit("approved");
    reveal_strlit("disapproved");
    assert(approved_token().len() == 8);
    assert(disapproved_token().len() == 11);
    if u != v {
        lemma_dec_of(u as nat);
        lemma_dec_of(v as nat);
        if user_key(u) == user_key(v) {
            assert(val_of(dec(u as nat)) == val_of(dec(v as nat)));
            assert(false);
        }
    }
}

} // verus!
