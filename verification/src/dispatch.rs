//! The command dispatcher's decisions: who may ask for the status, what a
//! status query answers, what acknowledgment an approval mutation gets, and
//! what a forwarded message is answered with. All transport I/O stays with
//! the caller; these functions decide and render the replies.

use vstd::prelude::*;
use vstd::string::StringExecFns;
use crate::command::Command;
use crate::instant::Instant;
use crate::reconcile::{clamp0, or_now};
use crate::render::{dec, duration_formatter, spec_format};
use crate::store::{wake_up_time_key, RedisClient, StoreError};

verus! {

/// The fixed refusal sent to a sender who is neither approved nor the
/// administrator.
pub open spec fn refusal_text() -> Seq<char> {
    "You are not entitled to use this command"@
}

/// The reply to an authorized status query: how long the light has been on.
pub open spec fn answer_text(on: int) -> Seq<char> {
    "Light is on for "@ + spec_format(on)
}

/// How long the light has been on: the span from the last recorded
/// resumption to now, never negative, and zero when the slot was unreadable.
pub open spec fn light_on_millis(wake_read: Result<Instant, StoreError>, now: Instant) -> int {
    clamp0(now.millis - or_now(wake_read, now).millis)
}

/// What a status query is answered with.
pub enum StatusAction {
    /// The message carries no sender identity; the query cannot be handled.
    NotFromUser,
    /// The sender is neither approved nor the administrator.
    Refuse { text: String },
    /// Nothing is sent: the query is stale, or no on-span is recorded.
    Silent,
    /// The status reply.
    Answer { text: String },
}

impl StatusAction {
    /// The reply text carried, if any.
    pub open spec fn text_view(self) -> Option<Seq<char>> {
        match self {
            StatusAction::NotFromUser => None,
            StatusAction::Refuse { text } => Some(text@),
            StatusAction::Silent => None,
            StatusAction::Answer { text } => Some(text@),
        }
    }
}

/// Whether the sender is the configured administrator.
pub fn is_admin(sender: Option<u64>, admin_user_id: u64) -> (r: bool)
    ensures
        r == (sender matches Some(u) && u == admin_user_id),
{
    match sender {
        Some(u) => u == admin_user_id,
        None => false,
    }
}

/// Whether a status query may be answered: the sender's approval flag read
/// `Ok(true)`, or the sender is the administrator. A failed read grants
/// nothing - an unreachable store must never look like permission.
pub open spec fn authorized_spec(
    approval: Result<bool, StoreError>,
    sender: u64,
    admin_user_id: u64,
) -> bool {
    (approval matches Ok(b) && b) || sender == admin_user_id
}

/// Decides a status query's access, per `authorized_spec`.
pub fn authorize(approval: &Result<bool, StoreError>, sender: u64, admin_user_id: u64) -> (r:
    bool)
    ensures
        r == authorized_spec(*approval, sender, admin_user_id),
        approval is Err ==> r == (sender == admin_user_id),
{
    let approved = match approval {
        Ok(b) => *b,
        Err(_) => false,
    };
    approved || sender == admin_user_id
}

/// Renders the answer to an authorized, fresh status query from the
/// resumption-slot read: silence when no positive on-span is recorded,
/// otherwise the on-duration.
pub fn status_answer(wake_read: Result<Instant, StoreError>, now: Instant) -> (a: StatusAction)
    requires
        now.valid(),
        wake_read matches Ok(t) ==> t.valid(),
    ensures
        light_on_millis(wake_read, now) == 0 ==> a is Silent,
        light_on_millis(wake_read, now) > 0 ==> (a matches StatusAction::Answer { text }
            && text@ == answer_text(light_on_millis(wake_read, now))),
{
    let wk = match wake_read {
        Ok(t) => t,
        Err(_) => now,
    };
    let mut on: i64 = now.millis - wk.millis;
    if on < 0 {
        on = 0;
    }
    if on == 0 {
        return StatusAction::Silent;
    }
    let on_text = duration_formatter(on);
    let mut text = String::from_str("Light is on for ");
    text.append(on_text.as_str());
    assert(text@ =~= answer_text(on as int));
    StatusAction::Answer { text }
}

/// The whole status-query decision as a function of the two store reads:
/// no sender is no query; a sender who is neither approved by the read nor
/// the administrator gets the fixed refusal; an authorized query more than
/// a minute old is silently dropped; an authorized fresh query is answered
/// with the recorded on-span, except that a zero (or unreadable, hence
/// substituted and zero; or clamped-negative) on-span sends nothing rather
/// than fabricating an uptime.
pub fn status_decision(
    sender: Option<u64>,
    admin_user_id: u64,
    approval: Result<bool, StoreError>,
    wake_read: Result<Instant, StoreError>,
    now: Instant,
    msg_date: Instant,
) -> (a: StatusAction)
    requires
        now.valid(),
        msg_date.valid(),
        wake_read matches Ok(t) ==> t.valid(),
    ensures
        sender is None ==> a is NotFromUser,
        sender matches Some(u) && !authorized_spec(approval, u, admin_user_id) ==> (
        a matches StatusAction::Refuse { text } && text@ == refusal_text()),
        sender matches Some(u) && authorized_spec(approval, u, admin_user_id) && now.millis
            - msg_date.millis > 60_000 ==> a is Silent,
        sender matches Some(u) && authorized_spec(approval, u, admin_user_id) && now.millis
            - msg_date.millis <= 60_000 && light_on_millis(wake_read, now) == 0 ==> a is Silent,
        sender matches Some(u) && authorized_spec(approval, u, admin_user_id) && now.millis
            - msg_date.millis <= 60_000 && light_on_millis(wake_read, now) > 0 ==> (
        a matches StatusAction::Answer { text } && text@ == answer_text(
            light_on_millis(wake_read, now),
        )),
{
    let user = match sender {
        Some(u) => u,
        None => return StatusAction::NotFromUser,
    };
    if !authorize(&approval, user, admin_user_id) {
        let text = String::from_str("You are not entitled to use this command");
        assert(text@ == refusal_text());
        return StatusAction::Refuse { text };
    }
    if now.millis - msg_date.millis > 60_000 {
        return StatusAction::Silent;
    }
    status_answer(wake_read, now)
}

/// Handles a status query end to end: reads the sender's approval flag,
/// re-reads the resumption slot, and hands both to `status_decision`, which
/// fixes the action for every value the store can have answered. On top of
/// that, whatever came back: an absent sender is never answered, the
/// administrator is never refused, a refusal carries the fixed refusal text
/// and only ever goes to a non-administrator, and an answer only goes to a
/// query at most a minute old.
pub fn handle_status(
    client: &RedisClient,
    sender: Option<u64>,
    admin_user_id: u64,
    now: Instant,
    msg_date: Instant,
) -> (a: StatusAction)
    requires
        now.valid(),
        msg_date.valid(),
    ensures
        (a is NotFromUser) == (sender is None),
        sender matches Some(u) && u == admin_user_id ==> !(a is Refuse),
        a matches StatusAction::Refuse { text } ==> text@ == refusal_text() && !(
        sender matches Some(u) && u == admin_user_id),
        a is Answer ==> now.millis - msg_date.millis <= 60_000,
{
    match sender {
        None => StatusAction::NotFromUser,
        Some(user) => {
            let approval = client.verify_approval(user);
            let wake_read = client.get(wake_up_time_key());
            status_decision(sender, admin_user_id, approval, wake_read, now, msg_date)
        },
    }
}

/// The acknowledgment for an administrator's approval mutation.
pub fn admin_ack(cmd: &Command) -> (s: String)
    requires
        !(cmd is Status),
    ensures
        cmd is Approve ==> s@ == "Approved user"@,
        cmd is Disapprove ==> s@ == "Disapproved user"@,
{
    match cmd {
        Command::Approve { .. } => String::from_str("Approved user"),
        _ => String::from_str("Disapproved user"),
    }
}

/// Ties the acknowledgment to the write's outcome: the fixed acknowledgment
/// exactly when the write succeeded, and the write's own error otherwise -
/// a failed write is never acknowledged.
pub fn ack_of(outcome: Result<(), StoreError>, cmd: &Command) -> (r: Result<String, StoreError>)
    requires
        !(cmd is Status),
    ensures
        r is Ok <==> outcome is Ok,
        r matches Ok(s) ==> (cmd is Approve ==> s@ == "Approved user"@) && (cmd is Disapprove
            ==> s@ == "Disapproved user"@),
        outcome matches Err(e) ==> r == Err::<String, StoreError>(e),
{
    match outcome {
        Ok(_) => Ok(admin_ack(cmd)),
        Err(e) => Err(e),
    }
}

/// Applies an administrator's approval mutation to the store and renders its
/// acknowledgment. The written pair is pinned by
/// `crate::approval::approval_write` behind the store call, and the reply is
/// tied to the write's outcome by `ack_of`: an acknowledgment is returned
/// exactly when the store accepted the write.
pub fn apply_admin_command(client: &RedisClient, cmd: &Command) -> (r: Result<String, StoreError>)
    requires
        !(cmd is Status),
    ensures
        r matches Ok(s) ==> (cmd is Approve ==> s@ == "Approved user"@) && (cmd is Disapprove
            ==> s@ == "Disapproved user"@),
{
    let outcome = match cmd {
        Command::Approve { user_id } => client.approve_user(*user_id),
        Command::Disapprove { user_id } => client.disapprove_user(*user_id),
        Command::Status => Ok(()),
    };
    ack_of(outcome, cmd)
}

/// Who a forwarded message originally came from, as far as the forward
/// metadata says: a user id, or nothing identifiable (a channel or a hidden
/// sender).
#[derive(Clone, Copy, PartialEq, Eq, Structural, Debug)]
pub enum ForwardOrigin {
    User { user_id: u64 },
    Hidden,
}

/// The reply to an administrator who forwarded a message to learn its
/// author: the author's id when the metadata carries one, a fixed apology
/// otherwise.
pub fn forward_reply(origin: &ForwardOrigin) -> (s: String)
    ensures
        origin matches ForwardOrigin::User { user_id } ==> s@ == "Forwarded from "@ + dec(
            user_id as nat,
        ),
        origin is Hidden ==> s@ == "Can't get user id, ask user directly"@,
{
    match origin {
        ForwardOrigin::User { user_id } => {
            let id_text = crate::render::u64_string(*user_id);
            let mut s = String::from_str("Forwarded from ");
            s.append(id_text.as_str());
            assert(s@ =~= "Forwarded from "@ + dec(*user_id as nat));
            s
        },
        ForwardOrigin::Hidden => String::from_str("Can't get user id, ask user directly"),
    }
}

} // verus!
