//! The durable key-value store client: a thin verified layer over a Redis
//! client. The store holds two timestamp slots (the liveness heartbeat and
//! the last power-resumed instant) as RFC 3339 strings, and one approval
//! token per user keyed by the user's decimal id.
//!
//! The store itself is an external collaborator: what a read returns depends
//! on the server, so the trusted wrappers promise nothing about it, and all
//! interpretation of what came back happens in verified functions that take
//! the raw read as an argument.

use vstd::prelude::*;
use crate::approval::{approval_of_read, approval_write};
use crate::command::Command;
use crate::instant::{Instant, MAX_INSTANT_MILLIS, MIN_INSTANT_MILLIS};
use crate::render::u64_string;

verus! {

/// Why a store operation failed: the server could not be reached or refused
/// the command, the key has never been written, or the stored text is not a
/// timestamp.
#[derive(Clone, Copy, PartialEq, Eq, Structural, Debug)]
pub enum StoreError {
    Unavailable,
    Missing,
    Malformed,
}

/// The store key under which the heartbeat writer stamps "process alive now".
pub fn power_on_time_key() -> (s: &'static str)
    ensures
        s@ == "power_on_time"@,
{
    "power_on_time"
}

/// The store key holding the instant power was last confirmed to have resumed.
pub fn wake_up_time_key() -> (s: &'static str)
    ensures
        s@ == "wake_up_time"@,
{
    "wake_up_time"
}

/// Whether `redis::Client::open` accepts `addr` as a Redis URL; a function of
/// the address string alone, since opening performs no I/O.
pub uninterp spec fn redis_url_ok(addr: Seq<char>) -> bool;

/// What `chrono::DateTime::parse_from_rfc3339` makes of a string, as a
/// millisecond count: a function of the string alone.
pub uninterp spec fn rfc3339_millis(s: Seq<char>) -> Option<i64>;

/// The RFC 3339 rendering that `chrono` gives a millisecond count: a function
/// of the count alone.
pub uninterp spec fn rfc3339_of(millis: i64) -> Seq<char>;

#[verifier::external_type_specification]
#[verifier::external_body]
pub struct ExRedisClient(redis::Client);

/// Relies on `redis::Client`'s `Clone`: cloning a client only duplicates the
/// handle, so nothing is promised of the copy.
pub assume_specification[ <redis::Client as Clone>::clone ](c: &redis::Client) -> redis::Client;

/// Relies on `redis::Client::open`: it parses and checks the URL without
/// opening a connection, and returns `Ok` exactly when the URL is accepted.
#[verifier::external_body]
fn open_redis(addr: &str) -> (r: Option<redis::Client>)
    ensures
        r is Some <==> redis_url_ok(addr@),
{
    match redis::Client::open(addr) {
        Ok(c) => Some(c),
        Err(_) => None,
    }
}

/// Relies on `redis::Client::get_connection` and the `GET` command through
/// `redis::Commands::get`. What comes back depends on the server, so nothing
/// is promised of a success; the body maps every failure to `Unavailable`,
/// and that conversion is all the failure clause states.
#[verifier::external_body]
fn redis_get_value(client: &redis::Client, key: &str) -> (r: Result<Option<String>, StoreError>)
    ensures
        r matches Err(e) ==> e == StoreError::Unavailable,
{
    let mut conn = match client.get_connection() {
        Ok(c) => c,
        Err(_) => return Err(StoreError::Unavailable),
    };
    let res: redis::RedisResult<Option<String>> = redis::Commands::get(&mut conn, key);
    match res {
        Ok(v) => Ok(v),
        Err(_) => Err(StoreError::Unavailable),
    }
}

/// Relies on `redis::Client::get_connection` and the `SET` command through
/// `redis::Commands::set`. Whether the write sticks depends on the server,
/// so nothing is promised of a success; the body maps every failure to
/// `Unavailable`, and that conversion is all the failure clause states.
#[verifier::external_body]
fn redis_set_value(client: &redis::Client, key: &str, value: &str) -> (r: Result<(), StoreError>)
    ensures
        r matches Err(e) ==> e == StoreError::Unavailable,
{
    let mut conn = match client.get_connection() {
        Ok(c) => c,
        Err(_) => return Err(StoreError::Unavailable),
    };
    let res: redis::RedisResult<()> = redis::Commands::set(&mut conn, key, value);
    match res {
        Ok(u) => Ok(u),
        Err(_) => Err(StoreError::Unavailable),
    }
}

/// Relies on `chrono::DateTime::parse_from_rfc3339` and
/// `chrono::DateTime::timestamp_millis`: the parsed instant is a function of
/// the string alone.
#[verifier::external_body]
fn parse_rfc3339(s: &str) -> (r: Option<i64>)
    ensures
        r == rfc3339_millis(s@),
{
    match chrono::DateTime::parse_from_rfc3339(s) {
        Ok(t) => Some(t.timestamp_millis()),
        Err(_) => None,
    }
}

/// Relies on `chrono::DateTime::from_timestamp_millis`, which accepts every
/// count in the four-digit-year RFC 3339 range, and on
/// `chrono::DateTime::to_rfc3339`: the rendering is a function of the count
/// alone, and `chrono::DateTime::parse_from_rfc3339` reads it back to the
/// same count, so what one run of the process persists a later run reads.
#[verifier::external_body]
fn render_rfc3339(ms: i64) -> (r: Option<String>)
    requires
        MIN_INSTANT_MILLIS <= ms <= MAX_INSTANT_MILLIS,
    ensures
        r is Some,
        r matches Some(s) ==> s@ == rfc3339_of(ms),
        r matches Some(s) ==> rfc3339_millis(s@) == Some(ms),
{
    match chrono::DateTime::<chrono::Utc>::from_timestamp_millis(ms) {
        Some(t) => Some(t.to_rfc3339()),
        None => None,
    }
}

/// What a raw store read denotes as a timestamp: a read failure is passed
/// through, an absent key is `Missing`, text that does not parse as an
/// RFC 3339 instant in range is `Malformed`, and anything else is the parsed
/// instant.
pub open spec fn spec_instant_of_read(read: Result<Option<String>, StoreError>) -> Result<
    Instant,
    StoreError,
> {
    match read {
        Err(e) => Err(e),
        Ok(v) => match v {
            None => Err(StoreError::Missing),
            Some(s) => match rfc3339_millis(s@) {
                None => Err(StoreError::Malformed),
                Some(ms) => if MIN_INSTANT_MILLIS <= ms <= MAX_INSTANT_MILLIS {
                    Ok(Instant { millis: ms })
                } else {
                    Err(StoreError::Malformed)
                },
            },
        },
    }
}

/// Interprets a raw store read as a timestamp, per `spec_instant_of_read`.
pub fn instant_of_read(read: Result<Option<String>, StoreError>) -> (r: Result<
    Instant,
    StoreError,
>)
    ensures
        r == spec_instant_of_read(read),
        r matches Ok(t) ==> t.valid(),
{
    match read {
        Err(e) => Err(e),
        Ok(v) => match v {
            None => Err(StoreError::Missing),
            Some(s) => match parse_rfc3339(s.as_str()) {
                None => Err(StoreError::Malformed),
                Some(ms) => match Instant::from_millis(ms) {
                    Some(t) => Ok(t),
                    None => Err(StoreError::Malformed),
                },
            },
        },
    }
}

/// Renders a valid instant as the RFC 3339 string the store holds; parsing
/// the rendering gives the instant back, so a persisted timestamp survives a
/// restart's read.
pub fn format_instant(t: &Instant) -> (s: String)
    requires
        t.valid(),
    ensures
        s@ == rfc3339_of(t.millis),
        rfc3339_millis(s@) == Some(t.millis),
        spec_instant_of_read(Ok(Some(s))) == Ok::<Instant, StoreError>(*t),
{
    match render_rfc3339(t.millis) {
        Some(s) => s,
        None => String::new(),
    }
}

/// A handle on the durable store, shared by the reconciler, the heartbeat
/// writer and the command dispatcher.
#[derive(Clone)]
pub struct RedisClient {
    client: redis::Client,
}

impl RedisClient {
    /// Makes a client for the given address. This checks the URL but opens no
    /// connection, so it succeeds exactly when the URL is acceptable.
    pub fn connect(redis_addr: &str) -> (r: Result<RedisClient, StoreError>)
        ensures
            r is Ok <==> redis_url_ok(redis_addr@),
    {
        match open_redis(redis_addr) {
            Some(c) => Ok(RedisClient { client: c }),
            None => Err(StoreError::Unavailable),
        }
    }

    /// Reads a timestamp slot. Whatever the server answered is interpreted
    /// per `spec_instant_of_read`, so a returned instant is always valid.
    pub fn get(&self, key: &str) -> (r: Result<Instant, StoreError>)
        ensures
            r matches Ok(t) ==> t.valid(),
    {
        instant_of_read(redis_get_value(&self.client, key))
    }

    /// Writes a timestamp slot as an RFC 3339 string. Whether the write
    /// sticks is the server's to decide; the only failure it reports is an
    /// unavailable store.
    pub fn set(&self, key: &str, value: Instant) -> (r: Result<(), StoreError>)
        requires
            value.valid(),
        ensures
            r matches Err(e) ==> e == StoreError::Unavailable,
    {
        let s = format_instant(&value);
        redis_set_value(&self.client, key, s.as_str())
    }

    /// Reads the approval flag of a user from the user's decimal-id key.
    /// Whatever the server answered is interpreted per
    /// `crate::approval::spec_approval_of_read`: `Ok(true)` only for the
    /// approved token, and a failed read stays an error - the caller must
    /// treat it as "not approved" (see `crate::dispatch::authorize`).
    pub fn verify_approval(&self, user_id: u64) -> (r: Result<bool, StoreError>)
        ensures
            r matches Err(e) ==> e == StoreError::Unavailable,
    {
        let key = u64_string(user_id);
        approval_of_read(redis_get_value(&self.client, key.as_str()))
    }

    /// Writes one approval mutation: the key and token are produced by
    /// `crate::approval::approval_write`, whose contract pins them to the
    /// user's decimal-id key and the command's token.
    fn manage_user(&self, cmd: &Command) -> (r: Result<(), StoreError>)
        requires
            !(cmd is Status),
        ensures
            r matches Err(e) ==> e == StoreError::Unavailable,
    {
        let kv = approval_write(cmd);
        redis_set_value(&self.client, kv.0.as_str(), kv.1.as_str())
    }

    /// Marks the user approved; see `crate::approval` for the state machine this
    /// write realizes.
    pub fn approve_user(&self, user_id: u64) -> (r: Result<(), StoreError>)
        ensures
            r matches Err(e) ==> e == StoreError::Unavailable,
    {
        self.manage_user(&Command::Approve { user_id })
    }

    /// Marks the user disapproved.
    pub fn disapprove_user(&self, user_id: u64) -> (r: Result<(), StoreError>)
        ensures
            r matches Err(e) ==> e == StoreError::Unavailable,
    {
        self.manage_user(&Command::Disapprove { user_id })
    }
}

} // verus!
