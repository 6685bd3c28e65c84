//! The inbound command grammar: `/status` asks for the light status, and the
//! administrator's `/approve <id>` and `/disapprove <id>` mutate a user's
//! approval flag. The command word may carry the `@botname` suffix that
//! group chats append, written as `@` and a non-empty run of non-space
//! characters. An id is a non-empty run of decimal digits whose value fits
//! in `u64`; anything else parses as no command at all.

use vstd::prelude::*;
use vstd::string::StringExecFns;
use crate::render::{all_digits, digit_val, is_digit, val_of};

verus! {

/// A recognized inbound command.
#[derive(Clone, Copy, PartialEq, Eq, Structural, Debug)]
pub enum Command {
    Status,
    Approve { user_id: u64 },
    Disapprove { user_id: u64 },
}

/// Whether `p` is a prefix of `s`.
pub open spec fn has_prefix(s: Seq<char>, p: Seq<char>) -> bool {
    s.len() >= p.len() && s.subrange(0, p.len() as int) == p
}

/// The text with its leading space-free run removed: what remains is empty
/// or starts with the separating space.
pub open spec fn tail_from_space(s: Seq<char>) -> Seq<char>
    decreases s.len(),
{
    if s.len() == 0 || s[0] == ' ' {
        s
    } else {
        tail_from_space(s.subrange(1, s.len() as int))
    }
}

/// What follows an optional `@botname` mention at the start of `s`: `s`
/// itself when no mention is present, the rest from the separating space
/// when a non-empty mention is, and nothing when `@` introduces an empty
/// mention.
pub open spec fn after_mention(s: Seq<char>) -> Option<Seq<char>> {
    if s.len() == 0 || s[0] != '@' {
        Some(s)
    } else if s.len() >= 2 && s[1] != ' ' {
        Some(tail_from_space(s))
    } else {
        None
    }
}

/// The id an argument denotes: defined exactly for a non-empty all-digit
/// string whose value fits in `u64`.
pub open spec fn u64_arg(s: Seq<char>) -> Option<u64> {
    if s.len() >= 1 && all_digits(s) && val_of(s) <= u64::MAX {
        Some(val_of(s) as u64)
    } else {
        None
    }
}

/// The command a message text denotes, if any: a command word (optionally
/// carrying an `@botname` mention), for the mutations followed by one space
/// and an id, and for `/status` by nothing at all.
pub open spec fn parsed_command(s: Seq<char>) -> Option<Command> {
    if has_prefix(s, "/status"@) {
        match after_mention(s.subrange("/status"@.len() as int, s.len() as int)) {
            Some(r) => if r.len() == 0 {
                Some(Command::Status)
            } else {
                None
            },
            None => None,
        }
    } else if has_prefix(s, "/approve"@) {
        match after_mention(s.subrange("/approve"@.len() as int, s.len() as int)) {
            Some(r) => if r.len() >= 1 && r[0] == ' ' {
                match u64_arg(r.subrange(1, r.len() as int)) {
                    Some(u) => Some(Command::Approve { user_id: u }),
                    None => None,
                }
            } else {
                None
            },
            None => None,
        }
    } else if has_prefix(s, "/disapprove"@) {
        match after_mention(s.subrange("/disapprove"@.len() as int, s.len() as int)) {
            Some(r) => if r.len() >= 1 && r[0] == ' ' {
                match u64_arg(r.subrange(1, r.len() as int)) {
                    Some(u) => Some(Command::Disapprove { user_id: u }),
                    None => None,
                }
            } else {
                None
            },
            None => None,
        }
    } else {
        None
    }
}

/// Strips an optional `@botname` mention from the front of `s`, per
/// `after_mention`.
fn strip_mention<'a>(s: &'a str) -> (r: Option<&'a str>)
    ensures
        r matches Some(t) ==> after_mention(s@) == Some(t@),
        r is None ==> after_mention(s@) is None,
{
    let n = s.unicode_len();
    if n == 0 {
        return Some(s);
    }
    if s.get_char(0) != '@' {
        return Some(s);
    }
    if n < 2 || s.get_char(1) == ' ' {
        return None;
    }
    let mut i: usize = 1;
    while i < n && s.get_char(i) != ' '
        invariant
            1 <= i <= n,
            n == s@.len(),
            s@[0] == '@',
            tail_from_space(s@) == tail_from_space(s@.subrange(i as int, n as int)),
        decreases n - i,
    {
        proof {
            let cur = s@.subrange(i as int, n as int);
            assert(cur[0] == s@[i as int]);
            assert(cur.subrange(1, cur.len() as int) =~= s@.subrange(i as int + 1, n as int));
        }
        i = i + 1;
    }
    let rest = s.substring_char(i, n);
    proof {
        let cur = s@.subrange(i as int, n as int);
        if i < n {
            assert(cur[0] == ' ');
        }
        assert(tail_from_space(cur) == cur);
        assert(rest@ =~= cur);
    }
    Some(rest)
}

/// String equality on text of any script.
fn str_eq(a: &str, b: &str) -> (r: bool)
    ensures
        r == (a@ == b@),
{
    let sa = String::from_str(a);
    let sb = String::from_str(b);
    sa == sb
}

/// Parses an id argument, per `u64_arg`: the decimal value of a non-empty
/// all-digit string, or nothing when a character is no digit or the value
/// overflows `u64`.
pub fn parse_u64(s: &str) -> (r: Option<u64>)
    ensures
        r == u64_arg(s@),
{
    let n = s.unicode_len();
    if n == 0 {
        return None;
    }
    let mut acc: u64 = 0;
    let mut i: usize = 0;
    while i < n
        invariant
            0 < n == s@.len(),
            0 <= i <= n,
            acc == val_of(s@.subrange(0, i as int)),
            forall|j: int| 0 <= j < i ==> is_digit(#[trigger] s@[j]),
        decreases n - i,
    {
        let c = s.get_char(i);
        let v = c as u32;
        if v < 48 || v > 57 {
            assert(!is_digit(s@[i as int]));
            assert(!all_digits(s@));
            return None;
        }
        let d = (v - 48) as u64;
        assert(digit_val(s@[i as int]) == d as nat);
        let ghost next = s@.subrange(0, i as int + 1);
        proof {
            assert(next.drop_last() =~= s@.subrange(0, i as int));
            assert(next.last() == s@[i as int]);
            assert(val_of(next) == acc * 10 + d);
        }
        if acc > (u64::MAX - d) / 10 {
            proof {
                assert(acc * 10 + d > u64::MAX) by (nonlinear_arith)
                    requires
                        acc > (u64::MAX - d) / 10,
                        d <= 9,
                ;
                lemma_val_of_extend(s@, i as int + 1);
                assert(val_of(s@) > u64::MAX);
            }
            return None;
        }
        proof {
            assert(acc * 10 + d <= u64::MAX) by (nonlinear_arith)
                requires
                    acc <= (u64::MAX - d) / 10,
                    d <= 9,
            ;
        }
        acc = acc * 10 + d;
        i = i + 1;
    }
    proof {
        assert(s@.subrange(0, n as int) =~= s@);
    }
    Some(acc)
}

/// A digit string's value only grows as more digits follow: the value of the
/// first `k` characters is at most the value of the whole.
proof fn lemma_val_of_extend(s: Seq<char>, k: int)
    requires
        0 <= k <= s.len(),
    ensures
        val_of(s) >= val_of(s.subrange(0, k)),
    decreases s.len() - k,
{
    if k == s.len() {
        assert(s.subrange(0, k) =~= s);
    } else {
        lemma_val_of_extend(s, k + 1);
        let shorter = s.subrange(0, k);
        let longer = s.subrange(0, k + 1);
        assert(longer.drop_last() =~= shorter);
        assert(val_of(longer) == val_of(shorter) * 10 + digit_val(longer.last()));
        assert(val_of(shorter) * 10 >= val_of(shorter)) by (nonlinear_arith);
    }
}

/// Parses one command word's tail: the optional mention, the separating
/// space, and the id argument.
fn parse_id_tail(rest: &str) -> (r: Option<u64>)
    ensures
        r == (match after_mention(rest@) {
            Some(t) => if t.len() >= 1 && t[0] == ' ' {
                u64_arg(t.subrange(1, t.len() as int))
            } else {
                None::<u64>
            },
            None => None::<u64>,
        }),
{
    match strip_mention(rest) {
        Some(t) => {
            let m = t.unicode_len();
            if m >= 1 && t.get_char(0) == ' ' {
                let arg = t.substring_char(1, m);
                assert(arg@ =~= t@.subrange(1, t@.len() as int));
                parse_u64(arg)
            } else {
                None
            }
        },
        None => None,
    }
}

/// Parses a message text, per `parsed_command`.
pub fn parse_command(text: &str) -> (r: Option<Command>)
    ensures
        r == parsed_command(text@),
{
    proof {
        reveal_strlit("/status");
        reveal_strlit("/approve");
        reveal_strlit("/disapprove");
    }
    let n = text.unicode_len();
    if n >= 7 && str_eq(text.substring_char(0, 7), "/status") {
        assert(has_prefix(text@, "/status"@));
        let rest = text.substring_char(7, n);
        assert(rest@ =~= text@.subrange("/status"@.len() as int, text@.len() as int));
        return match strip_mention(rest) {
            Some(t) => if t.unicode_len() == 0 {
                Some(Command::Status)
            } else {
                None
            },
            None => None,
        };
    }
    assert(!has_prefix(text@, "/status"@));
    if n >= 8 && str_eq(text.substring_char(0, 8), "/approve") {
        assert(has_prefix(text@, "/approve"@));
        let rest = text.substring_char(8, n);
        assert(rest@ =~= text@.subrange("/approve"@.len() as int, text@.len() as int));
        return match parse_id_tail(rest) {
            Some(u) => Some(Command::Approve { user_id: u }),
            None => None,
        };
    }
    assert(!has_prefix(text@, "/approve"@));
    if n >= 11 && str_eq(text.substring_char(0, 11), "/disapprove") {
        assert(has_prefix(text@, "/disapprove"@));
        let rest = text.substring_char(11, n);
        assert(rest@ =~= text@.subrange("/disapprove"@.len() as int, text@.len() as int));
        return match parse_id_tail(rest) {
            Some(u) => Some(Command::Disapprove { user_id: u }),
            None => None,
        };
    }
    assert(!has_prefix(text@, "/disapprove"@));
    None
}

} // verus!
