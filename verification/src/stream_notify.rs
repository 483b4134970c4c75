//! Cooldown-gated shout-out guard: decides whether a "member started
//! streaming" event is announced, at most once per cooldown window per
//! (guild, user) pair, and persists the decision before anything is sent.

use vstd::prelude::*;
use crate::database::Handle;
use crate::database::Member;
use crate::database::RepoError;
use crate::database::StoreModel;
use crate::database::member_last_notify;
use crate::database::stored_member;
use crate::text::parse_i64;
use crate::text::parsed_i64;

verus! {

/// The cooldown window used when no override setting is given: 6 hours.
pub const DEFAULT_STREAM_NOTIFY_COOLDOWN: i64 = 21600;

/// Verdict of the cooldown guard: skip the event, or notify and persist the
/// member refreshed with the decision time.
#[derive(Clone, PartialEq, Eq, Structural, Debug)]
pub enum Decision {
    Skip,
    Notify(Member),
}

/// The cooldown rule: a new shout-out is due exactly when more than
/// `cooldown` seconds have passed since the member's last one.
pub open spec fn cooldown_elapsed(member: Member, now: i64, cooldown: i64) -> bool {
    now - member.last_stream_notify_timestamp > cooldown
}

/// Decide whether a streaming event for `member` observed at `now` is
/// announced. On `Notify`, the returned member carries `now` as its last
/// shout-out time and must be persisted before the announcement is sent.
pub fn decide(member: &Member, now: i64, cooldown: i64) -> (r: Decision)
    ensures
        cooldown_elapsed(*member, now, cooldown) ==> r == Decision::Notify(
            Member { last_stream_notify_timestamp: now },
        ),
        !cooldown_elapsed(*member, now, cooldown) ==> r == Decision::Skip,
{
    if (now as i128) - (member.last_stream_notify_timestamp as i128) > (cooldown as i128) {
        Decision::Notify(Member { last_stream_notify_timestamp: now })
    } else {
        Decision::Skip
    }
}

/// The cooldown window an override setting resolves to: its value when it
/// is a well formed signed 64-bit numeral, the default otherwise.
pub open spec fn effective_cooldown(raw: Option<Seq<char>>) -> int {
    match raw {
        None => DEFAULT_STREAM_NOTIFY_COOLDOWN as int,
        Some(s) => match parsed_i64(s) {
            Some(v) => v,
            None => DEFAULT_STREAM_NOTIFY_COOLDOWN as int,
        },
    }
}

/// Resolve the cooldown window from an optional override setting; a
/// missing or malformed override falls back to the default rather than
/// failing.
pub fn cooldown_seconds(raw: Option<&str>) -> (r: i64)
    ensures
        r == effective_cooldown(
            match raw {
                Some(s) => Some(s@),
                None => None,
            },
        ),
{
    match raw {
        None => DEFAULT_STREAM_NOTIFY_COOLDOWN,
        Some(s) => match parse_i64(s) {
            Some(v) => v,
            None => DEFAULT_STREAM_NOTIFY_COOLDOWN,
        },
    }
}

/// Handle one "member started streaming" event: load the member's state,
/// ask the guard, and — when a shout-out is due — persist the refreshed
/// timestamp before anything is sent, so a duplicate event that reads
/// after this write falls under the new cooldown window and is skipped.
pub fn handle_presence_event(
    db: &mut Handle,
    guild_id: u64,
    user_id: u64,
    now: i64,
    cooldown: i64,
) -> (r: Result<Decision, RepoError>)
    ensures
        r matches Ok(d) ==> match d {
            Decision::Notify(m) => cooldown_elapsed(
                stored_member(old(db)@, guild_id, user_id),
                now,
                cooldown,
            ) && m == (Member { last_stream_notify_timestamp: now }) && final(db)@ == old(
                db,
            )@.with_member(guild_id, user_id, now),
            Decision::Skip => !cooldown_elapsed(
                stored_member(old(db)@, guild_id, user_id),
                now,
                cooldown,
            ) && final(db)@ == old(db)@,
        },
        r is Err ==> r->Err_0 == RepoError::StoreFailure && final(db)@ == old(db)@,
{
    let member = match db.member(guild_id, user_id) {
        Ok(m) => m,
        Err(e) => {
            return Err(e);
        },
    };
    match decide(&member, now, cooldown) {
        Decision::Skip => Ok(Decision::Skip),
        Decision::Notify(updated) => {
            match db.member_update(guild_id, user_id, &updated) {
                Ok(()) => Ok(Decision::Notify(updated)),
                Err(e) => Err(e),
            }
        },
    }
}

/// Law: under a non-negative cooldown window, a notify verdict is only
/// reached when `now` lies strictly after the member's last shout-out, so
/// persisting the verdict never moves a stored timestamp backwards.
pub proof fn lemma_notify_is_monotonic(member: Member, now: i64, cooldown: i64)
    requires
        cooldown >= 0,
        cooldown_elapsed(member, now, cooldown),
    ensures
        now > member.last_stream_notify_timestamp,
{
}

/// Law: under a non-negative cooldown window, persisting a notify verdict
/// strictly raises the member's stored timestamp — it is monotonically
/// non-decreasing across the lifetime of the store, since nothing else
/// ever writes it.
pub proof fn lemma_persisted_timestamp_monotonic(
    model: StoreModel,
    guild_id: u64,
    user_id: u64,
    now: i64,
    cooldown: i64,
)
    requires
        cooldown >= 0,
        cooldown_elapsed(stored_member(model, guild_id, user_id), now, cooldown),
    ensures
        member_last_notify(model.with_member(guild_id, user_id, now), guild_id, user_id)
            > member_last_notify(model, guild_id, user_id),
{
    let updated = model.with_member(guild_id, user_id, now);
    assert(updated.members.contains_key((guild_id, user_id)));
    assert(member_last_notify(updated, guild_id, user_id) == now);
}

/// Law: once a notify verdict's timestamp `now1` is persisted, any event
/// that reads the store after that write and within the new cooldown
/// window is skipped — sequential decide-and-persist rounds never notify
/// twice within one window. Only two rounds that both read before either
/// writes can double-notify.
pub proof fn lemma_no_double_notify_after_persist(
    model: StoreModel,
    guild_id: u64,
    user_id: u64,
    now1: i64,
    now2: i64,
    cooldown: i64,
)
    requires
        now2 - now1 <= cooldown,
    ensures
        !cooldown_elapsed(
            stored_member(model.with_member(guild_id, user_id, now1), guild_id, user_id),
            now2,
            cooldown,
        ),
{
    let updated = model.with_member(guild_id, user_id, now1);
    assert(updated.members.contains_key((guild_id, user_id)));
    assert(stored_member(updated, guild_id, user_id).last_stream_notify_timestamp == now1);
}

} // verus!
