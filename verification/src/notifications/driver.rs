//! The per-frame decisions of the notifications integration. The engine
//! plumbing calls the bridge when these functions say so and feeds its
//! answers back.

use vstd::prelude::*;
use crate::notifications::types::{
    permission_of_raw, without, NotificationEvent, NotificationOpened, NotificationPermission,
    NotificationPermissionChanged, NotificationScheduleFailed, PendingNotifications,
    ScheduleNotification,
};
use crate::text::{c_compatible, is_c_compatible};

verus! {

/// Whether every text of a request can cross the C boundary.
pub open spec fn request_crosses(request: ScheduleNotification) -> bool {
    c_compatible(request.id@) && c_compatible(request.title@) && c_compatible(request.body@)
}

/// Check that a request can reach the bridge at all. A text holding a NUL
/// cannot cross a C boundary; it is refused with a reason rather than
/// truncated into something the player would read.
pub fn check_schedule(request: &ScheduleNotification) -> (failure: Option<NotificationScheduleFailed>)
    ensures
        failure is None <==> request_crosses(*request),
        failure matches Some(f) ==> (f.id@ == request.id@ && f.reason@ == "text contains a NUL byte"@),
{
    if is_c_compatible(request.id.as_str()) && is_c_compatible(request.title.as_str())
        && is_c_compatible(request.body.as_str()) {
        None
    } else {
        Some(NotificationScheduleFailed {
            id: request.id.clone(),
            reason: String::from_str("text contains a NUL byte"),
        })
    }
}

/// What a non-zero schedule result means. Both bridges refuse for these
/// stated reasons.
pub open spec fn spec_refusal(code: i32) -> Seq<char> {
    if code == 1 {
        "an id and an interval greater than zero are required"@
    } else if code == 2 {
        "notifications are not authorized"@
    } else {
        "the system refused the request"@
    }
}

/// What a non-zero schedule result means.
pub fn refusal(code: i32) -> (reason: &'static str)
    ensures
        reason@ == spec_refusal(code),
{
    match code {
        1 => "an id and an interval greater than zero are required",
        2 => "notifications are not authorized",
        _ => "the system refused the request",
    }
}

/// Record the bridge's answer to a schedule request: accepted requests are
/// pending (an id already pending is not added twice), refused ones are
/// reported with their reason.
pub fn record_schedule(pending: &mut PendingNotifications, id: &str, code: i32) -> (failure: Option<NotificationScheduleFailed>)
    ensures
        code == 0 ==> (failure is None && final(pending)@ == (if old(pending)@.contains(id@) {
            old(pending)@
        } else {
            old(pending)@.push(id@)
        })),
        code != 0 ==> (final(pending)@ == old(pending)@ && (failure matches Some(f) && f.id@ == id@
            && f.reason@ == spec_refusal(code))),
{
    if code == 0 {
        pending.record(id);
        None
    } else {
        Some(NotificationScheduleFailed { id: String::from_str(id), reason: String::from_str(refusal(code)) })
    }
}

/// Cancel one pending notification. It is no longer pending; returns whether
/// the bridge is to be told (only an id that can cross the C boundary).
pub fn cancel_notification(pending: &mut PendingNotifications, id: &str) -> (call: bool)
    ensures
        final(pending)@ == without(old(pending)@, id@),
        call == c_compatible(id@),
{
    let call = is_c_compatible(id);
    pending.remove(id);
    call
}

/// One poll: the new permission, and whether a change is announced.
pub open spec fn polled_permission(before: NotificationPermission, raw: i32) -> (NotificationPermission, bool) {
    (permission_of_raw(raw), permission_of_raw(raw) != before)
}

/// Project the bridge's permission value. Returns the change to announce
/// when it moved.
pub fn observe_permission(permission: &mut NotificationPermission, raw: i32) -> (changed: Option<NotificationPermissionChanged>)
    ensures
        *final(permission) == polled_permission(*old(permission), raw).0,
        changed is Some <==> polled_permission(*old(permission), raw).1,
        changed matches Some(NotificationPermissionChanged(p)) ==> p == permission_of_raw(raw),
{
    let current = NotificationPermission::from_i32(raw);
    if current == *permission {
        return None;
    }
    *permission = current;
    Some(NotificationPermissionChanged(current))
}

/// What the game is told about one drained event.
#[derive(Clone, Debug)]
pub enum NotificationNotice {
    Opened(NotificationOpened),
    Failed(NotificationScheduleFailed),
}

/// The id an event is about.
pub open spec fn event_id(ev: NotificationEvent) -> Seq<char> {
    match ev {
        NotificationEvent::Opened { id } => id@,
        NotificationEvent::ScheduleFailed { id, .. } => id@,
    }
}

/// Apply one drained event: an opened notification was delivered and a
/// failed one never will be, so either way it is no longer pending.
pub fn apply_notification_event(pending: &mut PendingNotifications, ev: NotificationEvent) -> (notice: NotificationNotice)
    ensures
        final(pending)@ == without(old(pending)@, event_id(ev)),
        match ev {
            NotificationEvent::Opened { id } => (notice matches NotificationNotice::Opened(NotificationOpened(o)) && o@ == id@),
            NotificationEvent::ScheduleFailed { id, reason } => (notice matches NotificationNotice::Failed(f)
                && f.id@ == id@ && f.reason@ == reason@),
        },
{
    match ev {
        NotificationEvent::Opened { id } => {
            pending.remove(id.as_str());
            NotificationNotice::Opened(NotificationOpened(id))
        },
        NotificationEvent::ScheduleFailed { id, reason } => {
            pending.remove(id.as_str());
            NotificationNotice::Failed(NotificationScheduleFailed { id, reason })
        },
    }
}

/// A permission change is announced once, not once a frame: polling the same
/// value again announces nothing.
pub proof fn permission_change_is_announced_once(before: NotificationPermission, raw: i32)
    ensures
        !polled_permission(polled_permission(before, raw).0, raw).1,
{
}

/// The same id replaces rather than stacks: recording an accepted request
/// for an id twice leaves it pending once.
pub proof fn same_id_replaces_rather_than_stacks(pending: Seq<Seq<char>>, id: Seq<char>)
    ensures
        ({
            let once = if pending.contains(id) { pending } else { pending.push(id) };
            let twice = if once.contains(id) { once } else { once.push(id) };
            twice == once && once.contains(id)
        }),
{
    if !pending.contains(id) {
        assert(pending.push(id)[pending.len() as int] == id);
    }
}

} // verus!
