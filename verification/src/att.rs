//! App Tracking Transparency: the authorization status, its change
//! announcements, and the desktop fake's behaviour.

use vstd::prelude::*;
use crate::text::{ascii_lowercase, lowercase_equals};

verus! {

/// ATT authorization status for IDFA access.
#[derive(Clone, Copy, PartialEq, Eq, Debug, Structural)]
pub enum TrackingStatus {
    /// The user has not yet been prompted.
    NotDetermined,
    /// Tracking is restricted (e.g. parental controls); cannot be changed.
    Restricted,
    /// The user denied tracking.
    Denied,
    /// The user authorized tracking — the IDFA is available.
    Authorized,
}

/// The status a raw bridge value stands for.
pub open spec fn tracking_of_raw(v: i32) -> TrackingStatus {
    if v == 1 {
        TrackingStatus::Restricted
    } else if v == 2 {
        TrackingStatus::Denied
    } else if v == 3 {
        TrackingStatus::Authorized
    } else {
        TrackingStatus::NotDetermined
    }
}

impl TrackingStatus {
    /// Decode the bridge's value: 1 restricted, 2 denied, 3 authorized,
    /// anything else not determined.
    pub fn from_i32(v: i32) -> (status: TrackingStatus)
        ensures
            status == tracking_of_raw(v),
    {
        match v {
            1 => TrackingStatus::Restricted,
            2 => TrackingStatus::Denied,
            3 => TrackingStatus::Authorized,
            _ => TrackingStatus::NotDetermined,
        }
    }

    pub fn is_authorized(self) -> (authorized: bool)
        ensures
            authorized <==> self == TrackingStatus::Authorized,
    {
        matches!(self, TrackingStatus::Authorized)
    }

    /// Whether the prompt can no longer be shown (it can only from
    /// `NotDetermined`).
    pub fn is_determined(self) -> (determined: bool)
        ensures
            determined <==> self != TrackingStatus::NotDetermined,
    {
        !matches!(self, TrackingStatus::NotDetermined)
    }
}

impl Default for TrackingStatus {
    fn default() -> (status: Self)
        ensures
            status == TrackingStatus::NotDetermined,
    {
        TrackingStatus::NotDetermined
    }
}

/// Emitted when the tracking status changes.
#[derive(Clone, Copy, Debug)]
pub struct TrackingStatusChanged(pub TrackingStatus);

/// Project the bridge's status value. Returns the change to announce when it
/// moved.
pub fn observe_tracking(status: &mut TrackingStatus, raw: i32) -> (changed: Option<TrackingStatusChanged>)
    ensures
        *final(status) == tracking_of_raw(raw),
        changed is Some <==> tracking_of_raw(raw) != *old(status),
        changed matches Some(TrackingStatusChanged(s)) ==> s == tracking_of_raw(raw),
{
    let current = TrackingStatus::from_i32(raw);
    if current == *status {
        return None;
    }
    *status = current;
    Some(TrackingStatusChanged(current))
}

/// Whether this frame makes the native tracking request: however many
/// requests arrived, they share one call, and none arriving makes none.
pub fn tracking_request_due(requests_read: usize) -> (call: bool)
    ensures
        call <==> requests_read > 0,
{
    requests_read > 0
}

/// What a tracking request resolves to under the desktop fake's setting:
/// authorized unless it says `restricted` (1), `denied` (2) or
/// `notdetermined` (0), ignoring ASCII case.
pub open spec fn tracking_status_of_setting(setting: Option<&str>) -> i32 {
    let v = match setting {
        Some(s) => ascii_lowercase(s@),
        None => Seq::<char>::empty(),
    };
    if v == "restricted"@ {
        1
    } else if v == "denied"@ {
        2
    } else if v == "notdetermined"@ {
        0
    } else {
        3
    }
}

/// The desktop stand-in for the ATT bridge: a request resolves at once to
/// what the setting says.
pub struct FakeTracking {
    pub status: i32,
    pub requests: u64,
}

impl FakeTracking {
    pub fn new() -> (f: Self)
        ensures
            f.status == 0,
            f.requests == 0,
    {
        FakeTracking { status: 0, requests: 0 }
    }

    /// Present the prompt: counted, and resolved to the setting's answer.
    pub fn request(&mut self, setting: Option<&str>)
        ensures
            final(self).status == tracking_status_of_setting(setting),
            final(self).requests == (if old(self).requests < u64::MAX { old(self).requests + 1 } else { old(self).requests as int }),
    {
        if self.requests < u64::MAX {
            self.requests = self.requests + 1;
        }
        self.status = match setting {
            Some(s) => {
                if lowercase_equals(s, "restricted") {
                    1
                } else if lowercase_equals(s, "denied") {
                    2
                } else if lowercase_equals(s, "notdetermined") {
                    0
                } else {
                    3
                }
            },
            None => {
                proof {
                    reveal_strlit("restricted");
                    reveal_strlit("denied");
                    reveal_strlit("notdetermined");
                    assert("restricted"@.len() == 10);
                    assert("denied"@.len() == 6);
                    assert("notdetermined"@.len() == 13);
                }
                3
            },
        };
    }
}

impl Default for FakeTracking {
    fn default() -> (f: Self)
        ensures
            f.status == 0,
            f.requests == 0,
    {
        FakeTracking::new()
    }
}

} // verus!
