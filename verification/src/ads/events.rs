use vstd::prelude::*;
use crate::ads::consent::ConsentStatus;
use crate::ads::format::{format_of_wire, spec_is_full_screen, AdFormat};
use crate::ads::inventory::{AdInventory, AdLoadState};
use crate::text::str_equals;

verus! {

/// A load completed and a creative is ready to present.
#[derive(Clone, Copy, Debug)]
pub struct AdLoaded(pub AdFormat);

/// A load failed (no fill, network, or configuration).
#[derive(Clone, Debug)]
pub struct AdLoadFailed {
    pub format: AdFormat,
    pub error: String,
}

/// A full-screen ad began presenting.
#[derive(Clone, Copy, Debug)]
pub struct AdShown(pub AdFormat);

/// A full-screen ad was dismissed and control returned to the app.
#[derive(Clone, Copy, Debug)]
pub struct AdDismissed(pub AdFormat);

/// Presentation failed (e.g. nothing loaded, or the OS refused).
#[derive(Clone, Debug)]
pub struct AdShowFailed {
    pub format: AdFormat,
    pub error: String,
}

/// The user earned a reward from a rewarded or rewarded-interstitial ad.
/// Grant it idempotently — this fires once per completed view.
#[derive(Clone, Debug)]
pub struct RewardEarned {
    pub format: AdFormat,
    pub amount: i64,
    pub reward_type: String,
}

/// The user tapped the ad.
#[derive(Clone, Copy, Debug)]
pub struct AdClicked(pub AdFormat);

/// The consent state changed.
#[derive(Clone, Copy, Debug)]
pub struct ConsentUpdated(pub ConsentStatus);

/// One event drained from the bridge's queue; `kind` is one of `loaded`,
/// `load_failed`, `shown`, `dismissed`, `show_failed`, `reward`, `clicked`.
#[derive(Clone, Debug)]
pub struct AdEvent {
    pub format: i32,
    pub kind: String,
    pub error: String,
    pub reward_amount: i64,
    pub reward_type: String,
}

impl AdEvent {
    /// An event of `kind` for a format wire value, with no error or reward.
    pub fn new(format: i32, kind: &str) -> (ev: AdEvent)
        ensures
            ev.format == format,
            ev.kind@ == kind@,
            ev.error@.len() == 0,
            ev.reward_amount == 0,
            ev.reward_type@.len() == 0,
    {
        AdEvent {
            format,
            kind: String::from_str(kind),
            error: String::new(),
            reward_amount: 0,
            reward_type: String::new(),
        }
    }
}

/// What the game is told about one bridge event.
#[derive(Clone, Debug)]
pub enum AdNotice {
    Loaded(AdLoaded),
    LoadFailed(AdLoadFailed),
    Shown(AdShown),
    Dismissed(AdDismissed),
    ShowFailed(AdShowFailed),
    Reward(RewardEarned),
    Clicked(AdClicked),
}

/// The inventory after one event for a known format.
pub open spec fn inventory_after(before: Map<AdFormat, AdLoadState>, format: AdFormat, kind: Seq<char>) -> Map<AdFormat, AdLoadState> {
    if kind == "loaded"@ {
        before.insert(format, AdLoadState::Loaded)
    } else if kind == "load_failed"@ {
        before.insert(format, AdLoadState::Failed)
    } else if (kind == "shown"@ || kind == "show_failed"@) && spec_is_full_screen(format) {
        before.insert(format, AdLoadState::Idle)
    } else {
        before
    }
}

/// The notice one event for a known format gives, if any.
pub open spec fn notice_matches(notice: Option<AdNotice>, format: AdFormat, ev: AdEvent) -> bool {
    let kind = ev.kind@;
    if kind == "loaded"@ {
        notice matches Some(AdNotice::Loaded(AdLoaded(f))) && f == format
    } else if kind == "load_failed"@ {
        notice matches Some(AdNotice::LoadFailed(n)) && n.format == format && n.error@ == ev.error@
    } else if kind == "shown"@ {
        notice matches Some(AdNotice::Shown(AdShown(f))) && f == format
    } else if kind == "dismissed"@ {
        notice matches Some(AdNotice::Dismissed(AdDismissed(f))) && f == format
    } else if kind == "show_failed"@ {
        notice matches Some(AdNotice::ShowFailed(n)) && n.format == format && n.error@ == ev.error@
    } else if kind == "reward"@ {
        notice matches Some(AdNotice::Reward(n)) && n.format == format && n.amount == ev.reward_amount
            && n.reward_type@ == ev.reward_type@
    } else if kind == "clicked"@ {
        notice matches Some(AdNotice::Clicked(AdClicked(f))) && f == format
    } else {
        notice is None
    }
}

/// Advance the inventory by one bridge event and say what the game is told.
/// Events for unknown formats and of unknown kinds change nothing. A shown
/// (or failed-to-show) full-screen creative is consumed and needs a fresh load.
pub fn apply_event(inventory: &mut AdInventory, ev: AdEvent) -> (notice: Option<AdNotice>)
    ensures
        format_of_wire(ev.format) is None ==> (notice is None && final(inventory)@ == old(inventory)@),
        format_of_wire(ev.format) matches Some(format) ==> (
            final(inventory)@ == inventory_after(old(inventory)@, format, ev.kind@)
            && notice_matches(notice, format, ev)),
{
    let format = match AdFormat::from_i32(ev.format) {
        Some(f) => f,
        None => return None,
    };
    let kind = ev.kind.as_str();
    proof {
        reveal_strlit("loaded");
        reveal_strlit("load_failed");
        reveal_strlit("shown");
        reveal_strlit("dismissed");
        reveal_strlit("show_failed");
        reveal_strlit("reward");
        reveal_strlit("clicked");
    }
    if str_equals(kind, "loaded") {
        inventory.set(format, AdLoadState::Loaded);
        Some(AdNotice::Loaded(AdLoaded(format)))
    } else if str_equals(kind, "load_failed") {
        inventory.set(format, AdLoadState::Failed);
        Some(AdNotice::LoadFailed(AdLoadFailed { format, error: ev.error }))
    } else if str_equals(kind, "shown") {
        if format.is_full_screen() {
            inventory.set(format, AdLoadState::Idle);
        }
        Some(AdNotice::Shown(AdShown(format)))
    } else if str_equals(kind, "dismissed") {
        assert("show_failed"@.len() == 11);
        assert("dismissed"@.len() == 9);
        assert(ev.kind@ != "show_failed"@);
        Some(AdNotice::Dismissed(AdDismissed(format)))
    } else if str_equals(kind, "show_failed") {
        if format.is_full_screen() {
            inventory.set(format, AdLoadState::Idle);
        }
        Some(AdNotice::ShowFailed(AdShowFailed { format, error: ev.error }))
    } else if str_equals(kind, "reward") {
        Some(AdNotice::Reward(RewardEarned { format, amount: ev.reward_amount, reward_type: ev.reward_type }))
    } else if str_equals(kind, "clicked") {
        Some(AdNotice::Clicked(AdClicked(format)))
    } else {
        None
    }
}

/// A presentation attempt consumes a full-screen creative: after a `shown`
/// or a `show_failed` event the format is idle, so it no longer counts as
/// loaded and the game must load it again; no other format changes. Only a
/// `loaded` event makes a format loaded, and a `load_failed` one marks it
/// failed.
pub proof fn a_presentation_attempt_consumes_the_creative(
    before: Map<AdFormat, AdLoadState>,
    format: AdFormat,
    kind: Seq<char>,
    other: AdFormat,
)
    ensures
        spec_is_full_screen(format) && (kind == "shown"@ || kind == "show_failed"@) ==> (
            inventory_after(before, format, kind)[format] == AdLoadState::Idle),
        other != format ==> inventory_after(before, format, kind)[other] == before[other],
        inventory_after(before, format, kind)[format] == AdLoadState::Loaded ==> (kind == "loaded"@
            || (before[format] == AdLoadState::Loaded && kind != "load_failed"@
                && !(spec_is_full_screen(format) && (kind == "shown"@ || kind == "show_failed"@)))),
        kind == "load_failed"@ ==> inventory_after(before, format, kind)[format] == AdLoadState::Failed,
{
    reveal_strlit("loaded");
    reveal_strlit("load_failed");
    reveal_strlit("shown");
    reveal_strlit("show_failed");
    assert("loaded"@.len() == 6 && "load_failed"@.len() == 11 && "shown"@.len() == 5
        && "show_failed"@.len() == 11);
    assert("load_failed"@[2] != "show_failed"@[2]);
}

} // verus!
