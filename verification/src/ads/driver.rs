//! The per-frame decisions of the ads integration. The engine plumbing calls
//! the bridge when these functions say so and feeds its answers back.

use vstd::prelude::*;
use crate::ads::config::{resolved_unit, AdmobConfig};
use crate::ads::consent::{
    consent_of_raw, permits_ads, requirement_of_raw, ump_wire_values, ConsentStatus, PrivacyOptionsRequirement,
    UmpTestConfig,
};
use crate::ads::events::{AdLoadFailed, AdShowFailed, ConsentUpdated};
use crate::ads::format::{spec_is_full_screen, spec_test_unit_id, test_unit_id, wire_value, AdFormat};
use crate::ads::inventory::{AdInventory, AdLoadState, AdmobState, BannerPosition};
use crate::text::{c_compatible, is_c_compatible, join_with_commas, joined_with_commas};

verus! {

/// What the integration remembers between frames.
#[derive(Clone, Copy, Debug)]
pub struct AdsPoll {
    pub inited: bool,
    pub consent: ConsentStatus,
}

impl Default for AdsPoll {
    fn default() -> (poll: Self)
        ensures
            !poll.inited,
            poll.consent == ConsentStatus::Unknown,
    {
        AdsPoll { inited: false, consent: ConsentStatus::Unknown }
    }
}

/// The arguments of the bridge's start call.
#[derive(Clone, Debug)]
pub struct AdmobInit {
    /// Comma-separated test device ids.
    pub test_devices: String,
    /// 1 when test ads are forced, 0 otherwise.
    pub use_test_ads: i32,
    /// UMP debug geography (0 for none).
    pub debug_geography: i32,
    /// 1 to clear UMP consent before the first refresh.
    pub reset_consent: i32,
}

/// The test device ids of a configuration, as text.
pub open spec fn device_ids(config: AdmobConfig) -> Seq<Seq<char>> {
    config.test_device_ids@.map_values(|p: String| p@)
}

/// Start the SDK the first frame a configuration exists. Returns the start
/// call's arguments when the bridge is to be called; device ids that cannot
/// cross the C boundary are never sent, but the SDK still counts as started.
pub fn init_admob(
    poll: &mut AdsPoll,
    state: &mut AdmobState,
    config: Option<&AdmobConfig>,
    ump: UmpTestConfig,
) -> (call: Option<AdmobInit>)
    ensures
        final(poll).consent == old(poll).consent,
        final(state).consent == old(state).consent,
        final(state).can_request_ads == old(state).can_request_ads,
        final(state).banner_visible == old(state).banner_visible,
        old(poll).inited || config is None ==> (call is None && *final(poll) == *old(poll)
            && final(state).initialized == old(state).initialized),
        !old(poll).inited && config is Some ==> ({
            let c = *config.unwrap();
            let wire = ump_wire_values(ump, c.use_test_ads);
            &&& final(poll).inited
            &&& final(state).initialized
            &&& (call is Some <==> c_compatible(joined_with_commas(device_ids(c))))
            &&& (call matches Some(i) ==> (i.test_devices@ == joined_with_commas(device_ids(c))
                && i.use_test_ads == (if c.use_test_ads { 1i32 } else { 0i32 })
                && i.debug_geography == wire.0 && i.reset_consent == wire.1))
        }),
{
    if poll.inited {
        return None;
    }
    match config {
        None => None,
        Some(c) => {
            poll.inited = true;
            state.initialized = true;
            let joined = join_with_commas(&c.test_device_ids);
            if !is_c_compatible(joined.as_str()) {
                return None;
            }
            let (debug_geography, reset_consent) = ump.wire_values(c.use_test_ads);
            Some(AdmobInit {
                test_devices: joined,
                use_test_ads: if c.use_test_ads { 1 } else { 0 },
                debug_geography,
                reset_consent,
            })
        },
    }
}

/// The unit id requested for a format, with or without a configuration.
pub open spec fn unit_to_request(config: Option<&AdmobConfig>, format: AdFormat) -> Seq<char> {
    match config {
        Some(c) => resolved_unit(c.use_test_ads, c.unit_ids@, format),
        None => spec_test_unit_id(format),
    }
}

/// The unit id to request for a format: resolved from the configuration, or
/// the Google test unit without one.
pub fn unit_for_request(config: Option<&AdmobConfig>, format: AdFormat) -> (id: String)
    ensures
        id@ == unit_to_request(config, format),
{
    match config {
        Some(c) => c.resolve_unit(format),
        None => String::from_str(test_unit_id(format)),
    }
}

/// Why an ad command was refused before ads are permitted.
pub open spec fn refusal_text() -> Seq<char> {
    "consent does not permit ad requests yet"@
}

/// What becomes of one load request.
#[derive(Clone, Debug)]
pub enum LoadDecision {
    /// The SDK is not started, or the format is the banner: nothing happens.
    Ignored,
    /// Ads are not permitted yet: announce this failure; the bridge is not called.
    Refused(AdLoadFailed),
    /// The format is marked loading; call the bridge with the unit id, when
    /// there is one that can cross the C boundary.
    Requested(Option<String>),
}

/// Decide one load request. Before the SDK starts, and for the banner,
/// nothing happens. Until consent permits ads the request is refused with a
/// load failure for the format and the inventory is left alone. Otherwise
/// the format is marked loading and its unit id is handed to the bridge
/// (unless it cannot cross the C boundary).
pub fn request_load(
    poll: &AdsPoll,
    state: &AdmobState,
    config: Option<&AdmobConfig>,
    inventory: &mut AdInventory,
    format: AdFormat,
) -> (decision: LoadDecision)
    ensures
        !(poll.inited && spec_is_full_screen(format)) ==> (decision is Ignored && final(inventory)@ == old(inventory)@),
        poll.inited && spec_is_full_screen(format) && !state.can_request_ads ==> (
            final(inventory)@ == old(inventory)@
            && (decision matches LoadDecision::Refused(f) && f.format == format && f.error@ == refusal_text())),
        poll.inited && spec_is_full_screen(format) && state.can_request_ads ==> (
            final(inventory)@ == old(inventory)@.insert(format, AdLoadState::Loading)
            && (decision matches LoadDecision::Requested(unit)
                && (unit is Some <==> c_compatible(unit_to_request(config, format)))
                && (unit matches Some(u) ==> u@ == unit_to_request(config, format)))),
{
    if !poll.inited || !format.is_full_screen() {
        return LoadDecision::Ignored;
    }
    if !state.can_request_ads {
        return LoadDecision::Refused(AdLoadFailed {
            format,
            error: String::from_str("consent does not permit ad requests yet"),
        });
    }
    inventory.set(format, AdLoadState::Loading);
    let unit = unit_for_request(config, format);
    if is_c_compatible(unit.as_str()) {
        LoadDecision::Requested(Some(unit))
    } else {
        LoadDecision::Requested(None)
    }
}

/// What becomes of one show request.
#[derive(Clone, Debug)]
pub enum ShowDecision {
    /// The SDK is not started: nothing happens.
    Ignored,
    /// Ads are not permitted yet: announce this failure; the bridge is not called.
    Refused(AdShowFailed),
    /// Call the bridge with this format wire value.
    Present(i32),
}

/// Decide one show request. Before the SDK starts nothing happens; until
/// consent permits ads the request is refused with a show failure for the
/// format; otherwise the format's wire value is handed to the bridge.
pub fn request_show(poll: &AdsPoll, state: &AdmobState, format: AdFormat) -> (decision: ShowDecision)
    ensures
        !poll.inited ==> decision is Ignored,
        poll.inited && !state.can_request_ads ==> (decision matches ShowDecision::Refused(f)
            && f.format == format && f.error@ == refusal_text()),
        poll.inited && state.can_request_ads ==> decision == ShowDecision::Present(wire_value(format)),
{
    if !poll.inited {
        return ShowDecision::Ignored;
    }
    if !state.can_request_ads {
        return ShowDecision::Refused(AdShowFailed {
            format,
            error: String::from_str("consent does not permit ad requests yet"),
        });
    }
    ShowDecision::Present(format.as_i32())
}

/// What becomes of one banner-show request.
#[derive(Clone, Debug)]
pub enum BannerDecision {
    /// The SDK is not started: nothing happens.
    Ignored,
    /// Ads are not permitted yet: announce this banner load failure; the
    /// bridge is not called.
    Refused(AdLoadFailed),
    /// The banner counts as visible; call the bridge with its unit id and
    /// position value, when the id can cross the C boundary.
    Shown(Option<(String, i32)>),
}

/// Decide one banner-show request. Before the SDK starts nothing happens;
/// until consent permits ads it is refused with a banner load failure and
/// the state is left alone; otherwise the banner counts as visible, and its
/// unit id and position value are returned for the bridge (unless the id
/// cannot cross the C boundary).
pub fn request_banner(
    poll: &AdsPoll,
    config: Option<&AdmobConfig>,
    state: &mut AdmobState,
    position: BannerPosition,
) -> (decision: BannerDecision)
    ensures
        !poll.inited ==> (decision is Ignored && *final(state) == *old(state)),
        poll.inited && !old(state).can_request_ads ==> (*final(state) == *old(state)
            && (decision matches BannerDecision::Refused(f) && f.format == AdFormat::Banner
                && f.error@ == refusal_text())),
        poll.inited && old(state).can_request_ads ==> (
            *final(state) == (AdmobState { banner_visible: true, ..*old(state) })
            && (decision matches BannerDecision::Shown(call)
                && (call is Some <==> c_compatible(unit_to_request(config, AdFormat::Banner)))
                && (call matches Some(c) ==> (c.0@ == unit_to_request(config, AdFormat::Banner)
                    && c.1 == (if position == BannerPosition::Top { 0i32 } else { 1i32 }))))),
{
    if !poll.inited {
        return BannerDecision::Ignored;
    }
    if !state.can_request_ads {
        return BannerDecision::Refused(AdLoadFailed {
            format: AdFormat::Banner,
            error: String::from_str("consent does not permit ad requests yet"),
        });
    }
    state.banner_visible = true;
    let unit = unit_for_request(config, AdFormat::Banner);
    if is_c_compatible(unit.as_str()) {
        BannerDecision::Shown(Some((unit, position.as_i32())))
    } else {
        BannerDecision::Shown(None)
    }
}

/// Decide one banner-hide request: returns whether to call the bridge.
pub fn hide_banner(poll: &AdsPoll, state: &mut AdmobState) -> (call: bool)
    ensures
        call == poll.inited,
        call ==> *final(state) == (AdmobState { banner_visible: false, ..*old(state) }),
        !call ==> *final(state) == *old(state),
{
    if !poll.inited {
        return false;
    }
    state.banner_visible = false;
    true
}

/// Readiness after one consent poll: a resolved status decides it, while an
/// unknown one (a refresh still pending or failed) keeps what cached consent
/// last allowed.
pub open spec fn readiness_after(before: bool, status: ConsentStatus) -> bool {
    if status == ConsentStatus::Unknown { before } else { permits_ads(status) }
}

/// Project the bridge's consent value: the consent state and whether it
/// permits ad requests. Returns the update to announce when it moved.
pub fn observe_consent(poll: &mut AdsPoll, state: &mut AdmobState, raw: i32) -> (update: Option<ConsentUpdated>)
    ensures
        final(poll).inited == old(poll).inited,
        final(state).initialized == old(state).initialized,
        final(state).banner_visible == old(state).banner_visible,
        !old(poll).inited ==> (update is None && *final(poll) == *old(poll) && *final(state) == *old(state)),
        old(poll).inited ==> final(state).can_request_ads == readiness_after(
            old(state).can_request_ads,
            consent_of_raw(raw),
        ),
        old(poll).inited && consent_of_raw(raw) == old(poll).consent ==> (update is None
            && *final(poll) == *old(poll) && final(state).consent == old(state).consent),
        old(poll).inited && consent_of_raw(raw) != old(poll).consent ==> (
            final(poll).consent == consent_of_raw(raw)
            && final(state).consent == consent_of_raw(raw)
            && (update matches Some(ConsentUpdated(c)) && c == consent_of_raw(raw))),
{
    if !poll.inited {
        return None;
    }
    let consent = ConsentStatus::from_i32(raw);
    if consent != ConsentStatus::Unknown {
        state.can_request_ads = consent.can_request_ads();
    }
    if consent == poll.consent {
        return None;
    }
    poll.consent = consent;
    state.consent = consent;
    Some(ConsentUpdated(consent))
}

/// Project the bridge's privacy-options requirement.
pub fn observe_privacy_options(poll: &AdsPoll, requirement: &mut PrivacyOptionsRequirement, raw: i32)
    ensures
        *final(requirement) == (if poll.inited { requirement_of_raw(raw) } else { *old(requirement) }),
{
    if !poll.inited {
        return;
    }
    let current = PrivacyOptionsRequirement::from_i32(raw);
    if current != *requirement {
        *requirement = current;
    }
}

} // verus!
