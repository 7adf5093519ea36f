use vstd::prelude::*;
use crate::ads::consent::ConsentStatus;
use crate::ads::format::{wire_value, AdFormat};

verus! {

/// Per-format load state, advanced by bridge events.
#[derive(Clone, Copy, PartialEq, Eq, Debug, Structural)]
pub enum AdLoadState {
    /// Nothing loaded; the slot is empty or the loaded ad was consumed.
    Idle,
    /// A load is in flight.
    Loading,
    /// A creative is loaded and ready to present.
    Loaded,
    /// The last load failed (no fill / network / config). Load again.
    Failed,
}

impl Default for AdLoadState {
    fn default() -> (state: Self)
        ensures
            state == AdLoadState::Idle,
    {
        AdLoadState::Idle
    }
}

/// Where a banner is pinned on screen.
#[derive(Clone, Copy, PartialEq, Eq, Debug, Structural)]
pub enum BannerPosition {
    Top,
    Bottom,
}

impl Default for BannerPosition {
    fn default() -> (position: Self)
        ensures
            position == BannerPosition::Bottom,
    {
        BannerPosition::Bottom
    }
}

impl BannerPosition {
    /// The bridge's value: 0 top, 1 bottom.
    pub fn as_i32(self) -> (value: i32)
        ensures
            value == (if self == BannerPosition::Top { 0i32 } else { 1i32 }),
    {
        match self {
            BannerPosition::Top => 0,
            BannerPosition::Bottom => 1,
        }
    }
}

/// Per-format readiness. Read `is_loaded(format)` before showing.
pub struct AdInventory {
    states: [AdLoadState; 5],
}

impl View for AdInventory {
    type V = Map<AdFormat, AdLoadState>;

    closed spec fn view(&self) -> Map<AdFormat, AdLoadState> {
        Map::new(|f: AdFormat| true, |f: AdFormat| self.states@[wire_value(f) as int])
    }
}

impl Default for AdInventory {
    fn default() -> (inventory: Self)
        ensures
            forall|f: AdFormat| #[trigger] inventory@[f] == AdLoadState::Idle,
    {
        AdInventory::new()
    }
}

impl AdInventory {
    /// Every format idle.
    pub fn new() -> (inventory: Self)
        ensures
            forall|f: AdFormat| #[trigger] inventory@[f] == AdLoadState::Idle,
    {
        AdInventory { states: [AdLoadState::Idle; 5] }
    }

    pub fn state(&self, format: AdFormat) -> (state: AdLoadState)
        ensures
            state == self@[format],
    {
        self.states[format.as_i32() as usize]
    }

    pub fn is_loaded(&self, format: AdFormat) -> (loaded: bool)
        ensures
            loaded <==> self@[format] == AdLoadState::Loaded,
    {
        self.state(format) == AdLoadState::Loaded
    }

    pub fn is_loading(&self, format: AdFormat) -> (loading: bool)
        ensures
            loading <==> self@[format] == AdLoadState::Loading,
    {
        self.state(format) == AdLoadState::Loading
    }

    /// Record a new state for one format; the others are unchanged.
    pub fn set(&mut self, format: AdFormat, state: AdLoadState)
        ensures
            final(self)@ == old(self)@.insert(format, state),
    {
        let i = format.as_i32() as usize;
        self.states[i] = state;
        proof {
            assert forall|f: AdFormat| #[trigger] final(self)@[f] == old(self)@.insert(format, state)[f] by {
                if f != format {
                    assert(wire_value(f) != wire_value(format));
                }
            }
            assert(final(self)@ =~= old(self)@.insert(format, state));
        }
    }
}

/// Coarse SDK, consent and banner state, for UI that needs the big picture.
#[derive(Clone, Copy, Debug)]
pub struct AdmobState {
    /// The Mobile Ads SDK has been started.
    pub initialized: bool,
    /// Current UMP consent state.
    pub consent: ConsentStatus,
    /// Whether UMP permits ad requests. Until it does, ad commands are
    /// reported as failures and never reach the SDK. A consent status that
    /// falls back to unknown keeps the last decision.
    pub can_request_ads: bool,
    /// Whether a banner is currently on screen.
    pub banner_visible: bool,
}

impl Default for AdmobState {
    fn default() -> (state: Self)
        ensures
            !state.initialized,
            state.consent == ConsentStatus::Unknown,
            !state.can_request_ads,
            !state.banner_visible,
    {
        AdmobState { initialized: false, consent: ConsentStatus::Unknown, can_request_ads: false, banner_visible: false }
    }
}

/// What one inventory read gives back of the last write: the written state
/// for that format, and the earlier state for every other.
pub proof fn inventory_reads_back_writes(before: Map<AdFormat, AdLoadState>, format: AdFormat, state: AdLoadState, other: AdFormat)
    requires
        other != format,
    ensures
        before.insert(format, state)[format] == state,
        before.insert(format, state)[other] == before[other],
{
}

} // verus!
