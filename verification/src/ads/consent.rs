use vstd::prelude::*;

verus! {

/// UMP (User Messaging Platform) consent state for personalized ads.
#[derive(Clone, Copy, PartialEq, Eq, Debug, Structural)]
pub enum ConsentStatus {
    /// Not yet determined (SDK still resolving, or pre-init).
    Unknown,
    /// Consent is required and not yet obtained — present the form before
    /// requesting ads.
    Required,
    /// Consent is not required in the user's region.
    NotRequired,
    /// Consent has been gathered (or is not required and already resolved).
    Obtained,
}

/// The consent status a raw bridge value stands for.
pub open spec fn consent_of_raw(v: i32) -> ConsentStatus {
    if v == 1 {
        ConsentStatus::Required
    } else if v == 2 {
        ConsentStatus::NotRequired
    } else if v == 3 {
        ConsentStatus::Obtained
    } else {
        ConsentStatus::Unknown
    }
}

/// Whether a consent state permits ad requests: consent is not required, or
/// it was obtained.
pub open spec fn permits_ads(status: ConsentStatus) -> bool {
    status == ConsentStatus::NotRequired || status == ConsentStatus::Obtained
}

impl ConsentStatus {
    /// Decode the bridge's consent value: 1 required, 2 not required,
    /// 3 obtained, anything else unknown.
    pub fn from_i32(v: i32) -> (status: ConsentStatus)
        ensures
            status == consent_of_raw(v),
    {
        match v {
            1 => ConsentStatus::Required,
            2 => ConsentStatus::NotRequired,
            3 => ConsentStatus::Obtained,
            _ => ConsentStatus::Unknown,
        }
    }

    /// Whether consent has resolved far enough to request ads.
    ///
    /// `Unknown` is not ready: wait for the current consent-info refresh to
    /// resolve before loading ads.
    pub fn can_request_ads(self) -> (ready: bool)
        ensures
            ready == permits_ads(self),
    {
        matches!(self, ConsentStatus::NotRequired | ConsentStatus::Obtained)
    }
}

impl Default for ConsentStatus {
    fn default() -> (status: Self)
        ensures
            status == ConsentStatus::Unknown,
    {
        ConsentStatus::Unknown
    }
}

/// Whether UMP requires a visible privacy-options entry point.
#[derive(Clone, Copy, PartialEq, Eq, Debug, Structural)]
pub enum PrivacyOptionsRequirement {
    /// The consent-info refresh has not completed.
    Unknown,
    /// Keep a visible action that presents the privacy options.
    Required,
    /// No privacy-options entry point is required for this user.
    NotRequired,
}

/// The requirement a raw bridge value stands for.
pub open spec fn requirement_of_raw(v: i32) -> PrivacyOptionsRequirement {
    if v == 1 {
        PrivacyOptionsRequirement::Required
    } else if v == 2 {
        PrivacyOptionsRequirement::NotRequired
    } else {
        PrivacyOptionsRequirement::Unknown
    }
}

impl PrivacyOptionsRequirement {
    /// Decode the bridge's value: 1 required, 2 not required, else unknown.
    pub fn from_i32(v: i32) -> (requirement: Self)
        ensures
            requirement == requirement_of_raw(v),
    {
        match v {
            1 => PrivacyOptionsRequirement::Required,
            2 => PrivacyOptionsRequirement::NotRequired,
            _ => PrivacyOptionsRequirement::Unknown,
        }
    }
}

impl Default for PrivacyOptionsRequirement {
    fn default() -> (requirement: Self)
        ensures
            requirement == PrivacyOptionsRequirement::Unknown,
    {
        PrivacyOptionsRequirement::Unknown
    }
}

/// Test-only geography override for UMP consent flows. Ignored unless the
/// configuration serves test ads.
#[derive(Clone, Copy, PartialEq, Eq, Debug, Structural)]
pub enum UmpDebugGeography {
    /// Simulate a user in the European Economic Area.
    Eea,
    /// Simulate a user in a regulated US state.
    RegulatedUsState,
    /// Simulate a geography where no regulation is in force.
    Other,
}

/// The wire value UMP's debug settings use for a geography.
pub open spec fn geography_wire(g: UmpDebugGeography) -> i32 {
    match g {
        UmpDebugGeography::Eea => 1,
        UmpDebugGeography::RegulatedUsState => 3,
        UmpDebugGeography::Other => 4,
    }
}

impl UmpDebugGeography {
    pub fn as_i32(self) -> (value: i32)
        ensures
            value == geography_wire(self),
    {
        match self {
            UmpDebugGeography::Eea => 1,
            UmpDebugGeography::RegulatedUsState => 3,
            UmpDebugGeography::Other => 4,
        }
    }
}

/// Explicit UMP test overrides. Every override is ignored unless the ad
/// configuration serves test ads.
#[derive(Clone, Copy, PartialEq, Eq, Debug, Structural)]
pub struct UmpTestConfig {
    /// Optional geography presented to UMP's debug settings.
    pub geography: Option<UmpDebugGeography>,
    /// Clear UMP consent state before the first consent-info refresh.
    pub reset_consent_on_start: bool,
}

impl Default for UmpTestConfig {
    fn default() -> (config: Self)
        ensures
            config.geography is None,
            !config.reset_consent_on_start,
    {
        UmpTestConfig { geography: None, reset_consent_on_start: false }
    }
}

/// The (geography, reset) values handed to the bridge.
pub open spec fn ump_wire_values(config: UmpTestConfig, use_test_ads: bool) -> (i32, i32) {
    if use_test_ads {
        (
            match config.geography {
                Some(g) => geography_wire(g),
                None => 0,
            },
            if config.reset_consent_on_start { 1 } else { 0 },
        )
    } else {
        (0, 0)
    }
}

impl UmpTestConfig {
    /// The (geography, reset) values handed to the bridge: the overrides for
    /// test ads, and none at all for production ads.
    pub fn wire_values(self, use_test_ads: bool) -> (values: (i32, i32))
        ensures
            values == ump_wire_values(self, use_test_ads),
    {
        if use_test_ads {
            let geography = match self.geography {
                Some(g) => g.as_i32(),
                None => 0,
            };
            (geography, if self.reset_consent_on_start { 1 } else { 0 })
        } else {
            (0, 0)
        }
    }
}

/// Production ads never carry consent debug overrides.
pub proof fn production_ads_ignore_ump_overrides(config: UmpTestConfig)
    ensures
        ump_wire_values(config, false) == (0i32, 0i32),
{
}

} // verus!
