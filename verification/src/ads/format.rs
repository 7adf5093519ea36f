use vstd::prelude::*;
use crate::text::{lowercase_equals, trim, ascii_lowercase, trimmed};

verus! {

/// Google's official iOS test app id (set as `GADApplicationIdentifier` in
/// `Info.plist` while developing). Real ad ids only serve in production.
pub const TEST_APP_ID: &'static str = "ca-app-pub-3940256099942544~1458002511";

/// An AdMob ad format. Each has a stable wire value shared with the native
/// bridge.
#[derive(Clone, Copy, PartialEq, Eq, Debug, Hash, Structural)]
pub enum AdFormat {
    Banner,
    Interstitial,
    Rewarded,
    RewardedInterstitial,
    AppOpen,
}

/// The wire value of a format.
pub open spec fn wire_value(format: AdFormat) -> i32 {
    match format {
        AdFormat::Banner => 0,
        AdFormat::Interstitial => 1,
        AdFormat::Rewarded => 2,
        AdFormat::RewardedInterstitial => 3,
        AdFormat::AppOpen => 4,
    }
}

/// The format a wire value stands for, if any.
pub open spec fn format_of_wire(value: i32) -> Option<AdFormat> {
    if value == 0 {
        Some(AdFormat::Banner)
    } else if value == 1 {
        Some(AdFormat::Interstitial)
    } else if value == 2 {
        Some(AdFormat::Rewarded)
    } else if value == 3 {
        Some(AdFormat::RewardedInterstitial)
    } else if value == 4 {
        Some(AdFormat::AppOpen)
    } else {
        None
    }
}

/// Whether a format's loaded creative is consumed by one presentation:
/// every format but the persistent banner.
pub open spec fn spec_is_full_screen(format: AdFormat) -> bool {
    format != AdFormat::Banner
}

/// The format a (trimmed, ASCII-lowercased) fake-configuration token names.
pub open spec fn format_of_token(token: Seq<char>) -> Option<AdFormat> {
    let t = ascii_lowercase(trimmed(token));
    if t == "banner"@ {
        Some(AdFormat::Banner)
    } else if t == "interstitial"@ {
        Some(AdFormat::Interstitial)
    } else if t == "rewarded"@ {
        Some(AdFormat::Rewarded)
    } else if t == "rewardedinterstitial"@ || t == "rewarded_interstitial"@ {
        Some(AdFormat::RewardedInterstitial)
    } else if t == "appopen"@ || t == "app_open"@ {
        Some(AdFormat::AppOpen)
    } else {
        None
    }
}

impl AdFormat {
    /// Every format, for iteration.
    pub fn all() -> (formats: [AdFormat; 5])
        ensures
            formats@ == seq![
                AdFormat::Banner,
                AdFormat::Interstitial,
                AdFormat::Rewarded,
                AdFormat::RewardedInterstitial,
                AdFormat::AppOpen,
            ],
    {
        let formats = [
            AdFormat::Banner,
            AdFormat::Interstitial,
            AdFormat::Rewarded,
            AdFormat::RewardedInterstitial,
            AdFormat::AppOpen,
        ];
        assert(formats@ =~= seq![
            AdFormat::Banner,
            AdFormat::Interstitial,
            AdFormat::Rewarded,
            AdFormat::RewardedInterstitial,
            AdFormat::AppOpen,
        ]);
        formats
    }

    /// True for the full-screen formats whose loaded creative is consumed by a
    /// single presentation (everything except the persistent banner).
    pub fn is_full_screen(self) -> (full: bool)
        ensures
            full == spec_is_full_screen(self),
    {
        !matches!(self, AdFormat::Banner)
    }

    /// The wire value shared with the bridge.
    pub fn as_i32(self) -> (value: i32)
        ensures
            value == wire_value(self),
    {
        match self {
            AdFormat::Banner => 0,
            AdFormat::Interstitial => 1,
            AdFormat::Rewarded => 2,
            AdFormat::RewardedInterstitial => 3,
            AdFormat::AppOpen => 4,
        }
    }

    /// The format of a wire value; `None` for an unknown value.
    pub fn from_i32(v: i32) -> (format: Option<AdFormat>)
        ensures
            format == format_of_wire(v),
    {
        match v {
            0 => Some(AdFormat::Banner),
            1 => Some(AdFormat::Interstitial),
            2 => Some(AdFormat::Rewarded),
            3 => Some(AdFormat::RewardedInterstitial),
            4 => Some(AdFormat::AppOpen),
            _ => None,
        }
    }

    /// Parse the lowercase token used by the desktop fake's configuration
    /// (`interstitial`, `app_open`, ...), ignoring surrounding white space and
    /// ASCII case.
    pub fn from_token(token: &str) -> (format: Option<AdFormat>)
        ensures
            format == format_of_token(token@),
    {
        let t = trim(token);
        if lowercase_equals(t, "banner") {
            Some(AdFormat::Banner)
        } else if lowercase_equals(t, "interstitial") {
            Some(AdFormat::Interstitial)
        } else if lowercase_equals(t, "rewarded") {
            Some(AdFormat::Rewarded)
        } else if lowercase_equals(t, "rewardedinterstitial") || lowercase_equals(t, "rewarded_interstitial") {
            Some(AdFormat::RewardedInterstitial)
        } else if lowercase_equals(t, "appopen") || lowercase_equals(t, "app_open") {
            Some(AdFormat::AppOpen)
        } else {
            None
        }
    }
}

/// Google's official iOS test ad unit id for a format.
pub open spec fn spec_test_unit_id(format: AdFormat) -> Seq<char> {
    match format {
        AdFormat::Banner => "ca-app-pub-3940256099942544/2934735716"@,
        AdFormat::Interstitial => "ca-app-pub-3940256099942544/4411468910"@,
        AdFormat::Rewarded => "ca-app-pub-3940256099942544/1712485313"@,
        AdFormat::RewardedInterstitial => "ca-app-pub-3940256099942544/6978759866"@,
        AdFormat::AppOpen => "ca-app-pub-3940256099942544/5575463023"@,
    }
}

/// Google's official iOS test ad unit id for `format`. Always safe to
/// request; returns fillable test creatives without risking policy strikes.
pub fn test_unit_id(format: AdFormat) -> (id: &'static str)
    ensures
        id@ == spec_test_unit_id(format),
{
    match format {
        AdFormat::Banner => "ca-app-pub-3940256099942544/2934735716",
        AdFormat::Interstitial => "ca-app-pub-3940256099942544/4411468910",
        AdFormat::Rewarded => "ca-app-pub-3940256099942544/1712485313",
        AdFormat::RewardedInterstitial => "ca-app-pub-3940256099942544/6978759866",
        AdFormat::AppOpen => "ca-app-pub-3940256099942544/5575463023",
    }
}

/// Every format survives the round trip through its wire value, and no
/// value outside the five wire values names a format.
pub proof fn wire_values_round_trip(format: AdFormat, v: i32)
    ensures
        format_of_wire(wire_value(format)) == Some(format),
        !(0 <= v <= 4) ==> format_of_wire(v) is None,
        format_of_wire(v) matches Some(f) ==> wire_value(f) == v,
{
}

/// The publisher part of an AdMob id: everything before the separator at
/// index 27 (`~` for an app id, `/` for an ad unit).
pub open spec fn publisher(id: Seq<char>) -> Seq<char> {
    id.take(27)
}

/// Each format gets its own test unit, and every test unit belongs to the
/// same publisher as Google's test app id: asking for one format's test unit
/// never returns another format's.
pub proof fn test_units_are_distinct_and_googles(f: AdFormat, g: AdFormat)
    ensures
        f != g ==> spec_test_unit_id(f) != spec_test_unit_id(g),
        publisher(spec_test_unit_id(f)) == publisher(TEST_APP_ID@),
        spec_test_unit_id(f).len() == 38,
        spec_test_unit_id(f)[27] == '/',
{
    reveal_strlit("ca-app-pub-3940256099942544~1458002511");
    reveal_strlit("ca-app-pub-3940256099942544/2934735716");
    reveal_strlit("ca-app-pub-3940256099942544/4411468910");
    reveal_strlit("ca-app-pub-3940256099942544/1712485313");
    reveal_strlit("ca-app-pub-3940256099942544/6978759866");
    reveal_strlit("ca-app-pub-3940256099942544/5575463023");
    if f != g {
        assert(spec_test_unit_id(f)[28] != spec_test_unit_id(g)[28]);
    }
    assert(publisher(spec_test_unit_id(f)) =~= publisher(TEST_APP_ID@));
}

} // verus!
