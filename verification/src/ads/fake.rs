//! The desktop stand-in for the AdMob bridge: a deterministic model of the
//! SDK, so ad flows run with no SDK or device. Loads resolve at once (queued
//! as events drained next frame), shows emit `shown` then `dismissed`, and
//! rewarded formats emit a `reward` before dismissing.
//!
//! It is tuned by text settings, which the host reads from its environment:
//! formats that fail to load, formats that fail to present, the reward
//! amount and type, whether consent starts `Required`, and whether the
//! privacy-options entry point is required.

use vstd::prelude::*;
use crate::ads::events::AdEvent;
use crate::ads::format::{format_of_token, wire_value, AdFormat};
use crate::text::{lowercase_equals, parse_i64, parsed_i64, split_commas, split_on};

verus! {

/// The wire value of the format a token names, if any.
pub open spec fn token_wire(token: Seq<char>) -> Option<i32> {
    match format_of_token(token) {
        Some(f) => Some(wire_value(f)),
        None => None,
    }
}

/// The wire values of the formats a comma-separated setting names.
pub open spec fn listed_formats(setting: Seq<char>) -> Set<i32> {
    Set::new(|v: i32| exists|k: int|
        0 <= k < split_on(setting, ',').len()
        && token_wire(#[trigger] split_on(setting, ',')[k]) == Some(v))
}

/// Whether a setting that may be unset names `format` (unset names nothing).
pub open spec fn names_format(setting: Option<&str>, format: i32) -> bool {
    match setting {
        Some(s) => listed_formats(s@).contains(format),
        None => false,
    }
}

/// Whether a comma-separated setting (unset names nothing) names `format`.
pub fn setting_names_format(setting: Option<&str>, format: i32) -> (named: bool)
    ensures
        named == names_format(setting, format),
{
    let s = match setting {
        Some(s) => s,
        None => return false,
    };
    let pieces = split_commas(s);
    let ghost parts = split_on(s@, ',');
    assert(pieces@.len() == parts.len());
    let mut k: usize = 0;
    while k < pieces.len()
        invariant
            pieces@.map_values(|p: String| p@) == parts,
            parts == split_on(s@, ','),
            setting == Some(s),
            k <= pieces@.len(),
            forall|j: int| 0 <= j < k ==> #[trigger] token_wire(parts[j]) != Some(format),
        decreases pieces@.len() - k,
    {
        assert(pieces@[k as int]@ == parts[k as int]);
        match AdFormat::from_token(pieces[k].as_str()) {
            Some(f) => {
                if f.as_i32() == format {
                    assert(token_wire(split_on(s@, ',')[k as int]) == Some(format));
                    assert(listed_formats(s@).contains(format));
                    return true;
                }
            },
            None => {},
        }
        k = k + 1;
    }
    assert(!listed_formats(s@).contains(format)) by {
        if listed_formats(s@).contains(format) {
            let k = choose|k: int|
                0 <= k < split_on(s@, ',').len()
                && token_wire(#[trigger] split_on(s@, ',')[k]) == Some(format);
            assert(token_wire(parts[k]) == Some(format));
        }
    }
    false
}

/// Whether a setting, ignoring ASCII case, says `required` (unset does not).
pub open spec fn says_required(setting: Option<&str>) -> bool {
    match setting {
        Some(s) => crate::text::ascii_lowercase(s@) == "required"@,
        None => false,
    }
}

/// Whether a setting, ignoring ASCII case, says `required`.
pub fn setting_says_required(setting: Option<&str>) -> (required: bool)
    ensures
        required == says_required(setting),
{
    match setting {
        Some(s) => lowercase_equals(s, "required"),
        None => false,
    }
}

/// The reward amount a setting gives: its decimal value, or 1 when it is
/// unset or not a valid `i64`.
pub open spec fn reward_amount_of(setting: Option<&str>) -> i64 {
    match setting {
        Some(s) => match parsed_i64(s@) {
            Some(v) => v,
            None => 1,
        },
        None => 1,
    }
}

/// The reward type a setting gives: its text, or `Reward` when unset.
pub open spec fn reward_type_of(setting: Option<&str>) -> Seq<char> {
    match setting {
        Some(s) => s@,
        None => "Reward"@,
    }
}

/// Whether a format grants a reward when shown.
pub open spec fn grants_reward(format: i32) -> bool {
    format == wire_value(AdFormat::Rewarded) || format == wire_value(AdFormat::RewardedInterstitial)
}

proof fn lemma_push_to_set(s: Seq<i32>, v: i32)
    ensures
        s.push(v).to_set() == s.to_set().insert(v),
{
    assert forall|a: i32| #[trigger] s.push(v).to_set().contains(a) <==> s.to_set().insert(v).contains(a) by {
        if s.contains(a) {
            let i = choose|i: int| 0 <= i < s.len() && s[i] == a;
            assert(s.push(v)[i] == a);
        }
        if a == v {
            assert(s.push(v)[s.len() as int] == v);
        }
        if s.push(v).contains(a) {
            let i = choose|i: int| 0 <= i < s.push(v).len() && s.push(v)[i] == a;
            if i < s.len() {
                assert(s[i] == a);
            }
        }
    }
    assert(s.push(v).to_set() =~= s.to_set().insert(v));
}

/// The modelled SDK.
pub struct FakeAdmob {
    pub use_test_ads: bool,
    /// 1 required, 3 obtained (0 before start).
    pub consent: i32,
    /// 1 required, 2 not required (0 before start).
    pub privacy_options: i32,
    /// The formats holding a loaded creative.
    pub loaded: Vec<i32>,
    /// Events not yet drained, oldest first.
    pub events: Vec<AdEvent>,
    /// The UMP debug geography and reset flag the start call handed over.
    pub ump_test: (i32, bool),
    /// How many times the privacy-options form was presented.
    pub presentations: usize,
}

/// The loaded formats, as a set.
pub open spec fn loaded_set(f: FakeAdmob) -> Set<i32> {
    f.loaded@.to_set()
}

/// Whether an event is for `format`, of `kind`, with exactly this error text
/// and reward (an event that is no failure or reward has them empty and 0).
pub open spec fn event_is(ev: AdEvent, format: i32, kind: Seq<char>, error: Seq<char>, amount: i64, reward_type: Seq<char>) -> bool {
    &&& ev.format == format
    &&& ev.kind@ =~= kind
    &&& ev.error@ =~= error
    &&& ev.reward_amount == amount
    &&& ev.reward_type@ =~= reward_type
}

/// Whether two fakes agree on everything but their loaded formats and
/// queued events: the start settings, consent, the privacy-options
/// requirement and the presentation count.
pub open spec fn same_settings(a: FakeAdmob, b: FakeAdmob) -> bool {
    &&& a.use_test_ads == b.use_test_ads
    &&& a.consent == b.consent
    &&& a.privacy_options == b.privacy_options
    &&& a.ump_test == b.ump_test
    &&& a.presentations == b.presentations
}

/// The state a fresh fake starts in.
pub open spec fn is_fresh(f: FakeAdmob) -> bool {
    &&& !f.use_test_ads
    &&& f.consent == 0
    &&& f.privacy_options == 0
    &&& f.loaded@.len() == 0
    &&& f.events@.len() == 0
    &&& f.ump_test == (0i32, false)
    &&& f.presentations == 0
}

impl FakeAdmob {
    pub fn new() -> (f: Self)
        ensures
            is_fresh(f),
    {
        FakeAdmob {
            use_test_ads: false,
            consent: 0,
            privacy_options: 0,
            loaded: Vec::new(),
            events: Vec::new(),
            ump_test: (0, false),
            presentations: 0,
        }
    }

    /// Clear everything back to a fresh fake.
    pub fn reset(&mut self)
        ensures
            is_fresh(*final(self)),
    {
        *self = FakeAdmob::new();
    }

    /// Start the SDK: consent starts required when the consent setting says
    /// so (obtained otherwise), and likewise the privacy-options entry point.
    pub fn init(
        &mut self,
        use_test_ads: i32,
        debug_geography: i32,
        reset_consent: i32,
        consent_setting: Option<&str>,
        privacy_setting: Option<&str>,
    )
        ensures
            final(self).use_test_ads == (use_test_ads != 0),
            final(self).consent == (if says_required(consent_setting) { 1i32 } else { 3i32 }),
            final(self).privacy_options == (if says_required(privacy_setting) { 1i32 } else { 2i32 }),
            final(self).ump_test == (debug_geography, reset_consent != 0),
            final(self).loaded@ == old(self).loaded@,
            final(self).events@ == old(self).events@,
            final(self).presentations == old(self).presentations,
    {
        self.use_test_ads = use_test_ads != 0;
        self.consent = if setting_says_required(consent_setting) { 1 } else { 3 };
        self.privacy_options = if setting_says_required(privacy_setting) { 1 } else { 2 };
        self.ump_test = (debug_geography, reset_consent != 0);
    }

    fn forget(&mut self, format: i32)
        ensures
            loaded_set(*final(self)) == loaded_set(*old(self)).remove(format),
            final(self).events@ == old(self).events@,
            same_settings(*final(self), *old(self)),
    {
        let mut kept: Vec<i32> = Vec::new();
        let mut i: usize = 0;
        while i < self.loaded.len()
            invariant
                i <= self.loaded@.len(),
                kept@.to_set() == self.loaded@.take(i as int).to_set().remove(format),
            decreases self.loaded@.len() - i,
        {
            let v = self.loaded[i];
            proof {
                assert(self.loaded@.take(i + 1) =~= self.loaded@.take(i as int).push(v));
                lemma_push_to_set(self.loaded@.take(i as int), v);
            }
            if v != format {
                proof {
                    lemma_push_to_set(kept@, v);
                }
                kept.push(v);
            }
            assert(kept@.to_set() =~= self.loaded@.take(i + 1).to_set().remove(format));
            i = i + 1;
        }
        assert(self.loaded@.take(self.loaded@.len() as int) =~= self.loaded@);
        self.loaded = kept;
    }

    fn remember(&mut self, format: i32)
        ensures
            loaded_set(*final(self)) == loaded_set(*old(self)).insert(format),
            final(self).events@ == old(self).events@,
            same_settings(*final(self), *old(self)),
    {
        proof {
            lemma_push_to_set(self.loaded@, format);
        }
        self.loaded.push(format);
    }

    fn holds(&self, format: i32) -> (held: bool)
        ensures
            held == loaded_set(*self).contains(format),
    {
        let mut i: usize = 0;
        while i < self.loaded.len()
            invariant
                i <= self.loaded@.len(),
                forall|j: int| 0 <= j < i ==> self.loaded@[j] != format,
            decreases self.loaded@.len() - i,
        {
            if self.loaded[i] == format {
                assert(self.loaded@.contains(format));
                return true;
            }
            i = i + 1;
        }
        false
    }

    /// Load a format: it fails with no fill when the no-fill setting names
    /// it, and is loaded otherwise. Exactly one event is queued.
    pub fn load(&mut self, format: i32, no_fill_setting: Option<&str>)
        ensures
            final(self).events@.len() == old(self).events@.len() + 1,
            final(self).events@.drop_last() == old(self).events@,
            names_format(no_fill_setting, format) ==> (
                loaded_set(*final(self)) == loaded_set(*old(self)).remove(format)
                && event_is(final(self).events@.last(), format, "load_failed"@, "fake no fill"@, 0, ""@)),
            !names_format(no_fill_setting, format) ==> (
                loaded_set(*final(self)) == loaded_set(*old(self)).insert(format)
                && event_is(final(self).events@.last(), format, "loaded"@, ""@, 0, ""@)),
            same_settings(*final(self), *old(self)),
    {
        proof {
            reveal_strlit("");
        }
        if setting_names_format(no_fill_setting, format) {
            self.forget(format);
            let mut ev = AdEvent::new(format, "load_failed");
            ev.error = String::from_str("fake no fill");
            self.events.push(ev);
        } else {
            self.remember(format);
            self.events.push(AdEvent::new(format, "loaded"));
        }
        assert(self.events@.drop_last() =~= old(self).events@);
    }

    /// Present a format. It fails when the show-failure setting names it or
    /// nothing is loaded; otherwise the creative is consumed and `shown`,
    /// a `reward` for rewarded formats, and `dismissed` are queued in order.
    pub fn show(
        &mut self,
        format: i32,
        show_fail_setting: Option<&str>,
        reward_amount_setting: Option<&str>,
        reward_type_setting: Option<&str>,
    )
        ensures
            loaded_set(*final(self)) == loaded_set(*old(self)).remove(format),
            same_settings(*final(self), *old(self)),
            final(self).events@.take(old(self).events@.len() as int) == old(self).events@,
            ({
                let n = old(self).events@.len() as int;
                let ev = final(self).events@;
                let fails = names_format(show_fail_setting, format) || !loaded_set(*old(self)).contains(format);
                &&& fails ==> (ev.len() == n + 1
                    && event_is(ev[n], format, "show_failed"@, if names_format(show_fail_setting, format) {
                        "fake show failure"@
                    } else {
                        "ad not loaded"@
                    }, 0, ""@))
                &&& !fails && grants_reward(format) ==> (ev.len() == n + 3
                    && event_is(ev[n], format, "shown"@, ""@, 0, ""@)
                    && event_is(ev[n + 1], format, "reward"@, ""@, reward_amount_of(reward_amount_setting),
                        reward_type_of(reward_type_setting))
                    && event_is(ev[n + 2], format, "dismissed"@, ""@, 0, ""@))
                &&& !fails && !grants_reward(format) ==> (ev.len() == n + 2
                    && event_is(ev[n], format, "shown"@, ""@, 0, ""@)
                    && event_is(ev[n + 1], format, "dismissed"@, ""@, 0, ""@))
            }),
    {
        proof {
            reveal_strlit("");
        }
        let show_fail = setting_names_format(show_fail_setting, format);
        let reward_amount: i64 = match reward_amount_setting {
            Some(s) => match parse_i64(s) {
                Some(v) => v,
                None => 1,
            },
            None => 1,
        };
        let reward_type = match reward_type_setting {
            Some(s) => String::from_str(s),
            None => String::from_str("Reward"),
        };
        let ghost n = self.events@.len();
        if show_fail || !self.holds(format) {
            self.forget(format);
            let mut ev = AdEvent::new(format, "show_failed");
            ev.error = if show_fail {
                String::from_str("fake show failure")
            } else {
                String::from_str("ad not loaded")
            };
            self.events.push(ev);
            assert(self.events@.take(n as int) =~= old(self).events@);
            return;
        }
        self.forget(format);
        self.events.push(AdEvent::new(format, "shown"));
        if format == 2 || format == 3 {
            let mut ev = AdEvent::new(format, "reward");
            ev.reward_amount = reward_amount;
            ev.reward_type = reward_type;
            self.events.push(ev);
        }
        self.events.push(AdEvent::new(format, "dismissed"));
        assert(self.events@.take(n as int) =~= old(self).events@);
    }

    /// Show the banner: queues a banner `shown`.
    pub fn banner_show(&mut self)
        ensures
            final(self).events@ == old(self).events@.push(final(self).events@.last()),
            event_is(final(self).events@.last(), 0, "shown"@, ""@, 0, ""@),
            loaded_set(*final(self)) == loaded_set(*old(self)),
            same_settings(*final(self), *old(self)),
    {
        proof {
            reveal_strlit("");
        }
        self.events.push(AdEvent::new(0, "shown"));
    }

    /// Hide the banner: queues a banner `dismissed`.
    pub fn banner_hide(&mut self)
        ensures
            final(self).events@ == old(self).events@.push(final(self).events@.last()),
            event_is(final(self).events@.last(), 0, "dismissed"@, ""@, 0, ""@),
            loaded_set(*final(self)) == loaded_set(*old(self)),
            same_settings(*final(self), *old(self)),
    {
        proof {
            reveal_strlit("");
        }
        self.events.push(AdEvent::new(0, "dismissed"));
    }

    /// Presenting the consent form resolves any outstanding requirement.
    pub fn request_consent(&mut self)
        ensures
            *final(self) == (FakeAdmob { consent: 3, ..*old(self) }),
    {
        self.consent = 3;
    }

    /// The privacy-options form was presented.
    pub fn present_privacy_options(&mut self)
        requires
            old(self).presentations < usize::MAX,
        ensures
            *final(self) == (FakeAdmob { presentations: (old(self).presentations + 1) as usize, ..*old(self) }),
    {
        self.presentations = self.presentations + 1;
    }

    /// Take every queued event, oldest first.
    pub fn drain_events(&mut self) -> (events: Vec<AdEvent>)
        ensures
            events@ == old(self).events@,
            final(self).events@.len() == 0,
            loaded_set(*final(self)) == loaded_set(*old(self)),
            same_settings(*final(self), *old(self)),
    {
        let mut events: Vec<AdEvent> = Vec::new();
        std::mem::swap(&mut events, &mut self.events);
        events
    }
}

impl Default for FakeAdmob {
    fn default() -> (f: Self)
        ensures
            is_fresh(f),
    {
        FakeAdmob::new()
    }
}

} // verus!
