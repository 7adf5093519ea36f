//! The desktop stand-in for the notifications bridge: a deterministic model,
//! so scheduling policy is exercisable without a device. Nothing is ever
//! delivered; what it models is whether permission was granted, whether a
//! schedule was accepted, that an id replaces rather than stacks, and what
//! happens when the app is opened from a notification.
//!
//! It is tuned by text settings, which the host reads from its environment:
//! what a permission request resolves to, ids the app behaves as though it
//! was opened from, and whether every schedule fails asynchronously.

use vstd::prelude::*;
use crate::notifications::types::{
    distinct, lemma_without_distinct, lemma_without_keeps, strings_without, texts, without,
    NotificationEvent,
};
use crate::text::{ascii_lowercase, comma_items, comma_list, lowercase_equals};

verus! {

/// The setting's text, ASCII-lowercased; unset reads as empty.
pub open spec fn lowered(setting: Option<&str>) -> Seq<char> {
    match setting {
        Some(s) => ascii_lowercase(s@),
        None => Seq::<char>::empty(),
    }
}

/// What a permission request resolves to: authorized unless the setting
/// says `denied` (1), `provisional` (3) or `notdetermined` (0).
pub open spec fn status_of_setting(setting: Option<&str>) -> i32 {
    let v = lowered(setting);
    if v == "denied"@ {
        1
    } else if v == "provisional"@ {
        3
    } else if v == "notdetermined"@ {
        0
    } else {
        2
    }
}

/// What a permission request resolves to under this setting.
pub fn request_status(setting: Option<&str>) -> (status: i32)
    ensures
        status == status_of_setting(setting),
{
    let s = match setting {
        Some(s) => s,
        None => {
            proof {
                reveal_strlit("denied");
                reveal_strlit("provisional");
                reveal_strlit("notdetermined");
                assert("denied"@.len() == 6);
                assert("provisional"@.len() == 11);
                assert("notdetermined"@.len() == 13);
            }
            return 2;
        },
    };
    if lowercase_equals(s, "denied") {
        1
    } else if lowercase_equals(s, "provisional") {
        3
    } else if lowercase_equals(s, "notdetermined") {
        0
    } else {
        2
    }
}

/// Whether a setting switches a behaviour on: `1`, `true` or `yes`,
/// ignoring ASCII case.
pub open spec fn flag_of_setting(setting: Option<&str>) -> bool {
    let v = lowered(setting);
    v == "1"@ || v == "true"@ || v == "yes"@
}

/// Whether a setting switches a behaviour on.
pub fn setting_flag(setting: Option<&str>) -> (on: bool)
    ensures
        on == flag_of_setting(setting),
{
    match setting {
        Some(s) => {
            assert(lowered(setting) == ascii_lowercase(s@));
            let one = lowercase_equals(s, "1");
            let yes_true = lowercase_equals(s, "true");
            let yes = lowercase_equals(s, "yes");
            one || yes_true || yes
        },
        None => {
            proof {
                reveal_strlit("1");
                reveal_strlit("true");
                reveal_strlit("yes");
                assert("1"@.len() == 1);
                assert("true"@.len() == 4);
                assert("yes"@.len() == 3);
            }
            false
        },
    }
}

/// The ids a setting names (comma-separated, trimmed, empty ones dropped).
pub open spec fn ids_of_setting(setting: Option<&str>) -> Seq<Seq<char>> {
    match setting {
        Some(s) => comma_list(s@),
        None => Seq::<Seq<char>>::empty(),
    }
}

/// The ids of a list of events.
pub open spec fn event_ids(events: Seq<NotificationEvent>) -> Seq<Seq<char>> {
    events.map_values(|e: NotificationEvent| match e {
        NotificationEvent::Opened { id } => id@,
        NotificationEvent::ScheduleFailed { id, .. } => id@,
    })
}

/// Whether every event is an open.
pub open spec fn all_opens(events: Seq<NotificationEvent>) -> bool {
    forall|k: int| 0 <= k < events.len() ==> #[trigger] events[k] is Opened
}

/// The modelled notification centre.
pub struct FakeNotificationCenter {
    /// 0 not determined, 1 denied, 2 authorized, 3 provisional.
    pub status: i32,
    /// What the fake believes is pending, oldest first.
    pub scheduled: Vec<String>,
    /// Events not yet drained, oldest first.
    pub events: Vec<NotificationEvent>,
    /// Whether the launch opens have been delivered.
    pub drained_env_opens: bool,
}

/// The state a fresh fake starts in.
pub open spec fn is_fresh(f: FakeNotificationCenter) -> bool {
    &&& f.status == 0
    &&& f.scheduled@.len() == 0
    &&& f.events@.len() == 0
    &&& !f.drained_env_opens
}

impl FakeNotificationCenter {
    pub fn new() -> (f: Self)
        ensures
            is_fresh(f),
    {
        FakeNotificationCenter { status: 0, scheduled: Vec::new(), events: Vec::new(), drained_env_opens: false }
    }

    /// Put the fake back to how it starts.
    pub fn reset(&mut self)
        ensures
            is_fresh(*final(self)),
    {
        *self = FakeNotificationCenter::new();
    }

    /// A permission request resolves at once to what the setting says.
    pub fn request(&mut self, setting: Option<&str>)
        ensures
            final(self).status == status_of_setting(setting),
            final(self).scheduled@ == old(self).scheduled@,
            final(self).events@ == old(self).events@,
            final(self).drained_env_opens == old(self).drained_env_opens,
    {
        self.status = request_status(setting);
    }

    /// Schedule `id`. Returns 0 when accepted, 1 for an empty id or an
    /// interval that is not positive, 2 when not authorized. When the refusal
    /// setting is on, an accepted request fails later, as a queued event.
    /// An accepted id replaces any pending one rather than stacking.
    pub fn schedule(&mut self, id: &str, interval_positive: bool, refuse_setting: Option<&str>) -> (code: i32)
        ensures
            final(self).status == old(self).status,
            final(self).drained_env_opens == old(self).drained_env_opens,
            (id@.len() == 0 || !interval_positive) ==> (code == 1 && *final(self) == *old(self)),
            (id@.len() > 0 && interval_positive && old(self).status != 2 && old(self).status != 3) ==> (
                code == 2 && *final(self) == *old(self)),
            (id@.len() > 0 && interval_positive && (old(self).status == 2 || old(self).status == 3)) ==> (
                code == 0 && (if flag_of_setting(refuse_setting) {
                    &&& final(self).scheduled@ == old(self).scheduled@
                    &&& final(self).events@ == old(self).events@.push(final(self).events@.last())
                    &&& final(self).events@.last() matches NotificationEvent::ScheduleFailed { id: i, reason: r }
                    &&& i@ == id@
                    &&& r@ == "the fake was told to refuse"@
                } else {
                    &&& texts(final(self).scheduled@) == without(texts(old(self).scheduled@), id@).push(id@)
                    &&& final(self).events@ == old(self).events@
                })),
    {
        if id.unicode_len() == 0 || !interval_positive {
            return 1;
        }
        if self.status != 2 && self.status != 3 {
            return 2;
        }
        if setting_flag(refuse_setting) {
            self.events.push(NotificationEvent::ScheduleFailed {
                id: String::from_str(id),
                reason: String::from_str("the fake was told to refuse"),
            });
            assert(self.events@ =~= old(self).events@.push(self.events@.last()));
            return 0;
        }
        let mut kept = strings_without(&self.scheduled, id);
        kept.push(String::from_str(id));
        assert(texts(kept@) =~= without(texts(old(self).scheduled@), id@).push(id@));
        self.scheduled = kept;
        0
    }

    /// Drop `id` from what is pending.
    pub fn cancel(&mut self, id: &str)
        ensures
            texts(final(self).scheduled@) == without(texts(old(self).scheduled@), id@),
            final(self).status == old(self).status,
            final(self).events@ == old(self).events@,
            final(self).drained_env_opens == old(self).drained_env_opens,
    {
        self.scheduled = strings_without(&self.scheduled, id);
    }

    /// Drop everything pending.
    pub fn cancel_all(&mut self)
        ensures
            final(self).scheduled@.len() == 0,
            final(self).status == old(self).status,
            final(self).events@ == old(self).events@,
            final(self).drained_env_opens == old(self).drained_env_opens,
    {
        self.scheduled = Vec::new();
    }

    /// Deliver an open for `id` on the next drain, as though the player had
    /// tapped it.
    pub fn open(&mut self, id: &str)
        ensures
            final(self).events@ == old(self).events@.push(final(self).events@.last()),
            final(self).events@.last() matches NotificationEvent::Opened { id: i } && i@ == id@,
            final(self).status == old(self).status,
            final(self).scheduled@ == old(self).scheduled@,
            final(self).drained_env_opens == old(self).drained_env_opens,
    {
        self.events.push(NotificationEvent::Opened { id: String::from_str(id) });
        assert(self.events@ =~= old(self).events@.push(self.events@.last()));
    }

    /// What the fake believes is pending, oldest first.
    pub fn scheduled(&self) -> (ids: Vec<String>)
        ensures
            ids@ == self.scheduled@,
    {
        self.scheduled.clone()
    }

    /// Take every queued event. The first drain also delivers, once, an open
    /// for each id the launch setting names, after anything already queued.
    pub fn drain(&mut self, launch_setting: Option<&str>) -> (events: Vec<NotificationEvent>)
        ensures
            final(self).events@.len() == 0,
            final(self).drained_env_opens,
            final(self).status == old(self).status,
            final(self).scheduled@ == old(self).scheduled@,
            old(self).drained_env_opens ==> events@ == old(self).events@,
            !old(self).drained_env_opens ==> ({
                let n = old(self).events@.len() as int;
                &&& events@.len() == n + ids_of_setting(launch_setting).len()
                &&& events@.take(n) == old(self).events@
                &&& all_opens(events@.skip(n))
                &&& event_ids(events@.skip(n)) == ids_of_setting(launch_setting)
            }),
    {
        if !self.drained_env_opens {
            self.drained_env_opens = true;
            let ids = match launch_setting {
                Some(s) => comma_items(s),
                None => Vec::new(),
            };
            let ghost base = self.events@;
            let mut k: usize = 0;
            while k < ids.len()
                invariant
                    k <= ids@.len(),
                    self.drained_env_opens,
                    self.status == old(self).status,
                    self.scheduled@ == old(self).scheduled@,
                    self.events@.len() == base.len() + k,
                    self.events@.take(base.len() as int) == base,
                    all_opens(self.events@.skip(base.len() as int)),
                    event_ids(self.events@.skip(base.len() as int)) == ids@.take(k as int).map_values(|p: String| p@),
                decreases ids@.len() - k,
            {
                let ghost before = self.events@;
                let ev = NotificationEvent::Opened { id: String::from_str(ids[k].as_str()) };
                let ghost e = ev;
                self.events.push(ev);
                proof {
                    let n = base.len() as int;
                    assert(self.events@.take(n) =~= base);
                    assert(self.events@.skip(n) =~= before.skip(n).push(e));
                    assert(event_ids(before.skip(n).push(e)) =~= event_ids(before.skip(n)).push(ids@[k as int]@));
                    assert(ids@.take(k + 1).map_values(|p: String| p@) =~= ids@.take(k as int).map_values(|p: String| p@).push(ids@[k as int]@));
                    assert(all_opens(self.events@.skip(n)));
                }
                k = k + 1;
            }
            assert(ids@.take(ids@.len() as int) =~= ids@);
            assert(ids@.map_values(|p: String| p@) == ids_of_setting(launch_setting)) by {
                if launch_setting is None {
                    assert(ids@.map_values(|p: String| p@) =~= Seq::<Seq<char>>::empty());
                }
            }
        }
        let mut events: Vec<NotificationEvent> = Vec::new();
        std::mem::swap(&mut events, &mut self.events);
        events
    }
}

/// An id replaces rather than stacks in the fake too: scheduling keeps every
/// pending id once, and the scheduled id is pending exactly once, last.
pub proof fn scheduling_keeps_one_per_id(scheduled: Seq<Seq<char>>, id: Seq<char>)
    requires
        distinct(scheduled),
    ensures
        distinct(without(scheduled, id).push(id)),
        without(scheduled, id).push(id).last() == id,
        !without(scheduled, id).contains(id),
{
    lemma_without_distinct(scheduled, id);
    let w = without(scheduled, id);
    if w.contains(id) {
        lemma_without_keeps(scheduled, id, id);
    }
    assert forall|i: int, j: int| 0 <= i < j < w.push(id).len() implies w.push(id)[i] != w.push(id)[j] by {
        if j == w.len() {
            assert(w.contains(w[i]));
            if w[i] == id {
                lemma_without_keeps(scheduled, id, w[i]);
            }
        }
    }
}

impl Default for FakeNotificationCenter {
    fn default() -> (f: Self)
        ensures
            is_fresh(f),
    {
        FakeNotificationCenter::new()
    }
}

} // verus!
