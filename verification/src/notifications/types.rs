use std::time::Duration;
use vstd::prelude::*;
use crate::text::str_equals;

verus! {

/// Whether the app may show notifications.
#[derive(Clone, Copy, PartialEq, Eq, Debug, Structural)]
pub enum NotificationPermission {
    /// Nobody has been asked yet.
    NotDetermined,
    /// Asked and refused. Only Settings can change this.
    Denied,
    /// Granted in full.
    Authorized,
    /// Granted quietly — delivered to the notification centre without a
    /// banner or a sound. Still worth scheduling for.
    Provisional,
}

/// The permission a raw bridge value stands for.
pub open spec fn permission_of_raw(value: i32) -> NotificationPermission {
    if value == 1 {
        NotificationPermission::Denied
    } else if value == 2 {
        NotificationPermission::Authorized
    } else if value == 3 {
        NotificationPermission::Provisional
    } else {
        NotificationPermission::NotDetermined
    }
}

/// Whether a permission lets a scheduled notification arrive: granted in
/// full or provisionally.
pub open spec fn delivers(permission: NotificationPermission) -> bool {
    permission == NotificationPermission::Authorized || permission == NotificationPermission::Provisional
}

/// Whether the permission prompt has been answered.
pub open spec fn answered(permission: NotificationPermission) -> bool {
    permission != NotificationPermission::NotDetermined
}

impl NotificationPermission {
    /// Decode the bridge's value: 1 denied, 2 authorized, 3 provisional,
    /// anything else not determined.
    pub fn from_i32(value: i32) -> (permission: Self)
        ensures
            permission == permission_of_raw(value),
    {
        match value {
            1 => NotificationPermission::Denied,
            2 => NotificationPermission::Authorized,
            3 => NotificationPermission::Provisional,
            _ => NotificationPermission::NotDetermined,
        }
    }

    /// Whether a scheduled notification would actually arrive. True for
    /// provisional too: quiet delivery is still delivery.
    pub fn can_deliver(self) -> (deliver: bool)
        ensures
            deliver <==> (self == NotificationPermission::Authorized || self
                == NotificationPermission::Provisional),
            deliver == delivers(self),
    {
        matches!(self, NotificationPermission::Authorized | NotificationPermission::Provisional)
    }

    /// Whether the prompt can no longer be shown: the answer is in.
    pub fn is_determined(self) -> (determined: bool)
        ensures
            determined <==> self != NotificationPermission::NotDetermined,
            determined == answered(self),
    {
        !matches!(self, NotificationPermission::NotDetermined)
    }
}

impl Default for NotificationPermission {
    fn default() -> (permission: Self)
        ensures
            permission == NotificationPermission::NotDetermined,
    {
        NotificationPermission::NotDetermined
    }
}

/// The ids of a list of strings, as text.
pub open spec fn texts(ids: Seq<String>) -> Seq<Seq<char>> {
    ids.map_values(|s: String| s@)
}

/// No id occurs twice.
pub open spec fn distinct(ids: Seq<Seq<char>>) -> bool {
    forall|i: int, j: int| 0 <= i < j < ids.len() ==> ids[i] != ids[j]
}

/// `ids` without `id`, order kept.
pub open spec fn without(ids: Seq<Seq<char>>, id: Seq<char>) -> Seq<Seq<char>>
    decreases ids.len(),
{
    if ids.len() == 0 {
        ids
    } else {
        let rest = without(ids.drop_last(), id);
        if ids.last() != id {
            rest.push(ids.last())
        } else {
            rest
        }
    }
}

/// Everything `without` keeps comes from the original and is not `id`.
pub proof fn lemma_without_keeps(ids: Seq<Seq<char>>, id: Seq<char>, x: Seq<char>)
    requires
        without(ids, id).contains(x),
    ensures
        ids.contains(x),
        x != id,
    decreases ids.len(),
{
    if ids.len() > 0 {
        let rest = without(ids.drop_last(), id);
        if rest.contains(x) {
            lemma_without_keeps(ids.drop_last(), id, x);
            let m = choose|m: int| 0 <= m < ids.drop_last().len() && ids.drop_last()[m] == x;
            assert(ids[m] == x);
        } else {
            assert(x == ids.last());
            assert(ids[ids.len() - 1] == x);
        }
    }
}

/// What this app has asked for since it launched and has not cancelled.
///
/// A record of requests, not the system's queue: one that has already been
/// delivered, one the player cleared, and anything scheduled before this
/// launch are all absent. When the two could disagree, believe the system.
#[derive(Debug)]
pub struct PendingNotifications {
    ids: Vec<String>,
}

impl View for PendingNotifications {
    type V = Seq<Seq<char>>;

    closed spec fn view(&self) -> Seq<Seq<char>> {
        texts(self.ids@)
    }
}

impl PendingNotifications {
    #[verifier::type_invariant]
    closed spec fn ids_are_distinct(&self) -> bool {
        distinct(texts(self.ids@))
    }

    /// Nothing pending.
    pub fn new() -> (p: Self)
        ensures
            p@ == Seq::<Seq<char>>::empty(),
    {
        let ids: Vec<String> = Vec::new();
        assert(texts(ids@) =~= Seq::<Seq<char>>::empty());
        PendingNotifications { ids }
    }

    pub fn contains(&self, id: &str) -> (found: bool)
        ensures
            found <==> self@.contains(id@),
    {
        let mut i: usize = 0;
        while i < self.ids.len()
            invariant
                i <= self.ids@.len(),
                forall|j: int| 0 <= j < i ==> self.ids@[j]@ != id@,
            decreases self.ids@.len() - i,
        {
            if str_equals(self.ids[i].as_str(), id) {
                assert(self@[i as int] == id@);
                return true;
            }
            i = i + 1;
        }
        assert(!self@.contains(id@)) by {
            if self@.contains(id@) {
                let j = choose|j: int| 0 <= j < self@.len() && self@[j] == id@;
                assert(self.ids@[j]@ == id@);
            }
        }
        false
    }

    /// The pending ids, oldest request first; an id is pending at most once.
    pub fn ids(&self) -> (ids: Vec<String>)
        ensures
            texts(ids@) == self@,
            distinct(self@),
    {
        proof {
            use_type_invariant(self);
        }
        let mut out: Vec<String> = Vec::new();
        let mut i: usize = 0;
        while i < self.ids.len()
            invariant
                i <= self.ids@.len(),
                out@.len() == i,
                forall|k: int| 0 <= k < i ==> out@[k]@ == self.ids@[k]@,
            decreases self.ids@.len() - i,
        {
            out.push(String::from_str(self.ids[i].as_str()));
            i = i + 1;
        }
        assert(texts(out@) =~= texts(self.ids@));
        out
    }

    pub fn len(&self) -> (n: usize)
        ensures
            n == self@.len(),
    {
        self.ids.len()
    }

    pub fn is_empty(&self) -> (empty: bool)
        ensures
            empty <==> self@.len() == 0,
    {
        self.ids.len() == 0
    }

    /// Record a request for `id`. An id already pending keeps its place: the
    /// same id replaces rather than stacks.
    pub fn record(&mut self, id: &str)
        ensures
            final(self)@ == (if old(self)@.contains(id@) { old(self)@ } else { old(self)@.push(id@) }),
    {
        proof {
            use_type_invariant(&*self);
        }
        if self.contains(id) {
            return;
        }
        let ghost before = self@;
        let mut ids = self.ids.clone();
        assert(texts(ids@) == before);
        ids.push(String::from_str(id));
        assert(texts(ids@) =~= before.push(id@));
        self.ids = ids;
    }

    /// Drop `id`, if pending; the others keep their order.
    pub fn remove(&mut self, id: &str)
        ensures
            final(self)@ == without(old(self)@, id@),
    {
        proof {
            use_type_invariant(&*self);
            lemma_without_distinct(self@, id@);
        }
        let kept = strings_without(&self.ids, id);
        self.ids = kept;
    }

    /// Drop every pending id.
    pub fn clear(&mut self)
        ensures
            final(self)@ == Seq::<Seq<char>>::empty(),
    {
        let ids: Vec<String> = Vec::new();
        assert(texts(ids@) =~= Seq::<Seq<char>>::empty());
        self.ids = ids;
    }
}

/// The strings other than `id`, order kept.
pub fn strings_without(ids: &Vec<String>, id: &str) -> (kept: Vec<String>)
    ensures
        texts(kept@) == without(texts(ids@), id@),
{
    let ghost all = texts(ids@);
    let mut kept: Vec<String> = Vec::new();
    let mut i: usize = 0;
    while i < ids.len()
        invariant
            i <= ids@.len(),
            all == texts(ids@),
            texts(kept@) == without(all.take(i as int), id@),
        decreases ids@.len() - i,
    {
        let keep = !str_equals(ids[i].as_str(), id);
        proof {
            assert(all.take(i + 1).drop_last() =~= all.take(i as int));
            assert(all[i as int] == ids@[i as int]@);
        }
        if keep {
            kept.push(String::from_str(ids[i].as_str()));
        }
        assert(texts(kept@) =~= without(all.take(i + 1), id@));
        i = i + 1;
    }
    assert(all.take(all.len() as int) =~= all);
    kept
}

pub proof fn lemma_without_distinct(ids: Seq<Seq<char>>, id: Seq<char>)
    requires
        distinct(ids),
    ensures
        distinct(without(ids, id)),
    decreases ids.len(),
{
    if ids.len() > 0 {
        let rest = ids.drop_last();
        assert(distinct(rest));
        lemma_without_distinct(rest, id);
        if ids.last() != id {
            let w = without(rest, id);
            assert forall|k: int| 0 <= k < w.len() implies w[k] != ids.last() by {
                assert(w.contains(w[k]));
                lemma_without_keeps(rest, id, w[k]);
                let m = choose|m: int| 0 <= m < rest.len() && rest[m] == w[k];
                assert(ids[m] == rest[m]);
            }
        }
    }
}

impl Clone for PendingNotifications {
    fn clone(&self) -> (copy: Self)
        ensures
            copy@ == self@,
    {
        proof {
            use_type_invariant(self);
        }
        let ids = self.ids();
        PendingNotifications { ids }
    }
}

impl Default for PendingNotifications {
    fn default() -> (p: Self)
        ensures
            p@ == Seq::<Seq<char>>::empty(),
    {
        PendingNotifications::new()
    }
}

/// Schedule a notification `after` from now, replacing any pending one with
/// the same `id`.
#[derive(Debug, PartialEq, Eq)]
pub struct ScheduleNotification {
    /// Yours, and stable: the same id replaces rather than stacks.
    pub id: String,
    pub title: String,
    pub body: String,
    /// How long from now. Must be greater than zero.
    pub after: Duration,
}

impl Clone for ScheduleNotification {
    fn clone(&self) -> (copy: Self)
        ensures
            copy.id@ == self.id@,
            copy.title@ == self.title@,
            copy.body@ == self.body@,
            copy.after == self.after,
    {
        ScheduleNotification {
            id: self.id.clone(),
            title: self.title.clone(),
            body: self.body.clone(),
            after: self.after,
        }
    }
}

/// Drop a pending notification.
#[derive(Clone, Debug)]
pub struct CancelNotification(pub String);

/// Emitted when the permission changes.
#[derive(Clone, Copy, Debug)]
pub struct NotificationPermissionChanged(pub NotificationPermission);

/// The app was opened by tapping the notification with this id.
#[derive(Clone, Debug)]
pub struct NotificationOpened(pub String);

/// A notification could not be scheduled.
#[derive(Clone, Debug)]
pub struct NotificationScheduleFailed {
    pub id: String,
    pub reason: String,
}

/// One thing the native side has to tell the game, drained once per frame.
#[derive(Clone, Debug, PartialEq, Eq)]
pub enum NotificationEvent {
    /// The app was opened by tapping this notification.
    Opened { id: String },
    /// The system accepted the request and then refused it.
    ScheduleFailed { id: String, reason: String },
}

/// What the bridge's permission values mean for the two questions a
/// consumer asks: a notification arrives exactly for 2 (authorized) and 3
/// (provisional), the prompt is answered exactly for 1 to 3, and those
/// three values name three different permissions.
pub proof fn permission_values_answer_both_questions(v: i32, w: i32)
    ensures
        delivers(permission_of_raw(v)) <==> (v == 2 || v == 3),
        answered(permission_of_raw(v)) <==> (1 <= v <= 3),
        1 <= v <= 3 && 1 <= w <= 3 && v != w ==> permission_of_raw(v) != permission_of_raw(w),
{
}

} // verus!
