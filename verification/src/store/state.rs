use vstd::prelude::*;

verus! {

/// One purchasable product, including StoreKit's localized display price.
#[derive(Clone, Debug, PartialEq, Eq)]
pub struct ProductInfo {
    pub id: String,
    pub display_name: String,
    /// Localized, currency-formatted price returned by `Product.displayPrice`.
    pub display_price: String,
    pub description: String,
}

/// Loading state of the product catalogue.
#[derive(Clone, Copy, PartialEq, Eq, Debug, Structural)]
pub enum ProductsState {
    Loading,
    Ready,
    Failed,
}

impl Default for ProductsState {
    fn default() -> (state: Self)
        ensures
            state == ProductsState::Loading,
    {
        ProductsState::Loading
    }
}

/// Resolution state of the authoritative StoreKit entitlement snapshot.
#[derive(Clone, Copy, PartialEq, Eq, Debug, Structural)]
pub enum EntitlementsState {
    /// StoreKit has not completed its first entitlement read.
    Checking,
    /// Ownership reflects a completed, verified snapshot, including an
    /// authoritative empty result for an account with no purchases.
    Ready,
    /// The latest reconciliation could not establish verified ownership.
    Failed,
}

impl Default for EntitlementsState {
    fn default() -> (state: Self)
        ensures
            state == EntitlementsState::Checking,
    {
        EntitlementsState::Checking
    }
}

/// Whether `items[i]` is the first product in `items` with this id.
pub open spec fn is_first_with_id(items: Seq<ProductInfo>, id: Seq<char>, i: int) -> bool {
    &&& 0 <= i < items.len()
    &&& items[i].id@ == id
    &&& forall|j: int| 0 <= j < i ==> items[j].id@ != id
}

/// Whether some product in `items` has this id.
pub open spec fn lists_product(items: Seq<ProductInfo>, id: Seq<char>) -> bool {
    exists|i: int| 0 <= i < items.len() && items[i].id@ == id
}

/// The fetched catalogue. Mirrors the backend; read-only to consumers.
pub struct StoreProducts {
    pub state: ProductsState,
    pub items: Vec<ProductInfo>,
}

impl Default for StoreProducts {
    fn default() -> (products: Self)
        ensures
            products.state == ProductsState::Loading,
            products.items@.len() == 0,
    {
        StoreProducts { state: ProductsState::Loading, items: Vec::new() }
    }
}

impl StoreProducts {
    /// The first listed product with this id.
    pub fn get(&self, id: &str) -> (found: Option<&ProductInfo>)
        ensures
            found is None <==> !lists_product(self.items@, id@),
            found matches Some(p) ==> exists|i: int|
                is_first_with_id(self.items@, id@, i) && self.items@[i] == *p,
    {
        let key = String::from_str(id);
        let mut i: usize = 0;
        while i < self.items.len()
            invariant
                i <= self.items@.len(),
                key@ == id@,
                forall|j: int| 0 <= j < i ==> self.items@[j].id@ != id@,
            decreases self.items@.len() - i,
        {
            if self.items[i].id == key {
                assert(is_first_with_id(self.items@, id@, i as int));
                return Some(&self.items[i]);
            }
            i = i + 1;
        }
        None
    }
}

/// The set of ids a list of strings names.
pub open spec fn id_set(ids: Seq<String>) -> Set<Seq<char>> {
    Set::new(|id: Seq<char>| exists|i: int| 0 <= i < ids.len() && ids[i]@ == id)
}

/// No id occurs twice.
pub open spec fn distinct_ids(ids: Seq<String>) -> bool {
    forall|i: int, j: int| 0 <= i < j < ids.len() ==> ids[i]@ != ids[j]@
}

/// One atomic entitlement snapshot as the bridge reports it.
pub struct EntitlementSnapshot {
    pub state: EntitlementsState,
    pub product_ids: Vec<String>,
}

impl EntitlementSnapshot {
    pub fn new(state: EntitlementsState, product_ids: Vec<String>) -> (snapshot: Self)
        ensures
            snapshot.state == state,
            snapshot.product_ids@ == product_ids@,
    {
        EntitlementSnapshot { state, product_ids }
    }
}

/// Runtime StoreKit ownership. Never persist or infer it in a game.
/// Wait for `EntitlementsState::Ready` before treating an absent id as
/// confirmed unowned. On a later failure, the last verified set is retained
/// while `state()` reports the failure. Consumables never appear here.
pub struct Entitlements {
    state: EntitlementsState,
    owned: Vec<String>,
}

/// What entitlements are: their resolution state and the owned ids.
pub struct EntitlementsView {
    pub state: EntitlementsState,
    pub owned: Set<Seq<char>>,
}

impl View for Entitlements {
    type V = EntitlementsView;

    closed spec fn view(&self) -> EntitlementsView {
        EntitlementsView { state: self.state, owned: id_set(self.owned@) }
    }
}

/// The entitlements after applying a snapshot: its state always. Only a
/// `Ready` snapshot is verified ownership, so only it replaces the owned ids;
/// a `Checking` or `Failed` one keeps the last verified set.
pub open spec fn applied(before: EntitlementsView, snapshot_state: EntitlementsState, snapshot_ids: Set<Seq<char>>) -> EntitlementsView {
    EntitlementsView {
        state: snapshot_state,
        owned: if snapshot_state == EntitlementsState::Ready { snapshot_ids } else { before.owned },
    }
}

/// The entitlements after a failed reconciliation: `Failed`, with the last
/// verified ownership kept.
pub open spec fn failed(before: EntitlementsView) -> EntitlementsView {
    EntitlementsView { state: EntitlementsState::Failed, owned: before.owned }
}

impl Entitlements {
    #[verifier::type_invariant]
    closed spec fn owned_is_distinct(&self) -> bool {
        distinct_ids(self.owned@)
    }

    /// Nothing verified yet: `Checking`, owning nothing.
    pub fn new() -> (e: Self)
        ensures
            e@.state == EntitlementsState::Checking,
            e@.owned == Set::<Seq<char>>::empty(),
    {
        let e = Entitlements { state: EntitlementsState::Checking, owned: Vec::new() };
        assert(e@.owned =~= Set::<Seq<char>>::empty());
        e
    }

    pub fn state(&self) -> (state: EntitlementsState)
        ensures
            state == self@.state,
    {
        self.state
    }

    pub fn is_ready(&self) -> (ready: bool)
        ensures
            ready <==> self@.state == EntitlementsState::Ready,
    {
        matches!(self.state, EntitlementsState::Ready)
    }

    /// Whether the last verified snapshot owns this id.
    pub fn owns(&self, id: &str) -> (owned: bool)
        ensures
            owned <==> self@.owned.contains(id@),
    {
        let key = String::from_str(id);
        contains_id(&self.owned, &key)
    }

    /// The owned ids, each once, in no particular order.
    pub fn iter(&self) -> (ids: Vec<String>)
        ensures
            id_set(ids@) == self@.owned,
            distinct_ids(ids@),
    {
        proof {
            use_type_invariant(self);
        }
        self.owned.clone()
    }

    /// Apply one verified snapshot. Returns whether readiness or ownership
    /// changed.
    pub fn apply(&mut self, snapshot: EntitlementSnapshot) -> (changed: bool)
        ensures
            final(self)@ == applied(old(self)@, snapshot.state, id_set(snapshot.product_ids@)),
            changed <==> final(self)@ != old(self)@,
    {
        proof {
            use_type_invariant(&*self);
        }
        let previous_state = self.state;
        let ghost previous = self@;
        let new_owned = if snapshot.state == EntitlementsState::Ready {
            distinct_copy(&snapshot.product_ids)
        } else {
            self.owned.clone()
        };
        let same_owned = same_id_set(&new_owned, &self.owned);
        self.owned = new_owned;
        self.state = snapshot.state;
        let changed = self.state != previous_state || !same_owned;
        proof {
            if !changed {
                assert(self@.owned =~= previous.owned);
            } else if self@.state == previous.state {
                assert(self@.owned != previous.owned);
            }
        }
        changed
    }

    /// Record a reconciliation that could not establish ownership. The last
    /// verified set is retained. Returns whether the state changed.
    pub fn fail(&mut self) -> (changed: bool)
        ensures
            final(self)@ == failed(old(self)@),
            changed <==> old(self)@.state != EntitlementsState::Failed,
    {
        proof {
            use_type_invariant(&*self);
        }
        if self.state == EntitlementsState::Failed {
            return false;
        }
        self.state = EntitlementsState::Failed;
        true
    }
}

impl Default for Entitlements {
    fn default() -> (e: Self)
        ensures
            e@.state == EntitlementsState::Checking,
            e@.owned == Set::<Seq<char>>::empty(),
    {
        Entitlements::new()
    }
}

fn contains_id(ids: &Vec<String>, key: &String) -> (found: bool)
    ensures
        found <==> id_set(ids@).contains(key@),
{
    let mut i: usize = 0;
    while i < ids.len()
        invariant
            i <= ids@.len(),
            forall|j: int| 0 <= j < i ==> ids@[j]@ != key@,
        decreases ids@.len() - i,
    {
        if ids[i] == *key {
            assert(id_set(ids@).contains(key@));
            return true;
        }
        i = i + 1;
    }
    false
}

/// The ids in order of first occurrence, each once.
fn distinct_copy(ids: &Vec<String>) -> (out: Vec<String>)
    ensures
        id_set(out@) == id_set(ids@),
        distinct_ids(out@),
{
    let mut out: Vec<String> = Vec::new();
    let mut i: usize = 0;
    while i < ids.len()
        invariant
            i <= ids@.len(),
            distinct_ids(out@),
            id_set(out@) == id_set(ids@.take(i as int)),
        decreases ids@.len() - i,
    {
        let item = ids[i].clone();
        let ghost before = out@;
        if !contains_id(&out, &item) {
            out.push(item);
        }
        proof {
            let prev = ids@.take(i as int);
            let next = ids@.take(i + 1);
            assert forall|id: Seq<char>| id_set(next).contains(id) implies id_set(out@).contains(id) by {
                let k = choose|k: int| 0 <= k < next.len() && #[trigger] next[k]@ == id;
                if k < i {
                    assert(prev[k] == next[k]);
                    assert(id_set(prev).contains(id));
                    let m = choose|m: int| 0 <= m < before.len() && #[trigger] before[m]@ == id;
                    assert(out@[m] == before[m]);
                } else if id_set(before).contains(item@) {
                    let m = choose|m: int| 0 <= m < before.len() && #[trigger] before[m]@ == item@;
                    assert(out@[m] == before[m]);
                } else {
                    assert(out@[out@.len() - 1]@ == id);
                }
            }
            assert forall|id: Seq<char>| id_set(out@).contains(id) implies id_set(next).contains(id) by {
                let m = choose|m: int| 0 <= m < out@.len() && #[trigger] out@[m]@ == id;
                if m < before.len() {
                    assert(before[m] == out@[m]);
                    assert(id_set(before).contains(id));
                    let k = choose|k: int| 0 <= k < prev.len() && #[trigger] prev[k]@ == id;
                    assert(next[k] == prev[k]);
                } else {
                    assert(next[i as int] == ids@[i as int]);
                }
            }
            assert(id_set(out@) =~= id_set(next));
        }
        i = i + 1;
    }
    assert(ids@.take(ids@.len() as int) =~= ids@);
    out
}

/// Whether the two lists name the same set of ids.
fn same_id_set(a: &Vec<String>, b: &Vec<String>) -> (same: bool)
    ensures
        same <==> id_set(a@) == id_set(b@),
{
    let mut i: usize = 0;
    while i < a.len()
        invariant
            i <= a@.len(),
            forall|j: int| 0 <= j < i ==> id_set(b@).contains(#[trigger] a@[j]@),
        decreases a@.len() - i,
    {
        if !contains_id(b, &a[i]) {
            assert(id_set(a@).contains(a@[i as int]@));
            return false;
        }
        i = i + 1;
    }
    let mut k: usize = 0;
    while k < b.len()
        invariant
            k <= b@.len(),
            forall|j: int| 0 <= j < a@.len() ==> id_set(b@).contains(#[trigger] a@[j]@),
            forall|j: int| 0 <= j < k ==> id_set(a@).contains(#[trigger] b@[j]@),
        decreases b@.len() - k,
    {
        if !contains_id(a, &b[k]) {
            assert(id_set(b@).contains(b@[k as int]@));
            return false;
        }
        k = k + 1;
    }
    assert(id_set(a@) =~= id_set(b@)) by {
        assert forall|id: Seq<char>| id_set(a@).contains(id) implies id_set(b@).contains(id) by {
            let j = choose|j: int| 0 <= j < a@.len() && a@[j]@ == id;
            assert(id_set(b@).contains(a@[j]@));
        }
        assert forall|id: Seq<char>| id_set(b@).contains(id) implies id_set(a@).contains(id) by {
            let j = choose|j: int| 0 <= j < b@.len() && b@[j]@ == id;
            assert(id_set(a@).contains(b@[j]@));
        }
    }
    true
}

/// A failed reconciliation keeps the last verified ownership: after a
/// snapshot was applied, failing leaves its ids owned.
pub proof fn failure_retains_verified_ownership(before: EntitlementsView, state: EntitlementsState, ids: Set<Seq<char>>)
    requires
        state == EntitlementsState::Ready,
    ensures
        failed(applied(before, state, ids)).owned == ids,
        failed(applied(before, state, ids)).state == EntitlementsState::Failed,
{
}

/// A failed snapshot keeps the last verified ownership: whatever ids it
/// carries, applying it leaves the owned set as it was and reports `Failed`.
pub proof fn failed_snapshot_retains_ownership(before: EntitlementsView, ids: Set<Seq<char>>)
    ensures
        applied(before, EntitlementsState::Failed, ids).owned == before.owned,
        applied(before, EntitlementsState::Failed, ids).state == EntitlementsState::Failed,
{
}

/// A ready snapshot is authoritative: it replaces ownership outright, so a
/// revocation (an empty snapshot) leaves nothing owned.
pub proof fn ready_snapshot_replaces_ownership(before: EntitlementsView, ids: Set<Seq<char>>)
    ensures
        applied(before, EntitlementsState::Ready, ids).owned == ids,
        applied(before, EntitlementsState::Ready, Set::empty()).owned == Set::<Seq<char>>::empty(),
{
}

/// The first authoritative snapshot is announced even when it owns nothing:
/// applying a ready or failed snapshot to entitlements that are still
/// checking always changes them.
pub proof fn first_snapshot_is_announced(before: EntitlementsView, state: EntitlementsState, ids: Set<Seq<char>>)
    requires
        before.state == EntitlementsState::Checking,
        state != EntitlementsState::Checking,
    ensures
        applied(before, state, ids) != before,
{
}

/// Failing twice reports a change only the first time.
pub proof fn failing_again_changes_nothing(before: EntitlementsView)
    ensures
        failed(failed(before)) == failed(before),
{
}

} // verus!
