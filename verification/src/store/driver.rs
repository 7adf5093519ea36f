//! The per-frame decisions of the StoreKit integration. The engine plumbing
//! calls the bridge when these functions say so and feeds its answers back.

use vstd::prelude::*;
use crate::store::operation::{finish_activity, is_purchasing, start_purchase, start_restore, StoreActivity};
use crate::store::state::{
    id_set, lists_product, applied, failed, EntitlementSnapshot, Entitlements, EntitlementsState,
    EntitlementsView, ProductInfo, ProductsState, StoreProducts,
};
use crate::text::{c_compatible, is_c_compatible, join_with_commas, joined_with_commas};

verus! {

/// Terminal result of a purchase attempt.
#[derive(Clone, Copy, PartialEq, Eq, Debug, Structural)]
pub enum PurchaseOutcome {
    Success,
    Failed,
    /// User cancelled the App Store sheet.
    Cancelled,
    /// Deferred — e.g. Ask to Buy. Entitlement may arrive later via updates.
    Pending,
}

/// Terminal result of an explicit App Store synchronization.
#[derive(Clone, Copy, PartialEq, Eq, Debug, Structural)]
pub enum RestoreOutcome {
    Success,
    Failed,
}

/// The product ids to offer. The store initializes on the first frame it
/// sees a non-empty configuration.
#[derive(Clone, Debug)]
pub struct StoreConfig {
    pub product_ids: Vec<String>,
}

impl Default for StoreConfig {
    fn default() -> (config: Self)
        ensures
            config.product_ids@.len() == 0,
    {
        StoreConfig { product_ids: Vec::new() }
    }
}

/// Emitted once per purchase attempt when it reaches a terminal state.
#[derive(Clone, Debug)]
pub struct PurchaseCompleted {
    pub product_id: String,
    pub outcome: PurchaseOutcome,
}

/// Emitted once when an explicit restore reaches a terminal result.
#[derive(Clone, Debug)]
pub struct RestoreCompleted {
    pub outcome: RestoreOutcome,
}

/// What the integration remembers between frames.
pub struct StorePoll {
    pub inited: bool,
    pub last_products: ProductsState,
    pub ent_rev: u64,
}

impl Default for StorePoll {
    fn default() -> (poll: Self)
        ensures
            !poll.inited,
            poll.last_products == ProductsState::Loading,
            poll.ent_rev == 0,
    {
        StorePoll { inited: false, last_products: ProductsState::Loading, ent_rev: 0 }
    }
}

/// The catalogue state a raw bridge value stands for.
pub open spec fn spec_products_state_from_raw(value: i32) -> ProductsState {
    if value == 1 {
        ProductsState::Ready
    } else if value == 2 {
        ProductsState::Failed
    } else {
        ProductsState::Loading
    }
}

/// Decode the bridge's catalogue state: 1 ready, 2 failed, anything else loading.
pub fn products_state_from_raw(value: i32) -> (state: ProductsState)
    ensures
        state == spec_products_state_from_raw(value),
{
    match value {
        1 => ProductsState::Ready,
        2 => ProductsState::Failed,
        _ => ProductsState::Loading,
    }
}

/// Decode the bridge's purchase state: the terminal values 2 to 5, and
/// `None` for idle, in progress or anything unknown.
pub fn purchase_outcome_from_raw(value: i32) -> (outcome: Option<PurchaseOutcome>)
    ensures
        outcome == (if value == 2 {
            Some(PurchaseOutcome::Success)
        } else if value == 3 {
            Some(PurchaseOutcome::Failed)
        } else if value == 4 {
            Some(PurchaseOutcome::Cancelled)
        } else if value == 5 {
            Some(PurchaseOutcome::Pending)
        } else {
            None
        }),
{
    match value {
        2 => Some(PurchaseOutcome::Success),
        3 => Some(PurchaseOutcome::Failed),
        4 => Some(PurchaseOutcome::Cancelled),
        5 => Some(PurchaseOutcome::Pending),
        _ => None,
    }
}

/// Decode the bridge's restore state: 2 success, 3 failure, otherwise none.
pub fn restore_outcome_from_raw(value: i32) -> (outcome: Option<RestoreOutcome>)
    ensures
        outcome == (if value == 2 {
            Some(RestoreOutcome::Success)
        } else if value == 3 {
            Some(RestoreOutcome::Failed)
        } else {
            None
        }),
{
    match value {
        2 => Some(RestoreOutcome::Success),
        3 => Some(RestoreOutcome::Failed),
        _ => None,
    }
}

/// The ids of a configuration, as text.
pub open spec fn config_ids(config: StoreConfig) -> Seq<Seq<char>> {
    config.product_ids@.map_values(|p: String| p@)
}

/// Whether this frame initializes the store: not yet done, and a non-empty
/// configuration exists.
pub open spec fn begins_init(poll: StorePoll, config: Option<&StoreConfig>) -> bool {
    &&& !poll.inited
    &&& config matches Some(c) && c.product_ids@.len() > 0
}

/// Initialize the store the first frame a non-empty configuration exists.
/// Returns the comma-joined ids to hand the bridge, when it is to be called;
/// ids that cannot cross the C boundary are never sent, but the store still
/// counts as initialized.
pub fn init_store(poll: &mut StorePoll, config: Option<&StoreConfig>) -> (call: Option<String>)
    ensures
        final(poll).inited == (old(poll).inited || begins_init(*old(poll), config)),
        final(poll).last_products == old(poll).last_products,
        final(poll).ent_rev == old(poll).ent_rev,
        call is Some <==> (begins_init(*old(poll), config) && c_compatible(
            joined_with_commas(config_ids(*config.unwrap())),
        )),
        call matches Some(j) ==> j@ == joined_with_commas(config_ids(*config.unwrap())),
{
    if poll.inited {
        return None;
    }
    match config {
        Some(c) => {
            if c.product_ids.len() == 0 {
                return None;
            }
            poll.inited = true;
            let joined = join_with_commas(&c.product_ids);
            if is_c_compatible(joined.as_str()) {
                Some(joined)
            } else {
                None
            }
        },
        None => None,
    }
}

/// What becomes of one purchase request.
#[derive(Clone, Copy, PartialEq, Eq, Debug, Structural)]
pub enum PurchaseStep {
    /// The store is not initialized or another operation is in flight: nothing happens.
    Skipped,
    /// The purchase cannot proceed: report it as failed.
    Rejected,
    /// Hand the purchase to the bridge.
    Begin,
}

/// A purchase may proceed only for a listed product of a ready catalogue,
/// against ready entitlements that do not already own it.
pub open spec fn purchasable(products: StoreProducts, entitlements: EntitlementsView, id: Seq<char>) -> bool {
    &&& products.state == ProductsState::Ready
    &&& lists_product(products.items@, id)
    &&& entitlements.state == EntitlementsState::Ready
    &&& !entitlements.owned.contains(id)
}

/// Decide one purchase request.
pub fn pump_purchase(
    poll: &StorePoll,
    products: &StoreProducts,
    entitlements: &Entitlements,
    activity: &mut StoreActivity,
    product_id: &str,
) -> (step: PurchaseStep)
    ensures
        (!poll.inited || !(*old(activity) is Idle)) ==> (step == PurchaseStep::Skipped && *final(activity) == *old(activity)),
        (poll.inited && *old(activity) is Idle && !purchasable(*products, entitlements@, product_id@))
            ==> (step == PurchaseStep::Rejected && *final(activity) == *old(activity)),
        (poll.inited && *old(activity) is Idle && purchasable(*products, entitlements@, product_id@)
            && !c_compatible(product_id@)) ==> (step == PurchaseStep::Rejected && *final(activity) is Idle),
        (poll.inited && *old(activity) is Idle && purchasable(*products, entitlements@, product_id@)
            && c_compatible(product_id@)) ==> (step == PurchaseStep::Begin && is_purchasing(*final(activity), product_id@)),
{
    if !poll.inited || !activity.is_idle() {
        return PurchaseStep::Skipped;
    }
    let is_available = products.state == ProductsState::Ready && products.get(product_id).is_some();
    let can_purchase = entitlements.is_ready() && !entitlements.owns(product_id);
    if !is_available || !can_purchase {
        return PurchaseStep::Rejected;
    }
    if !start_purchase(activity, product_id) {
        return PurchaseStep::Skipped;
    }
    if !is_c_compatible(product_id) {
        finish_activity(activity);
        return PurchaseStep::Rejected;
    }
    PurchaseStep::Begin
}

/// Decide one restore request: returns whether to call the bridge.
pub fn pump_restore(poll: &StorePoll, activity: &mut StoreActivity) -> (call: bool)
    ensures
        call <==> (poll.inited && *old(activity) is Idle),
        call ==> *final(activity) is Restoring,
        !call ==> *final(activity) == *old(activity),
{
    if !poll.inited || !activity.is_idle() {
        return false;
    }
    start_restore(activity)
}

/// Whether the catalogue must be fetched this frame: it just became ready.
pub fn products_need_fetch(poll: &StorePoll, state: ProductsState) -> (fetch: bool)
    ensures
        fetch <==> (poll.inited && state != poll.last_products && state == ProductsState::Ready),
{
    poll.inited && state != poll.last_products && state == ProductsState::Ready
}

/// Project the bridge's catalogue state (and, when it just became ready, the
/// fetched items, `None` when they could not be decoded) into the catalogue.
/// Returns whether an update is to be announced.
pub fn refresh_products(
    poll: &mut StorePoll,
    products: &mut StoreProducts,
    state: ProductsState,
    fetched: Option<Vec<ProductInfo>>,
) -> (updated: bool)
    ensures
        updated <==> (old(poll).inited && state != old(poll).last_products),
        final(poll).inited == old(poll).inited,
        final(poll).ent_rev == old(poll).ent_rev,
        !updated ==> (final(poll).last_products == old(poll).last_products
            && final(products).state == old(products).state
            && final(products).items@ == old(products).items@),
        updated ==> final(poll).last_products == state,
        updated && state == ProductsState::Ready && fetched is Some ==> (final(products).state
            == ProductsState::Ready && final(products).items@ == fetched.unwrap()@),
        updated && state == ProductsState::Ready && fetched is None ==> (final(products).state
            == ProductsState::Failed && final(products).items@.len() == 0),
        updated && state != ProductsState::Ready ==> (final(products).state == state
            && final(products).items@.len() == 0),
{
    if !poll.inited || state == poll.last_products {
        return false;
    }
    poll.last_products = state;
    match state {
        ProductsState::Ready => match fetched {
            Some(items) => {
                products.items = items;
                products.state = ProductsState::Ready;
            },
            None => {
                products.items.clear();
                products.state = ProductsState::Failed;
            },
        },
        _ => {
            products.items.clear();
            products.state = state;
        },
    }
    true
}

/// Whether the entitlement snapshot must be fetched this frame: the bridge's
/// revision moved.
pub fn entitlements_need_fetch(poll: &StorePoll, revision: u64) -> (fetch: bool)
    ensures
        fetch <==> (poll.inited && revision != poll.ent_rev),
{
    poll.inited && revision != poll.ent_rev
}

/// Project a moved entitlement revision: apply the fetched snapshot, or
/// record a failure when it could not be decoded. Returns whether a change
/// is to be announced.
pub fn refresh_entitlements(
    poll: &mut StorePoll,
    entitlements: &mut Entitlements,
    revision: u64,
    fetched: Option<EntitlementSnapshot>,
) -> (changed: bool)
    ensures
        final(poll).inited == old(poll).inited,
        final(poll).last_products == old(poll).last_products,
        !(old(poll).inited && revision != old(poll).ent_rev) ==> (!changed && final(entitlements)@
            == old(entitlements)@ && final(poll).ent_rev == old(poll).ent_rev),
        (old(poll).inited && revision != old(poll).ent_rev) ==> final(poll).ent_rev == revision,
        (old(poll).inited && revision != old(poll).ent_rev && fetched is Some) ==> final(entitlements)@
            == applied(old(entitlements)@, fetched.unwrap().state, id_set(fetched.unwrap().product_ids@)),
        (old(poll).inited && revision != old(poll).ent_rev && fetched is None) ==> final(entitlements)@
            == failed(old(entitlements)@),
        changed <==> final(entitlements)@ != old(entitlements)@,
{
    if !poll.inited || revision == poll.ent_rev {
        return false;
    }
    poll.ent_rev = revision;
    match fetched {
        Some(snapshot) => entitlements.apply(snapshot),
        None => entitlements.fail(),
    }
}

/// A purchase reached a terminal state: the activity ends, and the outcome is
/// announced unless the bridge named no product.
pub fn finish_purchase(activity: &mut StoreActivity, outcome: PurchaseOutcome, product_id: String) -> (completed: Option<PurchaseCompleted>)
    ensures
        *final(activity) is Idle,
        completed is Some <==> product_id@.len() > 0,
        completed matches Some(c) ==> (c.product_id@ == product_id@ && c.outcome == outcome),
{
    finish_activity(activity);
    if product_id.as_str().unicode_len() == 0 {
        return None;
    }
    Some(PurchaseCompleted { product_id, outcome })
}

/// An explicit restore reached a terminal state: the activity ends and the
/// outcome is announced.
pub fn finish_restore(activity: &mut StoreActivity, outcome: RestoreOutcome) -> (completed: RestoreCompleted)
    ensures
        *final(activity) is Idle,
        completed.outcome == outcome,
{
    finish_activity(activity);
    RestoreCompleted { outcome }
}

} // verus!
