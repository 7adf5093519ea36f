use vstd::prelude::*;

verus! {

/// The one StoreKit operation currently in flight.
///
/// Consumers render progress from this value and suppress duplicate actions
/// while it is not `Idle`. Terminal details arrive through the purchase and
/// restore completions.
#[derive(Clone, Debug, PartialEq, Eq)]
pub enum StoreActivity {
    Idle,
    Purchasing { product_id: String },
    Restoring,
}

impl StoreActivity {
    /// Whether no operation is in flight.
    pub fn is_idle(&self) -> (idle: bool)
        ensures
            idle <==> *self is Idle,
    {
        matches!(self, StoreActivity::Idle)
    }
}

impl Default for StoreActivity {
    fn default() -> (activity: Self)
        ensures
            activity is Idle,
    {
        StoreActivity::Idle
    }
}

/// The activity names exactly this product as being purchased.
pub open spec fn is_purchasing(activity: StoreActivity, product_id: Seq<char>) -> bool {
    activity matches StoreActivity::Purchasing { product_id: p } && p@ == product_id
}

/// Begin a purchase of `product_id` if nothing else is in flight.
/// Returns whether the purchase began; otherwise nothing changes.
pub fn start_purchase(activity: &mut StoreActivity, product_id: &str) -> (started: bool)
    ensures
        started <==> *old(activity) is Idle,
        started ==> is_purchasing(*final(activity), product_id@),
        !started ==> *final(activity) == *old(activity),
{
    if !activity.is_idle() {
        return false;
    }
    *activity = StoreActivity::Purchasing { product_id: String::from_str(product_id) };
    true
}

/// Begin an explicit restore if nothing else is in flight.
/// Returns whether the restore began; otherwise nothing changes.
pub fn start_restore(activity: &mut StoreActivity) -> (started: bool)
    ensures
        started <==> *old(activity) is Idle,
        started ==> *final(activity) is Restoring,
        !started ==> *final(activity) == *old(activity),
{
    if !activity.is_idle() {
        return false;
    }
    *activity = StoreActivity::Restoring;
    true
}

/// The operation reached a terminal state.
pub fn finish_activity(activity: &mut StoreActivity)
    ensures
        *final(activity) is Idle,
{
    *activity = StoreActivity::Idle;
}

} // verus!
