//! A scripted stand-in for the StoreKit bridge, for tests: the raw surface
//! the bridge offers, with the state a test publishes into it.

use vstd::prelude::*;

verus! {

/// The bridge's state as a test scripts it.
pub struct FakeStore {
    pub products_state: i32,
    pub products_json: String,
    pub purchase_state: i32,
    pub purchase_product: String,
    pub restore_state: i32,
    pub entitlement_revision: u64,
    pub entitlements_json: String,
    pub purchase_calls: usize,
}

/// The state a fresh fake starts in: everything idle, empty and zero.
pub open spec fn is_fresh(f: FakeStore) -> bool {
    &&& f.products_state == 0
    &&& f.products_json@.len() == 0
    &&& f.purchase_state == 0
    &&& f.purchase_product@.len() == 0
    &&& f.restore_state == 0
    &&& f.entitlement_revision == 0
    &&& f.entitlements_json@.len() == 0
    &&& f.purchase_calls == 0
}

impl FakeStore {
    pub fn new() -> (f: Self)
        ensures
            is_fresh(f),
    {
        FakeStore {
            products_state: 0,
            products_json: String::new(),
            purchase_state: 0,
            purchase_product: String::new(),
            restore_state: 0,
            entitlement_revision: 0,
            entitlements_json: String::new(),
            purchase_calls: 0,
        }
    }

    /// Put the fake back to how it starts.
    pub fn reset(&mut self)
        ensures
            is_fresh(*final(self)),
    {
        *self = FakeStore::new();
    }

    /// Publish a ready catalogue.
    pub fn publish_products(&mut self, json: &str)
        ensures
            *final(self) == (FakeStore { products_json: final(self).products_json, products_state: 1, ..*old(self) }),
            final(self).products_json@ == json@,
    {
        self.products_json = String::from_str(json);
        self.products_state = 1;
    }

    /// Publish an entitlement snapshot under the next revision.
    pub fn publish_entitlements(&mut self, json: &str)
        requires
            old(self).entitlement_revision < u64::MAX,
        ensures
            *final(self) == (FakeStore {
                entitlements_json: final(self).entitlements_json,
                entitlement_revision: (old(self).entitlement_revision + 1) as u64,
                ..*old(self)
            }),
            final(self).entitlements_json@ == json@,
    {
        self.entitlements_json = String::from_str(json);
        self.entitlement_revision = self.entitlement_revision + 1;
    }

    /// Publish a successful purchase of `product_id`.
    pub fn publish_purchase_success(&mut self, product_id: &str)
        ensures
            *final(self) == (FakeStore { purchase_product: final(self).purchase_product, purchase_state: 2, ..*old(self) }),
            final(self).purchase_product@ == product_id@,
    {
        self.purchase_product = String::from_str(product_id);
        self.purchase_state = 2;
    }

    /// Publish a successful restore.
    pub fn publish_restore_success(&mut self)
        ensures
            *final(self) == (FakeStore { restore_state: 2, ..*old(self) }),
    {
        self.restore_state = 2;
    }

    /// How many purchases reached the bridge.
    pub fn purchase_calls(&self) -> (calls: usize)
        ensures
            calls == self.purchase_calls,
    {
        self.purchase_calls
    }

    /// The bridge's environment: always unavailable.
    pub fn environment_state(&self) -> (raw: i32)
        ensures
            raw == 4,
    {
        4
    }

    /// A purchase reached the bridge.
    pub fn purchase(&mut self)
        requires
            old(self).purchase_calls < usize::MAX,
        ensures
            *final(self) == (FakeStore { purchase_calls: (old(self).purchase_calls + 1) as usize, ..*old(self) }),
    {
        self.purchase_calls = self.purchase_calls + 1;
    }

    /// Acknowledge a terminal purchase: back to idle, naming no product.
    pub fn purchase_clear(&mut self)
        ensures
            *final(self) == (FakeStore { purchase_state: 0, purchase_product: final(self).purchase_product, ..*old(self) }),
            final(self).purchase_product@.len() == 0,
    {
        self.purchase_state = 0;
        self.purchase_product = String::new();
    }

    /// Acknowledge a terminal restore.
    pub fn restore_clear(&mut self)
        ensures
            *final(self) == (FakeStore { restore_state: 0, ..*old(self) }),
    {
        self.restore_state = 0;
    }
}

impl Default for FakeStore {
    fn default() -> (f: Self)
        ensures
            is_fresh(f),
    {
        FakeStore::new()
    }
}

} // verus!
