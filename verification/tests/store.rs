use bevy_ios_toolkit::store::driver::{
    entitlements_need_fetch, finish_purchase, finish_restore, init_store, products_need_fetch,
    products_state_from_raw, pump_purchase, pump_restore, purchase_outcome_from_raw,
    refresh_entitlements, refresh_products, restore_outcome_from_raw, PurchaseStep, StorePoll,
};
use bevy_ios_toolkit::store::environment::{
    environment_from_raw, publish_environment, take_environment_request,
};
use bevy_ios_toolkit::store::fake::FakeStore;
use bevy_ios_toolkit::store::operation::{finish_activity, start_purchase, start_restore};
use bevy_ios_toolkit::store::state::EntitlementSnapshot;
use bevy_ios_toolkit::store::{
    AppStoreEnvironment, Entitlements, EntitlementsState, ProductInfo, ProductsState,
    PurchaseOutcome, RestoreOutcome, StoreActivity, StoreConfig, StoreProducts,
};

#[test]
fn purchase_activity_names_the_product_and_suppresses_overlap() {
    let mut activity = StoreActivity::Idle;

    assert!(start_purchase(&mut activity, "com.example.supporter"));
    assert_eq!(
        activity,
        StoreActivity::Purchasing {
            product_id: "com.example.supporter".to_string(),
        }
    );
    assert!(!start_purchase(&mut activity, "com.example.second"));
    assert!(!start_restore(&mut activity));

    finish_activity(&mut activity);
    assert!(activity.is_idle());
}

#[test]
fn restore_activity_suppresses_overlap_until_completion() {
    let mut activity = StoreActivity::Idle;

    assert!(start_restore(&mut activity));
    assert_eq!(activity, StoreActivity::Restoring);
    assert!(!start_restore(&mut activity));
    assert!(!start_purchase(&mut activity, "com.example.supporter"));

    finish_activity(&mut activity);
    assert!(activity.is_idle());
}

#[test]
fn environment_resolution_requires_a_request_and_starts_only_once() {
    let mut started = false;
    let mut starts = 0;
    let environment = AppStoreEnvironment::default();
    for _ in 0..3 {
        assert_eq!(environment, AppStoreEnvironment::Pending);
        if take_environment_request(&mut started, false) {
            starts += 1;
        }
    }
    assert_eq!(starts, 0);
    // Two requests in one frame start it once.
    if take_environment_request(&mut started, true) {
        starts += 1;
    }
    assert_eq!(starts, 1);
    if take_environment_request(&mut started, true) {
        starts += 1;
    }
    if take_environment_request(&mut started, false) {
        starts += 1;
    }
    assert_eq!(starts, 1);
}

#[test]
fn wire_values_are_explicit_and_unknown_values_fail_closed() {
    assert_eq!(environment_from_raw(0), AppStoreEnvironment::Pending);
    assert_eq!(environment_from_raw(1), AppStoreEnvironment::Xcode);
    assert_eq!(environment_from_raw(2), AppStoreEnvironment::Sandbox);
    assert_eq!(environment_from_raw(3), AppStoreEnvironment::Production);
    assert_eq!(environment_from_raw(4), AppStoreEnvironment::Unavailable);
    assert_eq!(environment_from_raw(5), AppStoreEnvironment::Unknown);
    assert_eq!(environment_from_raw(i32::MAX), AppStoreEnvironment::Unknown);
}

#[test]
fn only_production_enables_production_configuration() {
    assert!(AppStoreEnvironment::Production.is_production());

    for environment in [
        AppStoreEnvironment::Pending,
        AppStoreEnvironment::Xcode,
        AppStoreEnvironment::Sandbox,
        AppStoreEnvironment::Unavailable,
        AppStoreEnvironment::Unknown,
    ] {
        assert!(!environment.is_production(), "{}", environment.as_str());
    }
}

#[test]
fn pending_is_the_only_unresolved_state() {
    assert!(!AppStoreEnvironment::Pending.is_resolved());

    for environment in [
        AppStoreEnvironment::Xcode,
        AppStoreEnvironment::Sandbox,
        AppStoreEnvironment::Production,
        AppStoreEnvironment::Unavailable,
        AppStoreEnvironment::Unknown,
    ] {
        assert!(environment.is_resolved(), "{}", environment.as_str());
    }
}

#[test]
fn environment_names_are_the_displayed_ones() {
    assert_eq!(AppStoreEnvironment::Pending.as_str(), "pending");
    assert_eq!(AppStoreEnvironment::Xcode.as_str(), "xcode");
    assert_eq!(AppStoreEnvironment::Sandbox.as_str(), "sandbox");
    assert_eq!(AppStoreEnvironment::Production.as_str(), "production");
    assert_eq!(AppStoreEnvironment::Unavailable.as_str(), "unavailable");
    assert_eq!(AppStoreEnvironment::Unknown.as_str(), "unknown");
}

#[test]
fn the_first_terminal_environment_is_published_and_kept() {
    let mut current = AppStoreEnvironment::Pending;
    assert!(!publish_environment(&mut current, AppStoreEnvironment::Pending));
    assert_eq!(current, AppStoreEnvironment::Pending);
    assert!(publish_environment(&mut current, AppStoreEnvironment::Sandbox));
    assert_eq!(current, AppStoreEnvironment::Sandbox);
    assert!(!publish_environment(&mut current, AppStoreEnvironment::Production));
    assert_eq!(current, AppStoreEnvironment::Sandbox);
}

fn snapshot(state: EntitlementsState, ids: &[&str]) -> EntitlementSnapshot {
    EntitlementSnapshot::new(state, ids.iter().map(|id| id.to_string()).collect())
}

#[test]
fn initial_empty_snapshot_is_authoritative() {
    let mut entitlements = Entitlements::default();

    let snapshot = snapshot(EntitlementsState::Ready, &[]);

    assert!(entitlements.apply(snapshot));
    assert_eq!(entitlements.state(), EntitlementsState::Ready);
    assert!(entitlements.is_ready());
    assert!(!entitlements.owns("com.example.supporter"));
}

#[test]
fn revocation_replaces_owned_snapshot_with_empty() {
    let mut entitlements = Entitlements::default();
    let owned = snapshot(EntitlementsState::Ready, &["com.example.supporter"]);
    let revoked = snapshot(EntitlementsState::Ready, &[]);

    assert!(entitlements.apply(owned));
    assert!(entitlements.owns("com.example.supporter"));
    assert!(entitlements.apply(revoked));
    assert!(!entitlements.owns("com.example.supporter"));
}

#[test]
fn failed_refresh_retains_last_verified_ownership() {
    let mut entitlements = Entitlements::default();
    let owned = snapshot(EntitlementsState::Ready, &["com.example.supporter"]);
    entitlements.apply(owned);

    let failed = snapshot(EntitlementsState::Failed, &["com.example.supporter"]);

    assert!(entitlements.apply(failed));
    assert_eq!(entitlements.state(), EntitlementsState::Failed);
    assert!(entitlements.owns("com.example.supporter"));
}

#[test]
fn a_failed_snapshot_without_ids_revokes_nothing() {
    let mut entitlements = Entitlements::default();
    entitlements.apply(snapshot(EntitlementsState::Ready, &["com.example.supporter"]));

    assert!(entitlements.apply(snapshot(EntitlementsState::Failed, &[])));
    assert_eq!(entitlements.state(), EntitlementsState::Failed);
    assert!(entitlements.owns("com.example.supporter"));
    assert_eq!(entitlements.iter(), vec!["com.example.supporter".to_string()]);

    // Before anything was verified, a failed snapshot grants nothing either.
    let mut fresh = Entitlements::default();
    assert!(fresh.apply(snapshot(EntitlementsState::Failed, &["com.example.supporter"])));
    assert!(!fresh.owns("com.example.supporter"));
}

#[test]
fn a_checking_snapshot_keeps_ownership_and_an_unchanged_one_reports_nothing() {
    let mut entitlements = Entitlements::default();
    assert!(entitlements.apply(snapshot(EntitlementsState::Ready, &["a", "b", "a"])));
    let mut owned = entitlements.iter();
    owned.sort();
    assert_eq!(owned, vec!["a".to_string(), "b".to_string()]);
    assert!(!entitlements.apply(snapshot(EntitlementsState::Ready, &["b", "a"])));
    assert!(entitlements.apply(snapshot(EntitlementsState::Checking, &[])));
    assert!(entitlements.owns("a"));
    assert!(entitlements.fail());
    assert!(!entitlements.fail());
    assert!(entitlements.owns("b"));
}

fn product(id: &str) -> ProductInfo {
    ProductInfo {
        id: id.to_string(),
        display_name: id.to_string(),
        display_price: "$0.99".to_string(),
        description: "A product".to_string(),
    }
}

#[test]
fn products_are_found_by_id() {
    let products = StoreProducts {
        state: ProductsState::Ready,
        items: vec![product("a"), product("b")],
    };
    assert_eq!(products.get("b").map(|p| p.id.as_str()), Some("b"));
    assert!(products.get("c").is_none());
}

fn ready_store(owned: &[&str]) -> (StorePoll, StoreProducts, Entitlements) {
    let mut poll = StorePoll::default();
    let config = StoreConfig {
        product_ids: vec!["com.example.supporter".into(), "com.example.coins".into()],
    };
    let call = init_store(&mut poll, Some(&config));
    assert_eq!(call.as_deref(), Some("com.example.supporter,com.example.coins"));
    let products = StoreProducts {
        state: ProductsState::Ready,
        items: vec![product("com.example.supporter"), product("com.example.coins")],
    };
    let mut entitlements = Entitlements::default();
    entitlements.apply(snapshot(EntitlementsState::Ready, owned));
    (poll, products, entitlements)
}

#[test]
fn the_store_starts_once_with_a_non_empty_configuration() {
    let mut poll = StorePoll::default();
    assert_eq!(init_store(&mut poll, None), None);
    assert!(!poll.inited);
    assert_eq!(init_store(&mut poll, Some(&StoreConfig::default())), None);
    assert!(!poll.inited);
    let config = StoreConfig {
        product_ids: vec!["a".into()],
    };
    assert_eq!(init_store(&mut poll, Some(&config)).as_deref(), Some("a"));
    assert!(poll.inited);
    assert_eq!(init_store(&mut poll, Some(&config)), None);
}

#[test]
fn ids_that_cannot_cross_the_boundary_are_not_sent_but_the_store_starts() {
    let mut poll = StorePoll::default();
    let config = StoreConfig {
        product_ids: vec!["a\0b".into()],
    };
    assert_eq!(init_store(&mut poll, Some(&config)), None);
    assert!(poll.inited);
}

#[test]
fn purchases_need_ready_products_and_entitlements() {
    let (poll, products, entitlements) = ready_store(&[]);
    let mut activity = StoreActivity::Idle;
    assert_eq!(
        pump_purchase(&poll, &products, &entitlements, &mut activity, "com.example.unknown"),
        PurchaseStep::Rejected
    );
    assert!(activity.is_idle());
    assert_eq!(
        pump_purchase(&poll, &products, &entitlements, &mut activity, "com.example.supporter"),
        PurchaseStep::Begin
    );
    assert_eq!(
        activity,
        StoreActivity::Purchasing {
            product_id: "com.example.supporter".into()
        }
    );
    assert_eq!(
        pump_purchase(&poll, &products, &entitlements, &mut activity, "com.example.coins"),
        PurchaseStep::Skipped
    );

    let (poll, products, entitlements) = ready_store(&["com.example.supporter"]);
    let mut activity = StoreActivity::Idle;
    assert_eq!(
        pump_purchase(&poll, &products, &entitlements, &mut activity, "com.example.supporter"),
        PurchaseStep::Rejected
    );

    let checking = Entitlements::default();
    assert_eq!(
        pump_purchase(&poll, &products, &checking, &mut activity, "com.example.coins"),
        PurchaseStep::Rejected
    );

    let uninitialized = StorePoll::default();
    assert_eq!(
        pump_purchase(&uninitialized, &products, &entitlements, &mut activity, "com.example.coins"),
        PurchaseStep::Skipped
    );
    assert!(!pump_restore(&uninitialized, &mut activity));
    assert!(pump_restore(&poll, &mut activity));
    assert_eq!(activity, StoreActivity::Restoring);
}

#[test]
fn terminal_operations_end_the_activity() {
    let mut activity = StoreActivity::Purchasing {
        product_id: "a".into(),
    };
    let completed = finish_purchase(&mut activity, PurchaseOutcome::Cancelled, "a".into()).unwrap();
    assert_eq!(completed.product_id, "a");
    assert_eq!(completed.outcome, PurchaseOutcome::Cancelled);
    assert!(activity.is_idle());
    assert!(finish_purchase(&mut activity, PurchaseOutcome::Success, String::new()).is_none());
    activity = StoreActivity::Restoring;
    assert_eq!(finish_restore(&mut activity, RestoreOutcome::Failed).outcome, RestoreOutcome::Failed);
    assert!(activity.is_idle());
}

#[test]
fn bridge_values_decode_explicitly() {
    assert_eq!(products_state_from_raw(0), ProductsState::Loading);
    assert_eq!(products_state_from_raw(1), ProductsState::Ready);
    assert_eq!(products_state_from_raw(2), ProductsState::Failed);
    assert_eq!(products_state_from_raw(9), ProductsState::Loading);
    assert_eq!(purchase_outcome_from_raw(1), None);
    assert_eq!(purchase_outcome_from_raw(2), Some(PurchaseOutcome::Success));
    assert_eq!(purchase_outcome_from_raw(3), Some(PurchaseOutcome::Failed));
    assert_eq!(purchase_outcome_from_raw(4), Some(PurchaseOutcome::Cancelled));
    assert_eq!(purchase_outcome_from_raw(5), Some(PurchaseOutcome::Pending));
    assert_eq!(restore_outcome_from_raw(1), None);
    assert_eq!(restore_outcome_from_raw(2), Some(RestoreOutcome::Success));
    assert_eq!(restore_outcome_from_raw(3), Some(RestoreOutcome::Failed));
}

#[test]
fn the_catalogue_follows_the_bridge_and_announces_each_change() {
    let (mut poll, _, _) = ready_store(&[]);
    let mut products = StoreProducts::default();
    assert!(products_need_fetch(&poll, ProductsState::Ready));
    assert!(refresh_products(&mut poll, &mut products, ProductsState::Ready, Some(vec![product("a")])));
    assert_eq!(products.state, ProductsState::Ready);
    assert_eq!(products.items.len(), 1);
    assert!(!products_need_fetch(&poll, ProductsState::Ready));
    assert!(!refresh_products(&mut poll, &mut products, ProductsState::Ready, None));
    assert_eq!(products.items.len(), 1);
    assert!(refresh_products(&mut poll, &mut products, ProductsState::Loading, None));
    assert_eq!(products.state, ProductsState::Loading);
    assert!(products.items.is_empty());
    // A ready catalogue that cannot be decoded is a failure, not an empty store.
    assert!(refresh_products(&mut poll, &mut products, ProductsState::Ready, None));
    assert_eq!(products.state, ProductsState::Failed);
}

#[test]
fn entitlement_revisions_drive_reconciliation() {
    let (mut poll, _, _) = ready_store(&[]);
    let mut entitlements = Entitlements::default();
    assert!(!entitlements_need_fetch(&poll, 0));
    assert!(entitlements_need_fetch(&poll, 1));
    assert!(refresh_entitlements(
        &mut poll,
        &mut entitlements,
        1,
        Some(snapshot(EntitlementsState::Ready, &[]))
    ));
    assert!(entitlements.is_ready());
    assert!(!refresh_entitlements(&mut poll, &mut entitlements, 1, None));
    assert!(refresh_entitlements(&mut poll, &mut entitlements, 2, None));
    assert_eq!(entitlements.state(), EntitlementsState::Failed);
}

#[test]
fn the_scripted_bridge_records_what_tests_publish() {
    let mut fake = FakeStore::new();
    fake.publish_products("[]");
    assert_eq!(fake.products_state, 1);
    fake.publish_entitlements(r#"{"state":"ready","product_ids":[]}"#);
    fake.publish_entitlements(r#"{"state":"ready","product_ids":[]}"#);
    assert_eq!(fake.entitlement_revision, 2);
    fake.publish_purchase_success("a");
    assert_eq!((fake.purchase_state, fake.purchase_product.as_str()), (2, "a"));
    fake.purchase();
    assert_eq!(fake.purchase_calls(), 1);
    fake.purchase_clear();
    assert_eq!((fake.purchase_state, fake.purchase_product.as_str()), (0, ""));
    fake.publish_restore_success();
    assert_eq!(fake.restore_state, 2);
    fake.restore_clear();
    assert_eq!(fake.environment_state(), 4);
    fake.reset();
    assert_eq!(fake.entitlement_revision, 0);
}
