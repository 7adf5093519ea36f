//! StoreKit purchases: the app environment, the in-flight operation, the
//! product catalogue and the verified entitlement snapshot.

pub mod environment;
pub mod operation;

pub use environment::{AppStoreEnvironment, RequestAppStoreEnvironment};
pub use operation::StoreActivity;
pub mod state;
pub use state::{Entitlements, EntitlementsState, ProductInfo, ProductsState, StoreProducts};
pub mod driver;
pub use driver::{PurchaseCompleted, PurchaseOutcome, RestoreCompleted, RestoreOutcome, StoreConfig};
pub mod fake;
