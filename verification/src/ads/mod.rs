//! Google AdMob ads and UMP consent: formats and their unit ids, per-format
//! readiness, consent, the per-frame decisions that drive the bridge, and the
//! desktop fake that stands in for it.

pub mod format;

pub use format::{test_unit_id, AdFormat, TEST_APP_ID};
pub mod config;
pub mod consent;
pub mod inventory;

pub use config::AdmobConfig;
pub use consent::{ConsentStatus, PrivacyOptionsRequirement, UmpDebugGeography, UmpTestConfig};
pub use inventory::{AdInventory, AdLoadState, AdmobState, BannerPosition};
pub mod driver;
pub mod events;

pub use driver::{AdmobInit, AdsPoll};
pub use events::{
    AdClicked, AdDismissed, AdEvent, AdLoadFailed, AdLoaded, AdNotice, AdShowFailed, AdShown,
    ConsentUpdated, RewardEarned,
};
pub mod fake;
