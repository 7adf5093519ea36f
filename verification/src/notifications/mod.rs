//! Local user notifications: permission, the requests this app has made, the
//! per-frame decisions that drive the bridge, and the desktop fake.
//!
//! Local only: no remote push, no device token, no server. Ids are the
//! caller's, and scheduling an id that is already pending replaces it rather
//! than stacking a second one.

pub mod driver;
pub mod fake;
pub mod types;

pub use types::{
    CancelNotification, NotificationEvent, NotificationOpened, NotificationPermission,
    NotificationPermissionChanged, NotificationScheduleFailed, PendingNotifications,
    ScheduleNotification,
};
