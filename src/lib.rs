//! A platform-neutral notification model: wire records, the schedule
//! algebra that turns a fire-time specification into native timestamps,
//! the error taxonomy, and the decisions that each native adapter takes.
pub mod builder;
pub mod capability;
pub mod desktop;
pub mod error;
pub mod ffi;
pub mod models;
pub mod schedule;
pub mod tag;
pub mod windows;

pub use builder::NotificationsBuilder;
pub use capability::{Operation, Platform};
pub use error::{Error, Result};
pub use models::{
    Action, ActionType, ActiveNotification, Attachment, Channel, ChannelBuilder, Importance,
    NotificationData, PendingNotification, PermissionResponse, PermissionState,
    PushNotificationResponse, Visibility,
};
pub use schedule::{Schedule, ScheduleEvery, ScheduleInterval, UtcInstant};
pub use windows::WindowsPlugin;
