//! Push notifications.

pub mod models;

pub use models::{PushNotificationAction, PushNotificationPayload, PushSubscription};
