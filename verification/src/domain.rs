//! Values that are validated once, at the boundary of the system.

pub mod subscriber_email;

pub use subscriber_email::SubscriberEmail;
