//! The outbound email dispatch core of a newsletter service.
//!
//! Two components, with a dependency in one direction:
//!
//! * [`domain::SubscriberEmail`]: a string that is known to be a syntactically
//!   valid email address.
//! * [`email_client::EmailClient`]: turns a sender, a recipient and the content
//!   of a message into the one authenticated request that delivers it, and
//!   turns what the transport saw into a uniform result.
//!
//! Nothing in this crate touches the network. The caller issues the request
//! that [`email_client::EmailClient::send_email`] describes and hands what
//! happened to [`email_client::delivery_result`].

pub mod domain;
pub mod email_client;
