//! Subscription renewal with a bounded number of retries and a cooldown
//! between them.
//!
//! A subscription is one record in a [`store::SubscriptionStore`]. The
//! [`renewal::SubscriptionRenewalContract`] creates records and applies
//! renewal attempts to them; what one attempt makes of a record is laid down
//! in [`subscription`], and [`history`] proves what holds after any number of
//! attempts. Time is the ledger sequence that the caller passes in, and the
//! notifications of an attempt are handed back to the caller, who publishes
//! them.
//!
//! Beside the controller stand the [`registry::AgentRegistry`], an allow-list
//! under an administrator, and the data and operations of the
//! [`virtual_card`] interface.

pub mod error;
pub mod events;
pub mod history;
pub mod principal;
pub mod registry;
pub mod renewal;
pub mod store;
pub mod subscription;
pub mod virtual_card;
