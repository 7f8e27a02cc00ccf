//! Revenue-recovery webhook reconciliation and retry scheduling.
//!
//! A billing connector reports invoice and transaction state through webhooks.
//! This library classifies each event into a recovery action, resolves the
//! payment intent and payment attempt the event refers to (creating or
//! recording them when absent), optionally prefers an authoritative payment
//! sync response over the webhook body, and schedules a durable retry task
//! while the merchant-configured retry threshold has not been exceeded.
//!
//! The durable store, the billing provider's endpoints and the backoff
//! schedule are collaborators of this flow, not part of it; they are modelled
//! here as explicit values (`store::RecoveryStore`, `sync::BillingConnector`,
//! `store::RetrySchedule`) so that every decision the flow makes is stated in
//! contracts and proved.

pub mod action;
pub mod attempt;
pub mod errors;
pub mod flow;
pub mod invoice;
pub mod store;
pub mod sync;
pub mod types;
