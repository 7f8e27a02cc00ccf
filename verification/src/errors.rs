//! Typed failures of the recovery webhook flow.

use vstd::prelude::*;

verus! {

/// Every fallible step of the webhook flow aborts with one of these.
///
/// Absence discovered during a lookup (intent not found, attempt not found,
/// no payment account mapped) is not an error: it is the signal for the
/// creation or recording path. Everything else propagates to the caller,
/// which surfaces it as a webhook-processing failure so the billing provider
/// redelivers the event.
#[derive(Clone, Copy, Debug, PartialEq, Eq, Structural)]
pub enum RevenueRecoveryError {
    /// The webhook's signature check failed; nothing was read or written.
    WebhookAuthenticationFailed,
    /// Invoice details could not be extracted from the webhook body.
    InvoiceWebhookProcessingFailed,
    /// Transaction details could not be extracted from the webhook body.
    TransactionWebhookProcessingFailed,
    /// Fetching the payment intent failed for a reason other than not-found.
    PaymentIntentFetchFailed,
    /// Creating the payment intent failed.
    PaymentIntentCreateFailed,
    /// Fetching the payment attempts of the intent failed.
    PaymentAttemptFetchFailed,
    /// Recording a new externally-triggered payment attempt failed.
    PaymentAttemptRecordFailed,
    /// The mapped payment connector account could not be loaded.
    PaymentMerchantConnectorAccountNotFound,
    /// The synchronous payment-status call to the billing connector failed.
    BillingConnectorPaymentsSyncFailed,
    /// The merchant's billing connector account carries no retry threshold.
    BillingThresholdRetryCountFetchFailed,
    /// The intent's metadata carries no retry count.
    RetryCountFetchFailed,
    /// The backoff schedule yields no time for the next attempt number.
    ScheduleTimeFetchFailed,
    /// A retry cannot be scheduled without a concrete failed attempt.
    PaymentAttemptIdNotFound,
    /// Inserting the durable retry task failed.
    ProcessTrackerResponseError,
}

} // verus!
