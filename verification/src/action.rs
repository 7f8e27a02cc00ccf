//! Classification of a webhook event into a recovery action.

use vstd::prelude::*;

use crate::types::{IncomingWebhookEvent, TriggeredBy};

verus! {

/// The decision taken for one webhook: a pure function of the event type and
/// of who triggered the most recent recovery attempt, with no failure mode.
#[derive(Clone, Copy, Debug, PartialEq, Eq, Structural)]
pub enum RecoveryAction {
    /// The invoice was cancelled upstream; recovery for it stops.
    CancelInvoice,
    /// A collection attempt failed; a retry should be scheduled.
    ScheduleFailedPayment,
    /// The payment succeeded on the billing connector's side.
    SuccessPaymentExternal,
    /// The transaction is still pending; recovery does not consume it.
    PendingPayment,
    /// A recognized event that requires nothing from this flow.
    NoAction,
    /// An unrecognized combination; the caller logs it and does nothing.
    InvalidAction,
}

/// The full classification table.
///
/// Transaction events triggered by the system's own payment flow are its to
/// handle (`NoAction`); externally-triggered or unattributed ones drive
/// recovery. Unrecognized events map to `InvalidAction` rather than failing,
/// so an unexpected delivery never aborts webhook processing.
pub open spec fn spec_get_action(
    event_type: IncomingWebhookEvent,
    attempt_triggered_by: Option<TriggeredBy>,
) -> RecoveryAction {
    match event_type {
        IncomingWebhookEvent::RecoveryPaymentFailure => match attempt_triggered_by {
            Some(TriggeredBy::Internal) => RecoveryAction::NoAction,
            Some(TriggeredBy::External) | None => RecoveryAction::ScheduleFailedPayment,
        },
        IncomingWebhookEvent::RecoveryPaymentSuccess => match attempt_triggered_by {
            Some(TriggeredBy::Internal) => RecoveryAction::NoAction,
            Some(TriggeredBy::External) | None => RecoveryAction::SuccessPaymentExternal,
        },
        IncomingWebhookEvent::RecoveryPaymentPending => RecoveryAction::PendingPayment,
        IncomingWebhookEvent::RecoveryInvoiceCancel => RecoveryAction::CancelInvoice,
        IncomingWebhookEvent::RecoveryInvoiceUpdate => RecoveryAction::NoAction,
        IncomingWebhookEvent::EventNotSupported => RecoveryAction::InvalidAction,
    }
}

impl RecoveryAction {
    /// Classifies one webhook event. Total over both inputs ("no prior
    /// attempt" included) and deterministic: the result equals
    /// `spec_get_action` on every input.
    pub fn get_action(
        event_type: IncomingWebhookEvent,
        attempt_triggered_by: Option<TriggeredBy>,
    ) -> (action: RecoveryAction)
        ensures
            action == spec_get_action(event_type, attempt_triggered_by),
    {
        match event_type {
            IncomingWebhookEvent::RecoveryPaymentFailure => match attempt_triggered_by {
                Some(TriggeredBy::Internal) => RecoveryAction::NoAction,
                Some(TriggeredBy::External) | None => RecoveryAction::ScheduleFailedPayment,
            },
            IncomingWebhookEvent::RecoveryPaymentSuccess => match attempt_triggered_by {
                Some(TriggeredBy::Internal) => RecoveryAction::NoAction,
                Some(TriggeredBy::External) | None => RecoveryAction::SuccessPaymentExternal,
            },
            IncomingWebhookEvent::RecoveryPaymentPending => RecoveryAction::PendingPayment,
            IncomingWebhookEvent::RecoveryInvoiceCancel => RecoveryAction::CancelInvoice,
            IncomingWebhookEvent::RecoveryInvoiceUpdate => RecoveryAction::NoAction,
            IncomingWebhookEvent::EventNotSupported => RecoveryAction::InvalidAction,
        }
    }
}

/// The classifier is total and never fails: a recovery-transaction success
/// reported with an external (or absent) trigger is a payment that succeeded
/// outside the system, and an unrecognized event maps to `InvalidAction` for
/// every trigger source. (An externally-triggered transaction failure is the
/// one transaction event that instead demands scheduling a retry.)
pub proof fn lemma_classifier(
    event_type: IncomingWebhookEvent,
    attempt_triggered_by: Option<TriggeredBy>,
)
    ensures
        event_type == IncomingWebhookEvent::RecoveryPaymentSuccess && attempt_triggered_by
            != Some(TriggeredBy::Internal) ==> spec_get_action(event_type, attempt_triggered_by)
            == RecoveryAction::SuccessPaymentExternal,
        event_type == IncomingWebhookEvent::RecoveryPaymentFailure && attempt_triggered_by
            != Some(TriggeredBy::Internal) ==> spec_get_action(event_type, attempt_triggered_by)
            == RecoveryAction::ScheduleFailedPayment,
        event_type == IncomingWebhookEvent::EventNotSupported ==> spec_get_action(
            event_type,
            attempt_triggered_by,
        ) == RecoveryAction::InvalidAction,
{
}

} // verus!
