use revenue_recovery::action::RecoveryAction;
use revenue_recovery::types::{IncomingWebhookEvent, TriggeredBy};

#[test]
fn failure_event_external_trigger_schedules_retry() {
    assert_eq!(
        RecoveryAction::get_action(
            IncomingWebhookEvent::RecoveryPaymentFailure,
            Some(TriggeredBy::External),
        ),
        RecoveryAction::ScheduleFailedPayment,
    );
}

#[test]
fn failure_event_without_prior_attempt_schedules_retry() {
    assert_eq!(
        RecoveryAction::get_action(IncomingWebhookEvent::RecoveryPaymentFailure, None),
        RecoveryAction::ScheduleFailedPayment,
    );
}

#[test]
fn failure_event_internal_trigger_is_no_action() {
    assert_eq!(
        RecoveryAction::get_action(
            IncomingWebhookEvent::RecoveryPaymentFailure,
            Some(TriggeredBy::Internal),
        ),
        RecoveryAction::NoAction,
    );
}

#[test]
fn success_event_external_trigger_is_external_success() {
    assert_eq!(
        RecoveryAction::get_action(
            IncomingWebhookEvent::RecoveryPaymentSuccess,
            Some(TriggeredBy::External),
        ),
        RecoveryAction::SuccessPaymentExternal,
    );
}

#[test]
fn success_event_without_prior_attempt_is_external_success() {
    assert_eq!(
        RecoveryAction::get_action(IncomingWebhookEvent::RecoveryPaymentSuccess, None),
        RecoveryAction::SuccessPaymentExternal,
    );
}

#[test]
fn success_event_internal_trigger_is_no_action() {
    assert_eq!(
        RecoveryAction::get_action(
            IncomingWebhookEvent::RecoveryPaymentSuccess,
            Some(TriggeredBy::Internal),
        ),
        RecoveryAction::NoAction,
    );
}

#[test]
fn pending_event_is_pending_for_every_trigger() {
    for trigger in [None, Some(TriggeredBy::Internal), Some(TriggeredBy::External)] {
        assert_eq!(
            RecoveryAction::get_action(IncomingWebhookEvent::RecoveryPaymentPending, trigger),
            RecoveryAction::PendingPayment,
        );
    }
}

#[test]
fn invoice_cancel_event_cancels_invoice() {
    for trigger in [None, Some(TriggeredBy::Internal), Some(TriggeredBy::External)] {
        assert_eq!(
            RecoveryAction::get_action(IncomingWebhookEvent::RecoveryInvoiceCancel, trigger),
            RecoveryAction::CancelInvoice,
        );
    }
}

#[test]
fn invoice_update_event_is_no_action() {
    for trigger in [None, Some(TriggeredBy::Internal), Some(TriggeredBy::External)] {
        assert_eq!(
            RecoveryAction::get_action(IncomingWebhookEvent::RecoveryInvoiceUpdate, trigger),
            RecoveryAction::NoAction,
        );
    }
}

#[test]
fn unrecognized_event_is_invalid_action_never_a_failure() {
    for trigger in [None, Some(TriggeredBy::Internal), Some(TriggeredBy::External)] {
        assert_eq!(
            RecoveryAction::get_action(IncomingWebhookEvent::EventNotSupported, trigger),
            RecoveryAction::InvalidAction,
        );
    }
}

#[test]
fn classifier_is_deterministic_over_repeated_calls() {
    let events = [
        IncomingWebhookEvent::RecoveryPaymentFailure,
        IncomingWebhookEvent::RecoveryPaymentSuccess,
        IncomingWebhookEvent::RecoveryPaymentPending,
        IncomingWebhookEvent::RecoveryInvoiceCancel,
        IncomingWebhookEvent::RecoveryInvoiceUpdate,
        IncomingWebhookEvent::EventNotSupported,
    ];
    for event in events {
        for trigger in [None, Some(TriggeredBy::Internal), Some(TriggeredBy::External)] {
            let first = RecoveryAction::get_action(event, trigger);
            let second = RecoveryAction::get_action(event, trigger);
            assert_eq!(first, second);
        }
    }
}
