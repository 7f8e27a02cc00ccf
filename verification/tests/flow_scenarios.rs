use revenue_recovery::errors::RevenueRecoveryError;
use revenue_recovery::flow::{recovery_incoming_webhook_flow, RecoverySettings};
use revenue_recovery::store::{
    BillingConnectorAccount, ConnectorAuthType, RecoveryMetrics, RecoveryStore, RetrySchedule,
    StoreFaults, StoredPaymentIntent,
};
use revenue_recovery::sync::{BillingConnector, BillingConnectorPaymentsSyncResponse};
use revenue_recovery::types::{
    AttemptStatus, Connector, Currency, IncomingWebhookEvent, IncomingWebhookRequestDetails,
    IntentStatus, MerchantContext, ObjectReferenceId, PaymentIdType, PaymentIntentFeatureMetadata,
    PaymentMethodSubtype, PaymentMethodType, PaymentRevenueRecoveryMetadata,
    RevenueRecoveryAttemptData, RevenueRecoveryInvoiceData, TriggeredBy, WebhookResponseTracker,
};

fn empty_store() -> RecoveryStore {
    RecoveryStore {
        intents: vec![],
        attempts: vec![],
        tasks: vec![],
        connector_accounts: vec![],
        next_object_id: 100,
        faults: StoreFaults::none(),
    }
}

fn store_with_intent(reference: &str, retry_count: u16) -> RecoveryStore {
    let mut store = empty_store();
    store.intents.push(StoredPaymentIntent {
        payment_id: 7,
        merchant_reference_id: reference.to_string(),
        status: IntentStatus::Processing,
        feature_metadata: Some(PaymentIntentFeatureMetadata {
            payment_revenue_recovery_metadata: Some(PaymentRevenueRecoveryMetadata {
                total_retry_count: retry_count,
            }),
        }),
    });
    store
}

fn billing_account(retry_threshold: Option<u16>) -> BillingConnectorAccount {
    BillingConnectorAccount {
        id: "bma_1".to_string(),
        connector_account_details: Some(ConnectorAuthType { api_key: "key_1".to_string() }),
        retry_threshold,
        account_reference_map: vec![],
    }
}

fn settings() -> RecoverySettings {
    RecoverySettings {
        billing_connectors_which_require_payment_sync: vec![],
        retry_schedule: RetrySchedule { times: vec![1000, 2000, 3000, 4000, 5000] },
    }
}

fn merchant_context() -> MerchantContext {
    MerchantContext { merchant_id: "mer_1".to_string(), profile_id: "pro_1".to_string() }
}

fn billing_connector() -> BillingConnector {
    BillingConnector { payment_sync_records: vec![] }
}

fn invoice_details(reference: &str) -> RevenueRecoveryInvoiceData {
    RevenueRecoveryInvoiceData {
        amount: 1999,
        currency: Currency::Usd,
        merchant_reference_id: reference.to_string(),
    }
}

fn attempt_details(reference: &str, transaction_id: &str) -> RevenueRecoveryAttemptData {
    RevenueRecoveryAttemptData {
        amount: 1999,
        currency: Currency::Usd,
        merchant_reference_id: reference.to_string(),
        connector_transaction_id: Some(transaction_id.to_string()),
        error_code: Some("card_declined".to_string()),
        error_message: Some("insufficient funds".to_string()),
        processor_payment_method_token: Some("tok_1".to_string()),
        connector_customer_id: Some("cus_1".to_string()),
        connector_account_reference_id: None,
        transaction_created_at: Some(1_700_000_000),
        status: AttemptStatus::Failure,
        payment_method_type: PaymentMethodType::Card,
        payment_method_sub_type: PaymentMethodSubtype::Credit,
    }
}

fn invoice_ref_id(reference: &str) -> ObjectReferenceId {
    ObjectReferenceId::InvoiceId(reference.to_string())
}

#[test]
fn new_reference_invoice_update_creates_intent_with_no_effect() {
    let mut store = empty_store();
    let mut metrics = RecoveryMetrics { tasks_added_count: 0 };
    let request_details = IncomingWebhookRequestDetails {
        invoice_details: Some(invoice_details("inv_1")),
        attempt_details: None,
    };
    let result = recovery_incoming_webhook_flow(
        &mut store,
        &mut metrics,
        &settings(),
        &billing_connector(),
        &merchant_context(),
        true,
        &billing_account(Some(3)),
        Connector::Chargebee,
        &request_details,
        IncomingWebhookEvent::RecoveryInvoiceUpdate,
        &invoice_ref_id("inv_1"),
    );
    assert_eq!(result, Ok(WebhookResponseTracker::NoEffect));
    assert_eq!(store.intents.len(), 1);
    assert_eq!(store.intents[0].merchant_reference_id, "inv_1");
    assert_eq!(store.intents[0].status, IntentStatus::Processing);
    assert_eq!(
        store.intents[0]
            .feature_metadata
            .and_then(|m| m.payment_revenue_recovery_metadata)
            .map(|m| m.total_retry_count),
        Some(0),
    );
    assert_eq!(store.attempts.len(), 0);
    assert_eq!(store.tasks.len(), 0);
    assert_eq!(metrics.tasks_added_count, 0);
}

#[test]
fn failed_transaction_within_budget_records_attempt_and_schedules_task() {
    let mut store = store_with_intent("inv_2", 2);
    let mut metrics = RecoveryMetrics { tasks_added_count: 0 };
    let request_details = IncomingWebhookRequestDetails {
        invoice_details: Some(invoice_details("inv_2")),
        attempt_details: Some(attempt_details("inv_2", "txn_42")),
    };
    let result = recovery_incoming_webhook_flow(
        &mut store,
        &mut metrics,
        &settings(),
        &billing_connector(),
        &merchant_context(),
        true,
        &billing_account(Some(3)),
        Connector::Chargebee,
        &request_details,
        IncomingWebhookEvent::RecoveryPaymentFailure,
        &invoice_ref_id("inv_2"),
    );
    assert_eq!(
        result,
        Ok(WebhookResponseTracker::Payment { payment_id: 7, status: IntentStatus::Failed }),
    );
    // A brand-new attempt was recorded, marked externally triggered.
    assert_eq!(store.attempts.len(), 1);
    assert_eq!(store.attempts[0].payment_id, 7);
    assert_eq!(store.attempts[0].connector_transaction_id, Some("txn_42".to_string()));
    assert_eq!(store.attempts[0].status, AttemptStatus::Failure);
    assert_eq!(
        store.attempts[0]
            .feature_metadata
            .and_then(|m| m.revenue_recovery)
            .map(|m| m.attempt_triggered_by),
        Some(TriggeredBy::External),
    );
    // The intent's status was refreshed from the failed attempt.
    assert_eq!(store.intents[0].status, IntentStatus::Failed);
    // One task, carrying the intent-level retry count and a schedule time for
    // attempt number three.
    assert_eq!(store.tasks.len(), 1);
    assert_eq!(store.tasks[0].retry_count, 2);
    assert_eq!(store.tasks[0].schedule_time, 3000);
    assert_eq!(store.tasks[0].tracking_data.global_payment_id, 7);
    assert_eq!(store.tasks[0].tracking_data.billing_mca_id, "bma_1");
    assert_eq!(store.tasks[0].tracking_data.merchant_id, "mer_1");
    assert_eq!(store.tasks[0].tracking_data.profile_id, "pro_1");
    assert_eq!(store.tasks[0].id.payment_id, 7);
    assert_eq!(metrics.tasks_added_count, 1);
}

#[test]
fn failed_transaction_beyond_budget_inserts_no_task() {
    let mut store = store_with_intent("inv_2", 4);
    let mut metrics = RecoveryMetrics { tasks_added_count: 0 };
    let request_details = IncomingWebhookRequestDetails {
        invoice_details: Some(invoice_details("inv_2")),
        attempt_details: Some(attempt_details("inv_2", "txn_42")),
    };
    let result = recovery_incoming_webhook_flow(
        &mut store,
        &mut metrics,
        &settings(),
        &billing_connector(),
        &merchant_context(),
        true,
        &billing_account(Some(3)),
        Connector::Chargebee,
        &request_details,
        IncomingWebhookEvent::RecoveryPaymentFailure,
        &invoice_ref_id("inv_2"),
    );
    assert_eq!(result, Ok(WebhookResponseTracker::NoEffect));
    assert_eq!(store.tasks.len(), 0);
    assert_eq!(metrics.tasks_added_count, 0);
    // The attempt itself was still recorded; only the scheduling was gated.
    assert_eq!(store.attempts.len(), 1);
}

#[test]
fn unverified_webhook_aborts_before_any_store_access() {
    let mut store = store_with_intent("inv_2", 0);
    let mut metrics = RecoveryMetrics { tasks_added_count: 0 };
    let request_details = IncomingWebhookRequestDetails {
        invoice_details: Some(invoice_details("inv_2")),
        attempt_details: Some(attempt_details("inv_2", "txn_42")),
    };
    let result = recovery_incoming_webhook_flow(
        &mut store,
        &mut metrics,
        &settings(),
        &billing_connector(),
        &merchant_context(),
        false,
        &billing_account(Some(3)),
        Connector::Chargebee,
        &request_details,
        IncomingWebhookEvent::RecoveryPaymentFailure,
        &invoice_ref_id("inv_2"),
    );
    assert_eq!(result, Err(RevenueRecoveryError::WebhookAuthenticationFailed));
    assert_eq!(store.intents.len(), 1);
    assert_eq!(store.attempts.len(), 0);
    assert_eq!(store.tasks.len(), 0);
    assert_eq!(metrics.tasks_added_count, 0);
}

#[test]
fn reconciling_the_same_invoice_twice_creates_one_intent() {
    let mut store = empty_store();
    let mut metrics = RecoveryMetrics { tasks_added_count: 0 };
    let request_details = IncomingWebhookRequestDetails {
        invoice_details: Some(invoice_details("inv_3")),
        attempt_details: None,
    };
    for _ in 0..2 {
        let result = recovery_incoming_webhook_flow(
            &mut store,
            &mut metrics,
            &settings(),
            &billing_connector(),
            &merchant_context(),
            true,
            &billing_account(Some(3)),
            Connector::Chargebee,
            &request_details,
            IncomingWebhookEvent::RecoveryInvoiceUpdate,
            &invoice_ref_id("inv_3"),
        );
        assert_eq!(result, Ok(WebhookResponseTracker::NoEffect));
    }
    assert_eq!(store.intents.len(), 1);
    assert_eq!(store.intents[0].merchant_reference_id, "inv_3");
}

#[test]
fn redelivered_transaction_webhook_reuses_the_recorded_attempt() {
    let mut store = store_with_intent("inv_4", 1);
    let mut metrics = RecoveryMetrics { tasks_added_count: 0 };
    let request_details = IncomingWebhookRequestDetails {
        invoice_details: Some(invoice_details("inv_4")),
        attempt_details: Some(attempt_details("inv_4", "txn_9")),
    };
    for _ in 0..2 {
        recovery_incoming_webhook_flow(
            &mut store,
            &mut metrics,
            &settings(),
            &billing_connector(),
            &merchant_context(),
            true,
            &billing_account(Some(3)),
            Connector::Chargebee,
            &request_details,
            IncomingWebhookEvent::RecoveryPaymentFailure,
            &invoice_ref_id("inv_4"),
        )
        .unwrap();
    }
    // The second delivery matched the attempt recorded by the first: exactly
    // one attempt row exists for (intent, transaction id).
    assert_eq!(store.attempts.len(), 1);
    assert_eq!(store.attempts[0].connector_transaction_id, Some("txn_9".to_string()));
    // Both deliveries were within budget, so each scheduled a task under the
    // same deterministic id.
    assert_eq!(store.tasks.len(), 2);
    assert_eq!(store.tasks[0].id, store.tasks[1].id);
    assert_eq!(metrics.tasks_added_count, 2);
}

#[test]
fn sync_response_overrides_webhook_body_for_extraction() {
    let mut store = empty_store();
    let mut metrics = RecoveryMetrics { tasks_added_count: 0 };
    // The webhook body parses to one reference, the sync response carries
    // another: the intent must be created under the sync response's.
    let request_details = IncomingWebhookRequestDetails {
        invoice_details: Some(invoice_details("inv_body")),
        attempt_details: None,
    };
    let sync_response = BillingConnectorPaymentsSyncResponse {
        amount: 555,
        currency: Currency::Eur,
        merchant_reference_id: "inv_sync".to_string(),
        connector_transaction_id: Some("txn_5".to_string()),
        status: AttemptStatus::Pending,
        payment_method_type: PaymentMethodType::Card,
        payment_method_sub_type: PaymentMethodSubtype::Credit,
        error_code: None,
        error_message: None,
        connector_account_reference_id: None,
        connector_customer_id: None,
        processor_payment_method_token: None,
        transaction_created_at: None,
    };
    let env = BillingConnector {
        payment_sync_records: vec![revenue_recovery::sync::BillingConnectorSyncRecord {
            billing_connector_psync_id: "txn_5".to_string(),
            response: sync_response,
        }],
    };
    let sync_settings = RecoverySettings {
        billing_connectors_which_require_payment_sync: vec![Connector::Chargebee],
        retry_schedule: RetrySchedule { times: vec![1000, 2000, 3000] },
    };
    let result = recovery_incoming_webhook_flow(
        &mut store,
        &mut metrics,
        &sync_settings,
        &env,
        &merchant_context(),
        true,
        &billing_account(Some(3)),
        Connector::Chargebee,
        &request_details,
        IncomingWebhookEvent::RecoveryInvoiceUpdate,
        &ObjectReferenceId::PaymentId(PaymentIdType::ConnectorTransactionId(
            "txn_5".to_string(),
        )),
    );
    assert_eq!(result, Ok(WebhookResponseTracker::NoEffect));
    assert_eq!(store.intents.len(), 1);
    assert_eq!(store.intents[0].merchant_reference_id, "inv_sync");
}

#[test]
fn sync_response_serves_even_an_unparsable_webhook_body() {
    let mut store = empty_store();
    let mut metrics = RecoveryMetrics { tasks_added_count: 0 };
    let request_details = IncomingWebhookRequestDetails {
        invoice_details: None,
        attempt_details: None,
    };
    let sync_response = BillingConnectorPaymentsSyncResponse {
        amount: 555,
        currency: Currency::Eur,
        merchant_reference_id: "inv_sync2".to_string(),
        connector_transaction_id: Some("txn_6".to_string()),
        status: AttemptStatus::Pending,
        payment_method_type: PaymentMethodType::Card,
        payment_method_sub_type: PaymentMethodSubtype::Credit,
        error_code: None,
        error_message: None,
        connector_account_reference_id: None,
        connector_customer_id: None,
        processor_payment_method_token: None,
        transaction_created_at: None,
    };
    let env = BillingConnector {
        payment_sync_records: vec![revenue_recovery::sync::BillingConnectorSyncRecord {
            billing_connector_psync_id: "txn_6".to_string(),
            response: sync_response,
        }],
    };
    let sync_settings = RecoverySettings {
        billing_connectors_which_require_payment_sync: vec![Connector::Recurly],
        retry_schedule: RetrySchedule { times: vec![1000] },
    };
    let result = recovery_incoming_webhook_flow(
        &mut store,
        &mut metrics,
        &sync_settings,
        &env,
        &merchant_context(),
        true,
        &billing_account(Some(3)),
        Connector::Recurly,
        &request_details,
        IncomingWebhookEvent::RecoveryInvoiceUpdate,
        &ObjectReferenceId::PaymentId(PaymentIdType::ConnectorTransactionId(
            "txn_6".to_string(),
        )),
    );
    assert_eq!(result, Ok(WebhookResponseTracker::NoEffect));
    assert_eq!(store.intents[0].merchant_reference_id, "inv_sync2");
}

#[test]
fn scheduling_happens_exactly_up_to_the_threshold() {
    // threshold 3: retry counts 0..=3 schedule, 4 does not.
    for (retry_count, expect_task) in [(0u16, true), (3u16, true), (4u16, false)] {
        let mut store = store_with_intent("inv_5", retry_count);
        let mut metrics = RecoveryMetrics { tasks_added_count: 0 };
        let request_details = IncomingWebhookRequestDetails {
            invoice_details: Some(invoice_details("inv_5")),
            attempt_details: Some(attempt_details("inv_5", "txn_50")),
        };
        let result = recovery_incoming_webhook_flow(
            &mut store,
            &mut metrics,
            &settings(),
            &billing_connector(),
            &merchant_context(),
            true,
            &billing_account(Some(3)),
            Connector::Chargebee,
            &request_details,
            IncomingWebhookEvent::RecoveryPaymentFailure,
            &invoice_ref_id("inv_5"),
        );
        if expect_task {
            assert_eq!(store.tasks.len(), 1);
            assert_eq!(
                result,
                Ok(WebhookResponseTracker::Payment {
                    payment_id: 7,
                    status: IntentStatus::Failed,
                }),
            );
        } else {
            assert_eq!(store.tasks.len(), 0);
            assert_eq!(result, Ok(WebhookResponseTracker::NoEffect));
        }
    }
}

#[test]
fn external_success_event_completes_with_no_effect() {
    let mut store = store_with_intent("inv_6", 0);
    let mut metrics = RecoveryMetrics { tasks_added_count: 0 };
    let mut details = attempt_details("inv_6", "txn_60");
    details.status = AttemptStatus::Charged;
    let request_details = IncomingWebhookRequestDetails {
        invoice_details: Some(invoice_details("inv_6")),
        attempt_details: Some(details),
    };
    let result = recovery_incoming_webhook_flow(
        &mut store,
        &mut metrics,
        &settings(),
        &billing_connector(),
        &merchant_context(),
        true,
        &billing_account(Some(3)),
        Connector::Chargebee,
        &request_details,
        IncomingWebhookEvent::RecoveryPaymentSuccess,
        &invoice_ref_id("inv_6"),
    );
    assert_eq!(result, Ok(WebhookResponseTracker::NoEffect));
    // The successful external attempt was still recorded and refreshed the
    // intent, but no retry was scheduled.
    assert_eq!(store.attempts.len(), 1);
    assert_eq!(store.intents[0].status, IntentStatus::Succeeded);
    assert_eq!(store.tasks.len(), 0);
}
