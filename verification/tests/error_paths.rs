use revenue_recovery::attempt::RevenueRecoveryAttempt;
use revenue_recovery::errors::RevenueRecoveryError;
use revenue_recovery::flow::{
    handle_schedule_failed_payment, recovery_incoming_webhook_flow, RecoverySettings,
};
use revenue_recovery::store::{
    AccountReferencePair, BillingConnectorAccount, ConnectorAuthType, MerchantConnectorAccount,
    ProcessTrackerRunner, RecoveryMetrics, RecoveryStore, RetrySchedule, StoreFaults,
    StoredPaymentIntent,
};
use revenue_recovery::sync::BillingConnector;
use revenue_recovery::types::{
    AttemptStatus, Connector, Currency, IncomingWebhookEvent, IncomingWebhookRequestDetails,
    IntentStatus, MerchantContext, ObjectReferenceId, PaymentAttemptFeatureMetadata,
    PaymentAttemptRevenueRecoveryData, PaymentIdType, PaymentIntentFeatureMetadata,
    PaymentMethodSubtype, PaymentMethodType, PaymentRevenueRecoveryMetadata,
    RecoveryPaymentAttempt, RecoveryPaymentIntent, RevenueRecoveryAttemptData,
    RevenueRecoveryInvoiceData, TriggeredBy, WebhookResponseTracker,
};

fn empty_store() -> RecoveryStore {
    RecoveryStore {
        intents: vec![],
        attempts: vec![],
        tasks: vec![],
        connector_accounts: vec![],
        next_object_id: 100,
        faults: StoreFaults::none(),
    }
}

fn store_with_intent(reference: &str, retry_count: u16) -> RecoveryStore {
    let mut store = empty_store();
    store.intents.push(StoredPaymentIntent {
        payment_id: 7,
        merchant_reference_id: reference.to_string(),
        status: IntentStatus::Processing,
        feature_metadata: Some(PaymentIntentFeatureMetadata {
            payment_revenue_recovery_metadata: Some(PaymentRevenueRecoveryMetadata {
                total_retry_count: retry_count,
            }),
        }),
    });
    store
}

fn billing_account(retry_threshold: Option<u16>) -> BillingConnectorAccount {
    BillingConnectorAccount {
        id: "bma_1".to_string(),
        connector_account_details: Some(ConnectorAuthType { api_key: "key_1".to_string() }),
        retry_threshold,
        account_reference_map: vec![],
    }
}

fn settings() -> RecoverySettings {
    RecoverySettings {
        billing_connectors_which_require_payment_sync: vec![],
        retry_schedule: RetrySchedule { times: vec![1000, 2000, 3000, 4000, 5000] },
    }
}

fn merchant_context() -> MerchantContext {
    MerchantContext { merchant_id: "mer_1".to_string(), profile_id: "pro_1".to_string() }
}

fn invoice_details(reference: &str) -> RevenueRecoveryInvoiceData {
    RevenueRecoveryInvoiceData {
        amount: 1999,
        currency: Currency::Usd,
        merchant_reference_id: reference.to_string(),
    }
}

fn attempt_details(reference: &str, transaction_id: &str) -> RevenueRecoveryAttemptData {
    RevenueRecoveryAttemptData {
        amount: 1999,
        currency: Currency::Usd,
        merchant_reference_id: reference.to_string(),
        connector_transaction_id: Some(transaction_id.to_string()),
        error_code: None,
        error_message: None,
        processor_payment_method_token: None,
        connector_customer_id: None,
        connector_account_reference_id: None,
        transaction_created_at: None,
        status: AttemptStatus::Failure,
        payment_method_type: PaymentMethodType::Card,
        payment_method_sub_type: PaymentMethodSubtype::Credit,
    }
}

fn run_flow(
    store: &mut RecoveryStore,
    settings: &RecoverySettings,
    env: &BillingConnector,
    account: &BillingConnectorAccount,
    request_details: &IncomingWebhookRequestDetails,
    event_type: IncomingWebhookEvent,
    object_ref_id: &ObjectReferenceId,
) -> Result<WebhookResponseTracker, RevenueRecoveryError> {
    let mut metrics = RecoveryMetrics { tasks_added_count: 0 };
    recovery_incoming_webhook_flow(
        store,
        &mut metrics,
        settings,
        env,
        &merchant_context(),
        true,
        account,
        Connector::Chargebee,
        request_details,
        event_type,
        object_ref_id,
    )
}

fn no_sync() -> BillingConnector {
    BillingConnector { payment_sync_records: vec![] }
}

fn invoice_ref(reference: &str) -> ObjectReferenceId {
    ObjectReferenceId::InvoiceId(reference.to_string())
}

#[test]
fn unreadable_invoice_body_fails_extraction() {
    let mut store = empty_store();
    let request_details =
        IncomingWebhookRequestDetails { invoice_details: None, attempt_details: None };
    let result = run_flow(
        &mut store,
        &settings(),
        &no_sync(),
        &billing_account(Some(3)),
        &request_details,
        IncomingWebhookEvent::RecoveryInvoiceUpdate,
        &invoice_ref("inv_1"),
    );
    assert_eq!(result, Err(RevenueRecoveryError::InvoiceWebhookProcessingFailed));
    assert_eq!(store.intents.len(), 0);
}

#[test]
fn unreadable_transaction_body_fails_extraction() {
    let mut store = store_with_intent("inv_1", 0);
    let request_details = IncomingWebhookRequestDetails {
        invoice_details: Some(invoice_details("inv_1")),
        attempt_details: None,
    };
    let result = run_flow(
        &mut store,
        &settings(),
        &no_sync(),
        &billing_account(Some(3)),
        &request_details,
        IncomingWebhookEvent::RecoveryPaymentFailure,
        &invoice_ref("inv_1"),
    );
    assert_eq!(result, Err(RevenueRecoveryError::TransactionWebhookProcessingFailed));
    assert_eq!(store.attempts.len(), 0);
}

#[test]
fn intent_fetch_fault_is_not_masked_as_not_found() {
    let mut store = store_with_intent("inv_1", 0);
    store.faults.intent_fetch = true;
    let request_details = IncomingWebhookRequestDetails {
        invoice_details: Some(invoice_details("inv_1")),
        attempt_details: None,
    };
    let result = run_flow(
        &mut store,
        &settings(),
        &no_sync(),
        &billing_account(Some(3)),
        &request_details,
        IncomingWebhookEvent::RecoveryInvoiceUpdate,
        &invoice_ref("inv_1"),
    );
    assert_eq!(result, Err(RevenueRecoveryError::PaymentIntentFetchFailed));
    // In particular, no duplicate intent was created for the known reference.
    assert_eq!(store.intents.len(), 1);
}

#[test]
fn intent_create_fault_fails_creation() {
    let mut store = empty_store();
    store.faults.intent_create = true;
    let request_details = IncomingWebhookRequestDetails {
        invoice_details: Some(invoice_details("inv_1")),
        attempt_details: None,
    };
    let result = run_flow(
        &mut store,
        &settings(),
        &no_sync(),
        &billing_account(Some(3)),
        &request_details,
        IncomingWebhookEvent::RecoveryInvoiceUpdate,
        &invoice_ref("inv_1"),
    );
    assert_eq!(result, Err(RevenueRecoveryError::PaymentIntentCreateFailed));
    assert_eq!(store.intents.len(), 0);
}

#[test]
fn attempt_fetch_fault_fails_reconciliation() {
    let mut store = store_with_intent("inv_1", 0);
    store.faults.attempt_fetch = true;
    let request_details = IncomingWebhookRequestDetails {
        invoice_details: Some(invoice_details("inv_1")),
        attempt_details: Some(attempt_details("inv_1", "txn_1")),
    };
    let result = run_flow(
        &mut store,
        &settings(),
        &no_sync(),
        &billing_account(Some(3)),
        &request_details,
        IncomingWebhookEvent::RecoveryPaymentFailure,
        &invoice_ref("inv_1"),
    );
    assert_eq!(result, Err(RevenueRecoveryError::PaymentAttemptFetchFailed));
    assert_eq!(store.attempts.len(), 0);
}

#[test]
fn attempt_record_fault_fails_recording() {
    let mut store = store_with_intent("inv_1", 0);
    store.faults.attempt_record = true;
    let request_details = IncomingWebhookRequestDetails {
        invoice_details: Some(invoice_details("inv_1")),
        attempt_details: Some(attempt_details("inv_1", "txn_1")),
    };
    let result = run_flow(
        &mut store,
        &settings(),
        &no_sync(),
        &billing_account(Some(3)),
        &request_details,
        IncomingWebhookEvent::RecoveryPaymentFailure,
        &invoice_ref("inv_1"),
    );
    assert_eq!(result, Err(RevenueRecoveryError::PaymentAttemptRecordFailed));
    assert_eq!(store.attempts.len(), 0);
}

#[test]
fn mapped_payment_account_that_cannot_be_loaded_fails_resolution() {
    let mut store = store_with_intent("inv_1", 0);
    let mut account = billing_account(Some(3));
    account.account_reference_map.push(AccountReferencePair {
        account_reference_id: "ref_1".to_string(),
        merchant_connector_account_id: "mca_9".to_string(),
    });
    let mut details = attempt_details("inv_1", "txn_1");
    details.connector_account_reference_id = Some("ref_1".to_string());
    let request_details = IncomingWebhookRequestDetails {
        invoice_details: Some(invoice_details("inv_1")),
        attempt_details: Some(details),
    };
    let result = run_flow(
        &mut store,
        &settings(),
        &no_sync(),
        &account,
        &request_details,
        IncomingWebhookEvent::RecoveryPaymentFailure,
        &invoice_ref("inv_1"),
    );
    assert_eq!(result, Err(RevenueRecoveryError::PaymentMerchantConnectorAccountNotFound));
}

#[test]
fn unmapped_account_reference_is_absence_not_an_error() {
    let mut store = store_with_intent("inv_1", 0);
    let mut details = attempt_details("inv_1", "txn_1");
    details.connector_account_reference_id = Some("ref_unknown".to_string());
    let request_details = IncomingWebhookRequestDetails {
        invoice_details: Some(invoice_details("inv_1")),
        attempt_details: Some(details),
    };
    let result = run_flow(
        &mut store,
        &settings(),
        &no_sync(),
        &billing_account(Some(3)),
        &request_details,
        IncomingWebhookEvent::RecoveryPaymentFailure,
        &invoice_ref("inv_1"),
    );
    assert!(result.is_ok());
    assert_eq!(store.attempts.len(), 1);
}

#[test]
fn resolved_payment_account_is_used_for_recording() {
    let mut store = store_with_intent("inv_1", 0);
    store.connector_accounts.push(MerchantConnectorAccount {
        id: "mca_9".to_string(),
        connector_name: Connector::Stripebilling,
    });
    let mut account = billing_account(Some(3));
    account.account_reference_map.push(AccountReferencePair {
        account_reference_id: "ref_1".to_string(),
        merchant_connector_account_id: "mca_9".to_string(),
    });
    let mut details = attempt_details("inv_1", "txn_1");
    details.connector_account_reference_id = Some("ref_1".to_string());
    let request_details = IncomingWebhookRequestDetails {
        invoice_details: Some(invoice_details("inv_1")),
        attempt_details: Some(details),
    };
    let result = run_flow(
        &mut store,
        &settings(),
        &no_sync(),
        &account,
        &request_details,
        IncomingWebhookEvent::RecoveryPaymentFailure,
        &invoice_ref("inv_1"),
    );
    assert!(result.is_ok());
    assert_eq!(store.attempts.len(), 1);
}

#[test]
fn required_sync_with_unknown_transaction_fails() {
    let mut store = empty_store();
    let sync_settings = RecoverySettings {
        billing_connectors_which_require_payment_sync: vec![Connector::Chargebee],
        retry_schedule: RetrySchedule { times: vec![1000] },
    };
    let request_details = IncomingWebhookRequestDetails {
        invoice_details: Some(invoice_details("inv_1")),
        attempt_details: None,
    };
    let result = run_flow(
        &mut store,
        &sync_settings,
        &no_sync(),
        &billing_account(Some(3)),
        &request_details,
        IncomingWebhookEvent::RecoveryInvoiceUpdate,
        &ObjectReferenceId::PaymentId(PaymentIdType::ConnectorTransactionId(
            "txn_missing".to_string(),
        )),
    );
    assert_eq!(result, Err(RevenueRecoveryError::BillingConnectorPaymentsSyncFailed));
}

#[test]
fn required_sync_without_a_transaction_reference_fails() {
    let mut store = empty_store();
    let sync_settings = RecoverySettings {
        billing_connectors_which_require_payment_sync: vec![Connector::Chargebee],
        retry_schedule: RetrySchedule { times: vec![1000] },
    };
    let request_details = IncomingWebhookRequestDetails {
        invoice_details: Some(invoice_details("inv_1")),
        attempt_details: None,
    };
    let result = run_flow(
        &mut store,
        &sync_settings,
        &no_sync(),
        &billing_account(Some(3)),
        &request_details,
        IncomingWebhookEvent::RecoveryInvoiceUpdate,
        &invoice_ref("inv_1"),
    );
    assert_eq!(result, Err(RevenueRecoveryError::BillingConnectorPaymentsSyncFailed));
}

#[test]
fn required_sync_with_unparsable_credentials_fails() {
    let mut store = empty_store();
    let mut account = billing_account(Some(3));
    account.connector_account_details = None;
    let sync_settings = RecoverySettings {
        billing_connectors_which_require_payment_sync: vec![Connector::Chargebee],
        retry_schedule: RetrySchedule { times: vec![1000] },
    };
    let request_details = IncomingWebhookRequestDetails {
        invoice_details: Some(invoice_details("inv_1")),
        attempt_details: None,
    };
    let result = run_flow(
        &mut store,
        &sync_settings,
        &no_sync(),
        &account,
        &request_details,
        IncomingWebhookEvent::RecoveryInvoiceUpdate,
        &ObjectReferenceId::PaymentId(PaymentIdType::ConnectorTransactionId(
            "txn_1".to_string(),
        )),
    );
    assert_eq!(result, Err(RevenueRecoveryError::BillingConnectorPaymentsSyncFailed));
}

#[test]
fn missing_retry_threshold_fails() {
    let mut store = empty_store();
    let request_details = IncomingWebhookRequestDetails {
        invoice_details: Some(invoice_details("inv_1")),
        attempt_details: None,
    };
    let result = run_flow(
        &mut store,
        &settings(),
        &no_sync(),
        &billing_account(None),
        &request_details,
        IncomingWebhookEvent::RecoveryInvoiceUpdate,
        &invoice_ref("inv_1"),
    );
    assert_eq!(result, Err(RevenueRecoveryError::BillingThresholdRetryCountFetchFailed));
}

#[test]
fn missing_retry_count_fails() {
    let mut store = empty_store();
    store.intents.push(StoredPaymentIntent {
        payment_id: 7,
        merchant_reference_id: "inv_1".to_string(),
        status: IntentStatus::Processing,
        feature_metadata: None,
    });
    let request_details = IncomingWebhookRequestDetails {
        invoice_details: Some(invoice_details("inv_1")),
        attempt_details: None,
    };
    let result = run_flow(
        &mut store,
        &settings(),
        &no_sync(),
        &billing_account(Some(3)),
        &request_details,
        IncomingWebhookEvent::RecoveryInvoiceUpdate,
        &invoice_ref("inv_1"),
    );
    assert_eq!(result, Err(RevenueRecoveryError::RetryCountFetchFailed));
}

#[test]
fn exhausted_backoff_schedule_fails_scheduling() {
    let mut store = store_with_intent("inv_1", 2);
    let short_settings = RecoverySettings {
        billing_connectors_which_require_payment_sync: vec![],
        retry_schedule: RetrySchedule { times: vec![1000] },
    };
    let request_details = IncomingWebhookRequestDetails {
        invoice_details: Some(invoice_details("inv_1")),
        attempt_details: Some(attempt_details("inv_1", "txn_1")),
    };
    let result = run_flow(
        &mut store,
        &short_settings,
        &no_sync(),
        &billing_account(Some(3)),
        &request_details,
        IncomingWebhookEvent::RecoveryPaymentFailure,
        &invoice_ref("inv_1"),
    );
    assert_eq!(result, Err(RevenueRecoveryError::ScheduleTimeFetchFailed));
    assert_eq!(store.tasks.len(), 0);
}

#[test]
fn task_insert_fault_fails_scheduling() {
    let mut store = store_with_intent("inv_1", 0);
    store.faults.task_insert = true;
    let request_details = IncomingWebhookRequestDetails {
        invoice_details: Some(invoice_details("inv_1")),
        attempt_details: Some(attempt_details("inv_1", "txn_1")),
    };
    let result = run_flow(
        &mut store,
        &settings(),
        &no_sync(),
        &billing_account(Some(3)),
        &request_details,
        IncomingWebhookEvent::RecoveryPaymentFailure,
        &invoice_ref("inv_1"),
    );
    assert_eq!(result, Err(RevenueRecoveryError::ProcessTrackerResponseError));
    assert_eq!(store.tasks.len(), 0);
    // The attempt was recorded before the failed insertion.
    assert_eq!(store.attempts.len(), 1);
}

#[test]
fn scheduling_without_an_attempt_id_fails_and_inserts_nothing() {
    let mut store = empty_store();
    let mut metrics = RecoveryMetrics { tasks_added_count: 0 };
    let intent = RecoveryPaymentIntent {
        payment_id: 7,
        status: IntentStatus::Failed,
        feature_metadata: None,
    };
    let result = RevenueRecoveryAttempt::insert_execute_pcr_task(
        &"bma_1".to_string(),
        &mut store,
        &mut metrics,
        "mer_1".to_string(),
        intent,
        "pro_1".to_string(),
        0,
        None,
        ProcessTrackerRunner::PassiveRecoveryWorkflow,
        &RetrySchedule { times: vec![1000] },
    );
    assert_eq!(result, Err(RevenueRecoveryError::PaymentAttemptIdNotFound));
    assert_eq!(store.tasks.len(), 0);
    assert_eq!(metrics.tasks_added_count, 0);
}

#[test]
fn schedule_gate_boundary_at_the_threshold() {
    let attempt = RecoveryPaymentAttempt {
        attempt_id: 42,
        attempt_status: AttemptStatus::Failure,
        feature_metadata: Some(PaymentAttemptFeatureMetadata {
            revenue_recovery: Some(PaymentAttemptRevenueRecoveryData {
                attempt_triggered_by: TriggeredBy::External,
            }),
        }),
    };
    let intent = RecoveryPaymentIntent {
        payment_id: 7,
        status: IntentStatus::Failed,
        feature_metadata: None,
    };
    let schedule = RetrySchedule { times: vec![1000, 2000, 3000, 4000, 5000] };
    // Retry count equal to the threshold still schedules.
    let mut store = empty_store();
    let mut metrics = RecoveryMetrics { tasks_added_count: 0 };
    let result = handle_schedule_failed_payment(
        &billing_account(Some(3)),
        3,
        3,
        &mut store,
        &mut metrics,
        &merchant_context(),
        &(Some(attempt), intent),
        &schedule,
    );
    assert_eq!(
        result,
        Ok(WebhookResponseTracker::Payment { payment_id: 7, status: IntentStatus::Failed }),
    );
    assert_eq!(store.tasks.len(), 1);
    assert_eq!(store.tasks[0].tracking_data.payment_attempt_id, 42);
    assert_eq!(store.tasks[0].schedule_time, 4000);
    // One past the threshold does not.
    let mut store2 = empty_store();
    let mut metrics2 = RecoveryMetrics { tasks_added_count: 0 };
    let result2 = handle_schedule_failed_payment(
        &billing_account(Some(3)),
        4,
        3,
        &mut store2,
        &mut metrics2,
        &merchant_context(),
        &(Some(attempt), intent),
        &schedule,
    );
    assert_eq!(result2, Ok(WebhookResponseTracker::NoEffect));
    assert_eq!(store2.tasks.len(), 0);
    assert_eq!(metrics2.tasks_added_count, 0);
}

#[test]
fn existing_attempt_is_returned_not_rerecorded() {
    let mut store = store_with_intent("inv_1", 1);
    store.attempts.push(revenue_recovery::store::StoredPaymentAttempt {
        attempt_id: 55,
        payment_id: 7,
        connector_transaction_id: Some("txn_9".to_string()),
        status: AttemptStatus::Failure,
        feature_metadata: Some(PaymentAttemptFeatureMetadata {
            revenue_recovery: Some(PaymentAttemptRevenueRecoveryData {
                attempt_triggered_by: TriggeredBy::Internal,
            }),
        }),
    });
    let details = RevenueRecoveryAttempt(attempt_details("inv_1", "txn_9"));
    let intent = RecoveryPaymentIntent {
        payment_id: 7,
        status: IntentStatus::Processing,
        feature_metadata: None,
    };
    let found = details.get_payment_attempt(&store, &intent).unwrap();
    let (attempt, returned_intent) = found.expect("the stored attempt must be found");
    assert_eq!(attempt.attempt_id, 55);
    assert_eq!(attempt.attempt_status, AttemptStatus::Failure);
    assert_eq!(returned_intent, intent);
    // Nothing was recorded: the store still holds exactly one attempt.
    assert_eq!(store.attempts.len(), 1);
}
