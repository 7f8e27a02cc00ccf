//! Resolution of a transaction webhook into a payment attempt, and the
//! insertion of the durable retry task.
//!
//! Only transaction-type events ever touch an attempt. An attempt already
//! stored for the webhook's connector transaction id is returned as is; only
//! an unknown transaction id is recorded, always as externally triggered,
//! since this path never records attempts originated by the system's own
//! payment flow.

use vstd::prelude::*;

use crate::errors::RevenueRecoveryError;
use crate::store::{
    ApiVersion, BillingConnectorAccount, MerchantConnectorAccount, PcrWorkflowTrackingData,
    ProcessTrackerEntry, ProcessTrackerId, ProcessTrackerRunner, ProcessTrackerTag,
    RecoveryMetrics, RecoveryStore, RecoveryWorkflowTask, RetrySchedule, StoredPaymentIntent,
    get_schedule_time_to_retry_mit_payments, spec_recorded_attempt, spec_recovery_attempt_of,
    spec_recovery_intent_of, spec_schedule_time, spec_transaction_fresh,
};
use crate::sync::{BillingConnectorPaymentsSyncResponse, spec_attempt_data_of_sync};
use crate::types::{
    IncomingWebhookRequestDetails, PaymentAttemptAmountDetails, PaymentAttemptFeatureMetadata,
    PaymentAttemptRevenueRecoveryData, PaymentsAttemptRecordRequest, RecordAttemptErrorDetails,
    RecoveryPaymentAttempt, RecoveryPaymentIntent, RevenueRecoveryAttemptData, TriggeredBy,
    WebhookResponseTracker, clone_opt_string, spec_intent_status_of_attempt,
};

verus! {

/// The transaction facts of one webhook, normalized.
#[derive(Debug)]
pub struct RevenueRecoveryAttempt(pub RevenueRecoveryAttemptData);

/// Which transaction facts the flow works on: the sync response's when one is
/// present, the webhook body's otherwise; a webhook body the connector's
/// parser cannot read fails the extraction.
pub open spec fn spec_get_recovery_invoice_transaction_details(
    request_details: IncomingWebhookRequestDetails,
    billing_connector_payment_details: Option<BillingConnectorPaymentsSyncResponse>,
) -> Result<RevenueRecoveryAttempt, RevenueRecoveryError> {
    match billing_connector_payment_details {
        Some(data) => Ok(RevenueRecoveryAttempt(spec_attempt_data_of_sync(data))),
        None => match request_details.attempt_details {
            Some(data) => Ok(RevenueRecoveryAttempt(data)),
            None => Err(RevenueRecoveryError::TransactionWebhookProcessingFailed),
        },
    }
}

/// A present sync response decides the transaction facts alone: the webhook
/// body is never consulted, whatever it holds.
pub proof fn lemma_sync_precedence_transaction(
    request_details_a: IncomingWebhookRequestDetails,
    request_details_b: IncomingWebhookRequestDetails,
    sync_response: BillingConnectorPaymentsSyncResponse,
)
    ensures
        spec_get_recovery_invoice_transaction_details(request_details_a, Some(sync_response))
            == spec_get_recovery_invoice_transaction_details(request_details_b, Some(sync_response)),
{
}

/// The record-attempt request built from the given transaction facts: the
/// attempt is marked externally triggered, and the payment connector account,
/// when resolved, contributes its connector and id.
pub open spec fn spec_create_payment_record_request(
    data: RevenueRecoveryAttemptData,
    billing_merchant_connector_account_id: String,
    payment_merchant_connector_account: Option<MerchantConnectorAccount>,
) -> PaymentsAttemptRecordRequest {
    PaymentsAttemptRecordRequest {
        amount_details: PaymentAttemptAmountDetails { amount: data.amount, currency: data.currency },
        status: data.status,
        connector: match payment_merchant_connector_account {
            Some(account) => Some(account.connector_name),
            None => None,
        },
        payment_merchant_connector_id: match payment_merchant_connector_account {
            Some(account) => Some(account.id),
            None => None,
        },
        error: match (data.error_code, data.error_message) {
            (Some(code), Some(message)) => Some(RecordAttemptErrorDetails { code, message }),
            _ => None,
        },
        connector_transaction_id: data.connector_transaction_id,
        payment_method_type: data.payment_method_type,
        billing_connector_id: billing_merchant_connector_account_id,
        payment_method_subtype: data.payment_method_sub_type,
        feature_metadata: Some(
            PaymentAttemptFeatureMetadata {
                revenue_recovery: Some(
                    PaymentAttemptRevenueRecoveryData {
                        attempt_triggered_by: TriggeredBy::External,
                    },
                ),
            },
        ),
        transaction_created_at: data.transaction_created_at,
        processor_payment_method_token: data.processor_payment_method_token,
        connector_customer_id: data.connector_customer_id,
    }
}

impl RevenueRecoveryAttempt {
    /// Extracts the transaction facts for this webhook, preferring the sync
    /// response over the webhook body.
    pub fn get_recovery_invoice_transaction_details(
        request_details: &IncomingWebhookRequestDetails,
        billing_connector_payment_details: Option<&BillingConnectorPaymentsSyncResponse>,
    ) -> (res: Result<Self, RevenueRecoveryError>)
        ensures
            res == spec_get_recovery_invoice_transaction_details(
                *request_details,
                match billing_connector_payment_details {
                    Some(d) => Some(*d),
                    None => None,
                },
            ),
    {
        match billing_connector_payment_details {
            Some(data) => Ok(RevenueRecoveryAttempt(data.attempt_data())),
            None => match &request_details.attempt_details {
                Some(data) => Ok(RevenueRecoveryAttempt(data.clone())),
                None => Err(RevenueRecoveryError::TransactionWebhookProcessingFailed),
            },
        }
    }

    /// Builds the record-attempt request for these transaction facts. The
    /// attempt is always recorded as externally triggered: this path only
    /// records attempts the system's own payment flow did not originate.
    pub fn create_payment_record_request(
        &self,
        billing_merchant_connector_account_id: &String,
        payment_merchant_connector_account: Option<MerchantConnectorAccount>,
    ) -> (res: PaymentsAttemptRecordRequest)
        ensures
            res == spec_create_payment_record_request(
                self.0,
                *billing_merchant_connector_account_id,
                payment_merchant_connector_account,
            ),
    {
        let (connector, payment_merchant_connector_id) = match &payment_merchant_connector_account {
            Some(account) => (Some(account.connector_name), Some(account.id.clone())),
            None => (None, None),
        };
        let error = match (&self.0.error_code, &self.0.error_message) {
            (Some(code), Some(message)) => Some(
                RecordAttemptErrorDetails { code: code.clone(), message: message.clone() },
            ),
            _ => None,
        };
        PaymentsAttemptRecordRequest {
            amount_details: PaymentAttemptAmountDetails {
                amount: self.0.amount,
                currency: self.0.currency,
            },
            status: self.0.status,
            connector,
            payment_merchant_connector_id,
            error,
            connector_transaction_id: clone_opt_string(&self.0.connector_transaction_id),
            payment_method_type: self.0.payment_method_type,
            billing_connector_id: billing_merchant_connector_account_id.clone(),
            payment_method_subtype: self.0.payment_method_sub_type,
            feature_metadata: Some(
                PaymentAttemptFeatureMetadata {
                    revenue_recovery: Some(
                        PaymentAttemptRevenueRecoveryData {
                            attempt_triggered_by: TriggeredBy::External,
                        },
                    ),
                },
            ),
            transaction_created_at: self.0.transaction_created_at,
            processor_payment_method_token: clone_opt_string(
                &self.0.processor_payment_method_token,
            ),
            connector_customer_id: clone_opt_string(&self.0.connector_customer_id),
        }
    }

    /// The payment connector account resolution these facts lead to: no
    /// reference or an unmapped reference is a valid absence; a mapped
    /// account that cannot be loaded is the resolution failure.
    pub open spec fn spec_find_payment_merchant_connector_account(
        self,
        store: RecoveryStore,
        billing_connector_account: BillingConnectorAccount,
    ) -> Result<Option<MerchantConnectorAccount>, RevenueRecoveryError> {
        match self.0.connector_account_reference_id {
            None => Ok(None),
            Some(rid) => {
                if !billing_connector_account.spec_has_reference(rid@) {
                    Ok(None)
                } else if store.faults.connector_account_fetch {
                    Err(RevenueRecoveryError::PaymentMerchantConnectorAccountNotFound)
                } else if store.spec_has_account_with_id(
                    billing_connector_account.spec_reference_target(rid@),
                ) {
                    Ok(
                        Some(
                            store.spec_account_with_id(
                                billing_connector_account.spec_reference_target(rid@),
                            ),
                        ),
                    )
                } else {
                    Err(RevenueRecoveryError::PaymentMerchantConnectorAccountNotFound)
                }
            },
        }
    }

    /// Resolves the merchant's own connector account for the original
    /// payment, through the billing account's reference mapping.
    pub fn find_payment_merchant_connector_account(
        &self,
        store: &RecoveryStore,
        billing_connector_account: &BillingConnectorAccount,
    ) -> (res: Result<Option<MerchantConnectorAccount>, RevenueRecoveryError>)
        requires
            store.wf(),
            billing_connector_account.wf(),
        ensures
            res == self.spec_find_payment_merchant_connector_account(
                *store,
                *billing_connector_account,
            ),
    {
        let payment_merchant_connector_account_id = billing_connector_account
            .get_payment_merchant_connector_account_id_using_account_reference_id(
            &self.0.connector_account_reference_id,
        );
        match payment_merchant_connector_account_id {
            None => Ok(None),
            Some(mca_id) => match store.find_merchant_connector_account_by_id(&mca_id) {
                Ok(Some(account)) => Ok(Some(account)),
                Ok(None) => Err(RevenueRecoveryError::PaymentMerchantConnectorAccountNotFound),
                Err(_) => Err(RevenueRecoveryError::PaymentMerchantConnectorAccountNotFound),
            },
        }
    }

    /// The attempt lookup these facts lead to on the intent: the stored
    /// attempt carrying the webhook's connector transaction id, an absence
    /// when the intent has no such attempt (or the facts carry no id at all).
    pub open spec fn spec_get_payment_attempt(
        self,
        store: RecoveryStore,
        payment_intent: RecoveryPaymentIntent,
    ) -> Result<Option<(RecoveryPaymentAttempt, RecoveryPaymentIntent)>, RevenueRecoveryError> {
        if store.faults.attempt_fetch {
            Err(RevenueRecoveryError::PaymentAttemptFetchFailed)
        } else if !store.spec_has_intent_with_payment_id(payment_intent.payment_id) {
            Err(RevenueRecoveryError::PaymentAttemptFetchFailed)
        } else {
            match self.0.connector_transaction_id {
                None => Ok(None),
                Some(tid) => {
                    if store.spec_has_attempt_for_transaction(payment_intent.payment_id, tid@) {
                        Ok(
                            Some(
                                (
                                    spec_recovery_attempt_of(
                                        store.spec_attempt_for_transaction(
                                            payment_intent.payment_id,
                                            tid@,
                                        ),
                                    ),
                                    payment_intent,
                                ),
                            ),
                        )
                    } else {
                        Ok(None)
                    }
                },
            }
        }
    }

    /// Looks the webhook's connector transaction id up among the intent's
    /// stored attempts; a hit pairs the stored attempt with the unmodified
    /// intent.
    pub fn get_payment_attempt(
        &self,
        store: &RecoveryStore,
        payment_intent: &RecoveryPaymentIntent,
    ) -> (res: Result<
        Option<(RecoveryPaymentAttempt, RecoveryPaymentIntent)>,
        RevenueRecoveryError,
    >)
        requires
            store.wf(),
        ensures
            res == self.spec_get_payment_attempt(*store, *payment_intent),
    {
        if store.faults.attempt_fetch {
            return Err(RevenueRecoveryError::PaymentAttemptFetchFailed);
        }
        if !store.has_intent_with_payment_id(payment_intent.payment_id) {
            return Err(RevenueRecoveryError::PaymentAttemptFetchFailed);
        }
        match &self.0.connector_transaction_id {
            None => Ok(None),
            Some(transaction_id) => match store.get_attempt_by_connector_transaction_id(
                payment_intent.payment_id,
                transaction_id,
            ) {
                Ok(Some(attempt)) => Ok(Some((attempt, *payment_intent))),
                Ok(None) => Ok(None),
                Err(_) => Err(RevenueRecoveryError::PaymentAttemptFetchFailed),
            },
        }
    }

    /// What recording these facts against the intent returns: the new
    /// externally-triggered attempt and the intent refreshed from its
    /// outcome.
    pub open spec fn spec_record_payment_attempt(
        self,
        store: RecoveryStore,
        payment_intent: RecoveryPaymentIntent,
        billing_merchant_connector_account_id: String,
        payment_merchant_connector_account: Option<MerchantConnectorAccount>,
    ) -> Result<(RecoveryPaymentAttempt, RecoveryPaymentIntent), RevenueRecoveryError> {
        if store.faults.attempt_record {
            Err(RevenueRecoveryError::PaymentAttemptRecordFailed)
        } else if !store.spec_has_intent_with_payment_id(payment_intent.payment_id) {
            Err(RevenueRecoveryError::PaymentAttemptRecordFailed)
        } else {
            let req = spec_create_payment_record_request(
                self.0,
                billing_merchant_connector_account_id,
                payment_merchant_connector_account,
            );
            let att = spec_recorded_attempt(req, payment_intent.payment_id, store.next_object_id);
            let si = store.spec_intent_with_payment_id(payment_intent.payment_id);
            let updated = StoredPaymentIntent {
                status: spec_intent_status_of_attempt(req.status),
                ..si
            };
            Ok((spec_recovery_attempt_of(att), spec_recovery_intent_of(updated)))
        }
    }

    /// Records a brand-new externally-triggered attempt for these facts
    /// against the intent.
    pub fn record_payment_attempt(
        &self,
        store: &mut RecoveryStore,
        payment_intent: &RecoveryPaymentIntent,
        billing_merchant_connector_account_id: &String,
        payment_merchant_connector_account: Option<MerchantConnectorAccount>,
    ) -> (res: Result<(RecoveryPaymentAttempt, RecoveryPaymentIntent), RevenueRecoveryError>)
        requires
            old(store).wf(),
            old(store).next_object_id < u64::MAX,
        ensures
            res == self.spec_record_payment_attempt(
                *old(store),
                *payment_intent,
                *billing_merchant_connector_account_id,
                payment_merchant_connector_account,
            ),
            res is Err ==> *final(store) == *old(store),
            res is Ok ==> {
                let req = spec_create_payment_record_request(
                    self.0,
                    *billing_merchant_connector_account_id,
                    payment_merchant_connector_account,
                );
                let att = spec_recorded_attempt(
                    req,
                    payment_intent.payment_id,
                    old(store).next_object_id,
                );
                let iidx = old(store).spec_intent_index_for_payment_id(payment_intent.payment_id);
                let si = old(store).spec_intent_with_payment_id(payment_intent.payment_id);
                let updated = StoredPaymentIntent {
                    status: spec_intent_status_of_attempt(req.status),
                    ..si
                };
                &&& final(store).intents@ == old(store).intents@.update(iidx, updated)
                &&& final(store).attempts@ == old(store).attempts@.push(att)
                &&& final(store).tasks == old(store).tasks
                &&& final(store).connector_accounts == old(store).connector_accounts
                &&& final(store).next_object_id == old(store).next_object_id + 1
                &&& final(store).faults == old(store).faults
            },
            spec_transaction_fresh(
                *old(store),
                payment_intent.payment_id,
                self.0.connector_transaction_id,
            ) ==> final(store).wf(),
    {
        let request_payload = self.create_payment_record_request(
            billing_merchant_connector_account_id,
            payment_merchant_connector_account,
        );
        match store.record_attempt(payment_intent.payment_id, &request_payload) {
            Ok(pair) => Ok(pair),
            Err(_) => Err(RevenueRecoveryError::PaymentAttemptRecordFailed),
        }
    }

    /// Runs the attempt side of the reconciliation: nothing for invoice-type
    /// events; for transaction-type events, extract the facts, resolve the
    /// payment connector account, return the matching stored attempt if one
    /// exists, and record a new externally-triggered attempt otherwise.
    pub fn get_recovery_payment_attempt(
        is_recovery_transaction_event: bool,
        billing_connector_account: &BillingConnectorAccount,
        store: &mut RecoveryStore,
        billing_connector_payment_details: Option<&BillingConnectorPaymentsSyncResponse>,
        request_details: &IncomingWebhookRequestDetails,
        payment_intent: &RecoveryPaymentIntent,
    ) -> (res: Result<
        (Option<RecoveryPaymentAttempt>, RecoveryPaymentIntent),
        RevenueRecoveryError,
    >)
        requires
            old(store).wf(),
            old(store).next_object_id < u64::MAX,
            billing_connector_account.wf(),
        ensures
            ({
                let sync = match billing_connector_payment_details {
                    Some(d) => Some(*d),
                    None => None,
                };
                &&& res == spec_get_recovery_payment_attempt(
                    is_recovery_transaction_event,
                    *billing_connector_account,
                    *old(store),
                    sync,
                    *request_details,
                    *payment_intent,
                )
                &&& !spec_attempt_resolution_records(
                    is_recovery_transaction_event,
                    *billing_connector_account,
                    *old(store),
                    sync,
                    *request_details,
                    *payment_intent,
                ) ==> *final(store) == *old(store)
                &&& spec_attempt_resolution_records(
                    is_recovery_transaction_event,
                    *billing_connector_account,
                    *old(store),
                    sync,
                    *request_details,
                    *payment_intent,
                ) ==> {
                    let details = spec_get_recovery_invoice_transaction_details(
                        *request_details,
                        sync,
                    )->Ok_0;
                    let pma = details.spec_find_payment_merchant_connector_account(
                        *old(store),
                        *billing_connector_account,
                    )->Ok_0;
                    let req = spec_create_payment_record_request(
                        details.0,
                        billing_connector_account.id,
                        pma,
                    );
                    let att = spec_recorded_attempt(
                        req,
                        payment_intent.payment_id,
                        old(store).next_object_id,
                    );
                    let iidx = old(store).spec_intent_index_for_payment_id(
                        payment_intent.payment_id,
                    );
                    let si = old(store).spec_intent_with_payment_id(payment_intent.payment_id);
                    let updated = StoredPaymentIntent {
                        status: spec_intent_status_of_attempt(req.status),
                        ..si
                    };
                    &&& final(store).intents@ == old(store).intents@.update(iidx, updated)
                    &&& final(store).attempts@ == old(store).attempts@.push(att)
                    &&& final(store).tasks == old(store).tasks
                    &&& final(store).connector_accounts == old(store).connector_accounts
                    &&& final(store).next_object_id == old(store).next_object_id + 1
                    &&& final(store).faults == old(store).faults
                }
                &&& final(store).wf()
            }),
    {
        if !is_recovery_transaction_event {
            return Ok((None, *payment_intent));
        }
        let invoice_transaction_details = Self::get_recovery_invoice_transaction_details(
            request_details,
            billing_connector_payment_details,
        )?;
        let payment_merchant_connector_account = invoice_transaction_details
            .find_payment_merchant_connector_account(store, billing_connector_account)?;
        match invoice_transaction_details.get_payment_attempt(store, payment_intent)? {
            Some((payment_attempt, updated_payment_intent)) => Ok(
                (Some(payment_attempt), updated_payment_intent),
            ),
            None => {
                proof {
                    assert(spec_transaction_fresh(
                        *store,
                        payment_intent.payment_id,
                        invoice_transaction_details.0.connector_transaction_id,
                    ));
                }
                let billing_mca_id = billing_connector_account.get_id();
                let (payment_attempt, updated_payment_intent) = invoice_transaction_details
                    .record_payment_attempt(
                    store,
                    payment_intent,
                    &billing_mca_id,
                    payment_merchant_connector_account,
                )?;
                Ok((Some(payment_attempt), updated_payment_intent))
            },
        }
    }

    /// Schedules the durable retry task for the reconciled intent and
    /// attempt: computes the next execution time for attempt number
    /// `intent_retry_count + 1`, requires a concrete attempt id to anchor the
    /// retry to, inserts the task under its deterministic id, and counts the
    /// insertion. A missing schedule time, a missing attempt id and a failed
    /// insertion each abort with their own error, and then nothing is
    /// inserted or counted.
    pub fn insert_execute_pcr_task(
        billing_mca_id: &String,
        store: &mut RecoveryStore,
        metrics: &mut RecoveryMetrics,
        merchant_id: String,
        payment_intent: RecoveryPaymentIntent,
        profile_id: String,
        intent_retry_count: u16,
        payment_attempt_id: Option<u64>,
        runner: ProcessTrackerRunner,
        schedule: &RetrySchedule,
    ) -> (res: Result<WebhookResponseTracker, RevenueRecoveryError>)
        requires
            old(metrics).tasks_added_count < u64::MAX,
        ensures
            res == spec_insert_execute_pcr_task(
                *old(store),
                payment_intent,
                intent_retry_count,
                payment_attempt_id,
                *schedule,
            ),
            res is Err ==> *final(store) == *old(store) && *final(metrics) == *old(metrics),
            res is Ok ==> {
                &&& final(store).tasks@ == old(store).tasks@.push(
                    spec_execute_pcr_task_entry(
                        *billing_mca_id,
                        merchant_id,
                        profile_id,
                        payment_intent,
                        intent_retry_count,
                        payment_attempt_id->0,
                        runner,
                        spec_schedule_time(*schedule, (intent_retry_count + 1) as u32)->0,
                    ),
                )
                &&& final(store).intents == old(store).intents
                &&& final(store).attempts == old(store).attempts
                &&& final(store).connector_accounts == old(store).connector_accounts
                &&& final(store).next_object_id == old(store).next_object_id
                &&& final(store).faults == old(store).faults
                &&& final(metrics).tasks_added_count == old(metrics).tasks_added_count + 1
            },
            old(store).wf() ==> final(store).wf(),
    {
        let task = RecoveryWorkflowTask::ExecuteWorkflow;
        let payment_id = payment_intent.payment_id;
        let process_tracker_id = ProcessTrackerId { runner, task, payment_id };
        let schedule_time = match get_schedule_time_to_retry_mit_payments(
            schedule,
            (intent_retry_count as u32) + 1,
        ) {
            Some(time) => time,
            None => {
                return Err(RevenueRecoveryError::ScheduleTimeFetchFailed);
            },
        };
        let payment_attempt_id = match payment_attempt_id {
            Some(id) => id,
            None => {
                return Err(RevenueRecoveryError::PaymentAttemptIdNotFound);
            },
        };
        let execute_workflow_tracking_data = PcrWorkflowTrackingData {
            billing_mca_id: billing_mca_id.clone(),
            global_payment_id: payment_id,
            merchant_id,
            profile_id,
            payment_attempt_id,
        };
        let process_tracker_entry = ProcessTrackerEntry {
            id: process_tracker_id,
            task,
            runner,
            tag: ProcessTrackerTag::Pcr,
            tracking_data: execute_workflow_tracking_data,
            retry_count: intent_retry_count,
            schedule_time,
            version: ApiVersion::V2,
        };
        match store.insert_process(process_tracker_entry) {
            Ok(_) => {},
            Err(_) => {
                return Err(RevenueRecoveryError::ProcessTrackerResponseError);
            },
        }
        metrics.tasks_added_count = metrics.tasks_added_count + 1;
        Ok(WebhookResponseTracker::Payment { payment_id, status: payment_intent.status })
    }
}

/// The attempt resolution of the whole flow: nothing for invoice-type events;
/// otherwise the stored attempt matching the webhook's connector transaction
/// id, or the newly recorded one.
pub open spec fn spec_get_recovery_payment_attempt(
    is_recovery_transaction_event: bool,
    billing_connector_account: BillingConnectorAccount,
    store: RecoveryStore,
    billing_connector_payment_details: Option<BillingConnectorPaymentsSyncResponse>,
    request_details: IncomingWebhookRequestDetails,
    payment_intent: RecoveryPaymentIntent,
) -> Result<(Option<RecoveryPaymentAttempt>, RecoveryPaymentIntent), RevenueRecoveryError> {
    if !is_recovery_transaction_event {
        Ok((None, payment_intent))
    } else {
        match spec_get_recovery_invoice_transaction_details(
            request_details,
            billing_connector_payment_details,
        ) {
            Err(e) => Err(e),
            Ok(details) => match details.spec_find_payment_merchant_connector_account(
                store,
                billing_connector_account,
            ) {
                Err(e) => Err(e),
                Ok(pma) => match details.spec_get_payment_attempt(store, payment_intent) {
                    Err(e) => Err(e),
                    Ok(Some(pair)) => Ok((Some(pair.0), pair.1)),
                    Ok(None) => match details.spec_record_payment_attempt(
                        store,
                        payment_intent,
                        billing_connector_account.id,
                        pma,
                    ) {
                        Err(e) => Err(e),
                        Ok(pair) => Ok((Some(pair.0), pair.1)),
                    },
                },
            },
        }
    }
}

/// Whether the attempt resolution records a new attempt row: a transaction
/// event whose facts extract, whose account resolves, whose transaction id no
/// stored attempt of the intent carries, against a store whose record
/// operation completes.
pub open spec fn spec_attempt_resolution_records(
    is_recovery_transaction_event: bool,
    billing_connector_account: BillingConnectorAccount,
    store: RecoveryStore,
    billing_connector_payment_details: Option<BillingConnectorPaymentsSyncResponse>,
    request_details: IncomingWebhookRequestDetails,
    payment_intent: RecoveryPaymentIntent,
) -> bool {
    &&& is_recovery_transaction_event
    &&& spec_get_recovery_invoice_transaction_details(
        request_details,
        billing_connector_payment_details,
    ) matches Ok(details) && details.spec_find_payment_merchant_connector_account(
        store,
        billing_connector_account,
    ) is Ok && (details.spec_get_payment_attempt(store, payment_intent) matches Ok(found)
        && found is None)
    &&& !store.faults.attempt_record
}

/// An attempt already stored for the webhook's connector transaction id is
/// returned exactly as stored, and nothing new is recorded for it.
pub proof fn lemma_attempt_matching(
    billing_connector_account: BillingConnectorAccount,
    store: RecoveryStore,
    billing_connector_payment_details: Option<BillingConnectorPaymentsSyncResponse>,
    request_details: IncomingWebhookRequestDetails,
    payment_intent: RecoveryPaymentIntent,
    transaction_id: String,
)
    requires
        store.wf(),
        !store.faults.attempt_fetch,
        store.spec_has_intent_with_payment_id(payment_intent.payment_id),
        spec_get_recovery_invoice_transaction_details(
            request_details,
            billing_connector_payment_details,
        ) matches Ok(details) && details.0.connector_transaction_id == Some(transaction_id),
        store.spec_has_attempt_for_transaction(payment_intent.payment_id, transaction_id@),
    ensures
        (spec_get_recovery_invoice_transaction_details(
            request_details,
            billing_connector_payment_details,
        )->Ok_0).spec_get_payment_attempt(store, payment_intent) == Ok::<
            _,
            RevenueRecoveryError,
        >(
            Some(
                (
                    spec_recovery_attempt_of(
                        store.spec_attempt_for_transaction(
                            payment_intent.payment_id,
                            transaction_id@,
                        ),
                    ),
                    payment_intent,
                ),
            ),
        ),
        !spec_attempt_resolution_records(
            true,
            billing_connector_account,
            store,
            billing_connector_payment_details,
            request_details,
            payment_intent,
        ),
{
}

/// What scheduling returns: the no-time and no-attempt-id failures come
/// before any write; only then is the task inserted.
pub open spec fn spec_insert_execute_pcr_task(
    store: RecoveryStore,
    payment_intent: RecoveryPaymentIntent,
    intent_retry_count: u16,
    payment_attempt_id: Option<u64>,
    schedule: RetrySchedule,
) -> Result<WebhookResponseTracker, RevenueRecoveryError> {
    match spec_schedule_time(schedule, (intent_retry_count + 1) as u32) {
        None => Err(RevenueRecoveryError::ScheduleTimeFetchFailed),
        Some(time) => match payment_attempt_id {
            None => Err(RevenueRecoveryError::PaymentAttemptIdNotFound),
            Some(attempt_id) => {
                if store.faults.task_insert {
                    Err(RevenueRecoveryError::ProcessTrackerResponseError)
                } else {
                    Ok(
                        WebhookResponseTracker::Payment {
                            payment_id: payment_intent.payment_id,
                            status: payment_intent.status,
                        },
                    )
                }
            },
        },
    }
}

/// The task row inserted for one scheduled retry.
pub open spec fn spec_execute_pcr_task_entry(
    billing_mca_id: String,
    merchant_id: String,
    profile_id: String,
    payment_intent: RecoveryPaymentIntent,
    intent_retry_count: u16,
    payment_attempt_id: u64,
    runner: ProcessTrackerRunner,
    schedule_time: u64,
) -> ProcessTrackerEntry {
    ProcessTrackerEntry {
        id: ProcessTrackerId {
            runner,
            task: RecoveryWorkflowTask::ExecuteWorkflow,
            payment_id: payment_intent.payment_id,
        },
        task: RecoveryWorkflowTask::ExecuteWorkflow,
        runner,
        tag: ProcessTrackerTag::Pcr,
        tracking_data: PcrWorkflowTrackingData {
            billing_mca_id,
            global_payment_id: payment_intent.payment_id,
            merchant_id,
            profile_id,
            payment_attempt_id,
        },
        retry_count: intent_retry_count,
        schedule_time,
        version: ApiVersion::V2,
    }
}

} // verus!
