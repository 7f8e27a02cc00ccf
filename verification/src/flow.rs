//! The top-level webhook flow.
//!
//! One delivery runs: authentication check, optional payment-sync call,
//! invoice reconciliation (fetch or create the intent), attempt
//! reconciliation (only for transaction events), classification, and — for
//! `ScheduleFailedPayment` within the retry budget — insertion of the durable
//! retry task. Every other action terminates with `NoEffect`. A failure at
//! any step aborts the webhook with its typed error; the billing provider's
//! redelivery is the retry mechanism at this layer.

use vstd::prelude::*;

use crate::action::{RecoveryAction, spec_get_action};
use crate::attempt::{
    RevenueRecoveryAttempt, spec_attempt_resolution_records, spec_create_payment_record_request,
    spec_execute_pcr_task_entry, spec_get_recovery_invoice_transaction_details,
    spec_get_recovery_payment_attempt, spec_insert_execute_pcr_task,
};
use crate::errors::RevenueRecoveryError;
use crate::invoice::{RevenueRecoveryInvoice, spec_get_recovery_invoice_details};
use crate::store::{
    BillingConnectorAccount, ProcessTrackerEntry, ProcessTrackerRunner, RecoveryMetrics,
    RecoveryStore, RetrySchedule, StoredPaymentAttempt, StoredPaymentIntent,
    lemma_no_attempt_for_fresh_payment_id, spec_new_stored_intent, spec_recorded_attempt,
    spec_recovery_attempt_of, spec_recovery_intent_of, spec_schedule_time,
};
use crate::sync::{
    BillingConnector, BillingConnectorPaymentsSyncResponse,
    BillingConnectorPaymentsSyncResponseData, spec_get_billing_connector_payment_details,
};
use crate::types::{
    Connector, IncomingWebhookEvent, IncomingWebhookRequestDetails, MerchantContext,
    ObjectReferenceId, RecoveryPaymentAttempt, RecoveryPaymentIntent, TriggeredBy,
    WebhookResponseTracker, spec_intent_status_of_attempt,
};

verus! {

/// Deployment-wide settings of the recovery flow: which billing connectors
/// require the synchronous payment-status call, and the retry backoff
/// schedule.
#[derive(Debug)]
pub struct RecoverySettings {
    pub billing_connectors_which_require_payment_sync: Vec<Connector>,
    pub retry_schedule: RetrySchedule,
}

impl RecoverySettings {
    /// Whether this connector is configured as requiring the sync call.
    pub open spec fn spec_requires_payment_sync(self, connector: Connector) -> bool {
        exists|i: int|
            0 <= i < self.billing_connectors_which_require_payment_sync@.len() && (
            #[trigger] self.billing_connectors_which_require_payment_sync@[i]) == connector
    }

    pub fn requires_payment_sync(&self, connector: Connector) -> (r: bool)
        ensures
            r == self.spec_requires_payment_sync(connector),
    {
        let n = self.billing_connectors_which_require_payment_sync.len();
        let mut idx: usize = 0;
        while idx < n
            invariant
                n == self.billing_connectors_which_require_payment_sync@.len(),
                0 <= idx <= n,
                forall|k: int|
                    0 <= k < idx ==> (
                    #[trigger] self.billing_connectors_which_require_payment_sync@[k])
                        != connector,
            decreases n - idx,
        {
            if self.billing_connectors_which_require_payment_sync[idx] == connector {
                return true;
            }
            idx += 1;
        }
        false
    }
}

/// The attempt id carried by an optional attempt.
pub open spec fn spec_attempt_id_of(attempt: Option<RecoveryPaymentAttempt>) -> Option<u64> {
    match attempt {
        Some(a) => Some(a.attempt_id),
        None => None,
    }
}

/// The trigger source carried by an optional attempt's metadata.
pub open spec fn spec_triggered_by_of(attempt: Option<RecoveryPaymentAttempt>) -> Option<
    TriggeredBy,
> {
    match attempt {
        Some(a) => a.spec_get_attempt_triggered_by(),
        None => None,
    }
}

/// The complete outcome of one webhook: every store row sequence and the
/// metrics counter after processing, and the result handed back.
pub struct RecoveryFlowOutcome {
    pub intents: Seq<StoredPaymentIntent>,
    pub attempts: Seq<StoredPaymentAttempt>,
    pub tasks: Seq<ProcessTrackerEntry>,
    pub next_object_id: int,
    pub tasks_added_count: int,
    pub result: Result<WebhookResponseTracker, RevenueRecoveryError>,
}

/// An outcome that leaves store and metrics as they are.
pub open spec fn spec_unchanged_outcome(
    store: RecoveryStore,
    metrics: RecoveryMetrics,
    result: Result<WebhookResponseTracker, RevenueRecoveryError>,
) -> RecoveryFlowOutcome {
    RecoveryFlowOutcome {
        intents: store.intents@,
        attempts: store.attempts@,
        tasks: store.tasks@,
        next_object_id: store.next_object_id as int,
        tasks_added_count: metrics.tasks_added_count as int,
        result,
    }
}

/// The decision taken once intent and attempt stand reconciled: classify the
/// event, require the merchant's threshold and the intent's retry counter,
/// and schedule — or not. `intents2`, `attempts2` and `next2` are the store
/// rows as the reconciliation left them; only a scheduled task changes
/// anything beyond that.
#[verifier::opaque]
pub open spec fn spec_classify_and_schedule(
    intents2: Seq<StoredPaymentIntent>,
    attempts2: Seq<StoredPaymentAttempt>,
    next2: int,
    store: RecoveryStore,
    metrics: RecoveryMetrics,
    merchant_context: MerchantContext,
    billing_connector_account: BillingConnectorAccount,
    event_type: IncomingWebhookEvent,
    recovery_attempt: Option<RecoveryPaymentAttempt>,
    recovery_intent: RecoveryPaymentIntent,
    schedule: RetrySchedule,
) -> RecoveryFlowOutcome {
    let base = RecoveryFlowOutcome {
        intents: intents2,
        attempts: attempts2,
        tasks: store.tasks@,
        next_object_id: next2,
        tasks_added_count: metrics.tasks_added_count as int,
        result: Ok(WebhookResponseTracker::NoEffect),
    };
    let action = spec_get_action(event_type, spec_triggered_by_of(recovery_attempt));
    match billing_connector_account.retry_threshold {
        None => RecoveryFlowOutcome {
            result: Err(RevenueRecoveryError::BillingThresholdRetryCountFetchFailed),
            ..base
        },
        Some(threshold) => match recovery_intent.spec_retry_count() {
            None => RecoveryFlowOutcome {
                result: Err(RevenueRecoveryError::RetryCountFetchFailed),
                ..base
            },
            Some(retry_count) => {
                if action == RecoveryAction::ScheduleFailedPayment {
                    if retry_count <= threshold {
                        match spec_schedule_time(schedule, (retry_count + 1) as u32) {
                            None => RecoveryFlowOutcome {
                                result: Err(RevenueRecoveryError::ScheduleTimeFetchFailed),
                                ..base
                            },
                            Some(time) => match spec_attempt_id_of(recovery_attempt) {
                                None => RecoveryFlowOutcome {
                                    result: Err(RevenueRecoveryError::PaymentAttemptIdNotFound),
                                    ..base
                                },
                                Some(attempt_id) => {
                                    if store.faults.task_insert {
                                        RecoveryFlowOutcome {
                                            result: Err(
                                                RevenueRecoveryError::ProcessTrackerResponseError,
                                            ),
                                            ..base
                                        }
                                    } else {
                                        RecoveryFlowOutcome {
                                            tasks: store.tasks@.push(
                                                spec_execute_pcr_task_entry(
                                                    billing_connector_account.id,
                                                    merchant_context.merchant_id,
                                                    merchant_context.profile_id,
                                                    recovery_intent,
                                                    retry_count,
                                                    attempt_id,
                                                    ProcessTrackerRunner::PassiveRecoveryWorkflow,
                                                    time,
                                                ),
                                            ),
                                            tasks_added_count: metrics.tasks_added_count + 1,
                                            result: Ok(
                                                WebhookResponseTracker::Payment {
                                                    payment_id: recovery_intent.payment_id,
                                                    status: recovery_intent.status,
                                                },
                                            ),
                                            ..base
                                        }
                                    }
                                },
                            },
                        }
                    } else {
                        base
                    }
                } else {
                    base
                }
            },
        },
    }
}

/// The flow's tail when the intent resolution found the intent stored: the
/// attempt reconciliation runs against the store as it was.
#[verifier::opaque]
pub open spec fn spec_flow_stages_existing(
    store: RecoveryStore,
    metrics: RecoveryMetrics,
    merchant_context: MerchantContext,
    billing_connector_account: BillingConnectorAccount,
    sync: Option<BillingConnectorPaymentsSyncResponse>,
    request_details: IncomingWebhookRequestDetails,
    event_type: IncomingWebhookEvent,
    payment_intent: RecoveryPaymentIntent,
    schedule: RetrySchedule,
) -> RecoveryFlowOutcome {
    let is_txn = event_type.spec_is_recovery_transaction_event();
    match spec_get_recovery_payment_attempt(
        is_txn,
        billing_connector_account,
        store,
        sync,
        request_details,
        payment_intent,
    ) {
        Err(e) => spec_unchanged_outcome(store, metrics, Err(e)),
        Ok(pair) => {
            if spec_attempt_resolution_records(
                is_txn,
                billing_connector_account,
                store,
                sync,
                request_details,
                payment_intent,
            ) {
                let details = spec_get_recovery_invoice_transaction_details(
                    request_details,
                    sync,
                )->Ok_0;
                let pma = details.spec_find_payment_merchant_connector_account(
                    store,
                    billing_connector_account,
                )->Ok_0;
                let req = spec_create_payment_record_request(
                    details.0,
                    billing_connector_account.id,
                    pma,
                );
                let att = spec_recorded_attempt(
                    req,
                    payment_intent.payment_id,
                    store.next_object_id,
                );
                let iidx = store.spec_intent_index_for_payment_id(payment_intent.payment_id);
                let si = store.spec_intent_with_payment_id(payment_intent.payment_id);
                let updated = StoredPaymentIntent {
                    status: spec_intent_status_of_attempt(req.status),
                    ..si
                };
                spec_classify_and_schedule(
                    store.intents@.update(iidx, updated),
                    store.attempts@.push(att),
                    store.next_object_id + 1,
                    store,
                    metrics,
                    merchant_context,
                    billing_connector_account,
                    event_type,
                    pair.0,
                    pair.1,
                    schedule,
                )
            } else {
                spec_classify_and_schedule(
                    store.intents@,
                    store.attempts@,
                    store.next_object_id as int,
                    store,
                    metrics,
                    merchant_context,
                    billing_connector_account,
                    event_type,
                    pair.0,
                    pair.1,
                    schedule,
                )
            }
        },
    }
}

/// The flow's tail when the intent resolution created the intent: the new
/// intent has no attempts yet, so a transaction event that extracts and
/// resolves its account always records.
#[verifier::opaque]
pub open spec fn spec_flow_stages_fresh(
    store: RecoveryStore,
    metrics: RecoveryMetrics,
    merchant_context: MerchantContext,
    billing_connector_account: BillingConnectorAccount,
    sync: Option<BillingConnectorPaymentsSyncResponse>,
    request_details: IncomingWebhookRequestDetails,
    event_type: IncomingWebhookEvent,
    invoice: RevenueRecoveryInvoice,
    schedule: RetrySchedule,
) -> RecoveryFlowOutcome {
    let is_txn = event_type.spec_is_recovery_transaction_event();
    let new_row = spec_new_stored_intent(invoice.0, store.next_object_id);
    let payment_intent = spec_recovery_intent_of(new_row);
    let intents1 = store.intents@.push(new_row);
    let base = RecoveryFlowOutcome {
        intents: intents1,
        attempts: store.attempts@,
        tasks: store.tasks@,
        next_object_id: store.next_object_id + 1,
        tasks_added_count: metrics.tasks_added_count as int,
        result: Ok(WebhookResponseTracker::NoEffect),
    };
    if !is_txn {
        spec_classify_and_schedule(
            intents1,
            store.attempts@,
            store.next_object_id + 1,
            store,
            metrics,
            merchant_context,
            billing_connector_account,
            event_type,
            None,
            payment_intent,
            schedule,
        )
    } else {
        match spec_get_recovery_invoice_transaction_details(request_details, sync) {
            Err(e) => RecoveryFlowOutcome { result: Err(e), ..base },
            Ok(details) => match details.spec_find_payment_merchant_connector_account(
                store,
                billing_connector_account,
            ) {
                Err(e) => RecoveryFlowOutcome { result: Err(e), ..base },
                Ok(pma) => {
                    if store.faults.attempt_fetch {
                        RecoveryFlowOutcome {
                            result: Err(RevenueRecoveryError::PaymentAttemptFetchFailed),
                            ..base
                        }
                    } else if store.faults.attempt_record {
                        RecoveryFlowOutcome {
                            result: Err(RevenueRecoveryError::PaymentAttemptRecordFailed),
                            ..base
                        }
                    } else {
                        let req = spec_create_payment_record_request(
                            details.0,
                            billing_connector_account.id,
                            pma,
                        );
                        let att = spec_recorded_attempt(
                            req,
                            payment_intent.payment_id,
                            (store.next_object_id + 1) as u64,
                        );
                        let updated = StoredPaymentIntent {
                            status: spec_intent_status_of_attempt(req.status),
                            ..new_row
                        };
                        spec_classify_and_schedule(
                            store.intents@.push(updated),
                            store.attempts@.push(att),
                            store.next_object_id + 2,
                            store,
                            metrics,
                            merchant_context,
                            billing_connector_account,
                            event_type,
                            Some(spec_recovery_attempt_of(att)),
                            spec_recovery_intent_of(updated),
                            schedule,
                        )
                    }
                },
            },
        }
    }
}

/// What one webhook delivery does, in full: the store rows, the metrics
/// counter and the result, as a function of everything the flow is given.
pub open spec fn spec_recovery_incoming_webhook_flow(
    store: RecoveryStore,
    metrics: RecoveryMetrics,
    settings: RecoverySettings,
    billing_connector: BillingConnector,
    merchant_context: MerchantContext,
    source_verified: bool,
    billing_connector_account: BillingConnectorAccount,
    connector: Connector,
    request_details: IncomingWebhookRequestDetails,
    event_type: IncomingWebhookEvent,
    object_ref_id: ObjectReferenceId,
) -> RecoveryFlowOutcome {
    if !source_verified {
        spec_unchanged_outcome(
            store,
            metrics,
            Err(RevenueRecoveryError::WebhookAuthenticationFailed),
        )
    } else {
        match spec_get_billing_connector_payment_details(
            settings.spec_requires_payment_sync(connector),
            billing_connector,
            billing_connector_account,
            connector,
            object_ref_id,
        ) {
            Err(e) => spec_unchanged_outcome(store, metrics, Err(e)),
            Ok(sync) => match spec_get_recovery_invoice_details(request_details, sync) {
                Err(e) => spec_unchanged_outcome(store, metrics, Err(e)),
                Ok(invoice) => match invoice.spec_resolve_payment_intent(store) {
                    Err(e) => spec_unchanged_outcome(store, metrics, Err(e)),
                    Ok(payment_intent) => {
                        if invoice.spec_resolution_creates_intent(store) {
                            spec_flow_stages_fresh(
                                store,
                                metrics,
                                merchant_context,
                                billing_connector_account,
                                sync,
                                request_details,
                                event_type,
                                invoice,
                                settings.retry_schedule,
                            )
                        } else {
                            spec_flow_stages_existing(
                                store,
                                metrics,
                                merchant_context,
                                billing_connector_account,
                                sync,
                                request_details,
                                event_type,
                                payment_intent,
                                settings.retry_schedule,
                            )
                        }
                    },
                },
            },
        }
    }
}

/// The scheduling decision for a failed payment: still within the retry
/// budget, delegate to the task insertion; beyond it, no effect.
pub open spec fn spec_handle_schedule_failed_payment(
    intent_retry_count: u16,
    mca_retry_threshold: u16,
    store: RecoveryStore,
    recovery_attempt: Option<RecoveryPaymentAttempt>,
    recovery_intent: RecoveryPaymentIntent,
    schedule: RetrySchedule,
) -> Result<WebhookResponseTracker, RevenueRecoveryError> {
    if intent_retry_count <= mca_retry_threshold {
        spec_insert_execute_pcr_task(
            store,
            recovery_intent,
            intent_retry_count,
            spec_attempt_id_of(recovery_attempt),
            schedule,
        )
    } else {
        Ok(WebhookResponseTracker::NoEffect)
    }
}

/// The scheduling gate: with threshold `T`, a retry count within `[0, T]`
/// schedules (given a schedule time, a concrete attempt id, and a store that
/// accepts the insertion), and a retry count beyond `T` is a no-effect —
/// nothing is ever inserted past the budget.
pub proof fn lemma_scheduling_gate(
    intent_retry_count: u16,
    mca_retry_threshold: u16,
    store: RecoveryStore,
    recovery_attempt: Option<RecoveryPaymentAttempt>,
    recovery_intent: RecoveryPaymentIntent,
    schedule: RetrySchedule,
)
    ensures
        intent_retry_count > mca_retry_threshold ==> spec_handle_schedule_failed_payment(
            intent_retry_count,
            mca_retry_threshold,
            store,
            recovery_attempt,
            recovery_intent,
            schedule,
        ) == Ok::<_, RevenueRecoveryError>(WebhookResponseTracker::NoEffect),
        intent_retry_count <= mca_retry_threshold && spec_schedule_time(
            schedule,
            (intent_retry_count + 1) as u32,
        ) is Some && spec_attempt_id_of(recovery_attempt) is Some && !store.faults.task_insert
            ==> spec_handle_schedule_failed_payment(
            intent_retry_count,
            mca_retry_threshold,
            store,
            recovery_attempt,
            recovery_intent,
            schedule,
        ) == Ok::<_, RevenueRecoveryError>(
            WebhookResponseTracker::Payment {
                payment_id: recovery_intent.payment_id,
                status: recovery_intent.status,
            },
        ),
{
}

/// Decides and, within the retry budget, schedules the retry of a failed
/// payment.
pub fn handle_schedule_failed_payment(
    billing_connector_account: &BillingConnectorAccount,
    intent_retry_count: u16,
    mca_retry_threshold: u16,
    store: &mut RecoveryStore,
    metrics: &mut RecoveryMetrics,
    merchant_context: &MerchantContext,
    payment_attempt_with_recovery_intent: &(
        Option<RecoveryPaymentAttempt>,
        RecoveryPaymentIntent,
    ),
    schedule: &RetrySchedule,
) -> (res: Result<WebhookResponseTracker, RevenueRecoveryError>)
    requires
        old(metrics).tasks_added_count < u64::MAX,
    ensures
        res == spec_handle_schedule_failed_payment(
            intent_retry_count,
            mca_retry_threshold,
            *old(store),
            payment_attempt_with_recovery_intent.0,
            payment_attempt_with_recovery_intent.1,
            *schedule,
        ),
        !(res matches Ok(t) && t is Payment) ==> *final(store) == *old(store) && *final(metrics)
            == *old(metrics),
        res matches Ok(t) && t is Payment ==> {
            &&& final(store).tasks@ == old(store).tasks@.push(
                spec_execute_pcr_task_entry(
                    billing_connector_account.id,
                    merchant_context.merchant_id,
                    merchant_context.profile_id,
                    payment_attempt_with_recovery_intent.1,
                    intent_retry_count,
                    spec_attempt_id_of(payment_attempt_with_recovery_intent.0)->0,
                    ProcessTrackerRunner::PassiveRecoveryWorkflow,
                    spec_schedule_time(*schedule, (intent_retry_count + 1) as u32)->0,
                ),
            )
            &&& final(store).intents == old(store).intents
            &&& final(store).attempts == old(store).attempts
            &&& final(store).connector_accounts == old(store).connector_accounts
            &&& final(store).next_object_id == old(store).next_object_id
            &&& final(store).faults == old(store).faults
            &&& final(metrics).tasks_added_count == old(metrics).tasks_added_count + 1
        },
        old(store).wf() ==> final(store).wf(),
{
    let (recovery_attempt_from_payment_attempt, recovery_intent_from_payment_attempt) =
        payment_attempt_with_recovery_intent;
    if intent_retry_count <= mca_retry_threshold {
        let billing_mca_id = billing_connector_account.get_id();
        let payment_attempt_id = match recovery_attempt_from_payment_attempt {
            Some(attempt) => Some(attempt.attempt_id),
            None => None,
        };
        RevenueRecoveryAttempt::insert_execute_pcr_task(
            &billing_mca_id,
            store,
            metrics,
            merchant_context.merchant_id.clone(),
            *recovery_intent_from_payment_attempt,
            merchant_context.profile_id.clone(),
            intent_retry_count,
            payment_attempt_id,
            ProcessTrackerRunner::PassiveRecoveryWorkflow,
            schedule,
        )
    } else {
        Ok(WebhookResponseTracker::NoEffect)
    }
}

/// Runs the flow's tail once intent and attempt stand reconciled: classify,
/// fetch threshold and retry counter, and schedule within the budget.
fn classify_and_schedule(
    store: &mut RecoveryStore,
    metrics: &mut RecoveryMetrics,
    merchant_context: &MerchantContext,
    billing_connector_account: &BillingConnectorAccount,
    event_type: IncomingWebhookEvent,
    recovery_attempt: Option<RecoveryPaymentAttempt>,
    recovery_intent: RecoveryPaymentIntent,
    schedule: &RetrySchedule,
) -> (res: Result<WebhookResponseTracker, RevenueRecoveryError>)
    requires
        old(metrics).tasks_added_count < u64::MAX,
    ensures
        ({
            let outcome = spec_classify_and_schedule(
                old(store).intents@,
                old(store).attempts@,
                old(store).next_object_id as int,
                *old(store),
                *old(metrics),
                *merchant_context,
                *billing_connector_account,
                event_type,
                recovery_attempt,
                recovery_intent,
                *schedule,
            );
            &&& res == outcome.result
            &&& final(store).intents == old(store).intents
            &&& final(store).attempts == old(store).attempts
            &&& final(store).tasks@ == outcome.tasks
            &&& final(store).next_object_id == old(store).next_object_id
            &&& final(store).connector_accounts == old(store).connector_accounts
            &&& final(store).faults == old(store).faults
            &&& final(metrics).tasks_added_count as int == outcome.tasks_added_count
            &&& old(store).wf() ==> final(store).wf()
        }),
{
    proof {
        reveal(spec_classify_and_schedule);
    }
    let attempt_triggered_by = match &recovery_attempt {
        Some(attempt) => attempt.get_attempt_triggered_by(),
        None => None,
    };
    let action = RecoveryAction::get_action(event_type, attempt_triggered_by);
    let mca_retry_threshold = match billing_connector_account.get_retry_threshold() {
        Some(threshold) => threshold,
        None => {
            return Err(RevenueRecoveryError::BillingThresholdRetryCountFetchFailed);
        },
    };
    let intent_retry_count = match &recovery_intent.feature_metadata {
        Some(metadata) => metadata.get_retry_count(),
        None => None,
    };
    let intent_retry_count = match intent_retry_count {
        Some(count) => count,
        None => {
            return Err(RevenueRecoveryError::RetryCountFetchFailed);
        },
    };
    match action {
        RecoveryAction::ScheduleFailedPayment => handle_schedule_failed_payment(
            billing_connector_account,
            intent_retry_count,
            mca_retry_threshold,
            store,
            metrics,
            merchant_context,
            &(recovery_attempt, recovery_intent),
            schedule,
        ),
        RecoveryAction::CancelInvoice
        | RecoveryAction::SuccessPaymentExternal
        | RecoveryAction::PendingPayment
        | RecoveryAction::NoAction
        | RecoveryAction::InvalidAction => Ok(WebhookResponseTracker::NoEffect),
    }
}

/// Processes one incoming recovery webhook, end to end.
#[verifier::rlimit(100)]
pub fn recovery_incoming_webhook_flow(
    store: &mut RecoveryStore,
    metrics: &mut RecoveryMetrics,
    settings: &RecoverySettings,
    billing_connector: &BillingConnector,
    merchant_context: &MerchantContext,
    source_verified: bool,
    billing_connector_account: &BillingConnectorAccount,
    connector: Connector,
    request_details: &IncomingWebhookRequestDetails,
    event_type: IncomingWebhookEvent,
    object_ref_id: &ObjectReferenceId,
) -> (res: Result<WebhookResponseTracker, RevenueRecoveryError>)
    requires
        old(store).wf(),
        old(store).next_object_id < u64::MAX - 1,
        old(metrics).tasks_added_count < u64::MAX,
        billing_connector_account.wf(),
        billing_connector.wf(),
    ensures
        ({
            let outcome = spec_recovery_incoming_webhook_flow(
                *old(store),
                *old(metrics),
                *settings,
                *billing_connector,
                *merchant_context,
                source_verified,
                *billing_connector_account,
                connector,
                *request_details,
                event_type,
                *object_ref_id,
            );
            &&& res == outcome.result
            &&& final(store).intents@ == outcome.intents
            &&& final(store).attempts@ == outcome.attempts
            &&& final(store).tasks@ == outcome.tasks
            &&& final(store).next_object_id as int == outcome.next_object_id
            &&& final(store).connector_accounts == old(store).connector_accounts
            &&& final(store).faults == old(store).faults
            &&& final(metrics).tasks_added_count as int == outcome.tasks_added_count
            &&& final(store).wf()
        }),
{
    if !source_verified {
        return Err(RevenueRecoveryError::WebhookAuthenticationFailed);
    }
    let should_billing_connector_payment_api_called = settings.requires_payment_sync(connector);
    let billing_connector_payment_details =
        BillingConnectorPaymentsSyncResponseData::get_billing_connector_payment_details(
        should_billing_connector_payment_api_called,
        billing_connector,
        billing_connector_account,
        connector,
        object_ref_id,
    )?;
    let invoice_details = RevenueRecoveryInvoice::get_recovery_invoice_details(
        request_details,
        billing_connector_payment_details.as_ref(),
    )?;
    let fetched = invoice_details.get_payment_intent(store)?;
    let ghost pre = *store;
    let ghost was_found = fetched is Some;
    let payment_intent = match fetched {
        Some(payment_intent) => payment_intent,
        None => invoice_details.create_payment_intent(store)?,
    };
    flow_stages(
        store,
        metrics,
        merchant_context,
        billing_connector_account,
        billing_connector_payment_details.as_ref(),
        request_details,
        event_type,
        payment_intent,
        &settings.retry_schedule,
        Ghost(pre),
        Ghost(was_found),
        Ghost(invoice_details),
    )
}

/// Runs the attempt reconciliation and the scheduling decision, relating the
/// outcome back to the store as it stood before the intent resolution.
#[verifier::rlimit(100)]
fn flow_stages(
    store: &mut RecoveryStore,
    metrics: &mut RecoveryMetrics,
    merchant_context: &MerchantContext,
    billing_connector_account: &BillingConnectorAccount,
    billing_connector_payment_details: Option<&BillingConnectorPaymentsSyncResponse>,
    request_details: &IncomingWebhookRequestDetails,
    event_type: IncomingWebhookEvent,
    payment_intent: RecoveryPaymentIntent,
    schedule: &RetrySchedule,
    Ghost(pre): Ghost<RecoveryStore>,
    Ghost(was_found): Ghost<bool>,
    Ghost(invoice): Ghost<RevenueRecoveryInvoice>,
) -> (res: Result<WebhookResponseTracker, RevenueRecoveryError>)
    requires
        pre.wf(),
        pre.next_object_id < u64::MAX - 1,
        old(store).wf(),
        old(metrics).tasks_added_count < u64::MAX,
        billing_connector_account.wf(),
        was_found ==> *old(store) == pre && payment_intent == spec_recovery_intent_of(
            pre.spec_intent_for_reference(invoice.0.merchant_reference_id@),
        ),
        !was_found ==> {
            &&& old(store).intents@ == pre.intents@.push(
                spec_new_stored_intent(invoice.0, pre.next_object_id),
            )
            &&& old(store).attempts == pre.attempts
            &&& old(store).tasks == pre.tasks
            &&& old(store).connector_accounts == pre.connector_accounts
            &&& old(store).next_object_id == pre.next_object_id + 1
            &&& old(store).faults == pre.faults
            &&& payment_intent == spec_recovery_intent_of(
                spec_new_stored_intent(invoice.0, pre.next_object_id),
            )
        },
    ensures
        ({
            let sync = match billing_connector_payment_details {
                Some(d) => Some(*d),
                None => None,
            };
            let outcome = if was_found {
                spec_flow_stages_existing(
                    pre,
                    *old(metrics),
                    *merchant_context,
                    *billing_connector_account,
                    sync,
                    *request_details,
                    event_type,
                    payment_intent,
                    *schedule,
                )
            } else {
                spec_flow_stages_fresh(
                    pre,
                    *old(metrics),
                    *merchant_context,
                    *billing_connector_account,
                    sync,
                    *request_details,
                    event_type,
                    invoice,
                    *schedule,
                )
            };
            &&& res == outcome.result
            &&& final(store).intents@ == outcome.intents
            &&& final(store).attempts@ == outcome.attempts
            &&& final(store).tasks@ == outcome.tasks
            &&& final(store).next_object_id as int == outcome.next_object_id
            &&& final(store).connector_accounts == pre.connector_accounts
            &&& final(store).faults == pre.faults
            &&& final(metrics).tasks_added_count as int == outcome.tasks_added_count
            &&& final(store).wf()
        }),
{
    proof {
        reveal(spec_flow_stages_existing);
        reveal(spec_flow_stages_fresh);
        reveal(spec_classify_and_schedule);
        if !was_found {
            lemma_no_attempt_for_fresh_payment_id(pre, payment_intent.payment_id);
            lemma_fresh_intent_attempt_stage(
                pre,
                *old(store),
                invoice,
                event_type.spec_is_recovery_transaction_event(),
                *billing_connector_account,
                match billing_connector_payment_details {
                    Some(d) => Some(*d),
                    None => None,
                },
                *request_details,
                payment_intent,
            );
        }
    }
    let is_event_recovery_transaction_event = event_type.is_recovery_transaction_event();
    let (recovery_attempt_from_payment_attempt, recovery_intent_from_payment_attempt) =
        RevenueRecoveryAttempt::get_recovery_payment_attempt(
        is_event_recovery_transaction_event,
        billing_connector_account,
        store,
        billing_connector_payment_details,
        request_details,
        &payment_intent,
    )?;
    classify_and_schedule(
        store,
        metrics,
        merchant_context,
        billing_connector_account,
        event_type,
        recovery_attempt_from_payment_attempt,
        recovery_intent_from_payment_attempt,
        schedule,
    )
}

/// Bridges the attempt stage run on the store holding the freshly created
/// intent back to the pre-creation store: the new intent exists, has no
/// attempts, and recording against it lands at the end of the intent rows.
proof fn lemma_fresh_intent_attempt_stage(
    pre: RecoveryStore,
    store1: RecoveryStore,
    invoice: RevenueRecoveryInvoice,
    is_txn: bool,
    account: BillingConnectorAccount,
    sync: Option<BillingConnectorPaymentsSyncResponse>,
    request_details: IncomingWebhookRequestDetails,
    payment_intent: RecoveryPaymentIntent,
)
    requires
        pre.wf(),
        pre.next_object_id < u64::MAX - 1,
        store1.wf(),
        store1.intents@ == pre.intents@.push(spec_new_stored_intent(invoice.0, pre.next_object_id)),
        store1.attempts == pre.attempts,
        store1.tasks == pre.tasks,
        store1.connector_accounts == pre.connector_accounts,
        store1.next_object_id == pre.next_object_id + 1,
        store1.faults == pre.faults,
        payment_intent == spec_recovery_intent_of(
            spec_new_stored_intent(invoice.0, pre.next_object_id),
        ),
        forall|tid: Seq<char>| !(#[trigger] pre.spec_has_attempt_for_transaction(
            payment_intent.payment_id,
            tid,
        )),
    ensures
        store1.spec_has_intent_with_payment_id(payment_intent.payment_id),
        store1.spec_intent_index_for_payment_id(payment_intent.payment_id)
            == pre.intents@.len() as int,
        store1.spec_intent_with_payment_id(payment_intent.payment_id) == spec_new_stored_intent(
            invoice.0,
            pre.next_object_id,
        ),
        forall|tid: Seq<char>| !(#[trigger] store1.spec_has_attempt_for_transaction(
            payment_intent.payment_id,
            tid,
        )),
        forall|x: StoredPaymentIntent|
            #[trigger] store1.intents@.update(pre.intents@.len() as int, x) == pre.intents@.push(
                x,
            ),
{
    let new_row = spec_new_stored_intent(invoice.0, pre.next_object_id);
    let n = pre.intents@.len() as int;
    assert(store1.intents@[n] == new_row);
    assert(store1.spec_has_intent_with_payment_id(payment_intent.payment_id));
    let j = choose|i: int|
        0 <= i < store1.intents@.len() && (#[trigger] store1.intents@[i]).payment_id
            == payment_intent.payment_id;
    if j < n {
        assert(store1.intents@[j] == pre.intents@[j]);
        assert(pre.intents@[j].payment_id < pre.next_object_id);
        assert(false);
    }
    assert forall|tid: Seq<char>| !(#[trigger] store1.spec_has_attempt_for_transaction(
        payment_intent.payment_id,
        tid,
    )) by {
        assert(store1.attempts@ == pre.attempts@);
        assert(!pre.spec_has_attempt_for_transaction(payment_intent.payment_id, tid));
    };
    assert forall|x: StoredPaymentIntent| #[trigger] store1.intents@.update(
        pre.intents@.len() as int,
        x,
    ) == pre.intents@.push(x) by {
        assert(store1.intents@.update(n, x) =~= pre.intents@.push(x));
    };
}

} // verus!
