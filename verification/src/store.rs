//! Model of the collaborators this flow acts through: the durable store of
//! payment intents, payment attempts and scheduled tasks, the merchant's
//! connector accounts, and the retry backoff schedule.
//!
//! The real store is an external system consumed through a handful of
//! operations (fetch intent by reference, create intent, fetch or record
//! attempt, load a connector account, insert a task). Each operation here
//! carries the contract the flow relies on, and a matching injectable
//! failure, so that every error path of the flow is a reachable, stated
//! outcome rather than an assumption.

use vstd::prelude::*;

use crate::types::{
    AttemptStatus, Connector, IntentStatus, PaymentAttemptFeatureMetadata,
    PaymentIntentFeatureMetadata, PaymentRevenueRecoveryMetadata, PaymentsAttemptRecordRequest,
    RecoveryPaymentAttempt, RecoveryPaymentIntent, RevenueRecoveryInvoiceData,
    intent_status_of_attempt, spec_intent_status_of_attempt,
};

verus! {

/// A store operation that did not complete.
#[derive(Clone, Copy, Debug, PartialEq, Eq, Structural)]
pub enum StorageError {
    DatabaseError,
}

/// Credentials of a billing connector account, already parsed. An account
/// whose stored details cannot be parsed into this shape has `None` for them.
#[derive(Debug)]
pub struct ConnectorAuthType {
    pub api_key: String,
}

impl Clone for ConnectorAuthType {
    fn clone(&self) -> (res: Self)
        ensures
            res == *self,
    {
        ConnectorAuthType { api_key: self.api_key.clone() }
    }
}

/// One entry of the billing account's mapping from the account reference ids
/// it reports to the merchant's own payment connector accounts.
#[derive(Debug)]
pub struct AccountReferencePair {
    pub account_reference_id: String,
    pub merchant_connector_account_id: String,
}

/// The merchant's account on the billing connector: the account the webhook
/// arrived through. Carries the merchant-configured retry threshold and the
/// reference mapping towards payment connector accounts.
#[derive(Debug)]
pub struct BillingConnectorAccount {
    pub id: String,
    pub connector_account_details: Option<ConnectorAuthType>,
    pub retry_threshold: Option<u16>,
    pub account_reference_map: Vec<AccountReferencePair>,
}

/// A payment connector account of the merchant, as stored: the account the
/// original payment ran through.
#[derive(Debug)]
pub struct MerchantConnectorAccount {
    pub id: String,
    pub connector_name: Connector,
}

impl Clone for MerchantConnectorAccount {
    fn clone(&self) -> (res: Self)
        ensures
            res == *self,
    {
        MerchantConnectorAccount { id: self.id.clone(), connector_name: self.connector_name }
    }
}

impl BillingConnectorAccount {
    /// Reference ids in the account mapping are unique, as keys of a mapping.
    pub open spec fn wf(self) -> bool {
        forall|i: int, j: int|
            0 <= i < self.account_reference_map@.len() && 0 <= j
                < self.account_reference_map@.len() && i != j
                ==> (#[trigger] self.account_reference_map@[i]).account_reference_id@ != (
            #[trigger] self.account_reference_map@[j]).account_reference_id@
    }

    pub open spec fn spec_has_reference(self, rid: Seq<char>) -> bool {
        exists|i: int|
            0 <= i < self.account_reference_map@.len() && (
            #[trigger] self.account_reference_map@[i]).account_reference_id@ == rid
    }

    pub open spec fn spec_reference_target(self, rid: Seq<char>) -> Seq<char> {
        self.account_reference_map@[
            choose|i: int|
                0 <= i < self.account_reference_map@.len() && (
                #[trigger] self.account_reference_map@[i]).account_reference_id@ == rid
        ].merchant_connector_account_id@
    }

    /// The payment connector account id this billing account maps the given
    /// reference id to, if the reference is known. An absent or unknown
    /// reference is not an error: externally-originated attempts may carry
    /// none.
    pub fn get_payment_merchant_connector_account_id_using_account_reference_id(
        &self,
        account_reference_id: &Option<String>,
    ) -> (r: Option<String>)
        requires
            self.wf(),
        ensures
            match *account_reference_id {
                Some(rid) => {
                    &&& r is Some <==> self.spec_has_reference(rid@)
                    &&& r matches Some(t) ==> t@ == self.spec_reference_target(rid@)
                },
                None => r is None,
            },
    {
        match account_reference_id {
            None => None,
            Some(rid) => {
                let n = self.account_reference_map.len();
                let mut idx: usize = 0;
                while idx < n
                    invariant
                        *account_reference_id == Some(*rid),
                        n == self.account_reference_map@.len(),
                        0 <= idx <= n,
                        forall|k: int|
                            0 <= k < idx ==> (
                            #[trigger] self.account_reference_map@[k]).account_reference_id@
                                != rid@,
                        self.wf(),
                    decreases n - idx,
                {
                    if self.account_reference_map[idx].account_reference_id == *rid {
                        let target = self.account_reference_map[
                            idx
                        ].merchant_connector_account_id.clone();
                        proof {
                            assert(self.spec_has_reference(rid@));
                            let j = choose|i: int|
                                0 <= i < self.account_reference_map@.len() && (
                                #[trigger] self.account_reference_map@[i]).account_reference_id@
                                    == rid@;
                            assert(j == idx as int);
                        }
                        return Some(target);
                    }
                    idx += 1;
                }
                proof {
                    assert(!self.spec_has_reference(rid@));
                }
                None
            },
        }
    }

    /// The merchant-configured maximum number of recovery attempts, when the
    /// account carries one.
    pub fn get_retry_threshold(&self) -> (r: Option<u16>)
        ensures
            r == self.retry_threshold,
    {
        self.retry_threshold
    }

    /// This billing account's own id.
    pub fn get_id(&self) -> (r: String)
        ensures
            r == self.id,
    {
        self.id.clone()
    }
}

/// The backoff policy: `times[k]` is the absolute execution time offered for
/// attempt number `k + 1`. An attempt number beyond the schedule yields no
/// time, which callers treat as "no retry time available".
#[derive(Debug)]
pub struct RetrySchedule {
    pub times: Vec<u64>,
}

/// The execution time the schedule offers for the given attempt number.
pub open spec fn spec_schedule_time(schedule: RetrySchedule, attempt_number: u32) -> Option<u64> {
    if 1 <= attempt_number && attempt_number <= schedule.times@.len() {
        Some(schedule.times@[attempt_number - 1])
    } else {
        None
    }
}

/// Computes when the next collection of a merchant-initiated payment should
/// run, from the backoff schedule and the attempt number. Yields nothing when
/// the schedule has no entry for that attempt.
pub fn get_schedule_time_to_retry_mit_payments(
    schedule: &RetrySchedule,
    attempt_number: u32,
) -> (r: Option<u64>)
    ensures
        r == spec_schedule_time(*schedule, attempt_number),
{
    if 1 <= attempt_number && (attempt_number as usize) <= schedule.times.len() {
        Some(schedule.times[(attempt_number - 1) as usize])
    } else {
        None
    }
}

/// Identifies the worker that later executes a scheduled task.
#[derive(Clone, Copy, Debug, PartialEq, Eq, Structural)]
pub enum ProcessTrackerRunner {
    PassiveRecoveryWorkflow,
}

/// The workflow a scheduled task runs.
#[derive(Clone, Copy, Debug, PartialEq, Eq, Structural)]
pub enum RecoveryWorkflowTask {
    ExecuteWorkflow,
}

/// Free-form tag attached to a scheduled task.
#[derive(Clone, Copy, Debug, PartialEq, Eq, Structural)]
pub enum ProcessTrackerTag {
    Pcr,
}

/// Schema marker of a task record.
#[derive(Clone, Copy, Debug, PartialEq, Eq, Structural)]
pub enum ApiVersion {
    V1,
    V2,
}

/// The deterministic task identifier: runner, workflow and intent id.
/// Re-invocations for the same intent derive the same id.
#[derive(Clone, Copy, Debug, PartialEq, Eq)]
pub struct ProcessTrackerId {
    pub runner: ProcessTrackerRunner,
    pub task: RecoveryWorkflowTask,
    pub payment_id: u64,
}

/// The payload a scheduled recovery task carries for its executor.
#[derive(Debug)]
pub struct PcrWorkflowTrackingData {
    pub billing_mca_id: String,
    pub global_payment_id: u64,
    pub merchant_id: String,
    pub profile_id: String,
    pub payment_attempt_id: u64,
}

/// One durable task row, owned by the external task executor once inserted.
#[derive(Debug)]
pub struct ProcessTrackerEntry {
    pub id: ProcessTrackerId,
    pub task: RecoveryWorkflowTask,
    pub runner: ProcessTrackerRunner,
    pub tag: ProcessTrackerTag,
    pub tracking_data: PcrWorkflowTrackingData,
    pub retry_count: u16,
    pub schedule_time: u64,
    pub version: ApiVersion,
}

/// The observability port of the scheduler: counts tasks added, so tests can
/// assert on emitted counts deterministically.
#[derive(Clone, Copy, Debug, PartialEq, Eq, Structural)]
pub struct RecoveryMetrics {
    pub tasks_added_count: u64,
}

/// One payment attempt row of the store.
#[derive(Debug)]
pub struct StoredPaymentAttempt {
    pub attempt_id: u64,
    pub payment_id: u64,
    pub connector_transaction_id: Option<String>,
    pub status: AttemptStatus,
    pub feature_metadata: Option<PaymentAttemptFeatureMetadata>,
}

/// One payment intent row of the store.
#[derive(Debug)]
pub struct StoredPaymentIntent {
    pub payment_id: u64,
    pub merchant_reference_id: String,
    pub status: IntentStatus,
    pub feature_metadata: Option<PaymentIntentFeatureMetadata>,
}

/// Failures injected into the store's operations. The real store can fail on
/// any call; setting a flag here makes the corresponding operation fail, so
/// the flow's handling of each failure is both stated and testable.
#[derive(Clone, Copy, Debug, PartialEq, Eq, Structural)]
pub struct StoreFaults {
    pub intent_fetch: bool,
    pub intent_create: bool,
    pub attempt_fetch: bool,
    pub attempt_record: bool,
    pub connector_account_fetch: bool,
    pub task_insert: bool,
}

impl StoreFaults {
    /// A store in which every operation completes.
    pub fn none() -> (r: StoreFaults)
        ensures
            r == (StoreFaults {
                intent_fetch: false,
                intent_create: false,
                attempt_fetch: false,
                attempt_record: false,
                connector_account_fetch: false,
                task_insert: false,
            }),
    {
        StoreFaults {
            intent_fetch: false,
            intent_create: false,
            attempt_fetch: false,
            attempt_record: false,
            connector_account_fetch: false,
            task_insert: false,
        }
    }
}

/// The durable store, as this flow sees it: intent and attempt rows, task
/// rows, the merchant's payment connector accounts, and the id generator for
/// new rows.
#[derive(Debug)]
pub struct RecoveryStore {
    pub intents: Vec<StoredPaymentIntent>,
    pub attempts: Vec<StoredPaymentAttempt>,
    pub tasks: Vec<ProcessTrackerEntry>,
    pub connector_accounts: Vec<MerchantConnectorAccount>,
    pub next_object_id: u64,
    pub faults: StoreFaults,
}

/// The intent row as handed to the flow.
pub open spec fn spec_recovery_intent_of(si: StoredPaymentIntent) -> RecoveryPaymentIntent {
    RecoveryPaymentIntent {
        payment_id: si.payment_id,
        status: si.status,
        feature_metadata: si.feature_metadata,
    }
}

/// The attempt row as handed to the flow.
pub open spec fn spec_recovery_attempt_of(sa: StoredPaymentAttempt) -> RecoveryPaymentAttempt {
    RecoveryPaymentAttempt {
        attempt_id: sa.attempt_id,
        attempt_status: sa.status,
        feature_metadata: sa.feature_metadata,
    }
}

/// The intent row created for the given invoice facts: collection starts
/// processing with a retry counter at zero.
pub open spec fn spec_new_stored_intent(
    data: RevenueRecoveryInvoiceData,
    id: u64,
) -> StoredPaymentIntent {
    StoredPaymentIntent {
        payment_id: id,
        merchant_reference_id: data.merchant_reference_id,
        status: IntentStatus::Processing,
        feature_metadata: Some(
            PaymentIntentFeatureMetadata {
                payment_revenue_recovery_metadata: Some(
                    PaymentRevenueRecoveryMetadata { total_retry_count: 0 },
                ),
            },
        ),
    }
}

/// The attempt row persisted for a record-attempt request.
pub open spec fn spec_recorded_attempt(
    req: PaymentsAttemptRecordRequest,
    payment_id: u64,
    id: u64,
) -> StoredPaymentAttempt {
    StoredPaymentAttempt {
        attempt_id: id,
        payment_id,
        connector_transaction_id: req.connector_transaction_id,
        status: req.status,
        feature_metadata: req.feature_metadata,
    }
}

/// Whether an optional string is present and equal to the given one.
pub fn opt_string_matches(o: &Option<String>, s: &String) -> (r: bool)
    ensures
        r == (*o matches Some(t) && t@ == s@),
{
    match o {
        Some(t) => *t == *s,
        None => false,
    }
}

/// Whether no attempt row of the given intent carries this connector
/// transaction id yet (an absent id is always fresh).
pub open spec fn spec_transaction_fresh(
    store: RecoveryStore,
    payment_id: u64,
    tid: Option<String>,
) -> bool {
    match tid {
        Some(t) => !store.spec_has_attempt_for_transaction(payment_id, t@),
        None => true,
    }
}

/// Whether this attempt row belongs to the given intent and carries the given
/// connector transaction id.
pub open spec fn spec_attempt_matches_transaction(
    a: StoredPaymentAttempt,
    payment_id: u64,
    tid: Seq<char>,
) -> bool {
    a.payment_id == payment_id && (a.connector_transaction_id matches Some(t) && t@ == tid)
}


/// Whether some intent row carries this merchant reference.
pub open spec fn seq_has_intent_for_reference(
    intents: Seq<StoredPaymentIntent>,
    rid: Seq<char>,
) -> bool {
    exists|i: int| 0 <= i < intents.len() && (#[trigger] intents[i]).merchant_reference_id@ == rid
}

/// The intent row carrying this merchant reference.
pub open spec fn seq_intent_for_reference(
    intents: Seq<StoredPaymentIntent>,
    rid: Seq<char>,
) -> StoredPaymentIntent {
    intents[
        choose|i: int|
            0 <= i < intents.len() && (#[trigger] intents[i]).merchant_reference_id@ == rid
    ]
}

/// Whether some intent row carries this payment id.
pub open spec fn seq_has_intent_with_payment_id(
    intents: Seq<StoredPaymentIntent>,
    pid: u64,
) -> bool {
    exists|i: int| 0 <= i < intents.len() && (#[trigger] intents[i]).payment_id == pid
}

/// The position of the intent row carrying this payment id.
pub open spec fn seq_intent_index_for_payment_id(
    intents: Seq<StoredPaymentIntent>,
    pid: u64,
) -> int {
    choose|i: int| 0 <= i < intents.len() && (#[trigger] intents[i]).payment_id == pid
}

/// Whether some attempt row of this intent carries this connector
/// transaction id.
pub open spec fn seq_has_attempt_for_transaction(
    attempts: Seq<StoredPaymentAttempt>,
    pid: u64,
    tid: Seq<char>,
) -> bool {
    exists|i: int|
        0 <= i < attempts.len() && #[trigger] spec_attempt_matches_transaction(
            attempts[i],
            pid,
            tid,
        )
}

/// The attempt row of this intent carrying this connector transaction id.
pub open spec fn seq_attempt_for_transaction(
    attempts: Seq<StoredPaymentAttempt>,
    pid: u64,
    tid: Seq<char>,
) -> StoredPaymentAttempt {
    attempts[
        choose|i: int|
            0 <= i < attempts.len() && #[trigger] spec_attempt_matches_transaction(
                attempts[i],
                pid,
                tid,
            )
    ]
}

/// Whether some payment connector account row carries this id.
pub open spec fn seq_has_account_with_id(
    accounts: Seq<MerchantConnectorAccount>,
    id: Seq<char>,
) -> bool {
    exists|i: int| 0 <= i < accounts.len() && (#[trigger] accounts[i]).id@ == id
}

/// The payment connector account row carrying this id.
pub open spec fn seq_account_with_id(
    accounts: Seq<MerchantConnectorAccount>,
    id: Seq<char>,
) -> MerchantConnectorAccount {
    accounts[choose|i: int| 0 <= i < accounts.len() && (#[trigger] accounts[i]).id@ == id]
}

impl RecoveryStore {
    /// Store rows are consistent: merchant references, intent ids, attempt
    /// ids and account ids are unique keys; every generated id lies below the
    /// id generator; and an intent has at most one attempt per connector
    /// transaction id.
    pub open spec fn wf(self) -> bool {
        &&& forall|i: int, j: int|
            0 <= i < self.intents@.len() && 0 <= j < self.intents@.len() && i != j ==> (
            #[trigger] self.intents@[i]).merchant_reference_id@ != (
            #[trigger] self.intents@[j]).merchant_reference_id@
        &&& forall|i: int, j: int|
            0 <= i < self.intents@.len() && 0 <= j < self.intents@.len() && i != j ==> (
            #[trigger] self.intents@[i]).payment_id != (#[trigger] self.intents@[j]).payment_id
        &&& forall|i: int|
            0 <= i < self.intents@.len() ==> (#[trigger] self.intents@[i]).payment_id
                < self.next_object_id
        &&& forall|i: int, j: int|
            0 <= i < self.attempts@.len() && 0 <= j < self.attempts@.len() && i != j ==> (
            #[trigger] self.attempts@[i]).attempt_id != (#[trigger] self.attempts@[j]).attempt_id
        &&& forall|i: int|
            0 <= i < self.attempts@.len() ==> (#[trigger] self.attempts@[i]).attempt_id
                < self.next_object_id
        &&& forall|i: int, j: int|
            0 <= i < self.attempts@.len() && 0 <= j < self.attempts@.len() && i != j && (
            #[trigger] self.attempts@[i]).payment_id == (
            #[trigger] self.attempts@[j]).payment_id ==> match (
                self.attempts@[i].connector_transaction_id,
                self.attempts@[j].connector_transaction_id,
            ) {
                (Some(a), Some(b)) => a@ != b@,
                _ => true,
            }
        &&& forall|i: int|
            0 <= i < self.attempts@.len() ==> seq_has_intent_with_payment_id(
                self.intents@,
                (#[trigger] self.attempts@[i]).payment_id,
            )
        &&& forall|i: int, j: int|
            0 <= i < self.connector_accounts@.len() && 0 <= j < self.connector_accounts@.len() && i
                != j ==> (#[trigger] self.connector_accounts@[i]).id@ != (
            #[trigger] self.connector_accounts@[j]).id@
    }

    pub open spec fn spec_has_intent_for_reference(self, rid: Seq<char>) -> bool {
        seq_has_intent_for_reference(self.intents@, rid)
    }

    pub open spec fn spec_intent_for_reference(self, rid: Seq<char>) -> StoredPaymentIntent {
        seq_intent_for_reference(self.intents@, rid)
    }

    pub open spec fn spec_has_intent_with_payment_id(self, pid: u64) -> bool {
        seq_has_intent_with_payment_id(self.intents@, pid)
    }

    pub open spec fn spec_intent_index_for_payment_id(self, pid: u64) -> int {
        seq_intent_index_for_payment_id(self.intents@, pid)
    }

    pub open spec fn spec_intent_with_payment_id(self, pid: u64) -> StoredPaymentIntent {
        self.intents@[self.spec_intent_index_for_payment_id(pid)]
    }

    pub open spec fn spec_has_attempt_for_transaction(self, pid: u64, tid: Seq<char>) -> bool {
        seq_has_attempt_for_transaction(self.attempts@, pid, tid)
    }

    pub open spec fn spec_attempt_for_transaction(
        self,
        pid: u64,
        tid: Seq<char>,
    ) -> StoredPaymentAttempt {
        seq_attempt_for_transaction(self.attempts@, pid, tid)
    }

    pub open spec fn spec_has_account_with_id(self, id: Seq<char>) -> bool {
        seq_has_account_with_id(self.connector_accounts@, id)
    }

    pub open spec fn spec_account_with_id(self, id: Seq<char>) -> MerchantConnectorAccount {
        seq_account_with_id(self.connector_accounts@, id)
    }

    /// Fetch-intent-by-reference. Not-found is `Ok(None)`, the one recognized
    /// absence signal; any other failure of the store is `Err`.
    pub fn get_intent_by_merchant_reference(&self, merchant_reference_id: &String) -> (res: Result<
        Option<RecoveryPaymentIntent>,
        StorageError,
    >)
        requires
            self.wf(),
        ensures
            self.faults.intent_fetch ==> res == Err::<Option<RecoveryPaymentIntent>, StorageError>(
                StorageError::DatabaseError,
            ),
            !self.faults.intent_fetch ==> res == Ok::<_, StorageError>(
            if self.spec_has_intent_for_reference(merchant_reference_id@) {
                Some(
                    spec_recovery_intent_of(
                        self.spec_intent_for_reference(merchant_reference_id@),
                    ),
                )
            } else {
                None
            }),
    {
        if self.faults.intent_fetch {
            return Err(StorageError::DatabaseError);
        }
        let n = self.intents.len();
        let mut idx: usize = 0;
        while idx < n
            invariant
                !self.faults.intent_fetch,
                n == self.intents@.len(),
                0 <= idx <= n,
                self.wf(),
                forall|k: int|
                    0 <= k < idx ==> (#[trigger] self.intents@[k]).merchant_reference_id@
                        != merchant_reference_id@,
            decreases n - idx,
        {
            if self.intents[idx].merchant_reference_id == *merchant_reference_id {
                proof {
                    assert(self.spec_has_intent_for_reference(merchant_reference_id@));
                    let j = choose|i: int|
                        0 <= i < self.intents@.len() && (
                        #[trigger] self.intents@[i]).merchant_reference_id@
                            == merchant_reference_id@;
                    assert(j == idx as int);
                }
                let row = &self.intents[idx];
                return Ok(
                    Some(
                        RecoveryPaymentIntent {
                            payment_id: row.payment_id,
                            status: row.status,
                            feature_metadata: row.feature_metadata,
                        },
                    ),
                );
            }
            idx += 1;
        }
        proof {
            assert(!self.spec_has_intent_for_reference(merchant_reference_id@));
        }
        Ok(None)
    }

    /// Create-intent. On success the new row starts processing with a fresh
    /// id and a retry counter at zero. Creation does not look for an existing
    /// row: callers look up first (and the contract preserves consistency
    /// only when the reference is indeed new).
    pub fn create_payment_intent_record(&mut self, data: &RevenueRecoveryInvoiceData) -> (res:
        Result<RecoveryPaymentIntent, StorageError>)
        requires
            old(self).wf(),
            old(self).next_object_id < u64::MAX,
        ensures
            old(self).faults.intent_create ==> res == Err::<RecoveryPaymentIntent, StorageError>(
                StorageError::DatabaseError,
            ) && *final(self) == *old(self),
            !old(self).faults.intent_create ==> {
                &&& res == Ok::<_, StorageError>(
                    spec_recovery_intent_of(
                        spec_new_stored_intent(*data, old(self).next_object_id),
                    ),
                )
                &&& final(self).intents@ == old(self).intents@.push(
                    spec_new_stored_intent(*data, old(self).next_object_id),
                )
                &&& final(self).attempts == old(self).attempts
                &&& final(self).tasks == old(self).tasks
                &&& final(self).connector_accounts == old(self).connector_accounts
                &&& final(self).next_object_id == old(self).next_object_id + 1
                &&& final(self).faults == old(self).faults
            },
            !old(self).faults.intent_create && !old(self).spec_has_intent_for_reference(
                data.merchant_reference_id@,
            ) ==> final(self).wf(),
    {
        if self.faults.intent_create {
            return Err(StorageError::DatabaseError);
        }
        let id = self.next_object_id;
        let row = StoredPaymentIntent {
            payment_id: id,
            merchant_reference_id: data.merchant_reference_id.clone(),
            status: IntentStatus::Processing,
            feature_metadata: Some(
                PaymentIntentFeatureMetadata {
                    payment_revenue_recovery_metadata: Some(
                        PaymentRevenueRecoveryMetadata { total_retry_count: 0 },
                    ),
                },
            ),
        };
        self.intents.push(row);
        self.next_object_id = id + 1;
        proof {
            if !old(self).spec_has_intent_for_reference(data.merchant_reference_id@) {
                lemma_create_intent_preserves_wf(
                    *old(self),
                    *self,
                    spec_new_stored_intent(*data, old(self).next_object_id),
                );
            }
        }
        Ok(
            RecoveryPaymentIntent {
                payment_id: id,
                status: IntentStatus::Processing,
                feature_metadata: Some(
                    PaymentIntentFeatureMetadata {
                        payment_revenue_recovery_metadata: Some(
                            PaymentRevenueRecoveryMetadata { total_retry_count: 0 },
                        ),
                    },
                ),
            },
        )
    }

    /// Fetch-attempt: the attempt of the given intent carrying the given
    /// connector transaction id, `Ok(None)` when the intent has no such
    /// attempt. An unknown intent id is a store failure, not an absence.
    pub fn get_attempt_by_connector_transaction_id(
        &self,
        payment_id: u64,
        connector_transaction_id: &String,
    ) -> (res: Result<Option<RecoveryPaymentAttempt>, StorageError>)
        requires
            self.wf(),
        ensures
            self.faults.attempt_fetch ==> res == Err::<
                Option<RecoveryPaymentAttempt>,
                StorageError,
            >(StorageError::DatabaseError),
            !self.faults.attempt_fetch && !self.spec_has_intent_with_payment_id(payment_id)
                ==> res == Err::<Option<RecoveryPaymentAttempt>, StorageError>(
                StorageError::DatabaseError,
            ),
            !self.faults.attempt_fetch && self.spec_has_intent_with_payment_id(payment_id)
                ==> res == Ok::<_, StorageError>(
            if self.spec_has_attempt_for_transaction(payment_id, connector_transaction_id@) {
                Some(
                    spec_recovery_attempt_of(
                        self.spec_attempt_for_transaction(payment_id, connector_transaction_id@),
                    ),
                )
            } else {
                None
            }),
    {
        if self.faults.attempt_fetch {
            return Err(StorageError::DatabaseError);
        }
        if !self.has_intent_with_payment_id(payment_id) {
            return Err(StorageError::DatabaseError);
        }
        let n = self.attempts.len();
        let mut idx: usize = 0;
        while idx < n
            invariant
                !self.faults.attempt_fetch,
                self.spec_has_intent_with_payment_id(payment_id),
                n == self.attempts@.len(),
                0 <= idx <= n,
                self.wf(),
                forall|k: int|
                    0 <= k < idx ==> !spec_attempt_matches_transaction(
                        #[trigger] self.attempts@[k],
                        payment_id,
                        connector_transaction_id@,
                    ),
            decreases n - idx,
        {
            let row = &self.attempts[idx];
            if row.payment_id == payment_id && opt_string_matches(
                &row.connector_transaction_id,
                connector_transaction_id,
            ) {
                proof {
                    assert(spec_attempt_matches_transaction(
                        self.attempts@[idx as int],
                        payment_id,
                        connector_transaction_id@,
                    ));
                    let j = choose|i: int|
                        0 <= i < self.attempts@.len()
                            && #[trigger] spec_attempt_matches_transaction(
                            self.attempts@[i],
                            payment_id,
                            connector_transaction_id@,
                        );
                    assert(j == idx as int);
                }
                return Ok(
                    Some(
                        RecoveryPaymentAttempt {
                            attempt_id: row.attempt_id,
                            attempt_status: row.status,
                            feature_metadata: row.feature_metadata,
                        },
                    ),
                );
            }
            idx += 1;
        }
        proof {
            assert(!self.spec_has_attempt_for_transaction(
                payment_id,
                connector_transaction_id@,
            ));
        }
        Ok(None)
    }

    /// The position of the intent row with this id, when one exists.
    fn intent_index_by_payment_id(&self, payment_id: u64) -> (r: Option<usize>)
        requires
            self.wf(),
        ensures
            r matches Some(i) ==> (self.spec_has_intent_with_payment_id(payment_id) && i as int
                == self.spec_intent_index_for_payment_id(payment_id) && 0 <= i
                < self.intents@.len() && self.intents@[i as int].payment_id == payment_id),
            r is None ==> !self.spec_has_intent_with_payment_id(payment_id),
    {
        let n = self.intents.len();
        let mut idx: usize = 0;
        while idx < n
            invariant
                n == self.intents@.len(),
                0 <= idx <= n,
                self.wf(),
                forall|k: int| 0 <= k < idx ==> (#[trigger] self.intents@[k]).payment_id != payment_id,
            decreases n - idx,
        {
            if self.intents[idx].payment_id == payment_id {
                proof {
                    assert(self.spec_has_intent_with_payment_id(payment_id));
                    let j = choose|i: int|
                        0 <= i < self.intents@.len() && (#[trigger] self.intents@[i]).payment_id
                            == payment_id;
                    assert(j == idx as int);
                }
                return Some(idx);
            }
            idx += 1;
        }
        proof {
            assert(!self.spec_has_intent_with_payment_id(payment_id));
        }
        None
    }

    /// Whether an intent row with this id exists.
    pub fn has_intent_with_payment_id(&self, payment_id: u64) -> (r: bool)
        ensures
            r == self.spec_has_intent_with_payment_id(payment_id),
    {
        let n = self.intents.len();
        let mut idx: usize = 0;
        while idx < n
            invariant
                n == self.intents@.len(),
                0 <= idx <= n,
                forall|k: int| 0 <= k < idx ==> (#[trigger] self.intents@[k]).payment_id != payment_id,
            decreases n - idx,
        {
            if self.intents[idx].payment_id == payment_id {
                proof {
                    assert(self.spec_has_intent_with_payment_id(payment_id));
                }
                return true;
            }
            idx += 1;
        }
        proof {
            assert(!self.spec_has_intent_with_payment_id(payment_id));
        }
        false
    }

    /// Record-attempt: persists one externally-triggered attempt row against
    /// the intent, refreshes the intent's status from the attempt's outcome,
    /// and hands both back.
    pub fn record_attempt(&mut self, payment_id: u64, req: &PaymentsAttemptRecordRequest) -> (res:
        Result<(RecoveryPaymentAttempt, RecoveryPaymentIntent), StorageError>)
        requires
            old(self).wf(),
            old(self).next_object_id < u64::MAX,
        ensures
            old(self).faults.attempt_record ==> res == Err::<
                (RecoveryPaymentAttempt, RecoveryPaymentIntent),
                StorageError,
            >(StorageError::DatabaseError) && *final(self) == *old(self),
            !old(self).faults.attempt_record && !old(self).spec_has_intent_with_payment_id(
                payment_id,
            ) ==> res == Err::<(RecoveryPaymentAttempt, RecoveryPaymentIntent), StorageError>(
                StorageError::DatabaseError,
            ) && *final(self) == *old(self),
            !old(self).faults.attempt_record && old(self).spec_has_intent_with_payment_id(
                payment_id,
            ) ==> {
                let att = spec_recorded_attempt(*req, payment_id, old(self).next_object_id);
                let iidx = old(self).spec_intent_index_for_payment_id(payment_id);
                let si = old(self).spec_intent_with_payment_id(payment_id);
                let updated = StoredPaymentIntent {
                    status: spec_intent_status_of_attempt(req.status),
                    ..si
                };
                &&& res == Ok::<_, StorageError>(
                    (spec_recovery_attempt_of(att), spec_recovery_intent_of(updated)),
                )
                &&& final(self).intents@ == old(self).intents@.update(iidx, updated)
                &&& final(self).attempts@ == old(self).attempts@.push(att)
                &&& final(self).tasks == old(self).tasks
                &&& final(self).connector_accounts == old(self).connector_accounts
                &&& final(self).next_object_id == old(self).next_object_id + 1
                &&& final(self).faults == old(self).faults
            },
            spec_transaction_fresh(*old(self), payment_id, req.connector_transaction_id)
                ==> final(self).wf(),
    {
        if self.faults.attempt_record {
            return Err(StorageError::DatabaseError);
        }
        let idx = match self.intent_index_by_payment_id(payment_id) {
            Some(i) => i,
            None => {
                return Err(StorageError::DatabaseError);
            },
        };
        let id = self.next_object_id;
        let row = StoredPaymentAttempt {
            attempt_id: id,
            payment_id,
            connector_transaction_id: crate::types::clone_opt_string(
                &req.connector_transaction_id,
            ),
            status: req.status,
            feature_metadata: req.feature_metadata,
        };
        let new_status = intent_status_of_attempt(req.status);
        let updated = StoredPaymentIntent {
            payment_id: self.intents[idx].payment_id,
            merchant_reference_id: self.intents[idx].merchant_reference_id.clone(),
            status: new_status,
            feature_metadata: self.intents[idx].feature_metadata,
        };
        let updated_view = RecoveryPaymentIntent {
            payment_id: updated.payment_id,
            status: updated.status,
            feature_metadata: updated.feature_metadata,
        };
        let attempt_view = RecoveryPaymentAttempt {
            attempt_id: row.attempt_id,
            attempt_status: row.status,
            feature_metadata: row.feature_metadata,
        };
        self.attempts.push(row);
        self.intents[idx] = updated;
        self.next_object_id = id + 1;
        proof {
            if spec_transaction_fresh(*old(self), payment_id, req.connector_transaction_id) {
                lemma_record_attempt_preserves_wf(
                    *old(self),
                    *self,
                    spec_recorded_attempt(*req, payment_id, old(self).next_object_id),
                    idx as int,
                );
            }
        }
        Ok((attempt_view, updated_view))
    }

    /// Load a payment connector account row by id. `Ok(None)` when no row
    /// carries the id.
    pub fn find_merchant_connector_account_by_id(&self, id: &String) -> (res: Result<
        Option<MerchantConnectorAccount>,
        StorageError,
    >)
        requires
            self.wf(),
        ensures
            self.faults.connector_account_fetch ==> res == Err::<
                Option<MerchantConnectorAccount>,
                StorageError,
            >(StorageError::DatabaseError),
            !self.faults.connector_account_fetch ==> res == Ok::<_, StorageError>(
            if self.spec_has_account_with_id(id@) {
                Some(self.spec_account_with_id(id@))
            } else {
                None
            }),
    {
        if self.faults.connector_account_fetch {
            return Err(StorageError::DatabaseError);
        }
        let n = self.connector_accounts.len();
        let mut idx: usize = 0;
        while idx < n
            invariant
                !self.faults.connector_account_fetch,
                n == self.connector_accounts@.len(),
                0 <= idx <= n,
                self.wf(),
                forall|k: int|
                    0 <= k < idx ==> (#[trigger] self.connector_accounts@[k]).id@ != id@,
            decreases n - idx,
        {
            if self.connector_accounts[idx].id == *id {
                proof {
                    assert(self.spec_has_account_with_id(id@));
                    let j = choose|i: int|
                        0 <= i < self.connector_accounts@.len() && (
                        #[trigger] self.connector_accounts@[i]).id@ == id@;
                    assert(j == idx as int);
                }
                return Ok(Some(self.connector_accounts[idx].clone()));
            }
            idx += 1;
        }
        proof {
            assert(!self.spec_has_account_with_id(id@));
        }
        Ok(None)
    }

    /// Insert-task: appends the durable task row.
    pub fn insert_process(&mut self, entry: ProcessTrackerEntry) -> (res: Result<
        (),
        StorageError,
    >)
        ensures
            old(self).faults.task_insert ==> res == Err::<(), StorageError>(
                StorageError::DatabaseError,
            ) && *final(self) == *old(self),
            !old(self).faults.task_insert ==> {
                &&& res == Ok::<(), StorageError>(())
                &&& final(self).tasks@ == old(self).tasks@.push(entry)
                &&& final(self).intents == old(self).intents
                &&& final(self).attempts == old(self).attempts
                &&& final(self).connector_accounts == old(self).connector_accounts
                &&& final(self).next_object_id == old(self).next_object_id
                &&& final(self).faults == old(self).faults
            },
            old(self).wf() ==> final(self).wf(),
    {
        if self.faults.task_insert {
            return Err(StorageError::DatabaseError);
        }
        self.tasks.push(entry);
        Ok(())
    }
}

/// An intent id the generator has not yet handed out has no attempt rows:
/// every attempt row belongs to a stored intent, whose id lies below the
/// generator.
pub proof fn lemma_no_attempt_for_fresh_payment_id(store: RecoveryStore, pid: u64)
    requires
        store.wf(),
        pid >= store.next_object_id,
    ensures
        forall|tid: Seq<char>| !(#[trigger] store.spec_has_attempt_for_transaction(pid, tid)),
{
    assert forall|tid: Seq<char>| !(#[trigger] store.spec_has_attempt_for_transaction(
        pid,
        tid,
    )) by {
        if store.spec_has_attempt_for_transaction(pid, tid) {
            let i = choose|i: int|
                0 <= i < store.attempts@.len() && #[trigger] spec_attempt_matches_transaction(
                    store.attempts@[i],
                    pid,
                    tid,
                );
            assert(store.attempts@[i].payment_id == pid);
            assert(seq_has_intent_with_payment_id(store.intents@, pid));
            let w = choose|k: int|
                0 <= k < store.intents@.len() && (#[trigger] store.intents@[k]).payment_id == pid;
            assert(store.intents@[w].payment_id < store.next_object_id);
        }
    };
}

/// Appending a fresh intent row with a new merchant reference keeps the
/// store consistent.
proof fn lemma_create_intent_preserves_wf(
    pre: RecoveryStore,
    post: RecoveryStore,
    row: StoredPaymentIntent,
)
    requires
        pre.wf(),
        !pre.spec_has_intent_for_reference(row.merchant_reference_id@),
        row.payment_id == pre.next_object_id,
        pre.next_object_id < u64::MAX,
        post.intents@ == pre.intents@.push(row),
        post.attempts == pre.attempts,
        post.connector_accounts == pre.connector_accounts,
        post.next_object_id == pre.next_object_id + 1,
    ensures
        post.wf(),
{
    let n = pre.intents@.len() as int;
    assert forall|i: int, j: int|
        0 <= i < post.intents@.len() && 0 <= j < post.intents@.len() && i != j implies (
    #[trigger] post.intents@[i]).merchant_reference_id@ != (
    #[trigger] post.intents@[j]).merchant_reference_id@ by {
        if i < n && j < n {
            assert(pre.intents@[i].merchant_reference_id@ != pre.intents@[j].merchant_reference_id@);
        } else if i == n {
            assert(pre.intents@[j].merchant_reference_id@ != row.merchant_reference_id@);
        } else {
            assert(pre.intents@[i].merchant_reference_id@ != row.merchant_reference_id@);
        }
    };
    assert forall|i: int, j: int|
        0 <= i < post.intents@.len() && 0 <= j < post.intents@.len() && i != j implies (
    #[trigger] post.intents@[i]).payment_id != (#[trigger] post.intents@[j]).payment_id by {
        if i < n && j < n {
            assert(pre.intents@[i].payment_id != pre.intents@[j].payment_id);
        } else if i == n {
            assert(pre.intents@[j].payment_id < pre.next_object_id);
        } else {
            assert(pre.intents@[i].payment_id < pre.next_object_id);
        }
    };
    assert forall|i: int| 0 <= i < post.intents@.len() implies (
    #[trigger] post.intents@[i]).payment_id < post.next_object_id by {
        if i < n {
            assert(pre.intents@[i].payment_id < pre.next_object_id);
        }
    };
    assert forall|i: int| 0 <= i < post.attempts@.len() implies (
    #[trigger] post.attempts@[i]).attempt_id < post.next_object_id by {
        assert(pre.attempts@[i].attempt_id < pre.next_object_id);
    };
    assert forall|i: int| 0 <= i < post.attempts@.len() implies seq_has_intent_with_payment_id(
        post.intents@,
        (#[trigger] post.attempts@[i]).payment_id,
    ) by {
        assert(post.attempts@[i] == pre.attempts@[i]);
        assert(seq_has_intent_with_payment_id(pre.intents@, pre.attempts@[i].payment_id));
        let w = choose|k: int|
            0 <= k < pre.intents@.len() && (#[trigger] pre.intents@[k]).payment_id
                == pre.attempts@[i].payment_id;
        assert(post.intents@[w] == pre.intents@[w]);
    };
}

/// Appending a fresh attempt row whose connector transaction id is new on its
/// intent, and refreshing that intent's status, keeps the store consistent.
proof fn lemma_record_attempt_preserves_wf(
    pre: RecoveryStore,
    post: RecoveryStore,
    att: StoredPaymentAttempt,
    iidx: int,
)
    requires
        pre.wf(),
        0 <= iidx < pre.intents@.len(),
        att.attempt_id == pre.next_object_id,
        pre.next_object_id < u64::MAX,
        spec_transaction_fresh(pre, att.payment_id, att.connector_transaction_id),
        att.payment_id == pre.intents@[iidx].payment_id,
        post.intents@.len() == pre.intents@.len(),
        forall|k: int|
            0 <= k < pre.intents@.len() && k != iidx ==> post.intents@[k] == pre.intents@[k],
        post.intents@[iidx].merchant_reference_id == pre.intents@[iidx].merchant_reference_id,
        post.intents@[iidx].payment_id == pre.intents@[iidx].payment_id,
        post.attempts@ == pre.attempts@.push(att),
        post.connector_accounts == pre.connector_accounts,
        post.next_object_id == pre.next_object_id + 1,
    ensures
        post.wf(),
{
    let n = pre.attempts@.len() as int;
    assert forall|i: int, j: int|
        0 <= i < post.intents@.len() && 0 <= j < post.intents@.len() && i != j implies (
    #[trigger] post.intents@[i]).merchant_reference_id@ != (
    #[trigger] post.intents@[j]).merchant_reference_id@ by {
        assert(pre.intents@[i].merchant_reference_id@ != pre.intents@[j].merchant_reference_id@);
    };
    assert forall|i: int, j: int|
        0 <= i < post.intents@.len() && 0 <= j < post.intents@.len() && i != j implies (
    #[trigger] post.intents@[i]).payment_id != (#[trigger] post.intents@[j]).payment_id by {
        assert(pre.intents@[i].payment_id != pre.intents@[j].payment_id);
    };
    assert forall|i: int| 0 <= i < post.intents@.len() implies (
    #[trigger] post.intents@[i]).payment_id < post.next_object_id by {
        assert(pre.intents@[i].payment_id < pre.next_object_id);
    };
    assert forall|i: int, j: int|
        0 <= i < post.attempts@.len() && 0 <= j < post.attempts@.len() && i != j implies (
    #[trigger] post.attempts@[i]).attempt_id != (#[trigger] post.attempts@[j]).attempt_id by {
        if i < n && j < n {
            assert(pre.attempts@[i].attempt_id != pre.attempts@[j].attempt_id);
        } else if i == n {
            assert(pre.attempts@[j].attempt_id < pre.next_object_id);
        } else {
            assert(pre.attempts@[i].attempt_id < pre.next_object_id);
        }
    };
    assert forall|i: int| 0 <= i < post.attempts@.len() implies (
    #[trigger] post.attempts@[i]).attempt_id < post.next_object_id by {
        if i < n {
            assert(pre.attempts@[i].attempt_id < pre.next_object_id);
        }
    };
    assert forall|i: int, j: int|
        0 <= i < post.attempts@.len() && 0 <= j < post.attempts@.len() && i != j && (
    #[trigger] post.attempts@[i]).payment_id == (
    #[trigger] post.attempts@[j]).payment_id implies match (
        post.attempts@[i].connector_transaction_id,
        post.attempts@[j].connector_transaction_id,
    ) {
        (Some(a), Some(b)) => a@ != b@,
        _ => true,
    } by {
        if i < n && j < n {
            assert(pre.attempts@[i] == post.attempts@[i]);
            assert(pre.attempts@[j] == post.attempts@[j]);
        } else if i == n {
            assert(post.attempts@[j] == pre.attempts@[j]);
            match (pre.attempts@[j].connector_transaction_id, att.connector_transaction_id) {
                (Some(b), Some(a)) => {
                    if a@ == b@ {
                        assert(spec_attempt_matches_transaction(
                            pre.attempts@[j],
                            att.payment_id,
                            a@,
                        ));
                        assert(pre.spec_has_attempt_for_transaction(att.payment_id, a@));
                    }
                },
                _ => {},
            }
        } else {
            assert(post.attempts@[i] == pre.attempts@[i]);
            match (pre.attempts@[i].connector_transaction_id, att.connector_transaction_id) {
                (Some(b), Some(a)) => {
                    if a@ == b@ {
                        assert(spec_attempt_matches_transaction(
                            pre.attempts@[i],
                            att.payment_id,
                            a@,
                        ));
                        assert(pre.spec_has_attempt_for_transaction(att.payment_id, a@));
                    }
                },
                _ => {},
            }
        }
    };
    assert forall|i: int| 0 <= i < post.attempts@.len() implies seq_has_intent_with_payment_id(
        post.intents@,
        (#[trigger] post.attempts@[i]).payment_id,
    ) by {
        if i < n {
            assert(post.attempts@[i] == pre.attempts@[i]);
            assert(seq_has_intent_with_payment_id(pre.intents@, pre.attempts@[i].payment_id));
            let w = choose|k: int|
                0 <= k < pre.intents@.len() && (#[trigger] pre.intents@[k]).payment_id
                    == pre.attempts@[i].payment_id;
            if w == iidx {
                assert(post.intents@[w].payment_id == pre.intents@[w].payment_id);
            } else {
                assert(post.intents@[w] == pre.intents@[w]);
            }
        } else {
            assert(post.attempts@[i] == att);
            assert(post.intents@[iidx].payment_id == att.payment_id);
        }
    };
}

} // verus!
