//! Domain values of the recovery flow.
//!
//! Identifiers generated by the store (payment intents, payment attempts)
//! are numeric; identifiers chosen outside the system (merchant references,
//! connector transaction ids, account ids) are strings. Amounts are minor
//! units; timestamps are seconds.

use vstd::prelude::*;

verus! {

/// Payment lifecycle state of a recovery payment intent.
#[derive(Clone, Copy, Debug, PartialEq, Eq, Structural)]
pub enum IntentStatus {
    Processing,
    Failed,
    Succeeded,
}

/// Outcome reported for a single payment attempt.
#[derive(Clone, Copy, Debug, PartialEq, Eq, Structural)]
pub enum AttemptStatus {
    Started,
    Pending,
    Failure,
    Charged,
}

/// Which party caused a payment attempt: the system's own payment flow, or
/// the external billing connector.
#[derive(Clone, Copy, Debug, PartialEq, Eq, Structural)]
pub enum TriggeredBy {
    Internal,
    External,
}

/// The billing connectors this flow can receive webhooks from.
#[derive(Clone, Copy, Debug, PartialEq, Eq, Structural)]
pub enum Connector {
    Chargebee,
    Recurly,
    Stripebilling,
}

/// Currency of an invoice or attempt amount.
#[derive(Clone, Copy, Debug, PartialEq, Eq, Structural)]
pub enum Currency {
    Eur,
    Gbp,
    Inr,
    Usd,
}

/// Payment method used for an attempt.
#[derive(Clone, Copy, Debug, PartialEq, Eq, Structural)]
pub enum PaymentMethodType {
    BankDebit,
    Card,
}

/// Subtype of the payment method used for an attempt.
#[derive(Clone, Copy, Debug, PartialEq, Eq, Structural)]
pub enum PaymentMethodSubtype {
    Ach,
    Credit,
    Debit,
}

/// Semantic type of an incoming billing webhook event.
///
/// The three payment events report on one transaction of an invoice; the two
/// invoice events report on the invoice itself and never carry an attempt.
/// `EventNotSupported` stands for every event the flow does not recognize.
#[derive(Clone, Copy, Debug, PartialEq, Eq, Structural)]
pub enum IncomingWebhookEvent {
    RecoveryPaymentFailure,
    RecoveryPaymentSuccess,
    RecoveryPaymentPending,
    RecoveryInvoiceCancel,
    RecoveryInvoiceUpdate,
    EventNotSupported,
}

impl IncomingWebhookEvent {
    /// Transaction-type events are the only ones that refer to a payment
    /// attempt; invoice-type and unrecognized events never do.
    pub open spec fn spec_is_recovery_transaction_event(self) -> bool {
        match self {
            IncomingWebhookEvent::RecoveryPaymentFailure
            | IncomingWebhookEvent::RecoveryPaymentSuccess
            | IncomingWebhookEvent::RecoveryPaymentPending => true,
            IncomingWebhookEvent::RecoveryInvoiceCancel
            | IncomingWebhookEvent::RecoveryInvoiceUpdate
            | IncomingWebhookEvent::EventNotSupported => false,
        }
    }

    pub fn is_recovery_transaction_event(&self) -> (r: bool)
        ensures
            r == self.spec_is_recovery_transaction_event(),
    {
        matches!(
            self,
            IncomingWebhookEvent::RecoveryPaymentFailure
                | IncomingWebhookEvent::RecoveryPaymentSuccess
                | IncomingWebhookEvent::RecoveryPaymentPending
        )
    }
}

/// The intent status that recording an attempt with the given outcome moves
/// the intent to.
pub open spec fn spec_intent_status_of_attempt(status: AttemptStatus) -> IntentStatus {
    match status {
        AttemptStatus::Charged => IntentStatus::Succeeded,
        AttemptStatus::Failure => IntentStatus::Failed,
        AttemptStatus::Started | AttemptStatus::Pending => IntentStatus::Processing,
    }
}

pub fn intent_status_of_attempt(status: AttemptStatus) -> (r: IntentStatus)
    ensures
        r == spec_intent_status_of_attempt(status),
{
    match status {
        AttemptStatus::Charged => IntentStatus::Succeeded,
        AttemptStatus::Failure => IntentStatus::Failed,
        AttemptStatus::Started | AttemptStatus::Pending => IntentStatus::Processing,
    }
}

/// Recovery metadata nested in a payment intent: how many recovery attempts
/// have been made for it so far.
#[derive(Clone, Copy, Debug, PartialEq, Eq, Structural)]
pub struct PaymentRevenueRecoveryMetadata {
    pub total_retry_count: u16,
}

/// Feature metadata of a payment intent.
#[derive(Clone, Copy, Debug, PartialEq, Eq)]
pub struct PaymentIntentFeatureMetadata {
    pub payment_revenue_recovery_metadata: Option<PaymentRevenueRecoveryMetadata>,
}

impl PaymentIntentFeatureMetadata {
    pub open spec fn spec_get_retry_count(self) -> Option<u16> {
        match self.payment_revenue_recovery_metadata {
            Some(m) => Some(m.total_retry_count),
            None => None,
        }
    }

    pub fn get_retry_count(&self) -> (r: Option<u16>)
        ensures
            r == self.spec_get_retry_count(),
    {
        match self.payment_revenue_recovery_metadata {
            Some(m) => Some(m.total_retry_count),
            None => None,
        }
    }
}

/// Recovery metadata nested in a payment attempt: who triggered it.
#[derive(Clone, Copy, Debug, PartialEq, Eq, Structural)]
pub struct PaymentAttemptRevenueRecoveryData {
    pub attempt_triggered_by: TriggeredBy,
}

/// Feature metadata of a payment attempt.
#[derive(Clone, Copy, Debug, PartialEq, Eq)]
pub struct PaymentAttemptFeatureMetadata {
    pub revenue_recovery: Option<PaymentAttemptRevenueRecoveryData>,
}

/// The payment intent as this flow sees it: the merchant-facing record of one
/// collection of payment for an invoice.
#[derive(Clone, Copy, Debug, PartialEq, Eq)]
pub struct RecoveryPaymentIntent {
    pub payment_id: u64,
    pub status: IntentStatus,
    pub feature_metadata: Option<PaymentIntentFeatureMetadata>,
}

impl RecoveryPaymentIntent {
    /// The retry counter carried in the intent's metadata, when present.
    pub open spec fn spec_retry_count(self) -> Option<u16> {
        match self.feature_metadata {
            Some(m) => m.spec_get_retry_count(),
            None => None,
        }
    }
}

/// One try at charging a payment method against an intent.
#[derive(Clone, Copy, Debug, PartialEq, Eq)]
pub struct RecoveryPaymentAttempt {
    pub attempt_id: u64,
    pub attempt_status: AttemptStatus,
    pub feature_metadata: Option<PaymentAttemptFeatureMetadata>,
}

impl RecoveryPaymentAttempt {
    pub open spec fn spec_get_attempt_triggered_by(self) -> Option<TriggeredBy> {
        match self.feature_metadata {
            Some(m) => match m.revenue_recovery {
                Some(r) => Some(r.attempt_triggered_by),
                None => None,
            },
            None => None,
        }
    }

    /// Who triggered this attempt, when its metadata says so.
    pub fn get_attempt_triggered_by(&self) -> (r: Option<TriggeredBy>)
        ensures
            r == self.spec_get_attempt_triggered_by(),
    {
        match self.feature_metadata {
            Some(m) => match m.revenue_recovery {
                Some(rr) => Some(rr.attempt_triggered_by),
                None => None,
            },
            None => None,
        }
    }
}

/// Normalized invoice facts, extracted from a webhook or a sync response.
#[derive(Debug)]
pub struct RevenueRecoveryInvoiceData {
    pub amount: u64,
    pub currency: Currency,
    pub merchant_reference_id: String,
}

impl Clone for RevenueRecoveryInvoiceData {
    fn clone(&self) -> (res: Self)
        ensures
            res == *self,
    {
        RevenueRecoveryInvoiceData {
            amount: self.amount,
            currency: self.currency,
            merchant_reference_id: self.merchant_reference_id.clone(),
        }
    }
}

/// Normalized transaction facts, extracted from a webhook or a sync response.
#[derive(Debug)]
pub struct RevenueRecoveryAttemptData {
    pub amount: u64,
    pub currency: Currency,
    pub merchant_reference_id: String,
    pub connector_transaction_id: Option<String>,
    pub error_code: Option<String>,
    pub error_message: Option<String>,
    pub processor_payment_method_token: Option<String>,
    pub connector_customer_id: Option<String>,
    /// Locates the merchant's own connector account used for the original
    /// payment, through the billing account's reference mapping.
    pub connector_account_reference_id: Option<String>,
    pub transaction_created_at: Option<u64>,
    pub status: AttemptStatus,
    pub payment_method_type: PaymentMethodType,
    pub payment_method_sub_type: PaymentMethodSubtype,
}

/// Clones an optional string, keeping its value.
pub fn clone_opt_string(o: &Option<String>) -> (r: Option<String>)
    ensures
        r == *o,
{
    match o {
        Some(s) => Some(s.clone()),
        None => None,
    }
}

impl Clone for RevenueRecoveryAttemptData {
    fn clone(&self) -> (res: Self)
        ensures
            res == *self,
    {
        RevenueRecoveryAttemptData {
            amount: self.amount,
            currency: self.currency,
            merchant_reference_id: self.merchant_reference_id.clone(),
            connector_transaction_id: clone_opt_string(&self.connector_transaction_id),
            error_code: clone_opt_string(&self.error_code),
            error_message: clone_opt_string(&self.error_message),
            processor_payment_method_token: clone_opt_string(
                &self.processor_payment_method_token,
            ),
            connector_customer_id: clone_opt_string(&self.connector_customer_id),
            connector_account_reference_id: clone_opt_string(
                &self.connector_account_reference_id,
            ),
            transaction_created_at: self.transaction_created_at,
            status: self.status,
            payment_method_type: self.payment_method_type,
            payment_method_sub_type: self.payment_method_sub_type,
        }
    }
}

/// The merchant and profile on whose behalf the webhook is processed.
#[derive(Debug)]
pub struct MerchantContext {
    pub merchant_id: String,
    pub profile_id: String,
}

/// The externally-visible outcome of processing one webhook.
#[derive(Clone, Copy, Debug, PartialEq, Eq)]
pub enum WebhookResponseTracker {
    /// The event required no change: a non-scheduling action, or a retry
    /// budget already exceeded.
    NoEffect,
    /// A retry task was scheduled for this payment intent.
    Payment { payment_id: u64, status: IntentStatus },
}

/// What a webhook's object reference points at.
#[derive(Debug)]
pub enum PaymentIdType {
    PaymentIntentId(String),
    ConnectorTransactionId(String),
}

/// The object the incoming webhook refers to.
#[derive(Debug)]
pub enum ObjectReferenceId {
    PaymentId(PaymentIdType),
    InvoiceId(String),
}

impl ObjectReferenceId {
    /// The connector transaction id carried in the reference, when it carries
    /// one.
    pub open spec fn spec_connector_transaction_id(self) -> Option<String> {
        match self {
            ObjectReferenceId::PaymentId(PaymentIdType::ConnectorTransactionId(id)) => Some(id),
            _ => None,
        }
    }

    /// Hands out the connector transaction id this reference carries; any
    /// other kind of reference cannot drive a payment sync call.
    pub fn get_connector_transaction_id_as_string(&self) -> (r: Option<String>)
        ensures
            r == self.spec_connector_transaction_id(),
    {
        match self {
            ObjectReferenceId::PaymentId(PaymentIdType::ConnectorTransactionId(id)) => {
                Some(id.clone())
            },
            _ => None,
        }
    }
}

/// Amount facts of an attempt being recorded.
#[derive(Clone, Copy, Debug, PartialEq, Eq, Structural)]
pub struct PaymentAttemptAmountDetails {
    pub amount: u64,
    pub currency: Currency,
}

/// Error facts of a failed attempt being recorded.
#[derive(Debug)]
pub struct RecordAttemptErrorDetails {
    pub code: String,
    pub message: String,
}

impl Clone for RecordAttemptErrorDetails {
    fn clone(&self) -> (res: Self)
        ensures
            res == *self,
    {
        RecordAttemptErrorDetails { code: self.code.clone(), message: self.message.clone() }
    }
}

/// The request handed to the record-attempt operation: everything the store
/// needs to persist one externally-triggered payment attempt.
#[derive(Debug)]
pub struct PaymentsAttemptRecordRequest {
    pub amount_details: PaymentAttemptAmountDetails,
    pub status: AttemptStatus,
    pub connector: Option<Connector>,
    pub payment_merchant_connector_id: Option<String>,
    pub error: Option<RecordAttemptErrorDetails>,
    pub connector_transaction_id: Option<String>,
    pub payment_method_type: PaymentMethodType,
    pub billing_connector_id: String,
    pub payment_method_subtype: PaymentMethodSubtype,
    pub feature_metadata: Option<PaymentAttemptFeatureMetadata>,
    pub transaction_created_at: Option<u64>,
    pub processor_payment_method_token: Option<String>,
    pub connector_customer_id: Option<String>,
}

/// What the billing connector's own parser extracted from the raw webhook
/// request. Per-provider payload parsing happens outside this flow; a field
/// is `None` when that parser cannot read the payload.
#[derive(Debug)]
pub struct IncomingWebhookRequestDetails {
    pub invoice_details: Option<RevenueRecoveryInvoiceData>,
    pub attempt_details: Option<RevenueRecoveryAttemptData>,
}

} // verus!
