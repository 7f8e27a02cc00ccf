//! Resolution of an invoice webhook into a payment intent.
//!
//! Lookup-then-create: an intent already stored for the merchant reference is
//! returned as is; only a reference the store does not know leads to
//! creation. Only the explicit not-found answer of the fetch counts as
//! absence — any other fetch failure propagates and never masks as
//! "not found".

use vstd::prelude::*;

use crate::errors::RevenueRecoveryError;
use crate::store::{
    RecoveryStore, spec_new_stored_intent, spec_recovery_intent_of,
};
use crate::sync::{BillingConnectorPaymentsSyncResponse, spec_invoice_data_of_sync};
use crate::types::{
    IncomingWebhookRequestDetails, RecoveryPaymentIntent, RevenueRecoveryInvoiceData,
};

verus! {

/// The invoice facts of one webhook, normalized.
#[derive(Debug)]
pub struct RevenueRecoveryInvoice(pub RevenueRecoveryInvoiceData);

/// Which invoice facts the flow works on: the sync response's when one is
/// present (it is strictly more authoritative), the webhook body's otherwise;
/// a webhook body the connector's parser cannot read fails the extraction.
pub open spec fn spec_get_recovery_invoice_details(
    request_details: IncomingWebhookRequestDetails,
    billing_connector_payment_details: Option<BillingConnectorPaymentsSyncResponse>,
) -> Result<RevenueRecoveryInvoice, RevenueRecoveryError> {
    match billing_connector_payment_details {
        Some(data) => Ok(RevenueRecoveryInvoice(spec_invoice_data_of_sync(data))),
        None => match request_details.invoice_details {
            Some(data) => Ok(RevenueRecoveryInvoice(data)),
            None => Err(RevenueRecoveryError::InvoiceWebhookProcessingFailed),
        },
    }
}

/// A present sync response decides the invoice facts alone: the webhook body
/// is never consulted, whatever it holds.
pub proof fn lemma_sync_precedence_invoice(
    request_details_a: IncomingWebhookRequestDetails,
    request_details_b: IncomingWebhookRequestDetails,
    sync_response: BillingConnectorPaymentsSyncResponse,
)
    ensures
        spec_get_recovery_invoice_details(request_details_a, Some(sync_response))
            == spec_get_recovery_invoice_details(request_details_b, Some(sync_response)),
{
}

impl RevenueRecoveryInvoice {
    /// Extracts the invoice facts for this webhook, preferring the sync
    /// response over the webhook body.
    pub fn get_recovery_invoice_details(
        request_details: &IncomingWebhookRequestDetails,
        billing_connector_payment_details: Option<&BillingConnectorPaymentsSyncResponse>,
    ) -> (res: Result<Self, RevenueRecoveryError>)
        ensures
            res == spec_get_recovery_invoice_details(
                *request_details,
                match billing_connector_payment_details {
                    Some(d) => Some(*d),
                    None => None,
                },
            ),
    {
        match billing_connector_payment_details {
            Some(data) => Ok(RevenueRecoveryInvoice(data.invoice_data())),
            None => match &request_details.invoice_details {
                Some(data) => Ok(RevenueRecoveryInvoice(data.clone())),
                None => Err(RevenueRecoveryError::InvoiceWebhookProcessingFailed),
            },
        }
    }

    /// The intent already stored for this invoice's merchant reference, when
    /// the store holds one.
    pub open spec fn spec_get_payment_intent(self, store: RecoveryStore) -> Result<
        Option<RecoveryPaymentIntent>,
        RevenueRecoveryError,
    > {
        if store.faults.intent_fetch {
            Err(RevenueRecoveryError::PaymentIntentFetchFailed)
        } else if store.spec_has_intent_for_reference(self.0.merchant_reference_id@) {
            Ok(
                Some(
                    spec_recovery_intent_of(
                        store.spec_intent_for_reference(self.0.merchant_reference_id@),
                    ),
                ),
            )
        } else {
            Ok(None)
        }
    }

    /// Fetches the intent stored for this invoice's merchant reference.
    /// `Ok(None)` is the one recognized absence signal; any other fetch
    /// failure propagates as the intent-fetch error.
    pub fn get_payment_intent(&self, store: &RecoveryStore) -> (res: Result<
        Option<RecoveryPaymentIntent>,
        RevenueRecoveryError,
    >)
        requires
            store.wf(),
        ensures
            res == self.spec_get_payment_intent(*store),
    {
        match store.get_intent_by_merchant_reference(&self.0.merchant_reference_id) {
            Ok(found) => Ok(found),
            Err(_) => Err(RevenueRecoveryError::PaymentIntentFetchFailed),
        }
    }

    /// The intent that creating from this invoice yields.
    pub open spec fn spec_create_payment_intent(self, store: RecoveryStore) -> Result<
        RecoveryPaymentIntent,
        RevenueRecoveryError,
    > {
        if store.faults.intent_create {
            Err(RevenueRecoveryError::PaymentIntentCreateFailed)
        } else {
            Ok(spec_recovery_intent_of(spec_new_stored_intent(self.0, store.next_object_id)))
        }
    }

    /// Creates a new intent from this invoice's facts.
    pub fn create_payment_intent(&self, store: &mut RecoveryStore) -> (res: Result<
        RecoveryPaymentIntent,
        RevenueRecoveryError,
    >)
        requires
            old(store).wf(),
            old(store).next_object_id < u64::MAX,
        ensures
            res == self.spec_create_payment_intent(*old(store)),
            old(store).faults.intent_create ==> *final(store) == *old(store),
            !old(store).faults.intent_create ==> {
                &&& final(store).intents@ == old(store).intents@.push(
                    spec_new_stored_intent(self.0, old(store).next_object_id),
                )
                &&& final(store).attempts == old(store).attempts
                &&& final(store).tasks == old(store).tasks
                &&& final(store).connector_accounts == old(store).connector_accounts
                &&& final(store).next_object_id == old(store).next_object_id + 1
                &&& final(store).faults == old(store).faults
            },
            !old(store).faults.intent_create && !old(store).spec_has_intent_for_reference(
                self.0.merchant_reference_id@,
            ) ==> final(store).wf(),
    {
        match store.create_payment_intent_record(&self.0) {
            Ok(intent) => Ok(intent),
            Err(_) => Err(RevenueRecoveryError::PaymentIntentCreateFailed),
        }
    }

    /// The intent resolution of the whole flow: the stored intent when the
    /// reference is known, the newly created one otherwise.
    pub open spec fn spec_resolve_payment_intent(self, store: RecoveryStore) -> Result<
        RecoveryPaymentIntent,
        RevenueRecoveryError,
    > {
        match self.spec_get_payment_intent(store) {
            Err(e) => Err(e),
            Ok(Some(intent)) => Ok(intent),
            Ok(None) => self.spec_create_payment_intent(store),
        }
    }

    /// Whether resolving this invoice against this store creates a new
    /// intent row.
    pub open spec fn spec_resolution_creates_intent(self, store: RecoveryStore) -> bool {
        &&& !store.faults.intent_fetch
        &&& !store.spec_has_intent_for_reference(self.0.merchant_reference_id@)
        &&& !store.faults.intent_create
    }
}

/// Reconciling an invoice against a store that already holds the intent for
/// its merchant reference is idempotent: the resolution returns exactly the
/// stored intent, creates nothing, and — the store being left as it is — a
/// second resolution of the same invoice returns the same intent again.
pub proof fn lemma_invoice_reconciliation_idempotent(
    invoice: RevenueRecoveryInvoice,
    store: RecoveryStore,
)
    requires
        store.wf(),
        !store.faults.intent_fetch,
        store.spec_has_intent_for_reference(invoice.0.merchant_reference_id@),
    ensures
        invoice.spec_resolve_payment_intent(store) == Ok::<_, RevenueRecoveryError>(
            spec_recovery_intent_of(
                store.spec_intent_for_reference(invoice.0.merchant_reference_id@),
            ),
        ),
        !invoice.spec_resolution_creates_intent(store),
{
}

} // verus!
