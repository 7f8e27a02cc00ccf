//! The optional synchronous payment-status call to the billing connector.
//!
//! Some billing connectors cannot be trusted to carry full data in the
//! webhook body; for those, the flow fetches the authoritative payment state
//! through the connector's payment-sync API before reconciling. The
//! connector's endpoint is modelled by `BillingConnector`: the responses it
//! would return, keyed by connector transaction id.

use vstd::prelude::*;

use crate::errors::RevenueRecoveryError;
use crate::store::{BillingConnectorAccount, ConnectorAuthType};
use crate::types::{
    AttemptStatus, Connector, Currency, ObjectReferenceId, PaymentMethodSubtype,
    PaymentMethodType, RevenueRecoveryAttemptData, RevenueRecoveryInvoiceData, clone_opt_string,
};

verus! {

/// The parsed response of the billing connector's payment-status API: the
/// authoritative invoice and transaction facts for one payment. When present
/// it strictly supersedes whatever the webhook body carries.
#[derive(Debug)]
pub struct BillingConnectorPaymentsSyncResponse {
    pub amount: u64,
    pub currency: Currency,
    pub merchant_reference_id: String,
    pub connector_transaction_id: Option<String>,
    pub status: AttemptStatus,
    pub payment_method_type: PaymentMethodType,
    pub payment_method_sub_type: PaymentMethodSubtype,
    pub error_code: Option<String>,
    pub error_message: Option<String>,
    pub connector_account_reference_id: Option<String>,
    pub connector_customer_id: Option<String>,
    pub processor_payment_method_token: Option<String>,
    pub transaction_created_at: Option<u64>,
}

impl Clone for BillingConnectorPaymentsSyncResponse {
    fn clone(&self) -> (res: Self)
        ensures
            res == *self,
    {
        BillingConnectorPaymentsSyncResponse {
            amount: self.amount,
            currency: self.currency,
            merchant_reference_id: self.merchant_reference_id.clone(),
            connector_transaction_id: clone_opt_string(&self.connector_transaction_id),
            status: self.status,
            payment_method_type: self.payment_method_type,
            payment_method_sub_type: self.payment_method_sub_type,
            error_code: clone_opt_string(&self.error_code),
            error_message: clone_opt_string(&self.error_message),
            connector_account_reference_id: clone_opt_string(
                &self.connector_account_reference_id,
            ),
            connector_customer_id: clone_opt_string(&self.connector_customer_id),
            processor_payment_method_token: clone_opt_string(
                &self.processor_payment_method_token,
            ),
            transaction_created_at: self.transaction_created_at,
        }
    }
}

/// The invoice facts a sync response carries.
pub open spec fn spec_invoice_data_of_sync(
    r: BillingConnectorPaymentsSyncResponse,
) -> RevenueRecoveryInvoiceData {
    RevenueRecoveryInvoiceData {
        amount: r.amount,
        currency: r.currency,
        merchant_reference_id: r.merchant_reference_id,
    }
}

/// The transaction facts a sync response carries.
pub open spec fn spec_attempt_data_of_sync(
    r: BillingConnectorPaymentsSyncResponse,
) -> RevenueRecoveryAttemptData {
    RevenueRecoveryAttemptData {
        amount: r.amount,
        currency: r.currency,
        merchant_reference_id: r.merchant_reference_id,
        connector_transaction_id: r.connector_transaction_id,
        error_code: r.error_code,
        error_message: r.error_message,
        processor_payment_method_token: r.processor_payment_method_token,
        connector_customer_id: r.connector_customer_id,
        connector_account_reference_id: r.connector_account_reference_id,
        transaction_created_at: r.transaction_created_at,
        status: r.status,
        payment_method_type: r.payment_method_type,
        payment_method_sub_type: r.payment_method_sub_type,
    }
}

impl BillingConnectorPaymentsSyncResponse {
    /// The invoice facts of this response.
    pub fn invoice_data(&self) -> (res: RevenueRecoveryInvoiceData)
        ensures
            res == spec_invoice_data_of_sync(*self),
    {
        RevenueRecoveryInvoiceData {
            amount: self.amount,
            currency: self.currency,
            merchant_reference_id: self.merchant_reference_id.clone(),
        }
    }

    /// The transaction facts of this response.
    pub fn attempt_data(&self) -> (res: RevenueRecoveryAttemptData)
        ensures
            res == spec_attempt_data_of_sync(*self),
    {
        RevenueRecoveryAttemptData {
            amount: self.amount,
            currency: self.currency,
            merchant_reference_id: self.merchant_reference_id.clone(),
            connector_transaction_id: clone_opt_string(&self.connector_transaction_id),
            error_code: clone_opt_string(&self.error_code),
            error_message: clone_opt_string(&self.error_message),
            processor_payment_method_token: clone_opt_string(
                &self.processor_payment_method_token,
            ),
            connector_customer_id: clone_opt_string(&self.connector_customer_id),
            connector_account_reference_id: clone_opt_string(
                &self.connector_account_reference_id,
            ),
            transaction_created_at: self.transaction_created_at,
            status: self.status,
            payment_method_type: self.payment_method_type,
            payment_method_sub_type: self.payment_method_sub_type,
        }
    }
}

/// One payment the billing connector knows: the sync response it returns for
/// the given connector transaction id.
#[derive(Debug)]
pub struct BillingConnectorSyncRecord {
    pub billing_connector_psync_id: String,
    pub response: BillingConnectorPaymentsSyncResponse,
}

/// The billing connector's payment-status endpoint: what it would answer for
/// each transaction id it knows. A transaction id with no record makes the
/// sync call fail, as the real endpoint would.
#[derive(Debug)]
pub struct BillingConnector {
    pub payment_sync_records: Vec<BillingConnectorSyncRecord>,
}

impl BillingConnector {
    /// Transaction ids are unique keys of the endpoint.
    pub open spec fn wf(self) -> bool {
        forall|i: int, j: int|
            0 <= i < self.payment_sync_records@.len() && 0 <= j
                < self.payment_sync_records@.len() && i != j ==> (
            #[trigger] self.payment_sync_records@[i]).billing_connector_psync_id@ != (
            #[trigger] self.payment_sync_records@[j]).billing_connector_psync_id@
    }

    pub open spec fn spec_has_record_for(self, id: Seq<char>) -> bool {
        exists|i: int|
            0 <= i < self.payment_sync_records@.len() && (
            #[trigger] self.payment_sync_records@[i]).billing_connector_psync_id@ == id
    }

    pub open spec fn spec_response_for(self, id: Seq<char>) -> BillingConnectorPaymentsSyncResponse {
        self.payment_sync_records@[
            choose|i: int|
                0 <= i < self.payment_sync_records@.len() && (
                #[trigger] self.payment_sync_records@[i]).billing_connector_psync_id@ == id
        ].response
    }
}

/// The request of one payment-sync call.
#[derive(Debug)]
pub struct BillingConnectorPaymentsSyncRequest {
    pub billing_connector_psync_id: String,
}

/// Everything one payment-sync call needs: the connector, the parsed
/// credentials and the request.
#[derive(Debug)]
pub struct BillingConnectorPaymentsSyncRouterData {
    pub connector: Connector,
    pub connector_auth_type: ConnectorAuthType,
    pub request: BillingConnectorPaymentsSyncRequest,
}

/// Wraps the router data for the payment-sync flow.
#[derive(Debug)]
pub struct BillingConnectorPaymentsSyncFlowRouterData(pub BillingConnectorPaymentsSyncRouterData);

/// The router data built for a payment-sync call, or the sync failure when
/// the billing account's credentials cannot be parsed.
pub open spec fn spec_construct_router_data(
    account: BillingConnectorAccount,
    connector: Connector,
    billing_connector_psync_id: String,
) -> Result<BillingConnectorPaymentsSyncFlowRouterData, RevenueRecoveryError> {
    match account.connector_account_details {
        Some(auth) => Ok(
            BillingConnectorPaymentsSyncFlowRouterData(
                BillingConnectorPaymentsSyncRouterData {
                    connector,
                    connector_auth_type: auth,
                    request: BillingConnectorPaymentsSyncRequest { billing_connector_psync_id },
                },
            ),
        ),
        None => Err(RevenueRecoveryError::BillingConnectorPaymentsSyncFailed),
    }
}

impl BillingConnectorPaymentsSyncFlowRouterData {
    /// Builds the call data for one payment-sync call from the billing
    /// account's credentials; an account whose credentials cannot be parsed
    /// fails the sync.
    pub fn construct_router_data_for_billing_connector_payment_sync_call(
        billing_connector_account: &BillingConnectorAccount,
        connector: Connector,
        billing_connector_psync_id: &String,
    ) -> (res: Result<Self, RevenueRecoveryError>)
        ensures
            res == spec_construct_router_data(
                *billing_connector_account,
                connector,
                *billing_connector_psync_id,
            ),
    {
        match &billing_connector_account.connector_account_details {
            Some(auth) => Ok(
                BillingConnectorPaymentsSyncFlowRouterData(
                    BillingConnectorPaymentsSyncRouterData {
                        connector,
                        connector_auth_type: auth.clone(),
                        request: BillingConnectorPaymentsSyncRequest {
                            billing_connector_psync_id: billing_connector_psync_id.clone(),
                        },
                    },
                ),
            ),
            None => Err(RevenueRecoveryError::BillingConnectorPaymentsSyncFailed),
        }
    }

    /// Hands out the wrapped router data.
    pub fn inner(self) -> (res: BillingConnectorPaymentsSyncRouterData)
        ensures
            res == self.0,
    {
        self.0
    }
}

/// Wraps the parsed response of one payment-sync call.
#[derive(Debug)]
pub struct BillingConnectorPaymentsSyncResponseData(pub BillingConnectorPaymentsSyncResponse);

/// The outcome of one payment-sync call: the connector's response for the
/// given transaction id, or the sync failure when the credentials cannot be
/// parsed or the connector does not answer for that id.
pub open spec fn spec_billing_connector_payment_sync(
    billing_connector: BillingConnector,
    account: BillingConnectorAccount,
    connector: Connector,
    id: String,
) -> Result<BillingConnectorPaymentsSyncResponseData, RevenueRecoveryError> {
    match spec_construct_router_data(account, connector, id) {
        Err(e) => Err(e),
        Ok(router_data) => {
            if billing_connector.spec_has_record_for(
                router_data.0.request.billing_connector_psync_id@,
            ) {
                Ok(
                    BillingConnectorPaymentsSyncResponseData(
                        billing_connector.spec_response_for(
                            router_data.0.request.billing_connector_psync_id@,
                        ),
                    ),
                )
            } else {
                Err(RevenueRecoveryError::BillingConnectorPaymentsSyncFailed)
            }
        },
    }
}

/// What the optional sync step hands the reconcilers: the response when the
/// merchant's connector requires the sync call and the call succeeds, nothing
/// when the call is not required, and the sync failure otherwise (including a
/// webhook reference that carries no connector transaction id).
pub open spec fn spec_get_billing_connector_payment_details(
    should_billing_connector_payment_api_called: bool,
    billing_connector: BillingConnector,
    account: BillingConnectorAccount,
    connector: Connector,
    object_ref_id: ObjectReferenceId,
) -> Result<Option<BillingConnectorPaymentsSyncResponse>, RevenueRecoveryError> {
    if !should_billing_connector_payment_api_called {
        Ok(None)
    } else {
        match object_ref_id.spec_connector_transaction_id() {
            None => Err(RevenueRecoveryError::BillingConnectorPaymentsSyncFailed),
            Some(id) => match spec_billing_connector_payment_sync(
                billing_connector,
                account,
                connector,
                id,
            ) {
                Err(e) => Err(e),
                Ok(d) => Ok(Some(d.0)),
            },
        }
    }
}

impl BillingConnectorPaymentsSyncResponseData {
    /// Performs one payment-sync call against the billing connector for the
    /// given connector transaction id.
    pub fn handle_billing_connector_payment_sync_call(
        billing_connector: &BillingConnector,
        billing_connector_account: &BillingConnectorAccount,
        connector: Connector,
        id: &String,
    ) -> (res: Result<Self, RevenueRecoveryError>)
        requires
            billing_connector.wf(),
        ensures
            res == spec_billing_connector_payment_sync(
                *billing_connector,
                *billing_connector_account,
                connector,
                *id,
            ),
    {
        let router_data =
            BillingConnectorPaymentsSyncFlowRouterData::construct_router_data_for_billing_connector_payment_sync_call(
            billing_connector_account,
            connector,
            id,
        )?.inner();
        let psync_id = &router_data.request.billing_connector_psync_id;
        let n = billing_connector.payment_sync_records.len();
        let mut idx: usize = 0;
        while idx < n
            invariant
                billing_connector.wf(),
                billing_connector_account.connector_account_details is Some,
                n == billing_connector.payment_sync_records@.len(),
                0 <= idx <= n,
                psync_id@ == id@,
                forall|k: int|
                    0 <= k < idx ==> (
                    #[trigger] billing_connector.payment_sync_records@[k]).billing_connector_psync_id@
                        != psync_id@,
            decreases n - idx,
        {
            if billing_connector.payment_sync_records[idx].billing_connector_psync_id == *psync_id {
                proof {
                    assert(billing_connector.spec_has_record_for(id@));
                    let j = choose|i: int|
                        0 <= i < billing_connector.payment_sync_records@.len() && (
                        #[trigger] billing_connector.payment_sync_records@[i]).billing_connector_psync_id@
                            == id@;
                    assert(j == idx as int);
                }
                return Ok(
                    BillingConnectorPaymentsSyncResponseData(
                        billing_connector.payment_sync_records[idx].response.clone(),
                    ),
                );
            }
            idx += 1;
        }
        proof {
            assert(!billing_connector.spec_has_record_for(id@));
        }
        Err(RevenueRecoveryError::BillingConnectorPaymentsSyncFailed)
    }

    /// Runs the sync step when the merchant's billing connector requires it:
    /// takes the connector transaction id out of the webhook's object
    /// reference and fetches the authoritative payment state for it.
    pub fn get_billing_connector_payment_details(
        should_billing_connector_payment_api_called: bool,
        billing_connector: &BillingConnector,
        billing_connector_account: &BillingConnectorAccount,
        connector: Connector,
        object_ref_id: &ObjectReferenceId,
    ) -> (res: Result<Option<BillingConnectorPaymentsSyncResponse>, RevenueRecoveryError>)
        requires
            billing_connector.wf(),
        ensures
            res == spec_get_billing_connector_payment_details(
                should_billing_connector_payment_api_called,
                *billing_connector,
                *billing_connector_account,
                connector,
                *object_ref_id,
            ),
    {
        if !should_billing_connector_payment_api_called {
            return Ok(None);
        }
        let billing_connector_transaction_id =
            match object_ref_id.get_connector_transaction_id_as_string() {
            Some(id) => id,
            None => {
                return Err(RevenueRecoveryError::BillingConnectorPaymentsSyncFailed);
            },
        };
        let details = Self::handle_billing_connector_payment_sync_call(
            billing_connector,
            billing_connector_account,
            connector,
            &billing_connector_transaction_id,
        )?;
        Ok(Some(details.inner()))
    }

    /// Hands out the wrapped sync response.
    pub fn inner(self) -> (res: BillingConnectorPaymentsSyncResponse)
        ensures
            res == self.0,
    {
        self.0
    }
}

} // verus!
