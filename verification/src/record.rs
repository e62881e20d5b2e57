//! The payment record and the rules that a record must meet.

use vstd::prelude::*;
use vstd::string::StringExecFns;
use crate::errors::ContractError;
use crate::identity::Identity;
use crate::model::RecordView;
use crate::model::native_asset_code;

verus! {

/// The asset code that names the network's native asset.
pub const NATIVE_ASSET_CODE: &'static str = "XLM";

/// The confirmation that one invoice was paid. Once stored it never changes.
#[derive(Debug, PartialEq, Eq)]
pub struct PaymentRecord {
    /// The invoice that was paid; the key of the record.
    pub invoice_id: String,
    /// The account to which the payment is attributed.
    pub payer: Identity,
    /// The asset that was paid: `"XLM"` for the native asset, any other
    /// code for an issued one.
    pub asset_code: String,
    /// The issuer of an issued asset.
    pub asset_issuer: String,
    /// The amount, in the asset's smallest unit.
    pub amount: i128,
}

impl View for PaymentRecord {
    type V = RecordView;

    open spec fn view(&self) -> RecordView {
        RecordView {
            invoice_id: self.invoice_id@,
            payer: self.payer@,
            asset_code: self.asset_code@,
            asset_issuer: self.asset_issuer@,
            amount: self.amount as int,
        }
    }
}

/// The literal of the native asset code spells the code of the model.
pub proof fn lemma_native_asset_literal()
    ensures
        NATIVE_ASSET_CODE@ == native_asset_code(),
{
    reveal_strlit("XLM");
    assert(NATIVE_ASSET_CODE@ =~= native_asset_code());
}

/// Whether `code` names the native asset.
pub fn is_native_asset(code: &String) -> (native: bool)
    ensures
        native == (code@ == native_asset_code()),
{
    let native_code = String::from_str(NATIVE_ASSET_CODE);
    proof {
        lemma_native_asset_literal();
    }
    *code == native_code
}

impl PaymentRecord {
    /// Checks the record against the rules, in their fixed order, and names
    /// the first one that it breaks.
    pub fn validate(&self) -> (res: Result<(), ContractError>)
        ensures
            res == self@.check(),
            res is Ok <==> self@.valid(),
    {
        if self.invoice_id.as_str().is_empty() {
            Err(ContractError::InvalidInvoiceId)
        } else if self.amount <= 0 {
            Err(ContractError::InvalidAmount)
        } else if self.asset_code.as_str().is_empty() {
            Err(ContractError::InvalidAsset)
        } else if !is_native_asset(&self.asset_code) && self.asset_issuer.as_str().is_empty() {
            Err(ContractError::InvalidAsset)
        } else {
            Ok(())
        }
    }
}

impl Clone for PaymentRecord {
    fn clone(&self) -> (copy: PaymentRecord)
        ensures
            copy == *self,
            copy@ == self@,
    {
        PaymentRecord {
            invoice_id: self.invoice_id.clone(),
            payer: self.payer.clone(),
            asset_code: self.asset_code.clone(),
            asset_issuer: self.asset_issuer.clone(),
            amount: self.amount,
        }
    }
}

} // verus!
