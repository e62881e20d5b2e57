//! The ledger as mathematics: its state, and what each operation answers
//! and leaves behind.
//!
//! Every executable operation of the crate is specified against the
//! functions of this module.

use vstd::prelude::*;
use crate::errors::ContractError;
use crate::errors::CallError;

verus! {

/// The code of the network's native asset.
pub open spec fn native_asset_code() -> Seq<char> {
    seq!['X', 'L', 'M']
}

/// The two topics under which a recorded payment is announced: the domain,
/// then the action.
pub open spec fn payment_recorded_topics() -> (Seq<char>, Seq<char>) {
    (
        seq!['p', 'a', 'y', 'm', 'e', 'n', 't'],
        seq!['r', 'e', 'c', 'o', 'r', 'd', 'e', 'd'],
    )
}

/// A payment record as plain values.
pub struct RecordView {
    pub invoice_id: Seq<char>,
    pub payer: Seq<char>,
    pub asset_code: Seq<char>,
    pub asset_issuer: Seq<char>,
    pub amount: int,
}

impl RecordView {
    /// The record with the given fields.
    pub open spec fn of(
        invoice_id: Seq<char>,
        payer: Seq<char>,
        asset_code: Seq<char>,
        asset_issuer: Seq<char>,
        amount: int,
    ) -> RecordView {
        RecordView { invoice_id, payer, asset_code, asset_issuer, amount }
    }

    /// The first rule that the record breaks, in the fixed order: invoice
    /// identifier, amount, asset code, issuer of an issued asset.
    pub open spec fn check(self) -> Result<(), ContractError> {
        if self.invoice_id.len() == 0 {
            Err(ContractError::InvalidInvoiceId)
        } else if self.amount <= 0 {
            Err(ContractError::InvalidAmount)
        } else if self.asset_code.len() == 0 {
            Err(ContractError::InvalidAsset)
        } else if self.asset_code != native_asset_code() && self.asset_issuer.len() == 0 {
            Err(ContractError::InvalidAsset)
        } else {
            Ok(())
        }
    }

    /// A record that may be stored: it names an invoice and an asset, its
    /// amount is positive, and an issued asset names its issuer.
    pub open spec fn valid(self) -> bool {
        &&& self.invoice_id.len() > 0
        &&& self.amount > 0
        &&& self.asset_code.len() > 0
        &&& (self.asset_code != native_asset_code() ==> self.asset_issuer.len() > 0)
    }
}

/// The announcement of one recorded payment.
pub struct EventView {
    pub topics: (Seq<char>, Seq<char>),
    pub record: RecordView,
}

/// What the ledger persists: the admin, the records by invoice identifier,
/// and the count of recorded payments.
pub struct LedgerState {
    pub admin: Option<Seq<char>>,
    pub records: Map<Seq<char>, RecordView>,
    pub count: nat,
}

impl LedgerState {
    /// The ledger before anything has happened.
    pub open spec fn init() -> LedgerState {
        LedgerState { admin: None, records: Map::empty(), count: 0 }
    }

    /// What `initialize` answers.
    pub open spec fn initialize_result(self, admin: Seq<char>) -> Result<(), ContractError> {
        if self.admin is Some {
            Err(ContractError::AlreadyInitialized)
        } else {
            Ok(())
        }
    }

    /// The state that `initialize` leaves.
    pub open spec fn after_initialize(self, admin: Seq<char>) -> LedgerState {
        if self.initialize_result(admin) is Ok {
            LedgerState { admin: Some(admin), records: self.records, count: self.count }
        } else {
            self
        }
    }

    /// What `admin` answers.
    pub open spec fn admin_result(self) -> Result<Seq<char>, ContractError> {
        match self.admin {
            Some(admin) => Ok(admin),
            None => Err(ContractError::NotInitialized),
        }
    }

    /// What `set_admin` answers when the call carries the authorizations
    /// `auth`.
    pub open spec fn set_admin_result(self, auth: Set<Seq<char>>, new_admin: Seq<char>) -> Result<
        (),
        CallError,
    > {
        if self.admin is None {
            Err(CallError::Contract(ContractError::NotInitialized))
        } else if !auth.contains(new_admin) {
            Err(CallError::Unauthorized)
        } else {
            Ok(())
        }
    }

    /// The state that `set_admin` leaves.
    pub open spec fn after_set_admin(self, auth: Set<Seq<char>>, new_admin: Seq<char>) -> LedgerState {
        if self.set_admin_result(auth, new_admin) is Ok {
            LedgerState { admin: Some(new_admin), records: self.records, count: self.count }
        } else {
            self
        }
    }

    /// What `record_payment` answers when the call carries the
    /// authorizations `auth`.
    pub open spec fn record_payment_result(self, auth: Set<Seq<char>>, record: RecordView) -> Result<
        (),
        CallError,
    > {
        match self.admin {
            None => Err(CallError::Contract(ContractError::NotInitialized)),
            Some(admin) => {
                if !auth.contains(admin) {
                    Err(CallError::Unauthorized)
                } else if record.check() is Err {
                    Err(CallError::Contract(record.check()->Err_0))
                } else if self.records.contains_key(record.invoice_id) {
                    Err(CallError::Contract(ContractError::PaymentAlreadyRecorded))
                } else {
                    Ok(())
                }
            },
        }
    }

    /// The state that `record_payment` leaves.
    pub open spec fn after_record_payment(self, auth: Set<Seq<char>>, record: RecordView) -> LedgerState {
        if self.record_payment_result(auth, record) is Ok {
            LedgerState {
                admin: self.admin,
                records: self.records.insert(record.invoice_id, record),
                count: self.count + 1,
            }
        } else {
            self
        }
    }

    /// What `get_payment` answers.
    pub open spec fn get_payment_result(self, invoice_id: Seq<char>) -> Result<RecordView, ContractError> {
        if self.records.contains_key(invoice_id) {
            Ok(self.records[invoice_id])
        } else {
            Err(ContractError::PaymentNotFound)
        }
    }

    /// What `has_payment` answers.
    pub open spec fn has_payment(self, invoice_id: Seq<char>) -> bool {
        self.records.contains_key(invoice_id)
    }

    /// What `payment_count` answers.
    pub open spec fn payment_count(self) -> nat {
        self.count
    }
}

/// A call that may change the ledger, with the authorizations it carries.
pub enum Op {
    Initialize { admin: Seq<char> },
    RecordPayment { auth: Set<Seq<char>>, record: RecordView },
    SetAdmin { auth: Set<Seq<char>>, new_admin: Seq<char> },
}

impl LedgerState {
    /// Whether the call `op` succeeds in this state.
    pub open spec fn accepts(self, op: Op) -> bool {
        match op {
            Op::Initialize { admin } => self.initialize_result(admin) is Ok,
            Op::RecordPayment { auth, record } => self.record_payment_result(auth, record) is Ok,
            Op::SetAdmin { auth, new_admin } => self.set_admin_result(auth, new_admin) is Ok,
        }
    }

    /// The state that the call `op` leaves.
    pub open spec fn apply(self, op: Op) -> LedgerState {
        match op {
            Op::Initialize { admin } => self.after_initialize(admin),
            Op::RecordPayment { auth, record } => self.after_record_payment(auth, record),
            Op::SetAdmin { auth, new_admin } => self.after_set_admin(auth, new_admin),
        }
    }

    /// The state after the calls `ops`, made in order from this state.
    /// Queries leave the state as it is and are not listed.
    pub open spec fn run(self, ops: Seq<Op>) -> LedgerState
        decreases ops.len(),
    {
        if ops.len() == 0 {
            self
        } else {
            self.run(ops.drop_last()).apply(ops.last())
        }
    }

    /// Whether one of the calls `ops`, made in order from this state, is a
    /// `record_payment` for `invoice_id` that succeeds.
    pub open spec fn records_during(self, ops: Seq<Op>, invoice_id: Seq<char>) -> bool
        decreases ops.len(),
    {
        if ops.len() == 0 {
            false
        } else {
            let before = self.run(ops.drop_last());
            ||| self.records_during(ops.drop_last(), invoice_id)
            ||| (ops.last() matches Op::RecordPayment { auth, record } && record.invoice_id
                == invoice_id && before.record_payment_result(auth, record) is Ok)
        }
    }

    /// What holds of every state that calls can reach from the empty
    /// ledger: the count is the number of records, each record is valid and
    /// stored under its own invoice identifier, and without an admin there
    /// is no record.
    pub open spec fn consistent(self) -> bool {
        &&& self.records.dom().finite()
        &&& self.count == self.records.dom().len()
        &&& self.admin is None ==> self.records == Map::<Seq<char>, RecordView>::empty()
        &&& forall|id: Seq<char>| #[trigger]
            self.records.contains_key(id) ==> self.records[id].valid() && self.records[id].invoice_id
                == id
    }
}

} // verus!
