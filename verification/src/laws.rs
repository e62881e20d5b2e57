//! What holds of the ledger over its whole lifetime, proved of the model
//! against which every operation is specified.

use vstd::prelude::*;
use crate::errors::CallError;
use crate::errors::ContractError;
use crate::model::LedgerState;
use crate::model::Op;
use crate::model::RecordView;
use crate::model::native_asset_code;

verus! {

/// A record passes the checks exactly if it is valid.
pub proof fn lemma_check_accepts_valid(record: RecordView)
    ensures
        record.check() is Ok <==> record.valid(),
{
}

/// No call removes or changes a record, unsets the admin, or lowers the
/// count.
pub proof fn lemma_apply_keeps(s: LedgerState, op: Op)
    ensures
        s.admin is Some ==> s.apply(op).admin is Some,
        s.count <= s.apply(op).count,
        forall|id: Seq<char>| #[trigger]
            s.records.contains_key(id) ==> s.apply(op).records.contains_key(id) && s.apply(
                op,
            ).records[id] == s.records[id],
{
}

/// What one call keeps, a sequence of calls keeps.
pub proof fn lemma_run_keeps(s: LedgerState, ops: Seq<Op>)
    ensures
        s.admin is Some ==> s.run(ops).admin is Some,
        s.count <= s.run(ops).count,
        forall|id: Seq<char>| #[trigger]
            s.records.contains_key(id) ==> s.run(ops).records.contains_key(id) && s.run(
                ops,
            ).records[id] == s.records[id],
    decreases ops.len(),
{
    if ops.len() > 0 {
        lemma_run_keeps(s, ops.drop_last());
        lemma_apply_keeps(s.run(ops.drop_last()), ops.last());
    }
}

/// Every call keeps a consistent state consistent.
pub proof fn lemma_apply_consistent(s: LedgerState, op: Op)
    requires
        s.consistent(),
    ensures
        s.apply(op).consistent(),
{
    match op {
        Op::RecordPayment { auth, record } => {
            if s.record_payment_result(auth, record) is Ok {
                lemma_check_accepts_valid(record);
            }
        },
        _ => {},
    }
}

/// Every state that calls reach from a consistent state is consistent.
pub proof fn lemma_run_consistent(s: LedgerState, ops: Seq<Op>)
    requires
        s.consistent(),
    ensures
        s.run(ops).consistent(),
    decreases ops.len(),
{
    if ops.len() > 0 {
        lemma_run_consistent(s, ops.drop_last());
        lemma_apply_consistent(s.run(ops.drop_last()), ops.last());
    }
}

/// An invoice is recorded once. After `record_payment` has succeeded for
/// an invoice, and whatever calls followed, the record is still the one
/// that was stored, and no further `record_payment` for that invoice
/// succeeds or changes anything. Such a call is refused with
/// `PaymentAlreadyRecorded` whenever it passes the earlier checks, that
/// is, when the admin stands behind it and its fields are valid.
pub proof fn law_invoice_recorded_once(
    s: LedgerState,
    auth: Set<Seq<char>>,
    record: RecordView,
    later: Seq<Op>,
    auth_again: Set<Seq<char>>,
    again: RecordView,
)
    requires
        s.record_payment_result(auth, record) is Ok,
        again.invoice_id == record.invoice_id,
    ensures
        ({
            let t = s.after_record_payment(auth, record).run(later);
            &&& t.get_payment_result(record.invoice_id) == Ok::<RecordView, ContractError>(record)
            &&& t.record_payment_result(auth_again, again) is Err
            &&& t.after_record_payment(auth_again, again) == t
            &&& t.admin is Some
            &&& auth_again.contains(t.admin->Some_0) && again.valid() ==> t.record_payment_result(
                auth_again,
                again,
            ) == Err::<(), CallError>(CallError::Contract(ContractError::PaymentAlreadyRecorded))
        }),
{
    let s1 = s.after_record_payment(auth, record);
    assert(s1.records.contains_key(record.invoice_id));
    lemma_run_keeps(s1, later);
    lemma_check_accepts_valid(again);
}

/// The count is the number of invoices that have a record: after any
/// calls from the empty ledger, `payment_count` is the number of invoice
/// identifiers for which `has_payment` holds.
pub proof fn law_count_is_number_of_recorded_invoices(ops: Seq<Op>)
    ensures
        ({
            let s = LedgerState::init().run(ops);
            let recorded = Set::new(|id: Seq<char>| s.has_payment(id));
            &&& recorded.finite()
            &&& s.payment_count() == recorded.len()
        }),
{
    let s = LedgerState::init().run(ops);
    lemma_run_consistent(LedgerState::init(), ops);
    assert(Set::new(|id: Seq<char>| s.has_payment(id)) =~= s.records.dom());
}

/// Every state that calls reach from the empty ledger is consistent.
pub proof fn law_reachable_states_are_consistent(ops: Seq<Op>)
    ensures
        LedgerState::init().run(ops).consistent(),
{
    lemma_run_consistent(LedgerState::init(), ops);
}

/// Each field rule is enforced whatever the fields checked after it hold.
/// With an admin that stands behind the call: an empty invoice identifier
/// is refused with `InvalidInvoiceId` whatever the other fields are; with
/// an invoice identifier, an amount of zero or less is refused with
/// `InvalidAmount` whatever the asset fields are; with both in order, an
/// empty asset code is refused with `InvalidAsset` whatever the issuer is,
/// and so is an issued asset without an issuer. Nothing changes.
pub proof fn law_field_rules(s: LedgerState, auth: Set<Seq<char>>, record: RecordView)
    requires
        s.admin is Some,
        auth.contains(s.admin->Some_0),
    ensures
        record.invoice_id.len() == 0 ==> s.record_payment_result(auth, record) == Err::<
            (),
            CallError,
        >(CallError::Contract(ContractError::InvalidInvoiceId)),
        record.invoice_id.len() > 0 && record.amount <= 0 ==> s.record_payment_result(auth, record)
            == Err::<(), CallError>(CallError::Contract(ContractError::InvalidAmount)),
        record.invoice_id.len() > 0 && record.amount > 0 && record.asset_code.len() == 0
            ==> s.record_payment_result(auth, record) == Err::<(), CallError>(
            CallError::Contract(ContractError::InvalidAsset),
        ),
        record.invoice_id.len() > 0 && record.amount > 0 && record.asset_code != native_asset_code()
            && record.asset_issuer.len() == 0 ==> s.record_payment_result(auth, record) == Err::<
            (),
            CallError,
        >(CallError::Contract(ContractError::InvalidAsset)),
        record.valid() && !s.has_payment(record.invoice_id) ==> s.record_payment_result(
            auth,
            record,
        ) is Ok,
{
}

/// A record that breaks a field rule is never stored: in every state and
/// whoever stands behind the call, `record_payment` fails and changes
/// nothing.
pub proof fn law_invalid_record_is_refused(
    s: LedgerState,
    auth: Set<Seq<char>>,
    record: RecordView,
)
    requires
        !record.valid(),
    ensures
        s.record_payment_result(auth, record) is Err,
        s.after_record_payment(auth, record) == s,
{
}

/// Without an admin, every operation that needs one fails with
/// `NotInitialized`, whatever it is given, and changes nothing. With an
/// admin, `initialize` fails with `AlreadyInitialized`, whoever is
/// proposed, and changes nothing.
pub proof fn law_initialization_gates(
    s: LedgerState,
    auth: Set<Seq<char>>,
    record: RecordView,
    admin: Seq<char>,
)
    ensures
        s.admin is None ==> ({
            &&& s.record_payment_result(auth, record) == Err::<(), CallError>(
                CallError::Contract(ContractError::NotInitialized),
            )
            &&& s.after_record_payment(auth, record) == s
            &&& s.set_admin_result(auth, admin) == Err::<(), CallError>(
                CallError::Contract(ContractError::NotInitialized),
            )
            &&& s.after_set_admin(auth, admin) == s
            &&& s.admin_result() == Err::<Seq<char>, ContractError>(ContractError::NotInitialized)
            &&& s.initialize_result(admin) is Ok
        }),
        s.admin is Some ==> ({
            &&& s.initialize_result(admin) == Err::<(), ContractError>(
                ContractError::AlreadyInitialized,
            )
            &&& s.after_initialize(admin) == s
        }),
{
}

/// `initialize` succeeds once: after it has succeeded, and whatever calls
/// followed, it fails with `AlreadyInitialized` for every proposed admin.
pub proof fn law_initialize_once(
    s: LedgerState,
    first: Seq<char>,
    later: Seq<Op>,
    second: Seq<char>,
)
    requires
        s.initialize_result(first) is Ok,
    ensures
        s.after_initialize(first).admin == Some(first),
        s.after_initialize(first).run(later).initialize_result(second) == Err::<(), ContractError>(
            ContractError::AlreadyInitialized,
        ),
{
    lemma_run_keeps(s.after_initialize(first), later);
}

/// An invoice has a record exactly if one of the calls so far was a
/// `record_payment` for it that succeeded.
pub proof fn lemma_recorded_exactly_when_put(ops: Seq<Op>, invoice_id: Seq<char>)
    ensures
        LedgerState::init().run(ops).has_payment(invoice_id) <==> LedgerState::init().records_during(
            ops,
            invoice_id,
        ),
    decreases ops.len(),
{
    if ops.len() > 0 {
        lemma_recorded_exactly_when_put(ops.drop_last(), invoice_id);
    }
}

/// Reads answer before any write. For an invoice that no `record_payment`
/// has recorded, `has_payment` is false and `get_payment` fails with
/// `PaymentNotFound`, after any calls from the empty ledger; in
/// particular while the ledger has no admin.
pub proof fn law_unrecorded_invoice_is_absent(ops: Seq<Op>, invoice_id: Seq<char>)
    ensures
        ({
            let s = LedgerState::init().run(ops);
            &&& !LedgerState::init().records_during(ops, invoice_id) ==> {
                &&& !s.has_payment(invoice_id)
                &&& s.get_payment_result(invoice_id) == Err::<RecordView, ContractError>(
                    ContractError::PaymentNotFound,
                )
            }
            &&& s.admin is None ==> !s.has_payment(invoice_id)
        }),
{
    lemma_recorded_exactly_when_put(ops, invoice_id);
    lemma_run_consistent(LedgerState::init(), ops);
}

/// The incoming admin consents to a rotation. `set_admin` fails and
/// changes nothing unless the new admin stands behind the call; the
/// authorization of the outgoing admin alone is refused as unauthorized.
/// With the new admin's authorization, and an admin in place, it succeeds
/// and installs the new admin.
pub proof fn law_rotation_needs_incoming_consent(
    s: LedgerState,
    auth: Set<Seq<char>>,
    new_admin: Seq<char>,
)
    ensures
        !auth.contains(new_admin) ==> s.set_admin_result(auth, new_admin) is Err
            && s.after_set_admin(auth, new_admin) == s,
        s.admin is Some && s.admin->Some_0 != new_admin && auth == Set::<Seq<char>>::empty().insert(
            s.admin->Some_0,
        ) ==> s.set_admin_result(auth, new_admin) == Err::<(), CallError>(CallError::Unauthorized),
        s.admin is Some && auth.contains(new_admin) ==> s.set_admin_result(auth, new_admin) is Ok
            && s.after_set_admin(auth, new_admin).admin == Some(new_admin),
{
}

} // verus!
