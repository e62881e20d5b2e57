//! The ledger service: the public operations, in terms of the admin
//! registry and the record store.

use vstd::prelude::*;
use crate::admin::AdminRegistry;
use crate::auth::Authorization;
use crate::errors::CallError;
use crate::errors::ContractError;
use crate::events::emit_payment_recorded;
use crate::events::event_views;
use crate::events::payment_recorded_event;
use crate::events::PaymentEvent;
use crate::identity::Identity;
use crate::model::LedgerState;
use crate::model::RecordView;
use crate::record::PaymentRecord;
use crate::store::distinct_ids;
use crate::store::lemma_distinct_records;
use crate::store::lemma_keys_are_ids;
use crate::store::records_by_id;
use crate::store::RecordStore;

verus! {

/// One ledger: its admin, its records and their count.
///
/// Every operation either takes full effect or leaves the ledger as it
/// was. A stored record is valid and is never changed or removed, and no
/// record is stored before the ledger has an admin.
#[derive(Debug)]
pub struct Ledger {
    registry: AdminRegistry,
    store: RecordStore,
}

impl View for Ledger {
    type V = LedgerState;

    closed spec fn view(&self) -> LedgerState {
        LedgerState {
            admin: self.registry@,
            records: self.store@,
            count: self.store.spec_count(),
        }
    }
}

/// The name of the admin, if there is one.
pub open spec fn admin_name(admin: Option<Identity>) -> Option<Seq<char>> {
    match admin {
        Some(a) => Some(a@),
        None => None,
    }
}

/// Whether three persisted entries make a ledger.
pub open spec fn restorable(admin: Option<Identity>, records: Seq<PaymentRecord>, count: u64) -> bool {
    &&& distinct_ids(records)
    &&& forall|i: int| 0 <= i < records.len() ==> (#[trigger] records[i])@.valid()
    &&& count == records.len()
    &&& admin is None ==> records.len() == 0
}

/// Where every record of `records` is valid, so is every record that is
/// found by its invoice identifier, and it is found under its own.
pub proof fn lemma_valid_records(records: Seq<PaymentRecord>)
    requires
        forall|i: int| 0 <= i < records.len() ==> (#[trigger] records[i])@.valid(),
    ensures
        forall|id: Seq<char>| #[trigger]
            records_by_id(records).contains_key(id) ==> records_by_id(records)[id].valid()
                && records_by_id(records)[id].invoice_id == id,
        records.len() == 0 ==> records_by_id(records) == Map::<Seq<char>, RecordView>::empty(),
    decreases records.len(),
{
    if records.len() > 0 {
        let front = records.drop_last();
        assert forall|i: int| 0 <= i < front.len() implies (#[trigger] front[i])@.valid() by {
            assert(records[i]@.valid());
        }
        lemma_valid_records(front);
        let last = records[records.len() - 1]@;
        assert(last.valid());
        assert forall|id: Seq<char>| #[trigger]
            records_by_id(records).contains_key(id) implies records_by_id(records)[id].valid()
            && records_by_id(records)[id].invoice_id == id by {
            if id != last.invoice_id {
                assert(records_by_id(front).contains_key(id));
            }
        }
    }
}

/// Whether every record of `records` is valid.
fn all_valid(records: &Vec<PaymentRecord>) -> (valid: bool)
    ensures
        valid == forall|i: int| 0 <= i < records@.len() ==> (#[trigger] records@[i])@.valid(),
{
    let mut i: usize = 0;
    while i < records.len()
        invariant
            i <= records@.len(),
            forall|k: int| 0 <= k < i ==> (#[trigger] records@[k])@.valid(),
        decreases records@.len() - i,
    {
        if records[i].validate().is_err() {
            assert(!records@[i as int]@.valid());
            return false;
        }
        i = i + 1;
    }
    true
}

impl Ledger {
    #[verifier::type_invariant]
    spec fn well_formed(&self) -> bool {
        self@.consistent()
    }

    /// A ledger with no admin and no records.
    pub fn new() -> (ledger: Ledger)
        ensures
            ledger@ == LedgerState::init(),
            ledger@.consistent(),
    {
        Ledger { registry: AdminRegistry::new(), store: RecordStore::new() }
    }

    /// The ledger that was persisted as the three entries `admin`,
    /// `records` and `count`, if they fit together: no two records share
    /// an invoice identifier, every record is valid, `count` is their
    /// number, and there are records only where there is an admin.
    pub fn restore(admin: Option<Identity>, records: Vec<PaymentRecord>, count: u64) -> (res:
        Option<Ledger>)
        ensures
            res is Some <==> restorable(admin, records@, count),
            res matches Some(ledger) ==> ({
                &&& ledger@.admin == admin_name(admin)
                &&& ledger@.records == records_by_id(records@)
                &&& ledger@.count == count
                &&& ledger@.consistent()
            }),
    {
        if admin.is_none() && records.len() > 0 {
            return None;
        }
        if records.len() as u64 != count {
            return None;
        }
        if !all_valid(&records) {
            return None;
        }
        proof {
            lemma_valid_records(records@);
        }
        match RecordStore::from_records(records) {
            Some(store) => Some(Ledger { registry: AdminRegistry::with_admin(admin), store }),
            None => None,
        }
    }

    /// Copies of all records: with `admin` and `payment_count`, what
    /// `restore` takes.
    pub fn records(&self) -> (out: Vec<PaymentRecord>)
        ensures
            distinct_ids(out@),
            forall|i: int| 0 <= i < out@.len() ==> (#[trigger] out@[i])@.valid(),
            records_by_id(out@) == self@.records,
            out@.len() == self@.count,
            self@.consistent(),
    {
        proof {
            use_type_invariant(self);
        }
        let out = self.store.records();
        proof {
            lemma_distinct_records(out@);
            assert forall|i: int| 0 <= i < out@.len() implies (#[trigger] out@[i])@.valid() by {
                lemma_keys_are_ids(out@, out@[i]@.invoice_id);
            }
        }
        out
    }

    /// Sets the first admin. Fails with `AlreadyInitialized` once an admin
    /// is set, whoever is proposed.
    pub fn initialize(&mut self, admin: Identity) -> (res: Result<(), ContractError>)
        ensures
            res == old(self)@.initialize_result(admin@),
            final(self)@ == old(self)@.after_initialize(admin@),
            final(self)@.consistent(),
    {
        proof {
            use_type_invariant(&*self);
        }
        if self.registry.is_initialized() {
            return Err(ContractError::AlreadyInitialized);
        }
        let mut taken = Ledger::new();
        core::mem::swap(self, &mut taken);
        let Ledger { registry, store } = taken;
        let mut registry = registry;
        let res = registry.initialize(admin);
        *self = Ledger { registry, store };
        res
    }

    /// Records that an invoice was paid.
    ///
    /// The current admin must stand behind the call; the payer is data.
    /// The fields are checked in a fixed order (invoice identifier, amount,
    /// asset code, issuer of an issued asset) and the first broken rule is
    /// reported. An invoice that already has a record is refused. On
    /// success the record is stored, the count goes up by one, and the
    /// record is announced in `events`. A native asset that comes with an
    /// issuer is accepted and stored as given.
    pub fn record_payment(
        &mut self,
        auth: &Authorization,
        events: &mut Vec<PaymentEvent>,
        invoice_id: String,
        payer: Identity,
        asset_code: String,
        asset_issuer: String,
        amount: i128,
    ) -> (res: Result<(), CallError>)
        ensures
            res == old(self)@.record_payment_result(
                auth@,
                RecordView::of(invoice_id@, payer@, asset_code@, asset_issuer@, amount as int),
            ),
            final(self)@ == old(self)@.after_record_payment(
                auth@,
                RecordView::of(invoice_id@, payer@, asset_code@, asset_issuer@, amount as int),
            ),
            res is Ok ==> event_views(final(events)@) == event_views(old(events)@).push(
                payment_recorded_event(
                    RecordView::of(invoice_id@, payer@, asset_code@, asset_issuer@, amount as int),
                ),
            ),
            res is Err ==> final(events)@ == old(events)@,
            final(self)@.consistent(),
    {
        proof {
            use_type_invariant(&*self);
        }
        let admin = match self.registry.current_admin() {
            Ok(admin) => admin,
            Err(e) => {
                return Err(CallError::Contract(e));
            },
        };
        if !auth.includes(&admin) {
            return Err(CallError::Unauthorized);
        }
        let record = PaymentRecord { invoice_id, payer, asset_code, asset_issuer, amount };
        match record.validate() {
            Ok(()) => {},
            Err(e) => {
                return Err(CallError::Contract(e));
            },
        }
        let announced = record.clone();
        // The ledger is taken apart and put together again, so that it is
        // never seen between two states.
        let mut taken = Ledger::new();
        core::mem::swap(self, &mut taken);
        let Ledger { registry, store } = taken;
        let mut store = store;
        let stored = store.put_if_absent(record);
        *self = Ledger { registry, store };
        match stored {
            Ok(()) => {
                emit_payment_recorded(events, announced);
                Ok(())
            },
            Err(e) => Err(CallError::Contract(e)),
        }
    }

    /// The record of `invoice_id`. Anybody may ask.
    pub fn get_payment(&self, invoice_id: &String) -> (res: Result<PaymentRecord, ContractError>)
        ensures
            (match res {
                Ok(record) => self@.get_payment_result(invoice_id@) == Ok::<
                    RecordView,
                    ContractError,
                >(record@) && record@.valid() && record@.invoice_id == invoice_id@,
                Err(e) => self@.get_payment_result(invoice_id@) == Err::<RecordView, ContractError>(
                    e,
                ),
            }),
    {
        proof {
            use_type_invariant(self);
        }
        self.store.get(invoice_id)
    }

    /// Whether `invoice_id` has a record. Anybody may ask, also before the
    /// ledger has an admin, when the answer is no.
    pub fn has_payment(&self, invoice_id: &String) -> (found: bool)
        ensures
            found == self@.has_payment(invoice_id@),
            self@.admin is None ==> !found,
            self@.consistent(),
    {
        proof {
            use_type_invariant(self);
        }
        self.store.contains(invoice_id)
    }

    /// The number of recorded payments, which is the number of invoices
    /// that have a record.
    pub fn payment_count(&self) -> (n: u64)
        ensures
            n == self@.payment_count(),
            n == self@.records.dom().len(),
            self@.consistent(),
    {
        proof {
            use_type_invariant(self);
        }
        self.store.count()
    }

    /// The current admin.
    pub fn admin(&self) -> (res: Result<Identity, ContractError>)
        ensures
            (match res {
                Ok(admin) => self@.admin_result() == Ok::<Seq<char>, ContractError>(admin@),
                Err(e) => self@.admin_result() == Err::<Seq<char>, ContractError>(e),
            }),
    {
        self.registry.current_admin()
    }

    /// Replaces the admin by `new_admin`, who must stand behind the call.
    /// The authorization of the outgoing admin neither is needed nor is
    /// enough.
    pub fn set_admin(&mut self, auth: &Authorization, new_admin: Identity) -> (res: Result<
        (),
        CallError,
    >)
        ensures
            res == old(self)@.set_admin_result(auth@, new_admin@),
            final(self)@ == old(self)@.after_set_admin(auth@, new_admin@),
            final(self)@.consistent(),
    {
        proof {
            use_type_invariant(&*self);
        }
        if !self.registry.is_initialized() {
            return Err(CallError::Contract(ContractError::NotInitialized));
        }
        if !auth.includes(&new_admin) {
            return Err(CallError::Unauthorized);
        }
        let mut taken = Ledger::new();
        core::mem::swap(self, &mut taken);
        let Ledger { registry, store } = taken;
        let mut registry = registry;
        let res = registry.rotate(auth, new_admin);
        *self = Ledger { registry, store };
        res
    }
}

} // verus!
