//! The record store: payment records by invoice identifier, and their count.

use vstd::prelude::*;
use crate::errors::ContractError;
use crate::model::RecordView;
use crate::record::PaymentRecord;

verus! {

/// The records of `records` by invoice identifier; of two records with one
/// identifier the later one counts.
pub open spec fn records_by_id(records: Seq<PaymentRecord>) -> Map<Seq<char>, RecordView>
    decreases records.len(),
{
    if records.len() == 0 {
        Map::empty()
    } else {
        records_by_id(records.drop_last()).insert(records.last()@.invoice_id, records.last()@)
    }
}

/// No two records of `records` share an invoice identifier.
pub open spec fn distinct_ids(records: Seq<PaymentRecord>) -> bool {
    forall|i: int, j: int|
        0 <= i < j < records.len() ==> #[trigger] records[i]@.invoice_id
            != #[trigger] records[j]@.invoice_id
}

/// An identifier is a key of `records_by_id` exactly if some record carries it.
pub proof fn lemma_keys_are_ids(records: Seq<PaymentRecord>, id: Seq<char>)
    ensures
        records_by_id(records).dom().finite(),
        records_by_id(records).contains_key(id) <==> exists|i: int|
            0 <= i < records.len() && #[trigger] records[i]@.invoice_id == id,
    decreases records.len(),
{
    if records.len() > 0 {
        let front = records.drop_last();
        lemma_keys_are_ids(front, id);
        if records_by_id(front).contains_key(id) {
            let i = choose|i: int| 0 <= i < front.len() && #[trigger] front[i]@.invoice_id == id;
            assert(records[i]@.invoice_id == id);
        }
        if records.last()@.invoice_id == id {
            assert(records[records.len() - 1]@.invoice_id == id);
        }
        if exists|i: int| 0 <= i < records.len() && #[trigger] records[i]@.invoice_id == id {
            let i = choose|i: int| 0 <= i < records.len() && #[trigger] records[i]@.invoice_id == id;
            if i < front.len() {
                assert(front[i]@.invoice_id == id);
            }
        }
    }
}

/// Where identifiers are distinct, each record is found under its own
/// identifier, and there are as many keys as records.
pub proof fn lemma_distinct_records(records: Seq<PaymentRecord>)
    requires
        distinct_ids(records),
    ensures
        records_by_id(records).dom().len() == records.len(),
        forall|i: int|
            0 <= i < records.len() ==> records_by_id(records)[#[trigger] records[i]@.invoice_id]
                == records[i]@,
    decreases records.len(),
{
    if records.len() > 0 {
        let front = records.drop_last();
        let last = records.last();
        assert(distinct_ids(front)) by {
            assert forall|i: int, j: int| 0 <= i < j < front.len() implies #[trigger] front[i]@.invoice_id
                != #[trigger] front[j]@.invoice_id by {
                assert(records[i]@.invoice_id != records[j]@.invoice_id);
            }
        }
        lemma_distinct_records(front);
        lemma_keys_are_ids(front, last@.invoice_id);
        assert(!records_by_id(front).contains_key(last@.invoice_id)) by {
            if records_by_id(front).contains_key(last@.invoice_id) {
                let i = choose|i: int|
                    0 <= i < front.len() && #[trigger] front[i]@.invoice_id == last@.invoice_id;
                assert(records[i]@.invoice_id != records[records.len() - 1]@.invoice_id);
            }
        }
        assert forall|i: int| 0 <= i < records.len() implies records_by_id(records)[#[trigger] records[i]@.invoice_id]
            == records[i]@ by {
            if i < front.len() {
                assert(front[i]@.invoice_id == records[i]@.invoice_id);
                assert(records[i]@.invoice_id != records[records.len() - 1]@.invoice_id);
            }
        }
    }
}

/// Whether no two records of `records` share an invoice identifier.
fn all_distinct(records: &Vec<PaymentRecord>) -> (distinct: bool)
    ensures
        distinct == distinct_ids(records@),
{
    let mut j: usize = 0;
    while j < records.len()
        invariant
            j <= records@.len(),
            forall|a: int, b: int|
                0 <= a < b < j ==> #[trigger] records@[a]@.invoice_id
                    != #[trigger] records@[b]@.invoice_id,
        decreases records@.len() - j,
    {
        let mut i: usize = 0;
        while i < j
            invariant
                i <= j < records@.len(),
                forall|a: int| 0 <= a < i ==> #[trigger] records@[a]@.invoice_id != records@[j as int]@.invoice_id,
            decreases j - i,
        {
            if records[i].invoice_id == records[j].invoice_id {
                assert(records@[i as int]@.invoice_id == records@[j as int]@.invoice_id);
                return false;
            }
            i = i + 1;
        }
        j = j + 1;
    }
    true
}

/// Payment records by invoice identifier, each identifier at most once,
/// together with the number of records.
#[derive(Debug)]
pub struct RecordStore {
    records: Vec<PaymentRecord>,
    count: u64,
}

impl View for RecordStore {
    type V = Map<Seq<char>, RecordView>;

    closed spec fn view(&self) -> Map<Seq<char>, RecordView> {
        records_by_id(self.records@)
    }
}

impl RecordStore {
    #[verifier::type_invariant]
    spec fn well_formed(&self) -> bool {
        &&& distinct_ids(self.records@)
        &&& self.count == self.records@.len()
    }

    /// The stored count of records.
    pub closed spec fn spec_count(&self) -> nat {
        self.count as nat
    }

    /// The empty store.
    pub fn new() -> (store: RecordStore)
        ensures
            store@ == Map::<Seq<char>, RecordView>::empty(),
            store.spec_count() == 0,
    {
        RecordStore { records: Vec::new(), count: 0 }
    }

    /// The store that holds `records`, if no two of them share an invoice
    /// identifier.
    pub fn from_records(records: Vec<PaymentRecord>) -> (res: Option<RecordStore>)
        ensures
            res is Some <==> distinct_ids(records@),
            res matches Some(store) ==> ({
                &&& store@ == records_by_id(records@)
                &&& store@.dom().finite()
                &&& store.spec_count() == records@.len()
                &&& store.spec_count() == store@.dom().len()
            }),
    {
        if !all_distinct(&records) {
            return None;
        }
        let n: usize = records.len();
        proof {
            lemma_distinct_records(records@);
            lemma_keys_are_ids(records@, Seq::empty());
        }
        Some(RecordStore { records, count: n as u64 })
    }

    /// Copies of all records.
    pub fn records(&self) -> (out: Vec<PaymentRecord>)
        ensures
            distinct_ids(out@),
            records_by_id(out@) == self@,
            out@.len() == self.spec_count(),
    {
        proof {
            use_type_invariant(self);
        }
        let mut out: Vec<PaymentRecord> = Vec::new();
        let mut i: usize = 0;
        while i < self.records.len()
            invariant
                i <= self.records@.len(),
                out@ == self.records@.subrange(0, i as int),
            decreases self.records@.len() - i,
        {
            out.push(self.records[i].clone());
            assert(out@ =~= self.records@.subrange(0, i + 1));
            i = i + 1;
        }
        assert(out@ =~= self.records@);
        out
    }

    /// The position of the record of `invoice_id`, if there is one.
    fn position(&self, invoice_id: &String) -> (found: Option<usize>)
        ensures
            (match found {
                Some(i) => i < self.records@.len() && self.records@[i as int]@.invoice_id
                    == invoice_id@,
                None => forall|i: int|
                    0 <= i < self.records@.len() ==> #[trigger] self.records@[i]@.invoice_id
                        != invoice_id@,
            }),
    {
        let mut i: usize = 0;
        while i < self.records.len()
            invariant
                i <= self.records@.len(),
                forall|k: int| 0 <= k < i ==> #[trigger] self.records@[k]@.invoice_id != invoice_id@,
            decreases self.records@.len() - i,
        {
            if self.records[i].invoice_id == *invoice_id {
                return Some(i);
            }
            i = i + 1;
        }
        None
    }

    /// Stores `record` unless its invoice already has one. The record and
    /// the count change together or not at all.
    pub fn put_if_absent(&mut self, record: PaymentRecord) -> (res: Result<(), ContractError>)
        ensures
            old(self)@.contains_key(record@.invoice_id) ==> ({
                &&& res == Err::<(), ContractError>(ContractError::PaymentAlreadyRecorded)
                &&& final(self)@ == old(self)@
                &&& final(self).spec_count() == old(self).spec_count()
            }),
            !old(self)@.contains_key(record@.invoice_id) ==> ({
                &&& res == Ok::<(), ContractError>(())
                &&& final(self)@ == old(self)@.insert(record@.invoice_id, record@)
                &&& final(self).spec_count() == old(self).spec_count() + 1
            }),
            final(self)@.dom().finite(),
            final(self).spec_count() == final(self)@.dom().len(),
    {
        proof {
            use_type_invariant(&*self);
            lemma_keys_are_ids(self.records@, record@.invoice_id);
            lemma_distinct_records(self.records@);
        }
        if self.position(&record.invoice_id).is_some() {
            return Err(ContractError::PaymentAlreadyRecorded);
        }
        // The store is taken out whole and put back whole: the record and
        // the count are never seen one without the other.
        let mut taken = RecordStore::new();
        core::mem::swap(self, &mut taken);
        let RecordStore { records, count } = taken;
        let ghost before = records@;
        let mut records = records;
        records.push(record);
        assert(records@.drop_last() == before);
        assert(count + 1 == records.len() <= u64::MAX);
        *self = RecordStore { records, count: count + 1 };
        Ok(())
    }

    /// A copy of the record of `invoice_id`.
    pub fn get(&self, invoice_id: &String) -> (res: Result<PaymentRecord, ContractError>)
        ensures
            (match res {
                Ok(record) => self@.contains_key(invoice_id@) && record@ == self@[invoice_id@],
                Err(e) => !self@.contains_key(invoice_id@) && e == ContractError::PaymentNotFound,
            }),
    {
        proof {
            use_type_invariant(self);
            lemma_keys_are_ids(self.records@, invoice_id@);
            lemma_distinct_records(self.records@);
        }
        match self.position(invoice_id) {
            Some(i) => Ok(self.records[i].clone()),
            None => Err(ContractError::PaymentNotFound),
        }
    }

    /// Whether `invoice_id` has a record.
    pub fn contains(&self, invoice_id: &String) -> (found: bool)
        ensures
            found == self@.contains_key(invoice_id@),
    {
        proof {
            lemma_keys_are_ids(self.records@, invoice_id@);
        }
        self.position(invoice_id).is_some()
    }

    /// The number of records.
    pub fn count(&self) -> (n: u64)
        ensures
            n == self.spec_count(),
            n == self@.dom().len(),
            self@.dom().finite(),
    {
        proof {
            use_type_invariant(self);
            lemma_distinct_records(self.records@);
            lemma_keys_are_ids(self.records@, Seq::empty());
        }
        self.count
    }
}

} // verus!
