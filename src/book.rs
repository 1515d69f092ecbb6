//! The records of an open repository in memory: the current ones and those
//! last saved, each identifier at most once.
use vstd::prelude::*;

use crate::record::{Record, RecordField, RecordId};
use crate::storage::{AddRecordError, UpdateRecordError};

verus! {

/// A record as its identifier and its fields.
pub open spec fn record_view(r: Record) -> (Seq<char>, Seq<(Seq<char>, Seq<char>)>) {
    (r.spec_id(), r@)
}

/// The records of `s`, each as its identifier and fields.
pub open spec fn records_view(s: Seq<Record>) -> Seq<(Seq<char>, Seq<(Seq<char>, Seq<char>)>)> {
    s.map_values(|r: Record| record_view(r))
}

/// Whether some record of `s` has the identifier `id`.
pub open spec fn holds_id(s: Seq<(Seq<char>, Seq<(Seq<char>, Seq<char>)>)>, id: Seq<char>) -> bool {
    exists|i: int| 0 <= i < s.len() && (#[trigger] s[i]).0 == id
}

/// Whether no two records of `s` share an identifier.
pub open spec fn ids_unique(s: Seq<(Seq<char>, Seq<(Seq<char>, Seq<char>)>)>) -> bool {
    forall|i: int, j: int| 0 <= i < s.len() && 0 <= j < s.len() && i != j ==> (#[trigger] s[i]).0 != (#[trigger] s[j]).0
}

/// A copy of `record`.
fn copy_record(record: &Record) -> (r: Record)
    ensures
        record_view(r) == record_view(*record),
{
    let fields = record.get_fields();
    let mut copied: Vec<RecordField> = Vec::new();
    let mut i: usize = 0;
    while i < fields.len()
        invariant
            i <= fields@.len(),
            fields@.len() == record@.len(),
            forall|k: int| 0 <= k < fields@.len() ==> (#[trigger] fields@[k]).0@ == record@[k].0 && fields@[k].1@ == record@[k].1,
            copied@.len() == i,
            forall|k: int| 0 <= k < i ==> (#[trigger] copied@[k]).0@ == record@[k].0 && copied@[k].1@ == record@[k].1,
        decreases fields@.len() - i,
    {
        let (name, value) = fields[i];
        copied.push((name.clone(), value.clone()));
        i = i + 1;
    }
    let r = Record::with_id(record.get_id().clone(), copied);
    assert(r@ =~= record@);
    r
}

/// Copies of `records`, in order.
fn copy_records(records: &Vec<Record>) -> (r: Vec<Record>)
    ensures
        records_view(r@) == records_view(records@),
{
    let mut out: Vec<Record> = Vec::new();
    let mut i: usize = 0;
    while i < records.len()
        invariant
            i <= records@.len(),
            records_view(out@) == records_view(records@.take(i as int)),
        decreases records@.len() - i,
    {
        out.push(copy_record(&records[i]));
        assert(records_view(records@.take(i as int + 1)) =~= records_view(records@.take(i as int)).push(record_view(records@[i as int])));
        assert(records_view(out@) =~= records_view(records@.take(i as int)).push(record_view(records@[i as int])));
        i = i + 1;
    }
    assert(records@.take(records@.len() as int) =~= records@);
    out
}

/// Where the record with identifier `id` stands in `records`.
fn find(records: &Vec<Record>, id: &RecordId) -> (r: Option<usize>)
    ensures
        r is None <==> !holds_id(records_view(records@), id@),
        r is Some ==> r->0 < records@.len() && records@[r->0 as int].spec_id() == id@,
{
    let mut i: usize = 0;
    while i < records.len()
        invariant
            i <= records@.len(),
            forall|k: int| 0 <= k < i ==> (#[trigger] records@[k]).spec_id() != id@,
        decreases records@.len() - i,
    {
        if *records[i].get_id() == *id {
            assert(records_view(records@)[i as int].0 == id@);
            return Some(i);
        }
        i = i + 1;
    }
    assert forall|k: int| 0 <= k < records@.len() implies (#[trigger] records_view(records@)[k]).0 != id@ by {
        assert(records_view(records@)[k] == record_view(records@[k]));
    }
    None
}

#[derive(Debug)]
pub struct RecordsBook {
    records: Vec<Record>,
    saved_records: Vec<Record>,
}

impl Clone for RecordsBook {
    fn clone(&self) -> (r: Self)
        ensures
            r.current() == self.current(),
            r.saved() == self.saved(),
    {
        proof {
            use_type_invariant(self);
        }
        RecordsBook { records: copy_records(&self.records), saved_records: copy_records(&self.saved_records) }
    }
}

impl RecordsBook {
    /// The current records.
    pub closed spec fn current(&self) -> Seq<(Seq<char>, Seq<(Seq<char>, Seq<char>)>)> {
        records_view(self.records@)
    }

    /// The records as last saved.
    pub closed spec fn saved(&self) -> Seq<(Seq<char>, Seq<(Seq<char>, Seq<char>)>)> {
        records_view(self.saved_records@)
    }

    #[verifier::type_invariant]
    spec fn inv(&self) -> bool {
        ids_unique(records_view(self.records@)) && ids_unique(records_view(self.saved_records@))
    }

    /// A book with no records.
    pub fn new() -> (r: Self)
        ensures
            r.current() == Seq::<(Seq<char>, Seq<(Seq<char>, Seq<char>)>)>::empty(),
            r.saved() == r.current(),
    {
        let r = RecordsBook { records: Vec::new(), saved_records: Vec::new() };
        assert(r.current() =~= Seq::<(Seq<char>, Seq<(Seq<char>, Seq<char>)>)>::empty());
        r
    }

    pub fn get(&self, record_id: &RecordId) -> (r: Option<&Record>)
        ensures
            r is None <==> !holds_id(self.current(), record_id@),
            r is Some ==> r->0.spec_id() == record_id@ && self.current().contains(record_view(*r->0)),
    {
        match find(&self.records, record_id) {
            Some(i) => {
                assert(self.current()[i as int] == record_view(self.records@[i as int]));
                Some(&self.records[i])
            },
            None => None,
        }
    }

    /// The current records.
    pub fn get_records(&self) -> (r: Vec<&Record>)
        ensures
            r@.len() == self.current().len(),
            forall|i: int| 0 <= i < r@.len() ==> record_view(*(#[trigger] r@[i])) == self.current()[i],
    {
        let mut out: Vec<&Record> = Vec::new();
        let mut i: usize = 0;
        while i < self.records.len()
            invariant
                i <= self.records@.len(),
                out@.len() == i,
                forall|k: int| 0 <= k < i ==> record_view(*(#[trigger] out@[k])) == records_view(self.records@)[k],
            decreases self.records@.len() - i,
        {
            out.push(&self.records[i]);
            i = i + 1;
        }
        out
    }

    /// Adds `record`, unless a record with its identifier exists.
    pub fn add_record(&mut self, record: Record) -> (r: Result<(), AddRecordError>)
        ensures
            r is Err <==> holds_id(old(self).current(), record.spec_id()),
            r is Err ==> r->Err_0 is RecordDoesntExist && final(self).current() == old(self).current(),
            r is Ok ==> final(self).current() == old(self).current().push(record_view(record)),
            final(self).saved() == old(self).saved(),
    {
        proof {
            use_type_invariant(&*self);
        }
        if find(&self.records, record.get_id()).is_some() {
            return Err(AddRecordError::RecordDoesntExist);
        }
        let ghost before = records_view(self.records@);
        let mut taken = RecordsBook { records: Vec::new(), saved_records: Vec::new() };
        std::mem::swap(self, &mut taken);
        let RecordsBook { records, saved_records } = taken;
        let mut records = records;
        records.push(record);
        proof {
            let now = records_view(records@);
            assert(now =~= before.push(record_view(record)));
            assert forall|a: int, b: int| 0 <= a < now.len() && 0 <= b < now.len() && a != b implies (#[trigger] now[a]).0 != (#[trigger] now[b]).0 by {
                if a == before.len() {
                    assert(before[b].0 != record.spec_id());
                } else if b == before.len() {
                    assert(before[a].0 != record.spec_id());
                }
            }
        }
        *self = RecordsBook { records, saved_records };
        Ok(())
    }

    /// Deletes the record with identifier `record_id`, if there is one.
    pub fn delete(&mut self, record_id: &RecordId) -> (r: Result<(), UpdateRecordError>)
        ensures
            r is Err <==> !holds_id(old(self).current(), record_id@),
            r is Err ==> r->Err_0 is RecordDoesntExist && final(self).current() == old(self).current(),
            r is Ok ==> exists|i: int|
                0 <= i < old(self).current().len() && old(self).current()[i].0 == record_id@
                    && final(self).current() == old(self).current().remove(i),
            !holds_id(final(self).current(), record_id@),
            final(self).saved() == old(self).saved(),
    {
        proof {
            use_type_invariant(&*self);
        }
        let i = match find(&self.records, record_id) {
            Some(i) => i,
            None => {
                return Err(UpdateRecordError::RecordDoesntExist);
            },
        };
        let ghost before = records_view(self.records@);
        let mut taken = RecordsBook { records: Vec::new(), saved_records: Vec::new() };
        std::mem::swap(self, &mut taken);
        let RecordsBook { records, saved_records } = taken;
        let mut records = records;
        let ghost raw = records@;
        records.remove(i);
        proof {
            let now = records_view(records@);
            assert(now =~= before.remove(i as int));
            assert(before[i as int].0 == record_id@);
            assert forall|a: int, b: int| 0 <= a < now.len() && 0 <= b < now.len() && a != b implies (#[trigger] now[a]).0 != (#[trigger] now[b]).0 by {
                let a1 = if a < i { a } else { a + 1 };
                let b1 = if b < i { b } else { b + 1 };
                assert(now[a] == before[a1] && now[b] == before[b1]);
            }
            assert forall|k: int| 0 <= k < now.len() implies (#[trigger] now[k]).0 != record_id@ by {
                let k1 = if k < i { k } else { k + 1 };
                assert(now[k] == before[k1]);
            }
        }
        *self = RecordsBook { records, saved_records };
        Ok(())
    }

    /// Replaces the record with the identifier of `record`, which goes last.
    pub fn update(&mut self, record: Record) -> (r: Result<(), UpdateRecordError>)
        ensures
            r is Err <==> !holds_id(old(self).current(), record.spec_id()),
            r is Err ==> final(self).current() == old(self).current(),
            r is Ok ==> exists|i: int|
                0 <= i < old(self).current().len() && old(self).current()[i].0 == record.spec_id()
                    && final(self).current() == old(self).current().remove(i).push(record_view(record)),
            final(self).saved() == old(self).saved(),
    {
        let id = record.get_id().clone();
        match self.delete(&id) {
            Ok(()) => {},
            Err(err) => {
                return Err(err);
            },
        }
        match self.add_record(record) {
            Ok(()) => Ok(()),
            Err(_) => Err(UpdateRecordError::RecordDoesntExist),
        }
    }

    /// Drops the changes since the last save.
    pub fn cancel(&mut self)
        ensures
            final(self).current() == old(self).saved(),
            final(self).saved() == old(self).saved(),
    {
        proof {
            use_type_invariant(&*self);
        }
        let records = copy_records(&self.saved_records);
        let mut taken = RecordsBook { records: Vec::new(), saved_records: Vec::new() };
        std::mem::swap(self, &mut taken);
        let RecordsBook { records: _, saved_records } = taken;
        *self = RecordsBook { records, saved_records };
    }

    /// Takes the current records as saved.
    pub fn mark_saved(&mut self)
        ensures
            final(self).current() == old(self).current(),
            final(self).saved() == old(self).current(),
    {
        proof {
            use_type_invariant(&*self);
        }
        let saved_records = copy_records(&self.records);
        let mut taken = RecordsBook { records: Vec::new(), saved_records: Vec::new() };
        std::mem::swap(self, &mut taken);
        let RecordsBook { records, saved_records: _ } = taken;
        *self = RecordsBook { records, saved_records };
    }
}

} // verus!
