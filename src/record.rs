//! A stored record: an identifier and named fields, each name at most once
//! when the fields were added one by one.
use vstd::prelude::*;
use vstd::string::StringExecFns;

verus! {

pub type RecordId = String;

pub type FieldName = String;

pub type FieldValue = String;

pub type RecordField = (FieldName, FieldValue);

/// No field of the record has the name asked for.
#[derive(Debug, Clone, Copy, PartialEq, Eq, Structural)]
pub struct FieldDoesntExist;

/// A field of the record already has the name given.
#[derive(Debug, Clone, Copy, PartialEq, Eq, Structural)]
pub struct SameFieldAlreadyExist;

/// Whether `s` is a version-4 UUID in hyphenated lowercase form: 36
/// characters, hyphens at 8, 13, 18 and 23, the version digit `4` at 14,
/// lowercase hexadecimal digits elsewhere.
pub open spec fn is_uuid_v4_text(s: Seq<char>) -> bool {
    &&& s.len() == 36
    &&& forall|i: int| 0 <= i < 36 ==> {
        if i == 8 || i == 13 || i == 18 || i == 23 {
            s[i] == '-'
        } else {
            ('0' <= #[trigger] s[i] <= '9') || ('a' <= s[i] <= 'f')
        }
    }
    &&& s[14] == '4'
}

/// Relies on uuid's `Uuid::new_v4`, a random identifier with the version
/// bits set to 4, written out by its `Display` (`LowerHex`, hyphenated) as
/// 36 characters.
#[verifier::external_body]
fn fresh_record_id() -> (r: String)
    ensures
        is_uuid_v4_text(r@),
{
    uuid::Uuid::new_v4().to_string()
}

/// A record: an identifier and its fields in the order they were added.
#[derive(Debug, Clone, PartialEq)]
pub struct Record {
    pub id: RecordId,
    fields: Vec<RecordField>,
}

/// A field as text: its name and its value.
pub open spec fn field_view(f: RecordField) -> (Seq<char>, Seq<char>) {
    (f.0@, f.1@)
}

/// Whether some field of `fields` is named `name`.
pub open spec fn has_field(fields: Seq<(Seq<char>, Seq<char>)>, name: Seq<char>) -> bool {
    exists|i: int| 0 <= i < fields.len() && (#[trigger] fields[i]).0 == name
}

/// The value of the first field of `fields` named `name`.
pub open spec fn field_value(fields: Seq<(Seq<char>, Seq<char>)>, name: Seq<char>) -> Option<Seq<char>>
    decreases fields.len(),
{
    if fields.len() == 0 {
        None
    } else if fields[0].0 == name {
        Some(fields[0].1)
    } else {
        field_value(fields.drop_first(), name)
    }
}

proof fn lemma_field_value(fields: Seq<(Seq<char>, Seq<char>)>, name: Seq<char>, i: int)
    requires
        0 <= i <= fields.len(),
        forall|j: int| 0 <= j < i ==> (#[trigger] fields[j]).0 != name,
        i < fields.len() ==> fields[i].0 == name,
    ensures
        i < fields.len() ==> field_value(fields, name) == Some(fields[i].1),
        i == fields.len() ==> field_value(fields, name) is None,
    decreases i,
{
    if fields.len() > 0 && i > 0 {
        let rest = fields.drop_first();
        assert forall|j: int| 0 <= j < i - 1 implies (#[trigger] rest[j]).0 != name by {
            assert(rest[j] == fields[j + 1]);
        }
        lemma_field_value(rest, name, i - 1);
        assert(fields[0].0 != name);
    }
}

impl View for Record {
    /// The fields, in order.
    type V = Seq<(Seq<char>, Seq<char>)>;

    closed spec fn view(&self) -> Seq<(Seq<char>, Seq<char>)> {
        self.fields@.map_values(|f: RecordField| field_view(f))
    }
}

impl Record {
    /// The identifier.
    pub closed spec fn spec_id(&self) -> Seq<char> {
        self.id@
    }

    /// A record with `fields` and a fresh random identifier.
    pub fn new(fields: Vec<RecordField>) -> (r: Record)
        ensures
            r@ == fields@.map_values(|f: RecordField| field_view(f)),
            is_uuid_v4_text(r.spec_id()),
    {
        Record { id: fresh_record_id(), fields }
    }

    pub fn get_id(&self) -> (r: &RecordId)
        ensures
            r@ == self.spec_id(),
    {
        &self.id
    }

    /// A record with the identifier `id` and `fields`, as read back from
    /// storage.
    pub fn with_id(id: RecordId, fields: Vec<RecordField>) -> (r: Record)
        ensures
            r.spec_id() == id@,
            r@ == fields@.map_values(|f: RecordField| field_view(f)),
    {
        Record { id, fields }
    }

    /// Where the field named `name` stands: the first such field.
    fn position(&self, name: &FieldName) -> (r: Option<usize>)
        ensures
            r is None <==> !has_field(self@, name@),
            r is Some ==> r->0 < self@.len() && self@[r->0 as int].0 == name@
                && forall|j: int| 0 <= j < r->0 ==> (#[trigger] self@[j]).0 != name@,
    {
        let mut i: usize = 0;
        while i < self.fields.len()
            invariant
                i <= self.fields@.len(),
                forall|j: int| 0 <= j < i ==> (#[trigger] self@[j]).0 != name@,
            decreases self.fields@.len() - i,
        {
            if self.fields[i].0 == *name {
                assert(self@[i as int].0 == name@);
                return Some(i);
            }
            i = i + 1;
        }
        None
    }

    /// Adds a field at the end, unless one with the same name exists.
    pub fn add_field(&mut self, field_name: FieldName, field_value: FieldValue) -> (r: Result<(), SameFieldAlreadyExist>)
        ensures
            r is Err <==> has_field(old(self)@, field_name@),
            r is Ok ==> final(self)@ == old(self)@.push((field_name@, field_value@)),
            r is Err ==> final(self)@ == old(self)@,
            final(self).spec_id() == old(self).spec_id(),
    {
        match self.position(&field_name) {
            Some(_) => Err(SameFieldAlreadyExist),
            None => {
                self.fields.push((field_name, field_value));
                assert(self@ =~= old(self)@.push((field_name@, field_value@)));
                Ok(())
            },
        }
    }

    /// The fields, in order, each as its name and its value.
    pub fn get_fields(&self) -> (r: Vec<(&FieldName, &FieldValue)>)
        ensures
            r@.len() == self@.len(),
            forall|i: int| 0 <= i < r@.len() ==> (#[trigger] r@[i]).0@ == self@[i].0 && r@[i].1@ == self@[i].1,
    {
        let mut out: Vec<(&FieldName, &FieldValue)> = Vec::new();
        let mut i: usize = 0;
        while i < self.fields.len()
            invariant
                i <= self.fields@.len(),
                out@.len() == i,
                forall|j: int| 0 <= j < i ==> (#[trigger] out@[j]).0@ == self@[j].0 && out@[j].1@ == self@[j].1,
            decreases self.fields@.len() - i,
        {
            let field = &self.fields[i];
            out.push((&field.0, &field.1));
            i = i + 1;
        }
        out
    }

    /// The value of the first field named `name`, if any.
    pub fn get_field_value(&self, name: &str) -> (r: Option<String>)
        ensures
            r is None <==> !has_field(self@, name@),
            r is None <==> field_value(self@, name@) is None,
            r is Some ==> field_value(self@, name@) == Some(r->0@),
            r is Some ==> exists|i: int|
                0 <= i < self@.len() && self@[i] == (name@, r->0@)
                    && forall|j: int| 0 <= j < i ==> (#[trigger] self@[j]).0 != name@,
    {
        let key = String::from_str(name);
        match self.position(&key) {
            Some(i) => {
                proof {
                    lemma_field_value(self@, name@, i as int);
                }
                Some(self.fields[i].1.clone())
            },
            None => {
                proof {
                    assert forall|j: int| 0 <= j < self@.len() implies (#[trigger] self@[j]).0 != name@ by {}
                    lemma_field_value(self@, name@, self@.len() as int);
                }
                None
            },
        }
    }

    /// Sets the value of the field named `field_name`, if there is one.
    pub fn update_field(&mut self, field_name: FieldName, field_value: FieldValue) -> (r: Result<(), FieldDoesntExist>)
        ensures
            r is Err <==> !has_field(old(self)@, field_name@),
            r is Err ==> final(self)@ == old(self)@,
            r is Ok ==> exists|i: int|
                0 <= i < old(self)@.len() && old(self)@[i].0 == field_name@
                    && (forall|j: int| 0 <= j < i ==> (#[trigger] old(self)@[j]).0 != field_name@)
                    && final(self)@ == old(self)@.update(i, (field_name@, field_value@)),
            final(self).spec_id() == old(self).spec_id(),
    {
        match self.position(&field_name) {
            Some(i) => {
                let ghost name = field_name@;
                let ghost value = field_value@;
                self.fields.set(i, (field_name, field_value));
                assert(self@ =~= old(self)@.update(i as int, (name, value)));
                Ok(())
            },
            None => Err(FieldDoesntExist),
        }
    }
}

} // verus!
