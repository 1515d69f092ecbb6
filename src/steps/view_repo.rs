//! Shows the records of an open repository as buttons.
use vstd::prelude::*;
use vstd::string::{StringExecFns, StringSliceAdditionalSpecFns};

use std::cmp::Ordering;
use vstd::utf8::encode_utf8;

use crate::controller::DialContext;
use crate::dialogues::{has_control, ButtonPayload, CtxResult, Message, MessageId, OutgoingDocument, OutgoingMessage, Select};
use crate::record::Record;
use crate::steps::fields::RECORD_NAME_FIELD;
use crate::steps::hello::button;
use crate::steps::{default_commands_handler, is_reset, is_text, SentMessages, StepError, StepFactory, BACKUP_COMMAND};
use crate::storage::RecordsRepository;

verus! {

pub const CLOSE_REPO: &'static str = "CLOSE_REPO";

pub const ADD_RECORD: &'static str = "ADD_RECORD";

/// Whether `a` comes before `b` or equals it, comparing byte by byte: the
/// order of `str`.
pub open spec fn bytes_le(a: Seq<u8>, b: Seq<u8>) -> bool
    decreases a.len(),
{
    if a.len() == 0 {
        true
    } else if b.len() == 0 {
        false
    } else if a[0] != b[0] {
        a[0] < b[0]
    } else {
        bytes_le(a.drop_first(), b.drop_first())
    }
}

/// The label of the first button of a row, as bytes.
pub open spec fn row_label(row: Vec<(ButtonPayload, String)>) -> Seq<u8> {
    encode_utf8(row@[0].1@)
}

/// Orders two strings by their bytes.
fn compare_bytes(a: &str, b: &str) -> (r: Ordering)
    ensures
        (r is Less || r is Equal) <==> bytes_le(a.spec_bytes(), b.spec_bytes()),
        r is Equal <==> a.spec_bytes() == b.spec_bytes(),
{
    let x = a.as_bytes();
    let y = b.as_bytes();
    let mut i: usize = 0;
    assert(x@.subrange(0, x@.len() as int) =~= x@);
    assert(y@.subrange(0, y@.len() as int) =~= y@);
    while i < x.len() && i < y.len()
        invariant
            x@ == a.spec_bytes(),
            y@ == b.spec_bytes(),
            i <= x@.len(),
            i <= y@.len(),
            x@.subrange(0, i as int) == y@.subrange(0, i as int),
            bytes_le(x@, y@) == bytes_le(x@.subrange(i as int, x@.len() as int), y@.subrange(i as int, y@.len() as int)),
        decreases x@.len() - i,
    {
        let ghost xs = x@.subrange(i as int, x@.len() as int);
        let ghost ys = y@.subrange(i as int, y@.len() as int);
        assert(xs[0] == x@[i as int] && ys[0] == y@[i as int]);
        if x[i] != y[i] {
            proof {
                assert(x@[i as int] != y@[i as int]);
                assert(x@ != y@);
            }
            return if x[i] < y[i] {
                Ordering::Less
            } else {
                Ordering::Greater
            };
        }
        assert(xs.drop_first() =~= x@.subrange(i + 1, x@.len() as int));
        assert(ys.drop_first() =~= y@.subrange(i + 1, y@.len() as int));
        assert(x@.subrange(0, i + 1) =~= x@.subrange(0, i as int).push(x@[i as int]));
        assert(y@.subrange(0, i + 1) =~= y@.subrange(0, i as int).push(y@[i as int]));
        i = i + 1;
    }
    if x.len() == y.len() {
        assert(x@ =~= x@.subrange(0, i as int));
        assert(y@ =~= y@.subrange(0, i as int));
        Ordering::Equal
    } else if x.len() < y.len() {
        assert(x@.len() != y@.len());
        Ordering::Less
    } else {
        assert(x@.len() != y@.len());
        Ordering::Greater
    }
}

/// Orders two keyboard rows by the label of their first button.
fn compare_rows(a: &Vec<(ButtonPayload, String)>, b: &Vec<(ButtonPayload, String)>) -> (r: Ordering)
    requires
        a@.len() > 0,
        b@.len() > 0,
    ensures
        (r is Less || r is Equal) <==> bytes_le(row_label(*a), row_label(*b)),
{
    compare_bytes(a[0].1.as_str(), b[0].1.as_str())
}

/// Relies on `slice::sort_by`: a stable sort, so a permutation, which puts
/// the rows in the order the comparator gives, a total order here.
#[verifier::external_body]
fn sort_rows_by_label(rows: &mut Vec<Vec<(ButtonPayload, String)>>)
    requires
        forall|i: int| 0 <= i < old(rows)@.len() ==> (#[trigger] old(rows)@[i])@.len() > 0,
    ensures
        final(rows)@.to_multiset() == old(rows)@.to_multiset(),
        forall|i: int, j: int|
            0 <= i < j < final(rows)@.len() ==> bytes_le(row_label(#[trigger] final(rows)@[i]), row_label(#[trigger] final(rows)@[j])),
{
    rows.sort_by(|a, b| compare_rows(a, b))
}

pub struct ViewRepoDialog<T> {
    repo: T,
    sent_msg_ids: SentMessages,
}

impl<T> ViewRepoDialog<T> {
    /// The ids of the messages of this step that were delivered.
    pub closed spec fn sent(&self) -> Seq<MessageId> {
        self.sent_msg_ids@
    }

    pub fn new(repo: T) -> (r: Self)
        ensures
            r.sent() == Seq::<MessageId>::empty(),
    {
        ViewRepoDialog { repo, sent_msg_ids: SentMessages::new() }
    }
}

impl<T: RecordsRepository> ViewRepoDialog<T> {
    /// A keyboard with one button per record, by name, then the buttons to
    /// add a record and to close the repository; its text gives the number
    /// of records.
    pub fn init<C>(&mut self) -> (r: Result<Vec<CtxResult<C>>, StepError>)
        ensures
            r is Ok ==> r->Ok_0@.len() == 1 && r->Ok_0@[0] is Buttons && r->Ok_0@[0]->Buttons_1@.len() >= 2,
    {
        let records = match self.repo.get_records() {
            Ok(records) => records,
            Err(err) => {
                return Err(StepError::Storage(err));
            },
        };
        let mut rows: Vec<Vec<(ButtonPayload, String)>> = Vec::new();
        let mut i: usize = 0;
        while i < records.len()
            invariant
                i <= records@.len(),
                rows@.len() == i,
                forall|j: int| 0 <= j < rows@.len() ==> (#[trigger] rows@[j])@.len() == 1,
            decreases records@.len() - i,
        {
            let record: &Record = records[i];
            let name = match record.get_field_value(RECORD_NAME_FIELD) {
                Some(name) => name,
                None => String::from_str("-"),
            };
            rows.push(vec![(ButtonPayload(record.get_id().clone()), name)]);
            i = i + 1;
        }
        sort_rows_by_label(&mut rows);
        let count = rows.len();
        rows.push(vec![button(ADD_RECORD, "Добавить запись 🗒")]);
        rows.push(vec![button(CLOSE_REPO, "Закрыть репозиторий 🚪")]);
        let mut title = String::from_str("Количество записей: ");
        title.append(count.to_string().as_str());
        Ok(vec![CtxResult::Buttons(OutgoingMessage::plain(title), rows)])
    }

    /// Removes the messages of this step.
    pub fn shutdown<C>(&mut self) -> (r: Result<Vec<CtxResult<C>>, StepError>)
        ensures
            r is Ok,
            r->Ok_0@.len() == 1,
            r->Ok_0@[0] is RemoveMessages,
            r->Ok_0@[0]->RemoveMessages_0@ == old(self).sent(),
            final(self).sent() == Seq::<MessageId>::empty(),
    {
        Ok(vec![CtxResult::RemoveMessages(self.sent_msg_ids.drain())])
    }

    /// Closing ends the conversation; adding a record and pressing a record
    /// that exists hand control to the matching step.
    pub fn handle_select<F, C: StepFactory<F, T>>(&mut self, select: Select) -> (r: Result<Vec<CtxResult<C>>, StepError>)
        ensures
            r is Ok ==> r->Ok_0@.len() == 1,
            select.data is None ==> r is Ok && r->Ok_0@[0] is Nothing,
            select.data is Some && select.data->0@ == CLOSE_REPO@ ==> r is Ok && r->Ok_0@[0] is CloseCtx,
            select.data is Some && select.data->0@ == ADD_RECORD@ ==> r is Ok && r->Ok_0@[0] is NewCtx,
            r is Ok && r->Ok_0@[0] is CloseCtx ==> select.data is Some && select.data->0@ == CLOSE_REPO@,
    {
        proof {
            reveal_strlit("CLOSE_REPO");
            reveal_strlit("ADD_RECORD");
            assert(CLOSE_REPO@ == "CLOSE_REPO"@ && "CLOSE_REPO"@[0] == 'C');
            assert(ADD_RECORD@ == "ADD_RECORD"@ && "ADD_RECORD"@[0] == 'A');
        }
        let result = if is_text(&select.data, CLOSE_REPO) {
            CtxResult::CloseCtx
        } else if is_text(&select.data, ADD_RECORD) {
            CtxResult::NewCtx(C::add_record(self.repo.clone()))
        } else {
            match &select.data {
                Some(record_id) => {
                    let found = match self.repo.get(record_id) {
                        Ok(record) => record.is_some(),
                        Err(err) => {
                            return Err(StepError::Storage(err));
                        },
                    };
                    if found {
                        CtxResult::NewCtx(C::view_record(self.repo.clone(), record_id.clone()))
                    } else {
                        CtxResult::Nothing
                    }
                },
                None => CtxResult::Nothing,
            }
        };
        Ok(vec![result])
    }

    /// Text is not expected here: the message is removed.
    pub fn handle_message<C>(&mut self, message: Message) -> (r: Result<Vec<CtxResult<C>>, StepError>)
        ensures
            r is Ok,
            r->Ok_0@.len() == 1,
            r->Ok_0@[0] is RemoveMessages,
            r->Ok_0@[0]->RemoveMessages_0@ == seq![message.id],
    {
        Ok(vec![CtxResult::RemoveMessages(vec![message.id])])
    }

    /// `/backup` sends the repository as a file named after the user; the
    /// other commands get the default answer.
    pub fn handle_command<C>(&mut self, command: Message) -> (r: Result<Vec<CtxResult<C>>, StepError>)
        ensures
            r is Ok && is_reset(command.text) ==> r->Ok_0@[0] is CloseCtx,
            r is Ok && !is_reset(command.text) ==> !has_control(r->Ok_0@),
    {
        proof {
            reveal_strlit("/backup");
            reveal_strlit("/reset");
            assert(BACKUP_COMMAND@ == "/backup"@ && "/backup"@[1] == 'b');
            assert(crate::steps::RESET_COMMAND@ == "/reset"@ && "/reset"@[1] == 'r');
        }
        if is_text(&command.text, BACKUP_COMMAND) {
            match &command.user_id {
                Some(user_id) => {
                    let data = match self.repo.dump() {
                        Ok(data) => data,
                        Err(err) => {
                            return Err(StepError::Storage(err));
                        },
                    };
                    let mut name = String::from_str("user_");
                    name.append(user_id.0.as_str());
                    name.append(".json");
                    let r = vec![
                        CtxResult::Document(OutgoingDocument::new(data, name)),
                        CtxResult::RemoveMessages(vec![command.id]),
                    ];
                    assert forall|i: int| 0 <= i < r@.len() implies !(#[trigger] r@[i]).spec_is_control() by {}
                    return Ok(r);
                },
                None => {},
            }
        }
        Ok(default_commands_handler(command))
    }
}

impl<T> DialContext for ViewRepoDialog<T> {
    open spec fn spec_file_expected(&self) -> bool {
        false
    }

    closed spec fn spec_sent(&self) -> Set<MessageId> {
        self.sent_msg_ids@.to_set()
    }

    fn file_expected(&self) -> (r: bool) {
        false
    }

    fn remember_sent_messages(&mut self, msg_ids: Vec<MessageId>) {
        self.sent_msg_ids.remember(msg_ids)
    }
}

} // verus!
