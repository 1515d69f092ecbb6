//! Edits the fields of a record, one at a time, until the changes are saved
//! or dropped.
use vstd::prelude::*;
use vstd::string::StringExecFns;

use crate::controller::DialContext;
use crate::dialogues::{CtxResult, Message, MessageId, Select};
use crate::record::{has_field, Record, RecordId};
use crate::dialogues::MessageFormat;
use crate::steps::fields::{record_as_message, record_text, RECORD_DESCR_FIELD, RECORD_LOGIN_FIELD, RECORD_NAME_FIELD, RECORD_PASSWD_FIELD};
use crate::steps::hello::button;
use crate::steps::{is_text, text_message, SentMessages, StepError, StepFactory, CANCEL_COMMAND};
use crate::storage::RecordsRepository;

verus! {

pub const CANCEL_EDIT: &'static str = "CANCEL_EDIT";

pub const SAVE_RESULT: &'static str = "SAVE_RESULT";

/// What the editor waits for.
pub enum DialogState {
    /// The new value of the named field.
    FieldEdit(String),
    /// A button press.
    WaitForSelect,
}

/// The record with a button per field it has, then the buttons to drop and
/// to save the changes.
pub fn get_edit_record_buttons<C>(record: &Record) -> (r: CtxResult<C>)
    ensures
        r is Buttons,
        r->Buttons_0@ == (record_text(record@), MessageFormat::Html),
        r->Buttons_1@.len() == 3 + (if has_field(record@, RECORD_LOGIN_FIELD@) { 1int } else { 0 })
            + (if has_field(record@, RECORD_DESCR_FIELD@) { 1int } else { 0 })
            + (if has_field(record@, RECORD_PASSWD_FIELD@) { 1int } else { 0 }),
{
    let mut rows = vec![vec![button(RECORD_NAME_FIELD, "✏️ Название")]];
    if record.get_field_value(RECORD_LOGIN_FIELD).is_some() {
        rows.push(vec![button(RECORD_LOGIN_FIELD, "✏️ Логин")]);
    }
    if record.get_field_value(RECORD_DESCR_FIELD).is_some() {
        rows.push(vec![button(RECORD_DESCR_FIELD, "✏️ Описание")]);
    }
    if record.get_field_value(RECORD_PASSWD_FIELD).is_some() {
        rows.push(vec![button(RECORD_PASSWD_FIELD, "✏️ Пароль")]);
    }
    rows.push(vec![button(CANCEL_EDIT, "❌ Отменить")]);
    rows.push(vec![button(SAVE_RESULT, "💾 Сохранить")]);
    CtxResult::Buttons(record_as_message(record), rows)
}

/// How a field is called when its new value is asked for.
fn field_title(field: &str) -> (r: Option<&'static str>)
    ensures
        r is Some <==> (field@ == RECORD_DESCR_FIELD@ || field@ == RECORD_LOGIN_FIELD@
            || field@ == RECORD_NAME_FIELD@ || field@ == RECORD_PASSWD_FIELD@),
{
    let f = Some(String::from_str(field));
    if is_text(&f, RECORD_DESCR_FIELD) {
        Some("описание")
    } else if is_text(&f, RECORD_LOGIN_FIELD) {
        Some("логин")
    } else if is_text(&f, RECORD_NAME_FIELD) {
        Some("название")
    } else if is_text(&f, RECORD_PASSWD_FIELD) {
        Some("пароль")
    } else {
        None
    }
}

pub struct EditRecordDialog<T> {
    repo: T,
    record_id: RecordId,
    sent_msg_ids: SentMessages,
    state: DialogState,
}

impl<T> EditRecordDialog<T> {
    pub closed spec fn spec_state(&self) -> DialogState {
        self.state
    }

    /// The ids of the messages of this step that were delivered.
    pub closed spec fn sent(&self) -> Seq<MessageId> {
        self.sent_msg_ids@
    }

    pub fn new(record_id: RecordId, repo: T) -> (r: Self)
        ensures
            r.spec_state() is WaitForSelect,
            r.sent() == Seq::<MessageId>::empty(),
    {
        EditRecordDialog { repo, record_id, sent_msg_ids: SentMessages::new(), state: DialogState::WaitForSelect }
    }
}

impl<T: RecordsRepository> EditRecordDialog<T> {
    /// The record with its editing buttons; when it is gone, control goes
    /// back to the repository's view.
    pub fn init<F, C: StepFactory<F, T>>(&mut self) -> (r: Result<Vec<CtxResult<C>>, StepError>)
        ensures
            r is Ok ==> r->Ok_0@.len() == 1 && (r->Ok_0@[0] is Buttons || r->Ok_0@[0] is NewCtx),
    {
        let shown = match self.repo.get(&self.record_id) {
            Ok(Some(record)) => Some(get_edit_record_buttons(record)),
            Ok(None) => None,
            Err(err) => {
                return Err(StepError::Storage(err));
            },
        };
        match shown {
            Some(buttons) => Ok(vec![buttons]),
            None => Ok(vec![CtxResult::NewCtx(C::view_repo(self.repo.clone()))]),
        }
    }

    /// Removes the messages of this step.
    pub fn shutdown<C>(&mut self) -> (r: Result<Vec<CtxResult<C>>, StepError>)
        ensures
            r is Ok,
            r->Ok_0@.len() == 1,
            r->Ok_0@[0] is RemoveMessages,
            r->Ok_0@[0]->RemoveMessages_0@ == old(self).sent(),
            final(self).sent() == Seq::<MessageId>::empty(),
    {
        Ok(vec![CtxResult::RemoveMessages(self.sent_msg_ids.drain())])
    }

    /// Dropping the changes goes back to the repository's view, saving them
    /// to the record's view; a field's button asks for its new value.
    pub fn handle_select<F, C: StepFactory<F, T>>(&mut self, select: Select) -> (r: Result<Vec<CtxResult<C>>, StepError>)
        ensures
            select.data is None ==> r is Err,
            r is Ok && select.data->0@ != CANCEL_EDIT@ && select.data->0@ != SAVE_RESULT@
                ==> final(self).spec_state() == DialogState::FieldEdit(select.data->0)
                    && r->Ok_0@.len() == 2 && r->Ok_0@[0] is RemoveMessages
                    && r->Ok_0@[0]->RemoveMessages_0@ == old(self).sent(),
            r is Ok && (select.data->0@ == CANCEL_EDIT@ || select.data->0@ == SAVE_RESULT@)
                ==> r->Ok_0@.len() == 1 && r->Ok_0@[0] is NewCtx,
    {
        let payload = match select.data {
            Some(payload) => payload,
            None => {
                return Err(StepError::MissingSelection);
            },
        };
        let data = Some(payload);
        if is_text(&data, CANCEL_EDIT) {
            match self.repo.cancel() {
                Ok(()) => {},
                Err(err) => {
                    return Err(StepError::Storage(err));
                },
            }
            return Ok(vec![CtxResult::NewCtx(C::view_repo(self.repo.clone()))]);
        }
        if is_text(&data, SAVE_RESULT) {
            match self.repo.save() {
                Ok(()) => {},
                Err(err) => {
                    return Err(StepError::Storage(err));
                },
            }
            return Ok(vec![CtxResult::NewCtx(C::view_record(self.repo.clone(), self.record_id.clone()))]);
        }
        let field = match data {
            Some(field) => field,
            None => {
                return Err(StepError::MissingSelection);
            },
        };
        let title = match field_title(field.as_str()) {
            Some(title) => title,
            None => {
                return Err(StepError::UnknownField(field));
            },
        };
        self.state = DialogState::FieldEdit(field);
        Ok(vec![
            CtxResult::RemoveMessages(self.sent_msg_ids.drain()),
            CtxResult::Messages(vec![text_message(&["Введите новое значение для поля '", title, "'"])]),
        ])
    }

    /// In a field's edit, the text becomes the field's new value and the
    /// record is shown again; other messages are removed.
    pub fn handle_message<F, C: StepFactory<F, T>>(&mut self, message: Message) -> (r: Result<Vec<CtxResult<C>>, StepError>)
        ensures
            r is Ok ==> r->Ok_0@.len() >= 1 && r->Ok_0@[0] is RemoveMessages,
            !(old(self).spec_state() is FieldEdit && message.text is Some) ==> r is Ok && r->Ok_0@.len() == 1
                && r->Ok_0@[0]->RemoveMessages_0@ == seq![message.id],
            old(self).spec_state() is FieldEdit && message.text is Some && r is Ok
                ==> final(self).spec_state() is WaitForSelect && r->Ok_0@.len() == 2
                    && r->Ok_0@[0]->RemoveMessages_0@ == old(self).sent().push(message.id),
    {
        let mut state = DialogState::WaitForSelect;
        std::mem::swap(&mut state, &mut self.state);
        match (state, message.text) {
            (DialogState::FieldEdit(field), Some(text)) => {
                let found = match self.repo.get(&self.record_id) {
                    Ok(Some(record)) => Some(record.clone()),
                    Ok(None) => None,
                    Err(err) => {
                        self.state = DialogState::FieldEdit(field);
                        return Err(StepError::Storage(err));
                    },
                };
                let mut record = match found {
                    Some(record) => record,
                    None => {
                        self.state = DialogState::FieldEdit(field);
                        return Err(StepError::MissingRecord(self.record_id.clone()));
                    },
                };
                let kept = field.clone();
                match record.update_field(field, text) {
                    Ok(()) => {},
                    Err(_) => {
                        self.state = DialogState::FieldEdit(kept.clone());
                        return Err(StepError::MissingField(kept));
                    },
                }
                let buttons = get_edit_record_buttons(&record);
                match self.repo.update(record) {
                    Ok(()) => {},
                    Err(err) => {
                        self.state = DialogState::FieldEdit(kept);
                        return Err(StepError::Update(err));
                    },
                }
                let mut removed = self.sent_msg_ids.drain();
                removed.push(message.id);
                Ok(vec![CtxResult::RemoveMessages(removed), buttons])
            },
            (state, _) => {
                self.state = state;
                Ok(vec![CtxResult::RemoveMessages(vec![message.id])])
            },
        }
    }

    /// `/cancel` drops the changes and starts the editor over; the command
    /// is removed.
    pub fn handle_command<F, C: StepFactory<F, T>>(&mut self, command: Message) -> (r: Result<Vec<CtxResult<C>>, StepError>)
        ensures
            r is Ok ==> r->Ok_0@[0] is RemoveMessages && r->Ok_0@[0]->RemoveMessages_0@ == seq![command.id],
            r is Ok ==> r->Ok_0@.len() == (if command.text is Some && command.text->0@ == CANCEL_COMMAND@ { 2int } else { 1int }),
            r is Ok && r->Ok_0@.len() == 2 ==> r->Ok_0@[1] is NewCtx,
    {
        if is_text(&command.text, CANCEL_COMMAND) {
            match self.repo.cancel() {
                Ok(()) => {},
                Err(err) => {
                    return Err(StepError::Storage(err));
                },
            }
            Ok(vec![
                CtxResult::RemoveMessages(vec![command.id]),
                CtxResult::NewCtx(C::edit_record(self.record_id.clone(), self.repo.clone())),
            ])
        } else {
            Ok(vec![CtxResult::RemoveMessages(vec![command.id])])
        }
    }
}

impl<T> DialContext for EditRecordDialog<T> {
    open spec fn spec_file_expected(&self) -> bool {
        false
    }

    closed spec fn spec_sent(&self) -> Set<MessageId> {
        self.sent_msg_ids@.to_set()
    }

    fn file_expected(&self) -> (r: bool) {
        false
    }

    fn remember_sent_messages(&mut self, msg_ids: Vec<MessageId>) {
        self.sent_msg_ids.remember(msg_ids)
    }
}

} // verus!
