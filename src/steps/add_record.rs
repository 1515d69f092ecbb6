//! Adds a record: asks for its password, name, login and description, in
//! that order, then saves it.
use vstd::prelude::*;
use vstd::string::StringExecFns;

use crate::controller::DialContext;
use crate::dialogues::{CtxResult, Message, MessageId, Select};
use crate::record::{field_view, Record, RecordField};
use crate::steps::fields::{RECORD_DESCR_FIELD, RECORD_LOGIN_FIELD, RECORD_NAME_FIELD, RECORD_PASSWD_FIELD};
use crate::steps::open_repo::remove_origin;
use crate::steps::{is_text, text_message, SentMessages, StepError, StepFactory, CANCEL_COMMAND};
use crate::storage::RecordsRepository;

verus! {

/// A record being entered.
#[derive(Clone)]
pub struct NewRecord {
    pub name: String,
    pub passwd: String,
    pub login: Option<String>,
    pub description: Option<String>,
}

/// The fields of the record that `r` becomes: name and password, then the
/// login and the description when given.
pub open spec fn new_record_fields(r: NewRecord) -> Seq<(Seq<char>, Seq<char>)> {
    let base = seq![(RECORD_NAME_FIELD@, r.name@), (RECORD_PASSWD_FIELD@, r.passwd@)];
    let with_login = if r.login is Some { base.push((RECORD_LOGIN_FIELD@, r.login->0@)) } else { base };
    if r.description is Some { with_login.push((RECORD_DESCR_FIELD@, r.description->0@)) } else { with_login }
}

impl NewRecord {
    pub fn new(name: String, passwd: String) -> (r: Self)
        ensures
            r.name == name,
            r.passwd == passwd,
            r.login is None,
            r.description is None,
    {
        NewRecord { name, passwd, login: None, description: None }
    }

    /// The record, with a fresh identifier.
    pub fn into_record(self) -> (r: Record)
        ensures
            r@ == new_record_fields(self),
    {
        let ghost this = self;
        let mut fields: Vec<RecordField> = vec![
            (String::from_str(RECORD_NAME_FIELD), self.name),
            (String::from_str(RECORD_PASSWD_FIELD), self.passwd),
        ];
        match self.login {
            Some(login) => fields.push((String::from_str(RECORD_LOGIN_FIELD), login)),
            None => {},
        }
        match self.description {
            Some(description) => fields.push((String::from_str(RECORD_DESCR_FIELD), description)),
            None => {},
        }
        let r = Record::new(fields);
        assert(r@ =~= new_record_fields(this));
        r
    }
}

/// What is asked for next.
pub enum AddRecordState {
    /// The password.
    Value,
    /// The name; the password was given.
    Name(String),
    /// The login.
    Login(NewRecord),
    /// The description.
    Description(NewRecord),
}

pub struct AddRecordDialog<T> {
    repo: T,
    state: AddRecordState,
    sent_msg_ids: SentMessages,
}

impl<T> AddRecordDialog<T> {
    pub closed spec fn spec_state(&self) -> AddRecordState {
        self.state
    }

    /// The ids of the messages of this step that were delivered.
    pub closed spec fn sent(&self) -> Seq<MessageId> {
        self.sent_msg_ids@
    }

    pub fn new(repo: T) -> (r: Self)
        ensures
            r.spec_state() is Value,
            r.sent() == Seq::<MessageId>::empty(),
    {
        AddRecordDialog { repo, state: AddRecordState::Value, sent_msg_ids: SentMessages::new() }
    }
}

impl<T: RecordsRepository> AddRecordDialog<T> {
    pub fn init<C>(&mut self) -> (r: Result<Vec<CtxResult<C>>, StepError>)
        ensures
            r is Ok,
            r->Ok_0@.len() == 1,
            r->Ok_0@[0] is Messages,
    {
        Ok(vec![CtxResult::Messages(vec![text_message(&["Введите пароль"])])])
    }

    /// Removes the messages of this step.
    pub fn shutdown<C>(&mut self) -> (r: Result<Vec<CtxResult<C>>, StepError>)
        ensures
            r is Ok,
            r->Ok_0@.len() == 1,
            r->Ok_0@[0] is RemoveMessages,
            r->Ok_0@[0]->RemoveMessages_0@ == old(self).sent(),
            final(self).sent() == Seq::<MessageId>::empty(),
    {
        Ok(vec![CtxResult::RemoveMessages(self.sent_msg_ids.drain())])
    }

    /// Buttons are not expected here: the keyboard is removed.
    pub fn handle_select<C>(&mut self, select: Select) -> (r: Result<Vec<CtxResult<C>>, StepError>)
        ensures
            r is Ok,
            r->Ok_0@.len() == 1,
            select.msg_id is Some ==> r->Ok_0@[0] is RemoveMessages && r->Ok_0@[0]->RemoveMessages_0@ == seq![select.msg_id->0],
            select.msg_id is None ==> r->Ok_0@[0] is Nothing,
    {
        Ok(vec![remove_origin(&select)])
    }

    /// Takes the text as the value asked for and asks for the next one;
    /// after the description the record is added and saved, and control
    /// goes back to the repository's view. The message is removed.
    pub fn handle_message<F, C: StepFactory<F, T>>(&mut self, message: Message) -> (r: Result<Vec<CtxResult<C>>, StepError>)
        ensures
            r is Ok ==> r->Ok_0@.len() == 2 && r->Ok_0@[0] is RemoveMessages
                && r->Ok_0@[0]->RemoveMessages_0@ == seq![message.id],
            message.text is None ==> r is Ok && r->Ok_0@[1] is Nothing && final(self).spec_state() == old(self).spec_state(),
            message.text is Some && old(self).spec_state() is Value ==> r is Ok
                && final(self).spec_state() == AddRecordState::Name(message.text->0),
            message.text is Some && old(self).spec_state() is Name ==> r is Ok
                && final(self).spec_state() == AddRecordState::Login(
                    (NewRecord { name: message.text->0, passwd: old(self).spec_state()->Name_0, login: None, description: None }),
                ),
            message.text is Some && old(self).spec_state() is Login ==> r is Ok
                && final(self).spec_state() is Description,
            message.text is Some && old(self).spec_state() is Description && r is Ok ==> r->Ok_0@[1] is NewCtx,
    {
        let result = match message.text {
            Some(text) => {
                let mut state = AddRecordState::Value;
                std::mem::swap(&mut state, &mut self.state);
                match state {
                    AddRecordState::Value => {
                        self.state = AddRecordState::Name(text);
                        CtxResult::Messages(vec![text_message(&["Введите название"])])
                    },
                    AddRecordState::Name(passwd) => {
                        self.state = AddRecordState::Login(NewRecord::new(text, passwd));
                        CtxResult::Messages(vec![text_message(&["Введите логин"])])
                    },
                    AddRecordState::Login(new_record) => {
                        let mut new_record = new_record;
                        new_record.login = Some(text);
                        self.state = AddRecordState::Description(new_record);
                        CtxResult::Messages(vec![text_message(&["Введите описание"])])
                    },
                    AddRecordState::Description(new_record) => {
                        self.state = AddRecordState::Description(new_record.clone());
                        let mut new_record = new_record;
                        new_record.description = Some(text);
                        match self.repo.add_record(new_record.into_record()) {
                            Ok(()) => {},
                            Err(err) => {
                                return Err(StepError::Add(err));
                            },
                        }
                        match self.repo.save() {
                            Ok(()) => {},
                            Err(err) => {
                                return Err(StepError::Storage(err));
                            },
                        }
                        CtxResult::NewCtx(C::view_repo(self.repo.clone()))
                    },
                }
            },
            None => CtxResult::Nothing,
        };
        Ok(vec![CtxResult::RemoveMessages(vec![message.id]), result])
    }

    /// `/cancel` goes back to the repository's view; the command is removed.
    pub fn handle_command<F, C: StepFactory<F, T>>(&mut self, command: Message) -> (r: Result<Vec<CtxResult<C>>, StepError>)
        ensures
            r is Ok,
            r->Ok_0@[0] is RemoveMessages,
            r->Ok_0@[0]->RemoveMessages_0@ == seq![command.id],
            r->Ok_0@.len() == (if command.text is Some && command.text->0@ == CANCEL_COMMAND@ { 2int } else { 1int }),
            r->Ok_0@.len() == 2 ==> r->Ok_0@[1] is NewCtx,
    {
        if is_text(&command.text, CANCEL_COMMAND) {
            Ok(vec![CtxResult::RemoveMessages(vec![command.id]), CtxResult::NewCtx(C::view_repo(self.repo.clone()))])
        } else {
            Ok(vec![CtxResult::RemoveMessages(vec![command.id])])
        }
    }
}

impl<T> DialContext for AddRecordDialog<T> {
    open spec fn spec_file_expected(&self) -> bool {
        false
    }

    closed spec fn spec_sent(&self) -> Set<MessageId> {
        self.sent_msg_ids@.to_set()
    }

    fn file_expected(&self) -> (r: bool) {
        false
    }

    fn remember_sent_messages(&mut self, msg_ids: Vec<MessageId>) {
        self.sent_msg_ids.remember(msg_ids)
    }
}

} // verus!
