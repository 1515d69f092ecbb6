//! Shows one record, with buttons to edit it, remove it or go back.
use vstd::prelude::*;

use crate::controller::DialContext;
use crate::dialogues::{has_control, CtxResult, Message, MessageId, Select};
use crate::record::RecordId;
use crate::steps::fields::record_as_message;
use crate::steps::hello::button;
use crate::steps::{default_commands_handler, is_reset, is_text, SentMessages, StepError, StepFactory};
use crate::storage::RecordsRepository;

verus! {

pub const EDIT_RECORD: &'static str = "EDIT_RECORD";

pub const REMOVE_RECORD: &'static str = "REMOVE_RECORD";

pub const CLOSE_VIEW: &'static str = "CLOSE_VIEW";

pub struct ViewRecordDialog<T> {
    repo: T,
    record_id: RecordId,
    sent_msg_ids: SentMessages,
}

impl<T> ViewRecordDialog<T> {
    /// The ids of the messages of this step that were delivered.
    pub closed spec fn sent(&self) -> Seq<MessageId> {
        self.sent_msg_ids@
    }

    pub fn new(repo: T, record_id: RecordId) -> (r: Self)
        ensures
            r.sent() == Seq::<MessageId>::empty(),
    {
        ViewRecordDialog { record_id, repo, sent_msg_ids: SentMessages::new() }
    }
}

impl<T: RecordsRepository> ViewRecordDialog<T> {
    /// The record with its buttons; when it is gone, control goes back to
    /// the repository's view.
    pub fn init<F, C: StepFactory<F, T>>(&mut self) -> (r: Result<Vec<CtxResult<C>>, StepError>)
        ensures
            r is Ok ==> r->Ok_0@.len() == 1 && (r->Ok_0@[0] is Buttons || r->Ok_0@[0] is NewCtx),
    {
        let shown = match self.repo.get(&self.record_id) {
            Ok(Some(record)) => Some(record_as_message(record)),
            Ok(None) => None,
            Err(err) => {
                return Err(StepError::Storage(err));
            },
        };
        let result = match shown {
            Some(message) => CtxResult::Buttons(
                message,
                vec![
                    vec![button(EDIT_RECORD, "✏️")],
                    vec![button(REMOVE_RECORD, "❌")],
                    vec![button(CLOSE_VIEW, "⬅️ Закрыть")],
                ],
            ),
            None => CtxResult::NewCtx(C::view_repo(self.repo.clone())),
        };
        Ok(vec![result])
    }

    /// Removes the messages of this step.
    pub fn shutdown<C>(&mut self) -> (r: Result<Vec<CtxResult<C>>, StepError>)
        ensures
            r is Ok,
            r->Ok_0@.len() == 1,
            r->Ok_0@[0] is RemoveMessages,
            r->Ok_0@[0]->RemoveMessages_0@ == old(self).sent(),
            final(self).sent() == Seq::<MessageId>::empty(),
    {
        Ok(vec![CtxResult::RemoveMessages(self.sent_msg_ids.drain())])
    }

    /// Editing hands control to the editor; removing deletes and saves, then
    /// goes back to the repository's view, as closing does; anything else
    /// closes the conversation.
    pub fn handle_select<F, C: StepFactory<F, T>>(&mut self, select: Select) -> (r: Result<Vec<CtxResult<C>>, StepError>)
        ensures
            r is Ok ==> r->Ok_0@.len() == 1,
            r is Ok ==> (r->Ok_0@[0] is CloseCtx <==> !(select.data is Some && (select.data->0@ == EDIT_RECORD@
                || select.data->0@ == REMOVE_RECORD@ || select.data->0@ == CLOSE_VIEW@))),
            r is Ok ==> (r->Ok_0@[0] is CloseCtx || r->Ok_0@[0] is NewCtx),
    {
        let result = if is_text(&select.data, EDIT_RECORD) {
            CtxResult::NewCtx(C::edit_record(self.record_id.clone(), self.repo.clone()))
        } else if is_text(&select.data, REMOVE_RECORD) {
            match self.repo.delete(&self.record_id) {
                Ok(()) => {},
                Err(err) => {
                    return Err(StepError::Update(err));
                },
            }
            match self.repo.save() {
                Ok(()) => {},
                Err(err) => {
                    return Err(StepError::Storage(err));
                },
            }
            CtxResult::NewCtx(C::view_repo(self.repo.clone()))
        } else if is_text(&select.data, CLOSE_VIEW) {
            CtxResult::NewCtx(C::view_repo(self.repo.clone()))
        } else {
            CtxResult::CloseCtx
        };
        Ok(vec![result])
    }

    /// Text is not expected here: the message is removed.
    pub fn handle_message<C>(&mut self, message: Message) -> (r: Result<Vec<CtxResult<C>>, StepError>)
        ensures
            r is Ok,
            r->Ok_0@.len() == 1,
            r->Ok_0@[0] is RemoveMessages,
            r->Ok_0@[0]->RemoveMessages_0@ == seq![message.id],
    {
        Ok(vec![CtxResult::RemoveMessages(vec![message.id])])
    }

    /// Commands get the default answer.
    pub fn handle_command<C>(&mut self, command: Message) -> (r: Result<Vec<CtxResult<C>>, StepError>)
        ensures
            r is Ok,
            is_reset(command.text) ==> r->Ok_0@[0] is CloseCtx,
            !is_reset(command.text) ==> !has_control(r->Ok_0@),
    {
        Ok(default_commands_handler(command))
    }
}

impl<T> DialContext for ViewRecordDialog<T> {
    open spec fn spec_file_expected(&self) -> bool {
        false
    }

    closed spec fn spec_sent(&self) -> Set<MessageId> {
        self.sent_msg_ids@.to_set()
    }

    fn file_expected(&self) -> (r: bool) {
        false
    }

    fn remember_sent_messages(&mut self, msg_ids: Vec<MessageId>) {
        self.sent_msg_ids.remember(msg_ids)
    }
}

} // verus!
