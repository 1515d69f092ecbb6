//! Asks for the password of the user's repository and opens it.
use vstd::prelude::*;

use std::marker::PhantomData;

use crate::controller::DialContext;
use crate::dialogues::{CtxResult, Message, MessageId, Select};
use crate::steps::{is_text, text_message, SentMessages, StepError, StepFactory, CANCEL_COMMAND};
use crate::storage::{RepositoriesFactory, RepositoryOpenError};

verus! {

pub struct OpenRepoDialogue<F, R> {
    factory: F,
    sent_msg_ids: SentMessages,
    phantom: PhantomData<R>,
}

impl<F, R> OpenRepoDialogue<F, R> {
    /// The ids of the messages of this step that were delivered.
    pub closed spec fn sent(&self) -> Seq<MessageId> {
        self.sent_msg_ids@
    }

    pub fn new(factory: F) -> (r: Self)
        ensures
            r.sent() == Seq::<MessageId>::empty(),
    {
        OpenRepoDialogue { factory, sent_msg_ids: SentMessages::new(), phantom: PhantomData }
    }
}

/// The effect that removes the keyboard a button press came from, if known.
pub fn remove_origin<C>(select: &Select) -> (r: CtxResult<C>)
    ensures
        select.msg_id is Some ==> r is RemoveMessages && r->RemoveMessages_0@ == seq![select.msg_id->0],
        select.msg_id is None ==> r is Nothing,
{
    match select.msg_id {
        Some(msg_id) => CtxResult::RemoveMessages(vec![msg_id]),
        None => CtxResult::Nothing,
    }
}

impl<F: RepositoriesFactory<R>, R> OpenRepoDialogue<F, R> {
    pub fn init<C>(&mut self) -> (r: Result<Vec<CtxResult<C>>, StepError>)
        ensures
            r is Ok,
            r->Ok_0@.len() == 1,
            r->Ok_0@[0] is Messages,
    {
        Ok(vec![CtxResult::Messages(vec![text_message(&["Введите пароль"])])])
    }

    /// Removes the messages of this step.
    pub fn shutdown<C>(&mut self) -> (r: Result<Vec<CtxResult<C>>, StepError>)
        ensures
            r is Ok,
            r->Ok_0@.len() == 1,
            r->Ok_0@[0] is RemoveMessages,
            r->Ok_0@[0]->RemoveMessages_0@ == old(self).sent(),
            final(self).sent() == Seq::<MessageId>::empty(),
    {
        Ok(vec![CtxResult::RemoveMessages(self.sent_msg_ids.drain())])
    }

    /// Buttons are not expected here: the keyboard is removed.
    pub fn handle_select<C>(&mut self, select: Select) -> (r: Result<Vec<CtxResult<C>>, StepError>)
        ensures
            r is Ok,
            r->Ok_0@.len() == 1,
            select.msg_id is Some ==> r->Ok_0@[0] is RemoveMessages && r->Ok_0@[0]->RemoveMessages_0@ == seq![select.msg_id->0],
            select.msg_id is None ==> r->Ok_0@[0] is Nothing,
    {
        Ok(vec![remove_origin(&select)])
    }

    /// Takes the message as the password: the messages of this step and the
    /// password are removed; the repository opened hands control to its view,
    /// a wrong password is told, and a missing repository closes the
    /// conversation.
    pub fn handle_message<C: StepFactory<F, R>>(&mut self, message: Message) -> (r: Result<Vec<CtxResult<C>>, StepError>)
        ensures
            message.user_id is None ==> r == Err::<Vec<CtxResult<C>>, StepError>(StepError::MissingUser(message.id)),
            r is Ok ==> r->Ok_0@.len() == 2 && r->Ok_0@[0] is RemoveMessages
                && r->Ok_0@[0]->RemoveMessages_0@ == old(self).sent().push(message.id),
            message.user_id is Some && message.text is None ==> r is Ok && r->Ok_0@[1] is Messages,
            final(self).sent() == Seq::<MessageId>::empty(),
    {
        let mut removed = self.sent_msg_ids.drain();
        removed.push(message.id);
        let user_id = match message.user_id {
            Some(user_id) => user_id,
            None => {
                return Err(StepError::MissingUser(message.id));
            },
        };
        let next = match message.text {
            Some(passwd) => match self.factory.get_user_repository(&user_id.0, passwd) {
                Ok(repo) => CtxResult::NewCtx(C::view_repo(repo)),
                Err(RepositoryOpenError::WrongPassword) => CtxResult::Messages(
                    vec![text_message(&["Пароль не подходит 🤨. Попробуйте еще раз"])],
                ),
                Err(RepositoryOpenError::DoesntExist) => CtxResult::CloseCtx,
                Err(error) => {
                    return Err(StepError::Open(error));
                },
            },
            None => CtxResult::Messages(vec![text_message(&["Это не пароль 🤨. Попробуйте еще раз"])]),
        };
        Ok(vec![CtxResult::RemoveMessages(removed), next])
    }

    /// `/cancel` closes the conversation; the command is removed.
    pub fn handle_command<C>(&mut self, command: Message) -> (r: Result<Vec<CtxResult<C>>, StepError>)
        ensures
            r is Ok,
            r->Ok_0@[0] is RemoveMessages,
            r->Ok_0@[0]->RemoveMessages_0@ == seq![command.id],
            r->Ok_0@.len() == (if command.text is Some && command.text->0@ == CANCEL_COMMAND@ { 2int } else { 1int }),
            r->Ok_0@.len() == 2 ==> r->Ok_0@[1] is CloseCtx,
    {
        if is_text(&command.text, CANCEL_COMMAND) {
            Ok(vec![CtxResult::RemoveMessages(vec![command.id]), CtxResult::CloseCtx])
        } else {
            Ok(vec![CtxResult::RemoveMessages(vec![command.id])])
        }
    }
}

impl<F, R> DialContext for OpenRepoDialogue<F, R> {
    open spec fn spec_file_expected(&self) -> bool {
        false
    }

    closed spec fn spec_sent(&self) -> Set<MessageId> {
        self.sent_msg_ids@.to_set()
    }

    fn file_expected(&self) -> (r: bool) {
        false
    }

    fn remember_sent_messages(&mut self, msg_ids: Vec<MessageId>) {
        self.sent_msg_ids.remember(msg_ids)
    }
}

} // verus!
