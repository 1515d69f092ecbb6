//! Creates the user's repository: asks for a password twice.
use vstd::prelude::*;

use std::marker::PhantomData;

use crate::controller::DialContext;
use crate::dialogues::{CtxResult, Message, MessageId, Select, Selector};
use crate::steps::hello::button;
use crate::steps::{is_text, text_message, SentMessages, StepError, StepFactory, CANCEL_COMMAND};
use crate::storage::{RecordsRepository, RepositoriesFactory};

verus! {

/// The keyboard that offers to open the repository just created.
pub fn make_create_repo_keyboard() -> (r: Selector)
    ensures
        r@.len() == 1,
        r@[0]@.len() == 1,
        r@[0]@[0].0.0@ == "_"@,
        r@[0]@[0].1@ == "Открыть репозиторий"@,
{
    vec![vec![button("_", "Открыть репозиторий")]]
}

/// Where the creation stands.
pub enum CreationState {
    Disabled,
    WaitForPassword,
    /// The password was entered once.
    WaitPasswordRepeat(String),
}

pub struct CreateRepoDialogue<F, R> {
    factory: F,
    creation_state: CreationState,
    sent_msg_ids: SentMessages,
    phantom: PhantomData<R>,
}

impl<F, R> CreateRepoDialogue<F, R> {
    pub closed spec fn state(&self) -> CreationState {
        self.creation_state
    }

    /// The ids of the messages of this step that were delivered.
    pub closed spec fn sent(&self) -> Seq<MessageId> {
        self.sent_msg_ids@
    }

    pub fn new(factory: F) -> (r: Self)
        ensures
            r.state() is Disabled,
            r.sent() == Seq::<MessageId>::empty(),
    {
        CreateRepoDialogue {
            factory,
            creation_state: CreationState::Disabled,
            sent_msg_ids: SentMessages::new(),
            phantom: PhantomData,
        }
    }
}

impl<F: RepositoriesFactory<R>, R: RecordsRepository> CreateRepoDialogue<F, R> {
    pub fn init<C>(&mut self) -> (r: Result<Vec<CtxResult<C>>, StepError>)
        ensures
            r is Ok,
            r->Ok_0@.len() == 1,
            r->Ok_0@[0] is Messages,
            final(self).state() is WaitForPassword,
    {
        self.creation_state = CreationState::WaitForPassword;
        Ok(vec![CtxResult::Messages(vec![text_message(&["Придумайте пароль"])])])
    }

    /// Removes the messages of this step.
    pub fn shutdown<C>(&mut self) -> (r: Result<Vec<CtxResult<C>>, StepError>)
        ensures
            r is Ok,
            r->Ok_0@.len() == 1,
            r->Ok_0@[0] is RemoveMessages,
            r->Ok_0@[0]->RemoveMessages_0@ == old(self).sent(),
            final(self).sent() == Seq::<MessageId>::empty(),
    {
        Ok(vec![CtxResult::RemoveMessages(self.sent_msg_ids.drain())])
    }

    pub fn handle_select<C>(&mut self, select: Select) -> (r: Result<Vec<CtxResult<C>>, StepError>)
        ensures
            r is Ok,
            r->Ok_0@.len() == 0,
    {
        Ok(vec![])
    }

    /// Takes the password, then its repetition; when both match the
    /// repository is created and saved, and control goes to opening it. The
    /// password messages are removed.
    pub fn handle_message<C: StepFactory<F, R>>(&mut self, message: Message) -> (r: Result<Vec<CtxResult<C>>, StepError>)
        ensures
            message.user_id is None ==> r == Err::<Vec<CtxResult<C>>, StepError>(StepError::MissingUser(message.id)),
            r is Ok ==> r->Ok_0@.len() >= 1 && r->Ok_0@[0] is RemoveMessages
                && r->Ok_0@[0]->RemoveMessages_0@ == seq![message.id],
            message.user_id is Some && message.text is Some && old(self).state() is WaitForPassword
                && message.text->0@.len() > 0 ==> r is Ok && final(self).state() == CreationState::WaitPasswordRepeat(message.text->0),
            message.user_id is Some && message.text is Some && old(self).state() is WaitForPassword
                && message.text->0@.len() == 0 ==> r is Ok && final(self).state() is WaitForPassword,
            message.user_id is Some && message.text is Some && old(self).state() is WaitPasswordRepeat
                && message.text->0@ != old(self).state()->WaitPasswordRepeat_0@
                ==> r is Ok && final(self).state() == old(self).state() && r->Ok_0@.len() == 2 && r->Ok_0@[1] is Messages,
            message.user_id is Some && message.text is Some && old(self).state() is WaitPasswordRepeat
                && message.text->0@ == old(self).state()->WaitPasswordRepeat_0@
                ==> final(self).state() is Disabled && (r is Ok ==> r->Ok_0@.len() == 2 && r->Ok_0@[1] is NewCtx),
    {
        let user_id = match message.user_id {
            Some(user_id) => user_id,
            None => {
                return Err(StepError::MissingUser(message.id));
            },
        };
        let input = match message.text {
            Some(input) => input,
            None => {
                return Ok(vec![CtxResult::RemoveMessages(vec![message.id])]);
            },
        };
        let mut state = CreationState::Disabled;
        std::mem::swap(&mut state, &mut self.creation_state);
        match state {
            CreationState::WaitForPassword => {
                if input.as_str().is_empty() {
                    self.creation_state = CreationState::WaitForPassword;
                    return Ok(vec![
                        CtxResult::RemoveMessages(vec![message.id]),
                        CtxResult::Messages(vec![text_message(&["Вы ничего не ввели!"])]),
                    ]);
                }
                self.creation_state = CreationState::WaitPasswordRepeat(input);
                Ok(vec![
                    CtxResult::RemoveMessages(vec![message.id]),
                    CtxResult::Messages(vec![text_message(&["Повторите пароль"])]),
                ])
            },
            CreationState::WaitPasswordRepeat(passwd) => {
                if passwd != input {
                    self.creation_state = CreationState::WaitPasswordRepeat(passwd);
                    return Ok(vec![
                        CtxResult::RemoveMessages(vec![message.id]),
                        CtxResult::Messages(vec![text_message(&["Неверный пароль. Попробуйте еще раз"])]),
                    ]);
                }
                match self.factory.initialize_user_repository(&user_id.0, passwd) {
                    Ok(repo) => {
                        let mut repo = repo;
                        match repo.save() {
                            Ok(()) => {},
                            Err(err) => {
                                return Err(StepError::Storage(err));
                            },
                        }
                    },
                    Err(_) => {},
                }
                Ok(vec![
                    CtxResult::RemoveMessages(vec![message.id]),
                    CtxResult::NewCtx(C::open_repo(self.factory.clone())),
                ])
            },
            CreationState::Disabled => Ok(vec![CtxResult::RemoveMessages(vec![message.id])]),
        }
    }

    /// `/cancel` closes the conversation; the command is removed.
    pub fn handle_command<C>(&mut self, command: Message) -> (r: Result<Vec<CtxResult<C>>, StepError>)
        ensures
            r is Ok,
            r->Ok_0@[0] is RemoveMessages,
            r->Ok_0@[0]->RemoveMessages_0@ == seq![command.id],
            r->Ok_0@.len() == (if command.text is Some && command.text->0@ == CANCEL_COMMAND@ { 2int } else { 1int }),
            r->Ok_0@.len() == 2 ==> r->Ok_0@[1] is CloseCtx,
    {
        if is_text(&command.text, CANCEL_COMMAND) {
            Ok(vec![CtxResult::RemoveMessages(vec![command.id]), CtxResult::CloseCtx])
        } else {
            Ok(vec![CtxResult::RemoveMessages(vec![command.id])])
        }
    }
}

impl<F, R> DialContext for CreateRepoDialogue<F, R> {
    open spec fn spec_file_expected(&self) -> bool {
        false
    }

    closed spec fn spec_sent(&self) -> Set<MessageId> {
        self.sent_msg_ids@.to_set()
    }

    fn file_expected(&self) -> (r: bool) {
        false
    }

    fn remember_sent_messages(&mut self, msg_ids: Vec<MessageId>) {
        self.sent_msg_ids.remember(msg_ids)
    }
}

} // verus!
