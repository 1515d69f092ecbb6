//! The first step of every conversation: offers to create the user's
//! repository, to open it, or to restore it from a backup.
use vstd::prelude::*;

use std::marker::PhantomData;

use crate::controller::DialContext;
use crate::dialogues::{has_control, ButtonPayload, CtxResult, Message, MessageId, Select, UserId};
use crate::steps::{default_commands_handler, is_reset, is_text, text_message, SentMessages, StepError, StepFactory, RESTORE_COMMAND};
use crate::storage::RepositoriesFactory;
use vstd::string::StringExecFns;

verus! {

pub const CREATE_REPO: &'static str = "1";

pub const OPEN_REPO: &'static str = "2";

pub const RESTORE_REPO: &'static str = "3";

pub const CANCEL_RESTORE: &'static str = "4";

pub const CONFIRM_RESTORE: &'static str = "5";

/// A button: what it hands back when pressed, and its label.
pub fn button(payload: &str, label: &str) -> (r: (ButtonPayload, String))
    ensures
        r.0.0@ == payload@,
        r.1@ == label@,
{
    (ButtonPayload(String::from_str(payload)), String::from_str(label))
}

/// Whether a button press carried the payload `name`.
pub open spec fn pressed(data: Option<String>, name: &str) -> bool {
    data is Some && data->0@ == name@
}

pub struct HelloDialogue<F, R> {
    user_id: UserId,
    factory: F,
    sent_msg_ids: SentMessages,
    tmp_directory: String,
    phantom: PhantomData<R>,
}

impl<F, R> HelloDialogue<F, R> {
    /// The ids of the messages of this step that were delivered.
    pub closed spec fn sent(&self) -> Seq<MessageId> {
        self.sent_msg_ids@
    }

    pub fn new(user_id: UserId, factory: F, tmp_directory: String) -> (r: Self)
        ensures
            r.sent() == Seq::<MessageId>::empty(),
            !r.spec_file_expected(),
            r.spec_sent() == Set::<MessageId>::empty(),
    {
        HelloDialogue { user_id, factory, sent_msg_ids: SentMessages::new(), tmp_directory, phantom: PhantomData }
    }
}

impl<F: RepositoriesFactory<R>, R> HelloDialogue<F, R> {
    /// Offers to create the repository when the user has none, else to
    /// open it.
    fn get_hello_buttons<C>(&self) -> (r: CtxResult<C>)
        ensures
            r is Buttons,
    {
        if self.factory.user_has_repository(&self.user_id.0) {
            CtxResult::Buttons(text_message(&["Репозиторий"]), vec![vec![button(OPEN_REPO, "Открыть репозиторий")]])
        } else {
            CtxResult::Buttons(text_message(&["Выберите действие"]), vec![vec![button(CREATE_REPO, "Создать репозиторий")]])
        }
    }

    pub fn init<C>(&mut self) -> (r: Result<Vec<CtxResult<C>>, StepError>)
        ensures
            r is Ok,
            r->Ok_0@.len() == 1,
            r->Ok_0@[0] is Buttons,
    {
        Ok(vec![self.get_hello_buttons()])
    }

    /// Removes the messages of this step.
    pub fn shutdown<C>(&mut self) -> (r: Result<Vec<CtxResult<C>>, StepError>)
        ensures
            r is Ok,
            r->Ok_0@.len() == 1,
            r->Ok_0@[0] is RemoveMessages,
            r->Ok_0@[0]->RemoveMessages_0@ == old(self).sent(),
            final(self).sent() == Seq::<MessageId>::empty(),
    {
        Ok(vec![CtxResult::RemoveMessages(self.sent_msg_ids.drain())])
    }

    /// Opening and creating the repository, and confirming a restore, hand
    /// control to the matching step; the pressed keyboard is removed.
    pub fn handle_select<C: StepFactory<F, R>>(&mut self, select: Select) -> (r: Result<Vec<CtxResult<C>>, StepError>)
        ensures
            r is Ok,
            r->Ok_0@.len() == 2,
            pressed(select.data, OPEN_REPO) || pressed(select.data, CREATE_REPO) || pressed(select.data, CONFIRM_RESTORE)
                <==> r->Ok_0@[0] is NewCtx,
            !(r->Ok_0@[0] is CloseCtx),
            select.msg_id is Some ==> r->Ok_0@[1] == CtxResult::<C>::RemoveMessages(r->Ok_0@[1]->RemoveMessages_0)
                && r->Ok_0@[1]->RemoveMessages_0@ == seq![select.msg_id->0],
            select.msg_id is None ==> r->Ok_0@[1] is Nothing,
    {
        proof {
            reveal_strlit("1");
            reveal_strlit("2");
            reveal_strlit("3");
            reveal_strlit("4");
            reveal_strlit("5");
            assert(OPEN_REPO@ == "2"@);
            assert("2"@[0] == '2');
            assert("5"@[0] == '5');
            assert(OPEN_REPO@ != CONFIRM_RESTORE@);
        }
        let result: CtxResult<C> = if is_text(&select.data, OPEN_REPO) {
            CtxResult::NewCtx(C::open_repo(self.factory.clone()))
        } else if is_text(&select.data, CREATE_REPO) {
            CtxResult::NewCtx(C::create_repo(self.factory.clone()))
        } else if is_text(&select.data, CANCEL_RESTORE) {
            self.get_hello_buttons()
        } else if is_text(&select.data, RESTORE_REPO) {
            CtxResult::Buttons(
                text_message(&["Вы уверены?"]),
                vec![vec![button(CONFIRM_RESTORE, "✅ Да")], vec![button(CANCEL_RESTORE, "❌ Нет")]],
            )
        } else if is_text(&select.data, CONFIRM_RESTORE) {
            CtxResult::NewCtx(C::restore(self.user_id.clone(), self.factory.clone(), self.tmp_directory.clone()))
        } else {
            CtxResult::Nothing
        };
        let removal = match select.msg_id {
            Some(msg_id) => {
                self.sent_msg_ids.forget(msg_id);
                CtxResult::RemoveMessages(vec![msg_id])
            },
            None => CtxResult::Nothing,
        };
        Ok(vec![result, removal])
    }

    /// Text is not expected here: the message is removed.
    pub fn handle_message<C>(&mut self, input: Message) -> (r: Result<Vec<CtxResult<C>>, StepError>)
        ensures
            r is Ok,
            r->Ok_0@.len() == 1,
            r->Ok_0@[0] is RemoveMessages,
            r->Ok_0@[0]->RemoveMessages_0@ == seq![input.id],
    {
        Ok(vec![CtxResult::RemoveMessages(vec![input.id])])
    }

    /// `/restore` asks whether to restore from a backup; the other commands
    /// get the default answer.
    pub fn handle_command<C>(&mut self, command: Message) -> (r: Result<Vec<CtxResult<C>>, StepError>)
        ensures
            r is Ok,
            is_reset(command.text) ==> r->Ok_0@[0] is CloseCtx,
            !is_reset(command.text) ==> !has_control(r->Ok_0@),
    {
        proof {
            reveal_strlit("/restore");
            reveal_strlit("/reset");
            assert(RESTORE_COMMAND@ == "/restore"@ && "/restore"@[4] == 't');
            assert(crate::steps::RESET_COMMAND@ == "/reset"@ && "/reset"@[4] == 'e');
        }
        if is_text(&command.text, RESTORE_COMMAND) {
            let r = vec![
                CtxResult::Buttons(
                    text_message(&["Если у вас уже есть сохранённые пароли, они будут удалены"]),
                    vec![vec![button(RESTORE_REPO, "💾 Восстановить")], vec![button(CANCEL_RESTORE, "❌ Отменить")]],
                ),
                CtxResult::RemoveMessages(vec![command.id]),
                CtxResult::RemoveMessages(self.sent_msg_ids.drain()),
            ];
            assert forall|i: int| 0 <= i < r@.len() implies !(#[trigger] r@[i]).spec_is_control() by {}
            Ok(r)
        } else {
            Ok(default_commands_handler(command))
        }
    }
}

impl<F, R> DialContext for HelloDialogue<F, R> {
    open spec fn spec_file_expected(&self) -> bool {
        false
    }

    closed spec fn spec_sent(&self) -> Set<MessageId> {
        self.sent_msg_ids@.to_set()
    }

    fn file_expected(&self) -> (r: bool) {
        false
    }

    fn remember_sent_messages(&mut self, msg_ids: Vec<MessageId>) {
        self.sent_msg_ids.remember(msg_ids)
    }
}

} // verus!
