//! Restores the user's repository from a backup file: takes the uploaded
//! file, then its password. The driver keeps the uploaded file on disk: it
//! stages an upload before `file_staged` and removes what
//! `take_staged_file` hands back.
use vstd::prelude::*;

use std::marker::PhantomData;

use crate::controller::DialContext;
use crate::dialogues::{has_control, CtxResult, Message, MessageId, Select, UserId};
use crate::steps::open_repo::remove_origin;
use crate::steps::{default_commands_handler, is_reset, text_message, SentMessages, StepError, StepFactory};
use crate::storage::{RepositoriesFactory, RepositoryLoadError};

verus! {

pub struct RestoreDialogue<F, R> {
    user_id: UserId,
    factory: F,
    sent_msg_ids: SentMessages,
    file: Option<String>,
    tmp_directory: String,
    phantom: PhantomData<R>,
}

impl<F, R> RestoreDialogue<F, R> {
    /// The path of the uploaded file kept for the restore, if any.
    pub closed spec fn staged(&self) -> Option<Seq<char>> {
        match self.file {
            Some(path) => Some(path@),
            None => None,
        }
    }

    /// The ids of the messages of this step that were delivered.
    pub closed spec fn sent(&self) -> Seq<MessageId> {
        self.sent_msg_ids@
    }

    pub fn new(user_id: UserId, factory: F, tmp_directory: String) -> (r: Self)
        ensures
            r.staged() is None,
            r.sent() == Seq::<MessageId>::empty(),
            r.spec_file_expected(),
    {
        RestoreDialogue {
            user_id,
            factory,
            sent_msg_ids: SentMessages::new(),
            file: None,
            tmp_directory,
            phantom: PhantomData,
        }
    }

    /// The user whose repository is restored.
    pub fn user_id(&self) -> &UserId {
        &self.user_id
    }

    /// Where uploads are kept.
    pub fn tmp_directory(&self) -> &str {
        self.tmp_directory.as_str()
    }

    /// Hands out the uploaded file, which the step forgets.
    pub fn take_staged_file(&mut self) -> (r: Option<String>)
        ensures
            final(self).staged() is None,
            r is None <==> old(self).staged() is None,
            r is Some ==> old(self).staged() == Some(r->0@),
            final(self).sent() == old(self).sent(),
    {
        self.file.take()
    }
}

impl<F: RepositoriesFactory<R>, R> RestoreDialogue<F, R> {
    pub fn init<C>(&mut self) -> (r: Result<Vec<CtxResult<C>>, StepError>)
        ensures
            r is Ok,
            r->Ok_0@.len() == 1,
            r->Ok_0@[0] is Messages,
    {
        Ok(vec![CtxResult::Messages(vec![text_message(&["Отправьте файл который хотите использовать для восстановления"])])])
    }

    /// Removes the messages of this step; the driver has removed the
    /// uploaded file first.
    pub fn shutdown<C>(&mut self) -> (r: Result<Vec<CtxResult<C>>, StepError>)
        ensures
            r is Ok,
            r->Ok_0@.len() == 1,
            r->Ok_0@[0] is RemoveMessages,
            r->Ok_0@[0]->RemoveMessages_0@ == old(self).sent(),
            final(self).sent() == Seq::<MessageId>::empty(),
    {
        Ok(vec![CtxResult::RemoveMessages(self.sent_msg_ids.drain())])
    }

    /// Buttons are not expected here: the keyboard is removed.
    pub fn handle_select<C>(&mut self, select: Select) -> (r: Result<Vec<CtxResult<C>>, StepError>)
        ensures
            r is Ok,
            r->Ok_0@.len() == 1,
            select.msg_id is Some ==> r->Ok_0@[0] is RemoveMessages && r->Ok_0@[0]->RemoveMessages_0@ == seq![select.msg_id->0],
            select.msg_id is None ==> r->Ok_0@[0] is Nothing,
    {
        match select.msg_id {
            Some(msg_id) => self.sent_msg_ids.forget(msg_id),
            None => {},
        }
        Ok(vec![remove_origin(&select)])
    }

    /// Takes the file the driver kept from the upload in the message
    /// `msg_id`, which stays until the step ends, and asks for its password;
    /// tells when it replaced an earlier upload.
    pub fn file_staged<C>(&mut self, msg_id: MessageId, replaced: bool, path: String) -> (r: Vec<CtxResult<C>>)
        ensures
            final(self).staged() == Some(path@),
            final(self).sent().to_set() == old(self).sent().to_set().insert(msg_id),
            r@.len() == (if replaced { 2int } else { 1int }),
            !has_control(r@),
    {
        let ghost before = self.sent_msg_ids@;
        let ids = vec![msg_id];
        proof {
            let e = Seq::<MessageId>::empty();
            e.lemma_push_to_set_commute(msg_id);
            assert(e.push(msg_id) =~= ids@);
            assert(e.to_set() =~= Set::<MessageId>::empty());
            assert(before.to_set() + ids@.to_set() =~= before.to_set().insert(msg_id));
        }
        self.sent_msg_ids.remember(ids);
        let mut r = Vec::new();
        if replaced {
            r.push(CtxResult::Messages(vec![text_message(&["Изменён загруженный файл"])]));
        }
        r.push(CtxResult::Messages(vec![text_message(&["Введите пароль от файла"])]));
        self.file = Some(path);
        assert forall|i: int| 0 <= i < r@.len() implies !(#[trigger] r@[i]).spec_is_control() by {}
        r
    }

    /// With a file kept, the text is its password: the restored repository
    /// hands control to its view, a wrong password or a bad file is told.
    /// The message is removed.
    pub fn handle_message<C: StepFactory<F, R>>(&mut self, input: Message) -> (r: Result<Vec<CtxResult<C>>, StepError>)
        ensures
            r is Ok,
            r->Ok_0@[0] is RemoveMessages,
            r->Ok_0@[0]->RemoveMessages_0@ == seq![input.id],
            r->Ok_0@.len() == (if old(self).staged() is Some && input.text is Some { 2int } else { 1int }),
            r->Ok_0@.len() == 2 ==> (r->Ok_0@[1] is NewCtx || r->Ok_0@[1] is Messages),
            r->Ok_0@.len() == 2 && r->Ok_0@[1] is NewCtx ==> final(self).staged() is None,
            !(r->Ok_0@.len() == 2 && r->Ok_0@[1] is NewCtx) ==> final(self).staged() == old(self).staged(),
    {
        let removal = CtxResult::RemoveMessages(vec![input.id]);
        let passwd = match input.text {
            Some(passwd) => passwd,
            None => {
                return Ok(vec![removal]);
            },
        };
        let next = match &self.file {
            Some(file) => match self.factory.load_user_repository(&self.user_id.0, passwd, file) {
                Ok(repo) => CtxResult::NewCtx(C::view_repo(repo)),
                Err(RepositoryLoadError::WrongPassword) => CtxResult::Messages(
                    vec![text_message(&["Неверный пароль, попробуйте ещё раз"])],
                ),
                Err(_) => CtxResult::Messages(
                    vec![text_message(&["Не удалось восстановить БД, убедитесь что отправлен верный файл"])],
                ),
            },
            None => {
                return Ok(vec![removal]);
            },
        };
        if next.is_control() {
            self.file = None;
        }
        Ok(vec![removal, next])
    }

    /// Commands get the default answer.
    pub fn handle_command<C>(&mut self, command: Message) -> (r: Result<Vec<CtxResult<C>>, StepError>)
        ensures
            r is Ok,
            is_reset(command.text) ==> r->Ok_0@[0] is CloseCtx,
            !is_reset(command.text) ==> !has_control(r->Ok_0@),
    {
        Ok(default_commands_handler(command))
    }
}

impl<F, R> DialContext for RestoreDialogue<F, R> {
    open spec fn spec_file_expected(&self) -> bool {
        true
    }

    closed spec fn spec_sent(&self) -> Set<MessageId> {
        self.sent_msg_ids@.to_set()
    }

    fn file_expected(&self) -> (r: bool) {
        true
    }

    fn remember_sent_messages(&mut self, msg_ids: Vec<MessageId>) {
        self.sent_msg_ids.remember(msg_ids)
    }
}

} // verus!
