//! The conversation steps of the password-keeping bot built on the engine.
//!
//! Each step is a small state machine over the user's inputs; it answers with
//! raw effects and hands control to the next step with `NewCtx`. Steps are
//! generic over the type `C` that the host uses for steps, built through
//! [`StepFactory`], and over the storage of repositories.
use vstd::prelude::*;
use vstd::string::StringExecFns;

use crate::dialogues::{has_control, CtxResult, Message, MessageId, OutgoingMessage, UserId};
use crate::storage::{AddRecordError, RepositoryOpenError, UpdateRecordError};

pub mod add_record;
pub mod create_repo;
pub mod edit_record;
pub mod fields;
pub mod hello;
pub mod open_repo;
pub mod restore;
pub mod view_record;
pub mod view_repo;

verus! {

pub const RESET_COMMAND: &'static str = "/reset";

pub const CANCEL_COMMAND: &'static str = "/cancel";

pub const BACKUP_COMMAND: &'static str = "/backup";

pub const RESTORE_COMMAND: &'static str = "/restore";

/// The state the bot's chat keeps for a user besides the session.
#[derive(Debug, Clone, Copy, PartialEq, Eq, Structural)]
pub enum BotState {
    Default,
}

impl Default for BotState {
    fn default() -> (r: Self)
        ensures
            r == BotState::Default,
    {
        BotState::Default
    }
}

/// Why a step could not handle an input.
#[derive(Debug)]
pub enum StepError {
    /// The message came without the user who sent it.
    MissingUser(MessageId),
    /// The storage failed.
    Storage(anyhow::Error),
    /// The repository could not be opened.
    Open(RepositoryOpenError),
    /// A record could not be added.
    Add(AddRecordError),
    /// A record could not be updated or deleted.
    Update(UpdateRecordError),
    /// A button press came without a payload.
    MissingSelection,
    /// A button press named no field of a record.
    UnknownField(String),
    /// The record being edited is gone.
    MissingRecord(String),
    /// The record being edited has no field of the name given.
    MissingField(String),
}

/// Builds the steps a step hands control to. `F` is the storage of
/// repositories, `R` an open repository.
pub trait StepFactory<F, R>: Sized {
    fn hello(user_id: UserId, factory: F, tmp_directory: String) -> Self;

    fn open_repo(factory: F) -> Self;

    fn create_repo(factory: F) -> Self;

    fn restore(user_id: UserId, factory: F, tmp_directory: String) -> Self;

    fn view_repo(repo: R) -> Self;

    fn add_record(repo: R) -> Self;

    fn view_record(repo: R, record_id: String) -> Self;

    fn edit_record(record_id: String, repo: R) -> Self;
}

/// Whether `text` is the text `name`.
pub fn is_text(text: &Option<String>, name: &str) -> (r: bool)
    ensures
        r == (text is Some && text->0@ == name@),
{
    match text {
        Some(t) => *t == String::from_str(name),
        None => false,
    }
}

/// A plain-text message with the text of `parts`, joined.
pub(crate) fn text_message(parts: &[&str]) -> (r: OutgoingMessage) {
    let mut text = String::new();
    let mut i: usize = 0;
    while i < parts.len()
        decreases parts.len() - i,
    {
        text.append(parts[i]);
        i = i + 1;
    }
    OutgoingMessage::plain(text)
}

/// The ids of the messages a step sent and the channel delivered, each once.
pub struct SentMessages {
    ids: Vec<MessageId>,
}

impl View for SentMessages {
    type V = Seq<MessageId>;

    closed spec fn view(&self) -> Seq<MessageId> {
        self.ids@
    }
}

impl SentMessages {
    pub fn new() -> (r: Self)
        ensures
            r@ == Seq::<MessageId>::empty(),
    {
        SentMessages { ids: Vec::new() }
    }

    /// Whether `id` is remembered.
    pub fn contains(&self, id: MessageId) -> (r: bool)
        ensures
            r == self@.contains(id),
    {
        let mut i: usize = 0;
        while i < self.ids.len()
            invariant
                i <= self.ids@.len(),
                forall|j: int| 0 <= j < i ==> self.ids@[j] != id,
            decreases self.ids@.len() - i,
        {
            if self.ids[i] == id {
                return true;
            }
            i = i + 1;
        }
        false
    }

    /// Remembers each of `ids` that is not remembered yet.
    pub fn remember(&mut self, ids: Vec<MessageId>)
        ensures
            final(self)@.to_set() == old(self)@.to_set() + ids@.to_set(),
    {
        let mut i: usize = 0;
        while i < ids.len()
            invariant
                i <= ids@.len(),
                self@.to_set() == old(self)@.to_set() + ids@.take(i as int).to_set(),
            decreases ids@.len() - i,
        {
            let id = ids[i];
            let ghost before = self@;
            if !self.contains(id) {
                self.ids.push(id);
                proof {
                    before.lemma_push_to_set_commute(id);
                }
            } else {
                assert(before.to_set().insert(id) =~= before.to_set());
            }
            assert(ids@.take(i as int + 1) =~= ids@.take(i as int).push(id));
            proof {
                ids@.take(i as int).lemma_push_to_set_commute(id);
            }
            i = i + 1;
        }
        assert(ids@.take(ids@.len() as int) =~= ids@);
    }

    /// Forgets `id`.
    pub fn forget(&mut self, id: MessageId)
        ensures
            final(self)@.to_set() == old(self)@.to_set().remove(id),
    {
        let ghost before = self@;
        let mut kept: Vec<MessageId> = Vec::new();
        let mut i: usize = 0;
        while i < self.ids.len()
            invariant
                i <= self.ids@.len(),
                self@ == before,
                kept@.to_set() == before.take(i as int).to_set().remove(id),
            decreases self.ids@.len() - i,
        {
            let x = self.ids[i];
            assert(before.take(i as int + 1) =~= before.take(i as int).push(x));
            proof {
                before.take(i as int).lemma_push_to_set_commute(x);
            }
            if x != id {
                let ghost kb = kept@;
                kept.push(x);
                proof {
                    kb.lemma_push_to_set_commute(x);
                }
            }
            i = i + 1;
        }
        assert(before.take(before.len() as int) =~= before);
        self.ids = kept;
    }

    /// Hands out every remembered id and forgets them all.
    pub fn drain(&mut self) -> (r: Vec<MessageId>)
        ensures
            r@ == old(self)@,
            final(self)@ == Seq::<MessageId>::empty(),
    {
        let mut out = Vec::new();
        std::mem::swap(&mut out, &mut self.ids);
        out
    }
}

/// The answer to a command that the step does not handle itself: `/reset`
/// closes the conversation, the others are answered with a notice; the
/// command's message is removed in every case.
pub fn default_commands_handler<C>(command: Message) -> (r: Vec<CtxResult<C>>)
    ensures
        r@.len() >= 1,
        r@.last() is RemoveMessages,
        r@.last()->RemoveMessages_0@ == seq![command.id],
        is_reset(command.text) ==> r@ =~= seq![CtxResult::CloseCtx, r@.last()],
        !is_reset(command.text) ==> !has_control(r@),
        command.text is None ==> r@.len() == 1,
        command.text is Some && !is_reset(command.text) ==> r@.len() == 2 && r@[0] is Messages
            && r@[0]->Messages_0@.len() == 1,
{
    let remove_msg = CtxResult::RemoveMessages(vec![command.id]);
    let r = if is_text(&command.text, RESET_COMMAND) {
        vec![CtxResult::CloseCtx, remove_msg]
    } else if is_text(&command.text, CANCEL_COMMAND) {
        vec![
            CtxResult::Messages(vec![text_message(&["Эта команда \"", CANCEL_COMMAND, "\" не поддерживается в этом диалоге"])]),
            remove_msg,
        ]
    } else if is_text(&command.text, BACKUP_COMMAND) {
        vec![
            CtxResult::Messages(vec![text_message(&["Команда для создания бекапа поддерживается только в диалоге просмотра репозитория"])]),
            remove_msg,
        ]
    } else if is_text(&command.text, RESTORE_COMMAND) {
        vec![
            CtxResult::Messages(vec![text_message(&["Команда восстановления из бекапа поддерживается только в диалоге открытия/создания репозитория"])]),
            remove_msg,
        ]
    } else {
        match &command.text {
            Some(cmd) => vec![
                CtxResult::Messages(vec![text_message(&["Неизвестная команда \"", cmd.as_str(), "\""])]),
                remove_msg,
            ],
            None => vec![remove_msg],
        }
    };
    proof {
        assert forall|i: int| 0 <= i < r@.len() && !is_reset(command.text) implies !(#[trigger] r@[i]).spec_is_control() by {}
    }
    r
}

/// Whether `text` is the command that resets the conversation.
pub open spec fn is_reset(text: Option<String>) -> bool {
    text is Some && text->0@ == RESET_COMMAND@
}

} // verus!
