//! The vocabulary shared by conversation steps and the engine: outgoing
//! messages and documents, inbound interactions, and the raw effects a step
//! may request.
use vstd::prelude::*;

verus! {

/// How the text of an outgoing message is to be rendered.
#[derive(Debug, Clone, Copy, PartialEq, Eq, Structural)]
pub enum MessageFormat {
    Text,
    Html,
}

/// A file to send: its bytes and the name it is sent under.
#[derive(Debug, PartialEq)]
pub struct OutgoingDocument {
    pub data: Vec<u8>,
    pub name: String,
}

impl OutgoingDocument {
    pub fn new(data: Vec<u8>, name: String) -> (r: Self)
        ensures
            r.data@ == data@,
            r.name@ == name@,
    {
        OutgoingDocument { data, name }
    }
}

/// A text message to send, with its format tag.
#[derive(Debug, PartialEq)]
pub struct OutgoingMessage {
    text: String,
    pub format: MessageFormat,
}

impl View for OutgoingMessage {
    /// The text and its format tag.
    type V = (Seq<char>, MessageFormat);

    closed spec fn view(&self) -> (Seq<char>, MessageFormat) {
        (self.text@, self.format)
    }
}

impl OutgoingMessage {
    pub fn new(text: String, format: MessageFormat) -> (r: Self)
        ensures
            r@ == (text@, format),
    {
        OutgoingMessage { text, format }
    }

    pub fn text(&self) -> (r: &str)
        ensures
            r@ == self@.0,
    {
        self.text.as_str()
    }

    pub fn format(&self) -> (r: MessageFormat)
        ensures
            r == self@.1,
    {
        self.format
    }

    /// A plain-text message.
    pub fn plain(text: String) -> (r: Self)
        ensures
            r@ == (text@, MessageFormat::Text),
    {
        OutgoingMessage::new(text, MessageFormat::Text)
    }

    /// Gives the text back, dropping the format tag.
    pub fn into_text(self) -> (r: String)
        ensures
            r@ == self@.0,
    {
        self.text
    }
}

/// The identifier the channel gave to a message it delivered.
#[derive(Debug, Clone, Copy, PartialEq, Eq, Structural, Hash)]
pub struct MessageId(pub i32);

/// The identifier of a user on the channel.
#[derive(Debug, Clone)]
pub struct UserId(pub String);

impl UserId {
    /// The identifier as text.
    pub fn into_string(self) -> (r: String)
        ensures
            r@ == self.0@,
    {
        self.0
    }
}

/// An inbound text message (or command), possibly with an attached file,
/// given as the path where the host stored it.
#[derive(Clone)]
pub struct Message {
    pub id: MessageId,
    pub text: Option<String>,
    pub user_id: Option<UserId>,
    pub document_file: Option<String>,
}

impl Message {
    pub fn new(
        id: MessageId,
        text: Option<String>,
        user_id: Option<UserId>,
        document_file: Option<String>,
    ) -> (r: Self)
        ensures
            r.id == id,
            r.text == text,
            r.user_id == user_id,
            r.document_file == document_file,
    {
        Message { id, text, user_id, document_file }
    }

    pub fn text(&self) -> (r: Option<&str>)
        ensures
            r is None <==> self.text is None,
            r is Some ==> r->0@ == self.text->0@,
    {
        match &self.text {
            Some(text) => Some(text.as_str()),
            None => None,
        }
    }

    pub fn document_file(&self) -> (r: Option<&str>)
        ensures
            r is None <==> self.document_file is None,
            r is Some ==> r->0@ == self.document_file->0@,
    {
        match &self.document_file {
            Some(path) => Some(path.as_str()),
            None => None,
        }
    }
}

/// A press on an interactive button: the message that carried the keyboard,
/// the payload of the pressed button, and the user who pressed it.
#[derive(Clone)]
pub struct Select {
    pub msg_id: Option<MessageId>,
    pub data: Option<String>,
    pub user_id: UserId,
}

impl Select {
    pub fn new(msg_id: Option<MessageId>, data: Option<String>, user_id: UserId) -> (r: Self)
        ensures
            r.msg_id == msg_id,
            r.data == data,
            r.user_id == user_id,
    {
        Select { msg_id, data, user_id }
    }

    pub fn data(&self) -> (r: Option<&str>)
        ensures
            r is None <==> self.data is None,
            r is Some ==> r->0@ == self.data->0@,
    {
        match &self.data {
            Some(data) => Some(data.as_str()),
            None => None,
        }
    }
}

/// What a button hands back when pressed.
#[derive(Debug, PartialEq)]
pub struct ButtonPayload(pub String);

impl ButtonPayload {
    pub fn into_string(self) -> (r: String)
        ensures
            r@ == self.0@,
    {
        self.0
    }
}

/// Rows of buttons, each a payload and its label.
pub type Selector = Vec<Vec<(ButtonPayload, String)>>;

/// An effect requested by a conversation step. `C` is the type of the steps
/// themselves: `NewCtx` hands control to another step, `CloseCtx` ends the
/// conversation. Those two are resolved by the engine and never delivered.
pub enum CtxResult<C> {
    Messages(Vec<OutgoingMessage>),
    Document(OutgoingDocument),
    RemoveMessages(Vec<MessageId>),
    Buttons(OutgoingMessage, Selector),
    NewCtx(C),
    CloseCtx,
    Nothing,
}

impl<C> CtxResult<C> {
    /// Whether this effect hands off or ends the conversation.
    pub open spec fn spec_is_control(self) -> bool {
        self is NewCtx || self is CloseCtx
    }

    pub fn is_control(&self) -> (r: bool)
        ensures
            r == self.spec_is_control(),
    {
        match self {
            CtxResult::NewCtx(_) => true,
            CtxResult::CloseCtx => true,
            _ => false,
        }
    }
}

/// Whether some effect of `s` is a control effect.
pub open spec fn has_control<C>(s: Seq<CtxResult<C>>) -> bool {
    exists|i: int| 0 <= i < s.len() && (#[trigger] s[i]).spec_is_control()
}

} // verus!
