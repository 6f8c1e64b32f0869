use vstd::prelude::*;

use crate::layers::memory::{StoredMessage, StoredMessageView};

verus! {

/// Which kind of conversation a message belongs to: a private chat, or a
/// group chat with the group's name.
#[derive(Clone, PartialEq)]
pub enum ChatType {
    Private,
    Group(String),
}

pub ghost enum ChatTypeView {
    Private,
    Group(Seq<char>),
}

impl View for ChatType {
    type V = ChatTypeView;

    open spec fn view(&self) -> ChatTypeView {
        match self {
            ChatType::Private => ChatTypeView::Private,
            ChatType::Group(name) => ChatTypeView::Group(name@),
        }
    }
}

/// One inbound conversational turn awaiting processing.
pub struct RequestMessage {
    pub text: String,
    /// The registered username of the user who sent the message,
    /// which can also be the name of the chat if in a group
    pub username: String,
    pub context: Vec<StoredMessage>,
    pub chat_type: ChatType,
    pub chat_id: i64,
    /// Actual users name, including if in group chat
    pub sent_by: String,
}

pub ghost struct RequestMessageView {
    pub text: Seq<char>,
    pub username: Seq<char>,
    pub context: Seq<StoredMessageView>,
    pub chat_type: ChatTypeView,
    pub chat_id: int,
    pub sent_by: Seq<char>,
}

impl View for RequestMessage {
    type V = RequestMessageView;

    open spec fn view(&self) -> RequestMessageView {
        RequestMessageView {
            text: self.text@,
            username: self.username@,
            context: self.context@.map_values(|m: StoredMessage| m@),
            chat_type: self.chat_type@,
            chat_id: self.chat_id as int,
            sent_by: self.sent_by@,
        }
    }
}

impl RequestMessage {
    /// A fresh request: no context yet, nobody recorded as sender.
    pub fn new(text: String, username: String, chat_type: ChatType, chat_id: i64) -> (r: Self)
        ensures
            r@.text == text@,
            r@.username == username@,
            r@.context == Seq::<StoredMessageView>::empty(),
            r@.chat_type == chat_type@,
            r@.chat_id == chat_id as int,
            r@.sent_by == Seq::<char>::empty(),
    {
        let r = RequestMessage {
            text,
            username,
            context: Vec::new(),
            chat_type,
            chat_id,
            sent_by: String::new(),
        };
        proof {
            assert(r@.context =~= Seq::<StoredMessageView>::empty());
        }
        r
    }
}

/// The pipeline's answer to a request. `text` is always present; `bytes`
/// and `options` are independent optional payloads.
#[derive(Clone, Debug)]
pub struct ResponseMessage {
    pub text: String,
    /// If the response is a file, it will be sent to the user as a
    /// document and the text will be used as the filename
    pub bytes: Option<Vec<u8>>,
    /// Inline button options
    pub options: Option<Vec<String>>,
}

pub ghost struct ResponseMessageView {
    pub text: Seq<char>,
    pub bytes: Option<Seq<u8>>,
    pub options: Option<Seq<Seq<char>>>,
}

impl View for ResponseMessage {
    type V = ResponseMessageView;

    open spec fn view(&self) -> ResponseMessageView {
        ResponseMessageView {
            text: self.text@,
            bytes: match self.bytes {
                Option::None => Option::None,
                Option::Some(b) => Option::Some(b@),
            },
            options: match self.options {
                Option::None => Option::None,
                Option::Some(o) => Option::Some(o@.map_values(|s: String| s@)),
            },
        }
    }
}

impl ResponseMessage {
    /// A plain text answer.
    pub fn new(text: String) -> (r: Self)
        ensures
            r@.text == text@,
            r@.bytes is None,
            r@.options is None,
    {
        ResponseMessage { text, bytes: Option::None, options: Option::None }
    }

    /// A file answer: the bytes are the document, the text its filename.
    pub fn new_with_bytes(text: String, bytes: Vec<u8>) -> (r: Self)
        ensures
            r@.text == text@,
            r@.bytes == Option::Some(bytes@),
            r@.options is None,
    {
        ResponseMessage { text, bytes: Option::Some(bytes), options: Option::None }
    }

    /// A text answer with quick-reply options.
    pub fn new_with_options(text: String, options: Vec<String>) -> (r: Self)
        ensures
            r@.text == text@,
            r@.bytes is None,
            r@.options == Option::Some(options@.map_values(|s: String| s@)),
    {
        ResponseMessage { text, bytes: Option::None, options: Option::Some(options) }
    }
}

} // verus!
