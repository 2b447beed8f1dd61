//! The frame of a message between two peers, and the address of the peer.

use vstd::prelude::*;

verus! {

/// The port on which a peer listens.
pub const PEER_PORT: &'static str = ":26655";

/// How many bytes of an encoded message come before its content: one for
/// the size and four for the type of the content.
pub const HEADER_SIZE: u64 = 5;

/// The type of the content of a message.
#[derive(Clone, Copy, Debug, PartialEq, Eq, Structural)]
pub enum MessageContentType {
    I8,
    I16,
    I32,
    I64,
    ISIZE,
    U8,
    U16,
    U32,
    U64,
    USIZE,
    F32,
    F64,
    BOOL,
    CHAR,
    STRING,
    STR,
}

/// A message: its content, the type of the content and the size of the
/// whole in its encoded form, as far as one byte counts it.
pub struct NetworkMessage<T> {
    pub size: u8,
    pub content_type: MessageContentType,
    pub content: Box<T>,
}

/// The address of the peer, port included.
pub struct NetworkManager {
    pub remote_addr: String,
}

/// The type that goes by a name, if any does.
pub open spec fn type_named(name: Seq<char>) -> Option<MessageContentType> {
    if name == "i8"@ {
        Some(MessageContentType::I8)
    } else if name == "i16"@ {
        Some(MessageContentType::I16)
    } else if name == "i32"@ {
        Some(MessageContentType::I32)
    } else if name == "i64"@ {
        Some(MessageContentType::I64)
    } else if name == "isize"@ {
        Some(MessageContentType::ISIZE)
    } else if name == "u8"@ {
        Some(MessageContentType::U8)
    } else if name == "u16"@ {
        Some(MessageContentType::U16)
    } else if name == "u32"@ {
        Some(MessageContentType::U32)
    } else if name == "u64"@ {
        Some(MessageContentType::U64)
    } else if name == "usize"@ {
        Some(MessageContentType::USIZE)
    } else if name == "f32"@ {
        Some(MessageContentType::F32)
    } else if name == "f64"@ {
        Some(MessageContentType::F64)
    } else if name == "&str"@ {
        Some(MessageContentType::STR)
    } else if name == "char"@ {
        Some(MessageContentType::CHAR)
    } else if name == "alloc::string::String"@ {
        Some(MessageContentType::STRING)
    } else if name == "bool"@ {
        Some(MessageContentType::BOOL)
    } else {
        None
    }
}

/// The type that a tag stands for in an encoded message: the types in the
/// order of their declaration, from 0.
pub open spec fn type_tagged(tag: u8) -> MessageContentType
    recommends
        tag < 16,
{
    if tag == 0 {
        MessageContentType::I8
    } else if tag == 1 {
        MessageContentType::I16
    } else if tag == 2 {
        MessageContentType::I32
    } else if tag == 3 {
        MessageContentType::I64
    } else if tag == 4 {
        MessageContentType::ISIZE
    } else if tag == 5 {
        MessageContentType::U8
    } else if tag == 6 {
        MessageContentType::U16
    } else if tag == 7 {
        MessageContentType::U32
    } else if tag == 8 {
        MessageContentType::U64
    } else if tag == 9 {
        MessageContentType::USIZE
    } else if tag == 10 {
        MessageContentType::F32
    } else if tag == 11 {
        MessageContentType::F64
    } else if tag == 12 {
        MessageContentType::BOOL
    } else if tag == 13 {
        MessageContentType::CHAR
    } else if tag == 14 {
        MessageContentType::STRING
    } else {
        MessageContentType::STR
    }
}

/// Whether two texts are the same.
pub fn same_text(a: &str, b: &str) -> (same: bool)
    ensures
        same == (a@ == b@),
{
    a.to_owned() == b.to_owned()
}

impl MessageContentType {
    /// The type that goes by a name, if any does.
    pub fn named(name: &str) -> (found: Option<MessageContentType>)
        ensures
            found == type_named(name@),
    {
        if same_text(name, "i8") {
            Some(MessageContentType::I8)
        } else if same_text(name, "i16") {
            Some(MessageContentType::I16)
        } else if same_text(name, "i32") {
            Some(MessageContentType::I32)
        } else if same_text(name, "i64") {
            Some(MessageContentType::I64)
        } else if same_text(name, "isize") {
            Some(MessageContentType::ISIZE)
        } else if same_text(name, "u8") {
            Some(MessageContentType::U8)
        } else if same_text(name, "u16") {
            Some(MessageContentType::U16)
        } else if same_text(name, "u32") {
            Some(MessageContentType::U32)
        } else if same_text(name, "u64") {
            Some(MessageContentType::U64)
        } else if same_text(name, "usize") {
            Some(MessageContentType::USIZE)
        } else if same_text(name, "f32") {
            Some(MessageContentType::F32)
        } else if same_text(name, "f64") {
            Some(MessageContentType::F64)
        } else if same_text(name, "&str") {
            Some(MessageContentType::STR)
        } else if same_text(name, "char") {
            Some(MessageContentType::CHAR)
        } else if same_text(name, "alloc::string::String") {
            Some(MessageContentType::STRING)
        } else if same_text(name, "bool") {
            Some(MessageContentType::BOOL)
        } else {
            None
        }
    }

    /// The type that a tag stands for; none for a tag past the last type.
    pub fn from_tag(tag: u8) -> (found: Option<MessageContentType>)
        ensures
            tag < 16 ==> found == Some(type_tagged(tag)),
            tag >= 16 ==> found is None,
    {
        if tag == 0 {
            Some(MessageContentType::I8)
        } else if tag == 1 {
            Some(MessageContentType::I16)
        } else if tag == 2 {
            Some(MessageContentType::I32)
        } else if tag == 3 {
            Some(MessageContentType::I64)
        } else if tag == 4 {
            Some(MessageContentType::ISIZE)
        } else if tag == 5 {
            Some(MessageContentType::U8)
        } else if tag == 6 {
            Some(MessageContentType::U16)
        } else if tag == 7 {
            Some(MessageContentType::U32)
        } else if tag == 8 {
            Some(MessageContentType::U64)
        } else if tag == 9 {
            Some(MessageContentType::USIZE)
        } else if tag == 10 {
            Some(MessageContentType::F32)
        } else if tag == 11 {
            Some(MessageContentType::F64)
        } else if tag == 12 {
            Some(MessageContentType::BOOL)
        } else if tag == 13 {
            Some(MessageContentType::CHAR)
        } else if tag == 14 {
            Some(MessageContentType::STRING)
        } else if tag == 15 {
            Some(MessageContentType::STR)
        } else {
            None
        }
    }
}

/// The size of an encoded message as its one byte counts it: the header
/// and the content, modulo 256.
pub open spec fn framed_size(content_size: u64) -> u8 {
    ((HEADER_SIZE + content_size) % 256) as u8
}

impl<T> NetworkMessage<T> {
    /// The type of content that goes by `name`, the name that the compiler
    /// gives to the type of a content, for a name of one of the types of
    /// content. `MessageContentType::named` tells whether it is one.
    pub fn get_content_type(name: &str) -> (content_type: MessageContentType)
        requires
            type_named(name@) is Some,
        ensures
            Some(content_type) == type_named(name@),
    {
        match MessageContentType::named(name) {
            Some(content_type) => content_type,
            None => MessageContentType::STR,
        }
    }

    /// The message with the given content, for a content whose type goes by
    /// `name`, the name of one of the types of content, and whose encoded
    /// form takes `content_size` bytes.
    pub fn new(content: T, content_size: u64, name: &str) -> (message: NetworkMessage<T>)
        requires
            type_named(name@) is Some,
        ensures
            Some(message.content_type) == type_named(name@),
            *message.content == content,
            message.size == framed_size(content_size),
    {
        let size: u8 = ((HEADER_SIZE + content_size % 256) % 256) as u8;
        NetworkMessage {
            size,
            content_type: NetworkMessage::<T>::get_content_type(name),
            content: Box::new(content),
        }
    }
}

impl NetworkManager {
    /// The manager for the peer at the host `remote`.
    pub fn new(remote: String) -> (manager: NetworkManager)
        ensures
            manager.remote_addr@ == remote@ + PEER_PORT@,
    {
        NetworkManager { remote_addr: remote.concat(PEER_PORT) }
    }
}

} // verus!
