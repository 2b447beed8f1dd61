use pong2::networking::{
    same_text, MessageContentType, NetworkManager, NetworkMessage, HEADER_SIZE, PEER_PORT,
};
use pong2::utils::NetworkUtils;

#[test]
fn manager_adds_the_port_to_the_host() {
    let manager = NetworkManager::new(String::from("192.168.0.7"));
    assert_eq!(manager.remote_addr, "192.168.0.7:26655");
    assert_eq!(PEER_PORT, ":26655");
    let manager = NetworkManager::new(String::new());
    assert_eq!(manager.remote_addr, ":26655");
}

#[test]
fn content_types_go_by_the_names_of_their_types() {
    let named = |name: &str| Some(NetworkMessage::<u8>::get_content_type(name));
    assert_eq!(named("i8"), Some(MessageContentType::I8));
    assert_eq!(named("i16"), Some(MessageContentType::I16));
    assert_eq!(named("i32"), Some(MessageContentType::I32));
    assert_eq!(named("i64"), Some(MessageContentType::I64));
    assert_eq!(named("isize"), Some(MessageContentType::ISIZE));
    assert_eq!(named("u8"), Some(MessageContentType::U8));
    assert_eq!(named("u16"), Some(MessageContentType::U16));
    assert_eq!(named("u32"), Some(MessageContentType::U32));
    assert_eq!(named("u64"), Some(MessageContentType::U64));
    assert_eq!(named("usize"), Some(MessageContentType::USIZE));
    assert_eq!(named("f32"), Some(MessageContentType::F32));
    assert_eq!(named("f64"), Some(MessageContentType::F64));
    assert_eq!(named("&str"), Some(MessageContentType::STR));
    assert_eq!(named("char"), Some(MessageContentType::CHAR));
    assert_eq!(named("alloc::string::String"), Some(MessageContentType::STRING));
    assert_eq!(named("bool"), Some(MessageContentType::BOOL));
}

#[test]
fn unknown_type_names_have_no_content_type() {
    assert_eq!(MessageContentType::named("u128"), None);
    assert_eq!(MessageContentType::named(""), None);
    assert_eq!(MessageContentType::named("String"), None);
    assert_eq!(MessageContentType::named("I32"), None);
    assert_eq!(MessageContentType::named("alloc::vec::Vec<u8>"), None);
}

#[test]
fn message_counts_its_header_and_its_content() {
    let message = NetworkMessage::new(7i32, 4, "i32");
    assert_eq!(message.size, 9);
    assert_eq!(message.content_type, MessageContentType::I32);
    assert_eq!(*message.content, 7);
    assert_eq!(HEADER_SIZE, 5);
    let text = "Big string jumpscare";
    let message = NetworkMessage::new(text, 8 + text.len() as u64, "&str");
    assert_eq!(message.size, 33);
    assert_eq!(message.content_type, MessageContentType::STR);
    assert_eq!(*message.content, text);
}

#[test]
fn size_of_a_long_message_wraps_round_in_its_byte() {
    let message = NetworkMessage::new(true, 251, "bool");
    assert_eq!(message.size, 0);
    let message = NetworkMessage::new(true, 300, "bool");
    assert_eq!(message.size, 49);
    let message = NetworkMessage::new(true, u64::MAX, "bool");
    assert_eq!(message.size, 4);
}

#[test]
fn known_type_names_are_told_from_the_others() {
    for name in ["i8", "u64", "f32", "&str", "alloc::string::String", "bool", "char"] {
        let told = MessageContentType::named(name);
        assert_eq!(told, Some(NetworkMessage::<u8>::get_content_type(name)));
        assert_eq!(told, Some(NetworkMessage::new(0u8, 1, name).content_type));
    }
}

#[test]
fn tags_stand_for_the_types_in_their_order() {
    let order = [
        MessageContentType::I8,
        MessageContentType::I16,
        MessageContentType::I32,
        MessageContentType::I64,
        MessageContentType::ISIZE,
        MessageContentType::U8,
        MessageContentType::U16,
        MessageContentType::U32,
        MessageContentType::U64,
        MessageContentType::USIZE,
        MessageContentType::F32,
        MessageContentType::F64,
        MessageContentType::BOOL,
        MessageContentType::CHAR,
        MessageContentType::STRING,
        MessageContentType::STR,
    ];
    for (tag, expected) in order.iter().enumerate() {
        assert_eq!(MessageContentType::from_tag(tag as u8), Some(*expected));
    }
    assert_eq!(MessageContentType::from_tag(16), None);
    assert_eq!(MessageContentType::from_tag(255), None);
}

#[test]
fn header_is_read_from_the_first_two_bytes() {
    let encoded = [33u8, 15, 0, 0, 0, 20, 0, 0, 0];
    assert_eq!(NetworkUtils::decode_msg_header(&encoded), (33, MessageContentType::STR));
    assert_eq!(NetworkUtils::decode_msg_header(&[9, 2]), (9, MessageContentType::I32));
    assert_eq!(NetworkUtils::decode_msg_header(&[0, 0]), (0, MessageContentType::I8));
}

#[test]
fn texts_are_compared_by_their_characters() {
    assert!(same_text("abc", "abc"));
    assert!(!same_text("abc", "abd"));
    assert!(!same_text("abc", "ab"));
    assert!(same_text("", ""));
}
