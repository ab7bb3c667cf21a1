use sniprun::data::ReturnMessageType;
use sniprun::events::{filetype_from_answer, index_from_name, return_message_type_from, Messages};

#[test]
fn messages_from_event_names() {
    assert_eq!(Messages::from(String::from("run")), Messages::Run);
    assert_eq!(Messages::from(String::from("clean")), Messages::Clean);
    assert_eq!(Messages::from(String::from("clearrepl")), Messages::ClearReplMemory);
    assert_eq!(Messages::from(String::from("ping")), Messages::Ping);
    assert_eq!(Messages::from(String::from("info")), Messages::Info);
    assert_eq!(
        Messages::from(String::from("other")),
        Messages::Unknown(String::from("other"))
    );
}

#[test]
fn config_key_lookup() {
    let keys = vec![
        String::from("a"),
        String::from("display"),
        String::from("display"),
    ];
    assert_eq!(index_from_name("display", &keys), 1);
    assert_eq!(index_from_name("missing", &keys), 0);
}

#[test]
fn filetype_answer_parsing() {
    assert_eq!(filetype_from_answer("  filetype=python"), "python");
    assert_eq!(filetype_from_answer("a=b=rust"), "rust");
    assert_eq!(filetype_from_answer("plain"), "plain");
    assert_eq!(filetype_from_answer("x="), "");
}

#[test]
fn inline_messages_setting() {
    assert_eq!(return_message_type_from(1), ReturnMessageType::EchoMsg);
    assert_eq!(return_message_type_from(0), ReturnMessageType::Multiline);
}
