use chat_pipeline::clients::chat::{ContextBuilder, Role};
use chat_pipeline::message_types::{ChatType, RequestMessage, ResponseMessage};

#[test]
fn context_builder_starts_empty() {
    let b = ContextBuilder::new();
    assert_eq!(b.build().len(), 0);
}

#[test]
fn context_builder_stamps_roles_and_trims() {
    let mut b = ContextBuilder::new();
    b.add_message(Role::System, "  be brief  ".to_string());
    b.add_message(Role::User, "hello\n".to_string());
    b.add_message(Role::Assistant, "hi".to_string());
    let msgs = b.build();
    assert_eq!(msgs.len(), 3);
    assert_eq!(msgs[0].role, "system");
    assert_eq!(msgs[0].content, "be brief");
    assert_eq!(msgs[1].role, "user");
    assert_eq!(msgs[1].content, "hello");
    assert_eq!(msgs[2].role, "assistant");
    assert_eq!(msgs[2].content, "hi");
}

#[test]
fn context_builder_chains() {
    let mut b = ContextBuilder::new();
    b.add_message(Role::User, "one".to_string()).add_message(Role::Assistant, "two".to_string());
    let msgs = b.build();
    assert_eq!(msgs.len(), 2);
    assert_eq!(msgs[0].content, "one");
    assert_eq!(msgs[1].content, "two");
}

#[test]
fn role_names() {
    assert_eq!(Role::System.name(), "system");
    assert_eq!(Role::User.name(), "user");
    assert_eq!(Role::Assistant.name(), "assistant");
}

#[test]
fn request_message_starts_without_context() {
    let m = RequestMessage::new("hi".to_string(), "alice".to_string(), ChatType::Private, 42);
    assert_eq!(m.text, "hi");
    assert_eq!(m.username, "alice");
    assert_eq!(m.context.len(), 0);
    assert_eq!(m.chat_id, 42);
    assert_eq!(m.sent_by, "");
}

#[test]
fn response_message_plain_text() {
    let r = ResponseMessage::new("hello".to_string());
    assert_eq!(r.text, "hello");
    assert!(r.bytes.is_none());
    assert!(r.options.is_none());
}

#[test]
fn response_message_with_bytes() {
    let r = ResponseMessage::new_with_bytes("report.txt".to_string(), vec![1, 2, 3]);
    assert_eq!(r.text, "report.txt");
    assert_eq!(r.bytes, Some(vec![1, 2, 3]));
    assert!(r.options.is_none());
}

#[test]
fn response_message_with_options() {
    let r = ResponseMessage::new_with_options(
        "pick one".to_string(),
        vec!["yes".to_string(), "no".to_string()],
    );
    assert_eq!(r.text, "pick one");
    assert!(r.bytes.is_none());
    assert_eq!(r.options, Some(vec!["yes".to_string(), "no".to_string()]));
}
