use chat_pipeline::clients::chat::Role;
use chat_pipeline::clients::muninn::{
    AttributeResponse, ChatResponse, MunninClient, SaveLog, StoreError,
};
use chat_pipeline::layers::memory::{resolve_identity, translate_role, MemoryLayer, StoredMessage};
use chat_pipeline::layers::{CallLog, Layer};
use chat_pipeline::message_types::{ChatType, RequestMessage, ResponseMessage};

struct EchoLayer {
    calls: usize,
    seen_context: Vec<StoredMessage>,
    seen_text: String,
    reply: String,
}

impl EchoLayer {
    fn replying(reply: &str) -> Self {
        EchoLayer {
            calls: 0,
            seen_context: Vec::new(),
            seen_text: String::new(),
            reply: reply.to_string(),
        }
    }
}

impl Layer for EchoLayer {
    fn history(&self) -> CallLog {
        unreachable!()
    }

    fn execute(&mut self, message: &mut RequestMessage) -> ResponseMessage {
        self.calls += 1;
        self.seen_context = message.context.clone();
        self.seen_text = message.text.clone();
        ResponseMessage::new(self.reply.clone())
    }
}

struct FakeStore {
    context: Result<Vec<ChatResponse>, StoreError>,
    saves: Vec<(String, String, String)>,
}

impl FakeStore {
    fn with_context(context: Vec<ChatResponse>) -> Self {
        FakeStore { context: Ok(context), saves: Vec::new() }
    }

    fn failing(err: StoreError) -> Self {
        FakeStore { context: Err(err), saves: Vec::new() }
    }
}

impl MunninClient for FakeStore {
    fn saved(&self) -> SaveLog {
        unreachable!()
    }

    fn save(
        &mut self,
        username: &String,
        role: String,
        content: String,
    ) -> Result<(), StoreError> {
        self.saves.push((username.clone(), role, content));
        Ok(())
    }

    fn get_context(
        &self,
        _username: &String,
        _message: &RequestMessage,
    ) -> Result<Vec<ChatResponse>, StoreError> {
        match &self.context {
            Ok(v) => Ok(v.clone()),
            Err(e) => Err(*e),
        }
    }

    fn get_chat_message(
        &self,
        _username: &String,
        _hash: &String,
    ) -> Result<ChatResponse, StoreError> {
        Err(StoreError::NetworkFailure)
    }

    fn save_attribute(
        &self,
        _username: &String,
        _attribute: String,
        _value: String,
    ) -> Result<(), StoreError> {
        Ok(())
    }

    fn get_attribute(
        &self,
        _username: &String,
        _attribute: String,
    ) -> Result<AttributeResponse, StoreError> {
        Err(StoreError::NetworkFailure)
    }
}

fn private_request(text: &str, username: &str) -> RequestMessage {
    RequestMessage::new(text.to_string(), username.to_string(), ChatType::Private, 1)
}

#[test]
fn resolve_private_identity() {
    let m = private_request("hi", "alice");
    assert_eq!(resolve_identity(&m), "alice");
}

#[test]
fn resolve_group_identity() {
    let m = RequestMessage::new(
        "hi".to_string(),
        "alice".to_string(),
        ChatType::Group("team-x".to_string()),
        1,
    );
    assert_eq!(resolve_identity(&m), "team-x");
}

#[test]
fn resolve_through_layer_method() {
    let layer = MemoryLayer::new(EchoLayer::replying("ok"), FakeStore::with_context(Vec::new()));
    let m = private_request("hi", "bob");
    assert_eq!(layer.get_username_from_messsage(&m), "bob");
}

#[test]
fn role_translation_user() {
    assert_eq!(translate_role(&"user".to_string()), Role::User);
}

#[test]
fn role_translation_assistant() {
    assert_eq!(translate_role(&"assistant".to_string()), Role::Assistant);
}

#[test]
fn role_translation_everything_else_is_system() {
    assert_eq!(translate_role(&"system".to_string()), Role::System);
    assert_eq!(translate_role(&"".to_string()), Role::System);
    assert_eq!(translate_role(&"SYSTEM".to_string()), Role::System);
    assert_eq!(translate_role(&"User".to_string()), Role::System);
}

#[test]
fn context_fetch_failure_short_circuits() {
    let mut layer = MemoryLayer::new(
        EchoLayer::replying("never"),
        FakeStore::failing(StoreError::NetworkFailure),
    );
    let mut m = private_request("hi", "bob");
    let r = layer.execute(&mut m);
    assert_eq!(r.text, "Failed to get context");
    assert!(r.bytes.is_none());
    assert!(r.options.is_none());
    assert_eq!(layer.next.calls, 0);
    assert_eq!(layer.client.saves.len(), 0);
    assert_eq!(m.text, "hi");
    assert_eq!(m.context.len(), 0);
}

#[test]
fn context_decode_failure_short_circuits() {
    let mut layer = MemoryLayer::new(
        EchoLayer::replying("never"),
        FakeStore::failing(StoreError::DecodeFailure),
    );
    let mut m = private_request("hi", "bob");
    let r = layer.execute(&mut m);
    assert_eq!(r.text, "Failed to get context");
    assert_eq!(layer.next.calls, 0);
    assert_eq!(layer.client.saves.len(), 0);
}

#[test]
fn successful_call_hydrates_and_persists_two_turns() {
    let stored = ChatResponse {
        role: "user".to_string(),
        content: "hello".to_string(),
        hash: "h1".to_string(),
    };
    let mut layer =
        MemoryLayer::new(EchoLayer::replying("hi bob"), FakeStore::with_context(vec![stored]));
    let mut m = private_request("hi", "bob");
    let r = layer.execute(&mut m);

    // The inner layer was invoked exactly once, with the hydrated context.
    assert_eq!(layer.next.calls, 1);
    assert_eq!(layer.next.seen_context.len(), 1);
    assert_eq!(layer.next.seen_context[0].username, "bob");
    assert_eq!(layer.next.seen_context[0].text, "hello");
    assert_eq!(layer.next.seen_context[0].role, Role::User);
    assert_eq!(layer.next.seen_text, "hi");

    // The inner layer's response comes back unchanged.
    assert_eq!(r.text, "hi bob");
    assert!(r.bytes.is_none());
    assert!(r.options.is_none());

    // Exactly two turns persisted, in order, under the resolved identity.
    assert_eq!(layer.client.saves.len(), 2);
    assert_eq!(layer.client.saves[0].0, "bob");
    assert_eq!(layer.client.saves[0].1, "user");
    assert_eq!(layer.client.saves[0].2, "hi");
    assert_eq!(layer.client.saves[1].0, "bob");
    assert_eq!(layer.client.saves[1].1, "assistant");
    assert_eq!(layer.client.saves[1].2, "hi bob");
}

#[test]
fn group_call_persists_under_group_name() {
    let mut layer =
        MemoryLayer::new(EchoLayer::replying("sure"), FakeStore::with_context(Vec::new()));
    let mut m = RequestMessage::new(
        "plan?".to_string(),
        "alice".to_string(),
        ChatType::Group("team-x".to_string()),
        9,
    );
    let r = layer.execute(&mut m);
    assert_eq!(r.text, "sure");
    assert_eq!(m.context.len(), 0);
    assert_eq!(layer.client.saves.len(), 2);
    assert_eq!(layer.client.saves[0].0, "team-x");
    assert_eq!(layer.client.saves[1].0, "team-x");
}

#[test]
fn hydration_translates_each_role_and_keeps_order() {
    let ctx = vec![
        ChatResponse { role: "user".to_string(), content: "a".to_string(), hash: "x".to_string() },
        ChatResponse {
            role: "assistant".to_string(),
            content: "b".to_string(),
            hash: "y".to_string(),
        },
        ChatResponse { role: "weird".to_string(), content: "c".to_string(), hash: "z".to_string() },
    ];
    let mut layer = MemoryLayer::new(EchoLayer::replying("ok"), FakeStore::with_context(ctx));
    let mut m = private_request("q", "bob");
    layer.execute(&mut m);
    let seen = &layer.next.seen_context;
    assert_eq!(seen.len(), 3);
    assert_eq!(seen[0].text, "a");
    assert_eq!(seen[0].role, Role::User);
    assert_eq!(seen[1].text, "b");
    assert_eq!(seen[1].role, Role::Assistant);
    assert_eq!(seen[2].text, "c");
    assert_eq!(seen[2].role, Role::System);
    for s in seen {
        assert_eq!(s.username, "bob");
    }
}
