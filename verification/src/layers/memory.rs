use vstd::prelude::*;

use crate::clients::chat::Role;
use crate::clients::muninn::{ChatResponse, ChatResponseView, MunninClient, SaveRecordView};
use crate::layers::Layer;
use crate::message_types::{
    ChatType, ChatTypeView, RequestMessage, RequestMessageView, ResponseMessage,
    ResponseMessageView,
};

verus! {

/// One prior turn as injected into a request's context: the conversation it
/// belongs to, its text, and who produced it.
#[derive(Clone, Debug)]
pub struct StoredMessage {
    pub username: String,
    pub text: String,
    pub role: Role,
}

pub ghost struct StoredMessageView {
    pub username: Seq<char>,
    pub text: Seq<char>,
    pub role: Role,
}

impl View for StoredMessage {
    type V = StoredMessageView;

    open spec fn view(&self) -> StoredMessageView {
        StoredMessageView { username: self.username@, text: self.text@, role: self.role }
    }
}

/// The partition key for a conversation's memory: the username of a private
/// chat, the group name of a group chat.
pub open spec fn spec_resolve_identity(m: RequestMessageView) -> Seq<char> {
    match m.chat_type {
        ChatTypeView::Private => m.username,
        ChatTypeView::Group(name) => name,
    }
}

/// The role a stored role tag stands for: "user" and "assistant" name
/// themselves, anything else is normalized to `System`.
pub open spec fn spec_translate_role(role: Seq<char>) -> Role {
    if role == "user"@ {
        Role::User
    } else if role == "assistant"@ {
        Role::Assistant
    } else {
        Role::System
    }
}

/// Law: role translation is total and stable — "user" and "assistant" name
/// themselves, and every other tag, whatever it is, lands on `System`.
pub proof fn lemma_role_translation_total(tag: Seq<char>)
    ensures
        spec_translate_role("user"@) == Role::User,
        spec_translate_role("assistant"@) == Role::Assistant,
        tag != "user"@ && tag != "assistant"@ ==> spec_translate_role(tag) == Role::System,
{
    reveal_strlit("user");
    reveal_strlit("assistant");
    assert("user"@.len() == 4);
    assert("assistant"@.len() == 9);
}

/// One fetched turn turned into context for the given identity.
pub open spec fn spec_stored_message(identity: Seq<char>, c: ChatResponseView) -> StoredMessageView {
    StoredMessageView { username: identity, text: c.content, role: spec_translate_role(c.role) }
}

/// A fetched context turned into stored messages, order kept.
pub open spec fn spec_hydrate(identity: Seq<char>, ctx: Seq<ChatResponseView>) -> Seq<
    StoredMessageView,
> {
    ctx.map_values(|c: ChatResponseView| spec_stored_message(identity, c))
}

/// Law: a private chat and a group chat resolve to the same partition key
/// only when the username literally equals the group name; private and group
/// conversations otherwise never share history.
pub proof fn lemma_resolve_collision(a: RequestMessageView, b: RequestMessageView, g: Seq<char>)
    requires
        a.chat_type == ChatTypeView::Private,
        b.chat_type == ChatTypeView::Group(g),
        spec_resolve_identity(a) == spec_resolve_identity(b),
    ensures
        a.username == g,
{
}

/// The fixed text of the fail-fast response when context cannot be fetched.
pub open spec fn spec_failure_text() -> Seq<char> {
    "Failed to get context"@
}

/// A request with its context replaced, every other field kept.
pub open spec fn spec_with_context(
    m: RequestMessageView,
    ctx: Seq<StoredMessageView>,
) -> RequestMessageView {
    RequestMessageView {
        text: m.text,
        username: m.username,
        context: ctx,
        chat_type: m.chat_type,
        chat_id: m.chat_id,
        sent_by: m.sent_by,
    }
}

/// The identity a request's memory is addressed under.
pub fn resolve_identity(message: &RequestMessage) -> (r: String)
    ensures
        r@ == spec_resolve_identity(message@),
{
    match &message.chat_type {
        ChatType::Private => message.username.clone(),
        ChatType::Group(name) => name.clone(),
    }
}

/// Translates a stored role tag; total, so role-string drift from the store
/// cannot crash the pipeline.
pub fn translate_role(role: &String) -> (r: Role)
    ensures
        r == spec_translate_role(role@),
{
    if *role == "user".to_owned() {
        Role::User
    } else if *role == "assistant".to_owned() {
        Role::Assistant
    } else {
        Role::System
    }
}

/// Turns a fetched context into the stored messages injected into a request,
/// in the order the store returned them.
pub fn hydrate_context(username: &String, context: Vec<ChatResponse>) -> (r: Vec<StoredMessage>)
    ensures
        r@.map_values(|m: StoredMessage| m@) == spec_hydrate(
            username@,
            context@.map_values(|c: ChatResponse| c@),
        ),
{
    let mut out: Vec<StoredMessage> = Vec::new();
    let mut i: usize = 0;
    while i < context.len()
        invariant
            i <= context@.len(),
            out@.map_values(|m: StoredMessage| m@) =~= spec_hydrate(
                username@,
                context@.map_values(|c: ChatResponse| c@),
            ).take(i as int),
        decreases context@.len() - i,
    {
        let c = &context[i];
        let s = StoredMessage {
            username: username.clone(),
            text: c.content.clone(),
            role: translate_role(&c.role),
        };
        let ghost prev = out@;
        proof {
            assert(s@ == spec_stored_message(username@, context@[i as int]@));
        }
        out.push(s);
        i += 1;
        proof {
            assert(out@ == prev.push(s));
            assert(out@.map_values(|m: StoredMessage| m@) =~= prev.map_values(
                |m: StoredMessage| m@,
            ).push(s@));
            assert(out@.map_values(|m: StoredMessage| m@) =~= spec_hydrate(
                username@,
                context@.map_values(|c: ChatResponse| c@),
            ).take(i as int));
        }
    }
    proof {
        let hydrated = spec_hydrate(username@, context@.map_values(|c: ChatResponse| c@));
        assert(hydrated.take(hydrated.len() as int) =~= hydrated);
    }
    out
}

/// The fail-fast outcome of a memory-layer call: the fixed failure response,
/// nothing persisted, the inner layer untouched, the request unchanged.
pub open spec fn spec_context_failed<T: Layer, C: MunninClient>(
    pre: MemoryLayer<T, C>,
    post: MemoryLayer<T, C>,
    m0: RequestMessageView,
    m1: RequestMessageView,
    r: ResponseMessageView,
) -> bool {
    &&& r == (ResponseMessageView {
        text: spec_failure_text(),
        bytes: Option::None,
        options: Option::None,
    })
    &&& post.client == pre.client
    &&& post.next == pre.next
    &&& m1 == m0
}

/// The successful outcome of a memory-layer call, for the context `ctx` the
/// store returned: the inner layer answered the request hydrated with `ctx`,
/// the returned response is the inner layer's, and exactly two turns were
/// persisted under the resolved identity — the user's text, then the
/// response's text.
pub open spec fn spec_context_flowed_with<T: Layer, C: MunninClient>(
    pre: MemoryLayer<T, C>,
    post: MemoryLayer<T, C>,
    m0: RequestMessageView,
    r: ResponseMessageView,
    ctx: Seq<ChatResponseView>,
) -> bool {
    &&& post.next.history() == pre.next.history().push(
        (spec_with_context(m0, spec_hydrate(spec_resolve_identity(m0), ctx)), r),
    )
    &&& post.client.saved() == pre.client.saved().push(
        (SaveRecordView {
            identity: spec_resolve_identity(m0),
            role: "user"@,
            content: m0.text,
        }),
    ).push(
        (SaveRecordView {
            identity: spec_resolve_identity(m0),
            role: "assistant"@,
            content: r.text,
        }),
    )
}

/// The successful outcome of a memory-layer call, for some fetched context.
pub open spec fn spec_context_flowed<T: Layer, C: MunninClient>(
    pre: MemoryLayer<T, C>,
    post: MemoryLayer<T, C>,
    m0: RequestMessageView,
    r: ResponseMessageView,
) -> bool {
    exists|ctx: Seq<ChatResponseView>| spec_context_flowed_with(pre, post, m0, r, ctx)
}

/// The memory-augmentation stage: hydrates a request with the conversation's
/// prior turns before delegating, and persists the new turns after the inner
/// chain returns.
pub struct MemoryLayer<T: Layer, C: MunninClient> {
    pub next: T,
    pub client: C,
    pub log: Ghost<Seq<(RequestMessageView, ResponseMessageView)>>,
}

impl<T: Layer, C: MunninClient> MemoryLayer<T, C> {
    /// A memory layer that delegates to `next` and keeps turns in `client`.
    pub fn new(next: T, client: C) -> (r: Self)
        ensures
            r.next == next,
            r.client == client,
            r.history() == Seq::<(RequestMessageView, ResponseMessageView)>::empty(),
    {
        MemoryLayer { next, client, log: Ghost(Seq::empty()) }
    }

    /// The identity whose memory this message addresses.
    pub fn get_username_from_messsage(&self, message: &RequestMessage) -> (r: String)
        ensures
            r@ == spec_resolve_identity(message@),
    {
        resolve_identity(message)
    }
}

impl<T: Layer, C: MunninClient> Layer for MemoryLayer<T, C> {
    open spec fn history(&self) -> Seq<(RequestMessageView, ResponseMessageView)> {
        self.log@
    }

    /// Resolve the identity; fetch its context, failing fast on a broken
    /// store; hydrate the request; delegate; persist the user turn then the
    /// assistant turn; hand the inner response back unchanged.
    fn execute(&mut self, message: &mut RequestMessage) -> (r: ResponseMessage)
        ensures
            spec_context_failed(*old(self), *final(self), (*old(message))@, (*final(message))@, r@)
                || spec_context_flowed(*old(self), *final(self), (*old(message))@, r@),
    {
        let ghost pre_self = *self;
        let ghost orig = (*message)@;
        let username = resolve_identity(message);
        let fetched = self.client.get_context(&username, message);
        match fetched {
            Result::Err(_) => {
                let r = ResponseMessage {
                    text: "Failed to get context".to_owned(),
                    bytes: Option::None,
                    options: Option::None,
                };
                self.log = Ghost(self.log@.push((orig, r@)));
                r
            },
            Result::Ok(context) => {
                let ghost ctxv = context@.map_values(|c: ChatResponse| c@);
                let stored_context = hydrate_context(&username, context);
                message.context = stored_context;
                proof {
                    assert((*message)@.context == spec_hydrate(spec_resolve_identity(orig), ctxv));
                    assert((*message)@ == spec_with_context(
                        orig,
                        spec_hydrate(spec_resolve_identity(orig), ctxv),
                    ));
                }
                let user_text = message.text.clone();
                let res = self.next.execute(message);
                let _ = self.client.save(&username, "user".to_owned(), user_text);
                let _ = self.client.save(&username, "assistant".to_owned(), res.text.clone());
                self.log = Ghost(self.log@.push((orig, res@)));
                proof {
                    assert(spec_context_flowed_with(pre_self, *self, orig, res@, ctxv));
                }
                res
            },
        }
    }
}

} // verus!
