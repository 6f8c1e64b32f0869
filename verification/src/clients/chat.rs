use vstd::prelude::*;
use vstd::string::StringExecFns;

verus! {

/// One wire-format message handed to a chat-completion backend: a role tag
/// ("system", "user" or "assistant") and the message text.
#[derive(Debug, Clone)]
pub struct Message {
    pub role: String,
    pub content: String,
}

pub ghost struct MessageView {
    pub role: Seq<char>,
    pub content: Seq<char>,
}

impl View for Message {
    type V = MessageView;

    open spec fn view(&self) -> MessageView {
        MessageView { role: self.role@, content: self.content@ }
    }
}

/// A completion backend's wire-format answer.
#[derive(Debug)]
pub struct ChatResponse {
    pub id: String,
    pub object: String,
    pub created: u64,
    pub model: String,
    usage: Usage,
    choices: Vec<Choice>,
}

#[derive(Debug)]
struct Usage {
    prompt_tokens: u64,
    completion_tokens: u64,
    total_tokens: u64,
}

#[derive(Debug)]
struct Choice {
    message: Message,
    finish_reason: String,
    index: u64,
}

/// Who produced a conversational turn.
#[derive(Debug, Clone, Copy, PartialEq, Eq, Structural)]
pub enum Role {
    System,
    User,
    Assistant,
}

/// The role tag that stands for each role on the wire.
pub open spec fn spec_role_name(r: Role) -> Seq<char> {
    match r {
        Role::System => "system"@,
        Role::User => "user"@,
        Role::Assistant => "assistant"@,
    }
}

impl Role {
    /// The wire form of this role: "system", "user" or "assistant".
    pub fn name(&self) -> (r: String)
        ensures
            r@ == spec_role_name(*self),
    {
        match self {
            Role::System => String::from_str("system"),
            Role::User => String::from_str("user"),
            Role::Assistant => String::from_str("assistant"),
        }
    }
}

/// A chat-completion backend: turns a hydrated context into a reply.
pub trait ChatClient {
    fn complete(&mut self, context: Vec<Message>) -> String;
}

/// What `str::trim` returns; the result depends on the characters alone.
pub uninterp spec fn trim_of(s: Seq<char>) -> Seq<char>;

/// Relies on str::trim: removes leading and trailing whitespace, nothing else.
#[verifier::external_body]
fn trim_str(s: &str) -> (r: String)
    ensures
        r@ == trim_of(s@),
{
    s.trim().to_string()
}

/// Accumulates wire-format messages for a completion backend, trimming each
/// text and stamping it with its role tag.
pub struct ContextBuilder {
    messages: Vec<Message>,
}

impl View for ContextBuilder {
    type V = Seq<MessageView>;

    closed spec fn view(&self) -> Seq<MessageView> {
        self.messages@.map_values(|m: Message| m@)
    }
}

impl ContextBuilder {
    pub fn new() -> (r: Self)
        ensures
            r@ == Seq::<MessageView>::empty(),
    {
        let r = ContextBuilder { messages: Vec::new() };
        proof {
            assert(r@ =~= Seq::<MessageView>::empty());
        }
        r
    }

    pub fn add_message(&mut self, role: Role, text: String) -> (ret: &mut Self)
        ensures
            (*ret)@ == old(self)@.push(
                (MessageView { role: spec_role_name(role), content: trim_of(text@) }),
            ),
            *final(self) == *final(ret),
    {
        let m = Message { role: role.name(), content: trim_str(text.as_str()) };
        let ghost mv = m@;
        self.messages.push(m);
        proof {
            assert(self@ =~= old(self)@.push(mv));
        }
        self
    }

    pub fn build(&self) -> (r: Vec<Message>)
        ensures
            r@.map_values(|m: Message| m@) == self@,
    {
        let mut out: Vec<Message> = Vec::new();
        let mut i: usize = 0;
        while i < self.messages.len()
            invariant
                i <= self.messages@.len(),
                out@.map_values(|m: Message| m@) =~= self@.take(i as int),
            decreases self.messages@.len() - i,
        {
            let m = &self.messages[i];
            let c = Message { role: m.role.clone(), content: m.content.clone() };
            let ghost prev = out@;
            proof {
                assert(c@ == self.messages@[i as int]@);
                assert(c@ == self@[i as int]);
            }
            out.push(c);
            i += 1;
            proof {
                assert(out@ == prev.push(c));
                assert(out@.map_values(|m: Message| m@) =~= prev.map_values(
                    |m: Message| m@,
                ).push(c@));
                assert(out@.map_values(|m: Message| m@) =~= self@.take(i as int));
            }
        }
        proof {
            assert(self@.take(self.messages@.len() as int) =~= self@);
        }
        out
    }
}

} // verus!
