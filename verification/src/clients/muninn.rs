use vstd::prelude::*;
use sha2::Digest;

use crate::message_types::RequestMessage;

verus! {

/// Why a call to the memory store failed.
#[derive(Debug, Clone, Copy, PartialEq, Eq, Structural)]
pub enum StoreError {
    /// The request never got a well-formed reply (connection or transport fault).
    NetworkFailure,
    /// The reply arrived but its body could not be decoded.
    DecodeFailure,
}

/// One turn as sent to the store: role tag, content, and content hash.
pub struct ChatRequest {
    pub role: String,
    pub content: String,
    pub hash: String,
}

pub ghost struct ChatRequestView {
    pub role: Seq<char>,
    pub content: Seq<char>,
    pub hash: Seq<char>,
}

impl View for ChatRequest {
    type V = ChatRequestView;

    open spec fn view(&self) -> ChatRequestView {
        ChatRequestView { role: self.role@, content: self.content@, hash: self.hash@ }
    }
}

/// A free-text search across stored turns.
pub struct SearchRequest {
    pub content: String,
}

/// One stored turn as the store returns it.
#[derive(Clone)]
pub struct ChatResponse {
    pub role: String,
    pub content: String,
    pub hash: String,
}

pub ghost struct ChatResponseView {
    pub role: Seq<char>,
    pub content: Seq<char>,
    pub hash: Seq<char>,
}

impl View for ChatResponse {
    type V = ChatResponseView;

    open spec fn view(&self) -> ChatResponseView {
        ChatResponseView { role: self.role@, content: self.content@, hash: self.hash@ }
    }
}

/// One key/value fact about an identity, as the store returns it.
pub struct AttributeResponse {
    pub attribute: String,
    pub value: String,
}

/// One key/value fact about an identity, as sent to the store.
pub struct AttributeRequest {
    pub attribute: String,
    pub value: String,
}

/// What `sha2::Sha256::digest` returns on the given bytes; the digest is a
/// function of the input bytes alone.
pub uninterp spec fn sha256_of(bytes: Seq<u8>) -> Seq<u8>;

/// Relies on sha2::Sha256::digest: a 32-byte digest computed from the input
/// bytes alone.
#[verifier::external_body]
fn sha256_digest(bytes: &[u8]) -> (r: Vec<u8>)
    ensures
        r@ == sha256_of(bytes@),
        r@.len() == 32,
{
    sha2::Sha256::digest(bytes).to_vec()
}

/// The ASCII byte that writes one hex digit, lower case.
pub open spec fn hex_digit(d: u8) -> u8
    recommends
        d < 16,
{
    if d < 10 {
        (0x30 + d) as u8
    } else {
        (0x57 + d) as u8
    }
}

/// The lowercase hex writing of a byte string: two digits per byte, high
/// nibble first.
pub open spec fn spec_hex_of(bytes: Seq<u8>) -> Seq<u8> {
    Seq::new(
        2 * bytes.len(),
        |i: int|
            if i % 2 == 0 {
                hex_digit(bytes[i / 2] / 16)
            } else {
                hex_digit(bytes[i / 2] % 16)
            },
    )
}

/// ASCII bytes read as characters, one character per byte.
pub open spec fn ascii_view(bytes: Seq<u8>) -> Seq<char> {
    bytes.map_values(|b: u8| b as char)
}

/// The content address of a turn: the lowercase hex form of the SHA-256
/// digest of the text's UTF-8 bytes.
pub open spec fn spec_content_hash(text: Seq<char>) -> Seq<char> {
    ascii_view(spec_hex_of(sha256_of(vstd::utf8::encode_utf8(text))))
}

fn hex_digit_byte(d: u8) -> (r: u8)
    requires
        d < 16,
    ensures
        r == hex_digit(d),
{
    if d < 10 {
        0x30 + d
    } else {
        0x57 + d
    }
}

fn hex_bytes(bytes: &Vec<u8>) -> (r: Vec<u8>)
    ensures
        r@ == spec_hex_of(bytes@),
{
    let mut out: Vec<u8> = Vec::new();
    let mut i: usize = 0;
    while i < bytes.len()
        invariant
            i <= bytes@.len(),
            out@ =~= spec_hex_of(bytes@.take(i as int)),
        decreases bytes@.len() - i,
    {
        let b = bytes[i];
        let ghost prev = out@;
        out.push(hex_digit_byte(b / 16));
        out.push(hex_digit_byte(b % 16));
        i += 1;
        proof {
            assert(out@ == prev.push(hex_digit(b / 16)).push(hex_digit(b % 16)));
            assert(out@ =~= spec_hex_of(bytes@.take(i as int)));
        }
    }
    proof {
        assert(bytes@.take(bytes@.len() as int) =~= bytes@);
    }
    out
}

/// Relies on String::from_utf8: bytes below 0x80 decode to one character per
/// byte, each the character with that code.
#[verifier::external_body]
fn ascii_string(bytes: Vec<u8>) -> (r: String)
    requires
        forall|i: int| 0 <= i < bytes@.len() ==> bytes@[i] < 0x80,
    ensures
        r@ == ascii_view(bytes@),
{
    match String::from_utf8(bytes) {
        Ok(s) => s,
        Err(_) => String::new(),
    }
}

/// The content address of a turn's text: 64 lowercase hex characters of its
/// SHA-256 digest.
pub fn content_hash(text: &str) -> (r: String)
    ensures
        r@ == spec_content_hash(text@),
        r@.len() == 64,
{
    let digest = sha256_digest(text.as_bytes());
    let hex = hex_bytes(&digest);
    proof {
        assert(forall|i: int| 0 <= i < hex@.len() ==> hex@[i] < 0x80);
    }
    ascii_string(hex)
}

/// The record a turn is persisted as: role and content as given, hash the
/// content address of the content.
pub open spec fn spec_chat_request(role: Seq<char>, content: Seq<char>) -> ChatRequestView {
    ChatRequestView { role, content, hash: spec_content_hash(content) }
}

/// Builds the record that persists one turn, stamped with its content hash.
pub fn make_chat_request(role: String, content: String) -> (r: ChatRequest)
    ensures
        r@ == spec_chat_request(role@, content@),
{
    let hash = content_hash(content.as_str());
    ChatRequest { role, content, hash }
}

/// Law: content addressing is deterministic — equal texts always carry equal
/// hashes, so hashing a text twice yields the same hex string.
pub proof fn lemma_hash_deterministic(t1: Seq<char>, t2: Seq<char>)
    requires
        t1 == t2,
    ensures
        spec_content_hash(t1) == spec_content_hash(t2),
{
}

/// Law: persisting the same content twice yields records with the same hash,
/// whatever roles the two records carry.
pub proof fn lemma_persist_idempotent(r1: Seq<char>, c1: Seq<char>, r2: Seq<char>, c2: Seq<char>)
    requires
        c1 == c2,
    ensures
        spec_chat_request(r1, c1).hash == spec_chat_request(r2, c2).hash,
{
}

/// One turn as handed to the store for persistence, oldest first in
/// `MunninClient::saved`.
pub ghost struct SaveRecordView {
    pub identity: Seq<char>,
    pub role: Seq<char>,
    pub content: Seq<char>,
}

/// The turns a store client has submitted for persistence, oldest first.
pub type SaveLog = Seq<SaveRecordView>;

/// The memory store: persists turns and returns a conversation's prior
/// context. Implementations sit at the network edge; `saved` models the
/// sequence of turns handed over for persistence, oldest first.
pub trait MunninClient: Sized {
    /// The turns this client has submitted for persistence, oldest first.
    spec fn saved(&self) -> SaveLog;

    /// Persist one turn under the given identity. A turn counts as submitted
    /// whatever the store answers.
    fn save(&mut self, username: &String, role: String, content: String) -> (r: Result<
        (),
        StoreError,
    >)
        ensures
            final(self).saved() == old(self).saved().push(
                (SaveRecordView { identity: username@, role: role@, content: content@ }),
            ),
    ;

    /// Fetch the prior turns of the given identity's conversation, in the
    /// order the store keeps them.
    fn get_context(&self, username: &String, message: &RequestMessage) -> (r: Result<
        Vec<ChatResponse>,
        StoreError,
    >);

    /// Fetch one stored turn by its content hash.
    fn get_chat_message(&self, username: &String, hash: &String) -> (r: Result<
        ChatResponse,
        StoreError,
    >);

    /// Record one key/value fact about an identity.
    fn save_attribute(&self, username: &String, attribute: String, value: String) -> (r: Result<
        (),
        StoreError,
    >);

    /// Fetch one key/value fact about an identity.
    fn get_attribute(&self, username: &String, attribute: String) -> (r: Result<
        AttributeResponse,
        StoreError,
    >);
}

} // verus!
