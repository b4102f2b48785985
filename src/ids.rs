use rand::RngCore;
use vstd::prelude::*;

verus! {

/// A stable device identity.
#[derive(Clone, Debug, PartialEq, Eq, PartialOrd, Ord, Hash)]
pub struct DeviceId(String);

impl DeviceId {
    /// The identifier's text.
    pub closed spec fn text(self) -> String {
        self.0
    }

    pub fn new(s: String) -> (r: Self)
        ensures
            r.text() == s,
    {
        DeviceId(s)
    }

    pub fn as_str(&self) -> (r: &str)
        ensures
            r@ == self.text()@,
    {
        self.0.as_str()
    }

    /// Gives up the wrapper and returns the text.
    pub fn into_string(self) -> (r: String)
        ensures
            r == self.text(),
    {
        self.0
    }

    /// Two identifiers with the same text are the same identifier.
    pub proof fn lemma_text_determines(a: Self, b: Self)
        requires
            a.text() == b.text(),
        ensures
            a == b,
    {
    }
}

/// A per-process instance identifier; it changes on restart.
#[derive(Clone, Debug, PartialEq, Eq, PartialOrd, Ord, Hash)]
pub struct InstanceId(String);

impl InstanceId {
    /// The identifier's text.
    pub closed spec fn text(self) -> String {
        self.0
    }

    pub fn new(s: String) -> (r: Self)
        ensures
            r.text() == s,
    {
        InstanceId(s)
    }

    pub fn as_str(&self) -> (r: &str)
        ensures
            r@ == self.text()@,
    {
        self.0.as_str()
    }

    /// Gives up the wrapper and returns the text.
    pub fn into_string(self) -> (r: String)
        ensures
            r == self.text(),
    {
        self.0
    }

    /// Two identifiers with the same text are the same identifier.
    pub proof fn lemma_text_determines(a: Self, b: Self)
        requires
            a.text() == b.text(),
        ensures
            a == b,
    {
    }
}

/// Identifies one transaction.
#[derive(Clone, Debug, PartialEq, Eq, PartialOrd, Ord, Hash)]
pub struct TransactionId(String);

impl TransactionId {
    /// The identifier's text.
    pub closed spec fn text(self) -> String {
        self.0
    }

    pub fn new(s: String) -> (r: Self)
        ensures
            r.text() == s,
    {
        TransactionId(s)
    }

    pub fn as_str(&self) -> (r: &str)
        ensures
            r@ == self.text()@,
    {
        self.0.as_str()
    }

    /// Gives up the wrapper and returns the text.
    pub fn into_string(self) -> (r: String)
        ensures
            r == self.text(),
    {
        self.0
    }

    /// Two identifiers with the same text are the same identifier.
    pub proof fn lemma_text_determines(a: Self, b: Self)
        requires
            a.text() == b.text(),
        ensures
            a == b,
    {
    }
}

/// Lets a receiver recognise a repeated request.
#[derive(Clone, Debug, PartialEq, Eq, PartialOrd, Ord, Hash)]
pub struct IdempotencyKey(String);

impl IdempotencyKey {
    /// The identifier's text.
    pub closed spec fn text(self) -> String {
        self.0
    }

    pub fn new(s: String) -> (r: Self)
        ensures
            r.text() == s,
    {
        IdempotencyKey(s)
    }

    pub fn as_str(&self) -> (r: &str)
        ensures
            r@ == self.text()@,
    {
        self.0.as_str()
    }

    /// Gives up the wrapper and returns the text.
    pub fn into_string(self) -> (r: String)
        ensures
            r == self.text(),
    {
        self.0
    }

    /// Two identifiers with the same text are the same identifier.
    pub proof fn lemma_text_determines(a: Self, b: Self)
        requires
            a.text() == b.text(),
        ensures
            a == b,
    {
    }
}

/// Number of random bytes behind a generated identifier.
pub const TOKEN_BYTES: usize = 16;

/// The lower-case hexadecimal digit for `d`.
pub open spec fn hex_digit(d: u8) -> char
    recommends
        d < 16,
{
    if d < 10 {
        (48 + d) as u8 as char
    } else {
        (87 + d) as u8 as char
    }
}

/// Two lower-case hexadecimal digits for each byte, high nibble first.
pub open spec fn hex_of(b: Seq<u8>) -> Seq<char>
    decreases b.len(),
{
    if b.len() == 0 {
        Seq::empty()
    } else {
        hex_of(b.drop_last()) + seq![hex_digit(b.last() / 16), hex_digit(b.last() % 16)]
    }
}

/// A lower-case hexadecimal digit.
pub open spec fn is_hex_char(c: char) -> bool {
    ('0' <= c <= '9') || ('a' <= c <= 'f')
}

proof fn lemma_hex_of_props(b: Seq<u8>)
    ensures
        hex_of(b).len() == 2 * b.len(),
        forall|i: int| 0 <= i < hex_of(b).len() ==> is_hex_char(#[trigger] hex_of(b)[i]),
    decreases b.len(),
{
    if b.len() > 0 {
        lemma_hex_of_props(b.drop_last());
    }
}

/// Relies on rand's `OsRng::try_fill_bytes`: it fills the buffer from the
/// operating system's generator, or reports that the generator failed.
#[verifier::external_body]
fn random_bytes(n: usize) -> (r: Option<Vec<u8>>)
    ensures
        r matches Some(v) ==> v@.len() == n,
{
    let mut buf = vec![0u8; n];
    match rand::rngs::OsRng.try_fill_bytes(&mut buf) {
        Ok(()) => Some(buf),
        Err(_) => None,
    }
}

/// Relies on std's `String: FromIterator<char>`: the string holds the characters in order.
#[verifier::external_body]
fn string_from_chars(cs: &Vec<char>) -> (r: String)
    ensures
        r@ == cs@,
{
    cs.iter().collect()
}

fn hex_char(d: u8) -> (c: char)
    requires
        d < 16,
    ensures
        c == hex_digit(d),
{
    if d < 10 {
        (48u8 + d) as char
    } else {
        (87u8 + d) as char
    }
}

/// Lower-case hexadecimal text of `bytes`.
pub fn hex_encode(bytes: &Vec<u8>) -> (r: String)
    ensures
        r@ == hex_of(bytes@),
{
    let mut out: Vec<char> = Vec::new();
    let mut i: usize = 0;
    while i < bytes.len()
        invariant
            i <= bytes@.len(),
            out@ == hex_of(bytes@.subrange(0, i as int)),
        decreases bytes@.len() - i,
    {
        let b = bytes[i];
        out.push(hex_char(b / 16));
        out.push(hex_char(b % 16));
        proof {
            let s = bytes@.subrange(0, i as int + 1);
            assert(s.drop_last() =~= bytes@.subrange(0, i as int));
        }
        i = i + 1;
    }
    assert(bytes@.subrange(0, bytes@.len() as int) =~= bytes@);
    string_from_chars(&out)
}

/// A fresh random token: `TOKEN_BYTES` random bytes in lower-case
/// hexadecimal; `None` when the system's generator is unavailable.
fn random_token_hex() -> (r: Option<String>)
    ensures
        r matches Some(s) ==> is_token(s@),
{
    match random_bytes(TOKEN_BYTES) {
        Some(buf) => {
            let s = hex_encode(&buf);
            proof {
                lemma_hex_of_props(buf@);
            }
            Some(s)
        },
        None => None,
    }
}

/// Text of a generated identifier: 32 lower-case hexadecimal digits.
pub open spec fn is_token(s: Seq<char>) -> bool {
    &&& s.len() == 2 * TOKEN_BYTES
    &&& forall|i: int| 0 <= i < s.len() ==> is_hex_char(#[trigger] s[i])
}

/// A fresh random identifier; `None` when the system's generator is unavailable.
pub fn new_transaction_id() -> (r: Option<TransactionId>)
    ensures
        r matches Some(id) ==> is_token(id.text()@),
{
    match random_token_hex() {
        Some(s) => Some(TransactionId::new(s)),
        None => None,
    }
}

/// A fresh random identifier; `None` when the system's generator is unavailable.
pub fn new_idempotency_key() -> (r: Option<IdempotencyKey>)
    ensures
        r matches Some(id) ==> is_token(id.text()@),
{
    match random_token_hex() {
        Some(s) => Some(IdempotencyKey::new(s)),
        None => None,
    }
}

/// A fresh random identifier; `None` when the system's generator is unavailable.
pub fn new_sender_instance() -> (r: Option<InstanceId>)
    ensures
        r matches Some(id) ==> is_token(id.text()@),
{
    match random_token_hex() {
        Some(s) => Some(InstanceId::new(s)),
        None => None,
    }
}

} // verus!
