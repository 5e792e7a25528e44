//! Strongly typed identities of the domain's entities.

use vstd::prelude::*;

use crate::text::{append_zero_padded, encode, hex_of, lemma_hex_len, zero_padded};

verus! {

/// A character of Crockford's base32 alphabet, as ULIDs are written.
pub open spec fn is_crockford_char(c: char) -> bool {
    ('0' <= c <= '9') || ('A' <= c <= 'Z' && c != 'I' && c != 'L' && c != 'O' && c != 'U')
}

/// The text of a ULID: 26 characters of Crockford's base32 alphabet.
pub open spec fn is_ulid_text(s: Seq<char>) -> bool {
    s.len() == 26 && forall|i: int| 0 <= i < 26 ==> is_crockford_char(#[trigger] s[i])
}

/// A generated identifier: `prefix` followed by a ULID.
pub open spec fn is_generated_id(s: Seq<char>, prefix: Seq<char>) -> bool {
    exists|u: Seq<char>| #[trigger] is_ulid_text(u) && s == prefix + u
}

/// Relies on `ulid::Ulid::new` and `Ulid::to_string`: a fresh identifier from
/// the clock and a random source, written as 26 Crockford base32 characters.
#[verifier::external_body]
fn fresh_ulid() -> (r: String)
    ensures
        is_ulid_text(r@),
{
    ulid::Ulid::new().to_string()
}

/// `prefix` followed by a fresh ULID.
fn generate_id(prefix: &str) -> (r: String)
    ensures
        is_generated_id(r@, prefix@),
{
    let u = fresh_ulid();
    let r = String::from_str(prefix).concat(u.as_str());
    assert(is_ulid_text(u@) && r@ == prefix@ + u@);
    r
}

/// What SHA-256 makes of a byte sequence.
pub uninterp spec fn sha256_of(bytes: Seq<u8>) -> Seq<u8>;

/// Relies on `sha2::Sha256::digest`: the 32-byte SHA-256 digest of `bytes`.
#[verifier::external_body]
fn sha256_digest(bytes: &[u8]) -> (r: Vec<u8>)
    ensures
        r@ == sha256_of(bytes@),
        r@.len() == 32,
{
    <sha2::Sha256 as sha2::Digest>::digest(bytes).to_vec()
}

/// Project identifier: `proj:` followed by a ULID.
#[derive(Debug, Clone, PartialEq, Eq, Hash)]
pub struct ProjectId(String);

impl View for ProjectId {
    type V = Seq<char>;

    closed spec fn view(&self) -> Seq<char> {
        self.0@
    }
}

impl ProjectId {
    /// A fresh, unique identifier.
    pub fn new() -> (r: Self)
        ensures
            is_generated_id(r@, "proj:"@),
    {
        ProjectId(generate_id("proj:"))
    }

    /// The identifier written as `s`.
    pub fn from_string(s: &str) -> (r: Self)
        ensures
            r@ == s@,
    {
        ProjectId(String::from_str(s))
    }

    /// The identifier's text.
    pub fn as_str(&self) -> (r: &str)
        ensures
            r@ == self@,
    {
        self.0.as_str()
    }
}

impl Default for ProjectId {
    fn default() -> (r: Self)
        ensures
            is_generated_id(r@, "proj:"@),
    {
        Self::new()
    }
}

/// Package identifier: `pkg:` followed by a ULID, or the legacy `PKG-###`.
#[derive(Debug, Clone, PartialEq, Eq, Hash)]
pub struct PackageId(String);

impl View for PackageId {
    type V = Seq<char>;

    closed spec fn view(&self) -> Seq<char> {
        self.0@
    }
}

impl PackageId {
    /// A fresh, unique identifier.
    pub fn new() -> (r: Self)
        ensures
            is_generated_id(r@, "pkg:"@),
    {
        PackageId(generate_id("pkg:"))
    }

    /// The identifier written as `s`.
    pub fn from_string(s: &str) -> (r: Self)
        ensures
            r@ == s@,
    {
        PackageId(String::from_str(s))
    }

    /// The legacy form `PKG-` and `num`, zero-padded to three digits.
    pub fn from_legacy(num: u32) -> (r: Self)
        ensures
            r@ == "PKG-"@ + zero_padded(num as nat, 3),
    {
        let mut s = String::from_str("PKG-");
        append_zero_padded(&mut s, num, 3);
        PackageId(s)
    }

    /// The identifier's text.
    pub fn as_str(&self) -> (r: &str)
        ensures
            r@ == self@,
    {
        self.0.as_str()
    }
}

impl Default for PackageId {
    fn default() -> (r: Self)
        ensures
            is_generated_id(r@, "pkg:"@),
    {
        Self::new()
    }
}

/// Deliverable identifier: `del:` followed by a ULID, or the legacy `DEL-##.##`.
#[derive(Debug, Clone, PartialEq, Eq, Hash)]
pub struct DeliverableId(String);

impl View for DeliverableId {
    type V = Seq<char>;

    closed spec fn view(&self) -> Seq<char> {
        self.0@
    }
}

impl DeliverableId {
    /// A fresh, unique identifier.
    pub fn new() -> (r: Self)
        ensures
            is_generated_id(r@, "del:"@),
    {
        DeliverableId(generate_id("del:"))
    }

    /// The identifier written as `s`.
    pub fn from_string(s: &str) -> (r: Self)
        ensures
            r@ == s@,
    {
        DeliverableId(String::from_str(s))
    }

    /// The legacy form `DEL-`, the package number, `.` and the deliverable
    /// number, each zero-padded to two digits.
    pub fn from_legacy(package_num: u32, deliverable_num: u32) -> (r: Self)
        ensures
            r@ == "DEL-"@ + zero_padded(package_num as nat, 2) + "."@ + zero_padded(
                deliverable_num as nat,
                2,
            ),
    {
        let mut s = String::from_str("DEL-");
        append_zero_padded(&mut s, package_num, 2);
        s.append(".");
        append_zero_padded(&mut s, deliverable_num, 2);
        DeliverableId(s)
    }

    /// The identifier's text.
    pub fn as_str(&self) -> (r: &str)
        ensures
            r@ == self@,
    {
        self.0.as_str()
    }
}

impl Default for DeliverableId {
    fn default() -> (r: Self)
        ensures
            is_generated_id(r@, "del:"@),
    {
        Self::new()
    }
}

/// Document identifier: `doc:` followed by a ULID.
#[derive(Debug, Clone, PartialEq, Eq, Hash)]
pub struct DocumentId(String);

impl View for DocumentId {
    type V = Seq<char>;

    closed spec fn view(&self) -> Seq<char> {
        self.0@
    }
}

impl DocumentId {
    /// A fresh, unique identifier.
    pub fn new() -> (r: Self)
        ensures
            is_generated_id(r@, "doc:"@),
    {
        DocumentId(generate_id("doc:"))
    }

    /// The identifier written as `s`.
    pub fn from_string(s: &str) -> (r: Self)
        ensures
            r@ == s@,
    {
        DocumentId(String::from_str(s))
    }

    /// The identifier's text.
    pub fn as_str(&self) -> (r: &str)
        ensures
            r@ == self@,
    {
        self.0.as_str()
    }
}

impl Default for DocumentId {
    fn default() -> (r: Self)
        ensures
            is_generated_id(r@, "doc:"@),
    {
        Self::new()
    }
}

/// Session identifier: `session:` followed by a ULID.
#[derive(Debug, Clone, PartialEq, Eq, Hash)]
pub struct SessionId(String);

impl View for SessionId {
    type V = Seq<char>;

    closed spec fn view(&self) -> Seq<char> {
        self.0@
    }
}

impl SessionId {
    /// A fresh, unique identifier.
    pub fn new() -> (r: Self)
        ensures
            is_generated_id(r@, "session:"@),
    {
        SessionId(generate_id("session:"))
    }

    /// The identifier written as `s`.
    pub fn from_string(s: &str) -> (r: Self)
        ensures
            r@ == s@,
    {
        SessionId(String::from_str(s))
    }

    /// The identifier's text.
    pub fn as_str(&self) -> (r: &str)
        ensures
            r@ == self@,
    {
        self.0.as_str()
    }
}

impl Default for SessionId {
    fn default() -> (r: Self)
        ensures
            is_generated_id(r@, "session:"@),
    {
        Self::new()
    }
}

/// Content hash: `sha256:` followed by 64 lower-case hexadecimal digits.
#[derive(Debug, Clone, PartialEq, Eq, Hash)]
pub struct ContentHash(String);

impl View for ContentHash {
    type V = Seq<char>;

    closed spec fn view(&self) -> Seq<char> {
        self.0@
    }
}

impl ContentHash {
    /// The hash of `bytes`: `sha256:` and the hexadecimal SHA-256 digest.
    pub fn from_bytes(bytes: &[u8]) -> (r: Self)
        ensures
            r@ == "sha256:"@ + hex_of(sha256_of(bytes@)),
            r@.len() == 71,
    {
        let digest = sha256_digest(bytes);
        proof {
            reveal_strlit("sha256:");
            lemma_hex_len(digest@);
        }
        Self::from_digest(digest.as_slice())
    }

    /// The hash written from a digest: `sha256:` and its hexadecimal digits.
    pub fn from_digest(digest: &[u8]) -> (r: Self)
        ensures
            r@ == "sha256:"@ + hex_of(digest@),
    {
        ContentHash(String::from_str("sha256:").concat(encode(digest).as_str()))
    }

    /// The hash written as `s`.
    pub fn from_string(s: &str) -> (r: Self)
        ensures
            r@ == s@,
    {
        ContentHash(String::from_str(s))
    }

    /// The hash's text.
    pub fn as_str(&self) -> (r: &str)
        ensures
            r@ == self@,
    {
        self.0.as_str()
    }
}

/// Commit hash, as version control reports it.
#[derive(Debug, Clone, PartialEq, Eq, Hash)]
pub struct CommitHash(String);

impl View for CommitHash {
    type V = Seq<char>;

    closed spec fn view(&self) -> Seq<char> {
        self.0@
    }
}

impl CommitHash {
    /// The hash written as `s`.
    pub fn from_string(s: &str) -> (r: Self)
        ensures
            r@ == s@,
    {
        CommitHash(String::from_str(s))
    }

    /// The hash's text.
    pub fn as_str(&self) -> (r: &str)
        ensures
            r@ == self@,
    {
        self.0.as_str()
    }
}

/// Kind of an actor.
#[derive(Debug, Clone, Copy, PartialEq, Eq, Hash, Structural)]
pub enum ActorKind {
    Human,
    Agent,
    System,
}

/// The label under which an actor kind is written.
pub open spec fn actor_kind_label(k: ActorKind) -> Seq<char> {
    match k {
        ActorKind::Human => "HUMAN"@,
        ActorKind::Agent => "AGENT"@,
        ActorKind::System => "SYSTEM"@,
    }
}

impl ActorKind {
    /// The kind's label: `HUMAN`, `AGENT` or `SYSTEM`.
    pub fn to_string(&self) -> (r: String)
        ensures
            r@ == actor_kind_label(*self),
    {
        match self {
            ActorKind::Human => String::from_str("HUMAN"),
            ActorKind::Agent => String::from_str("AGENT"),
            ActorKind::System => String::from_str("SYSTEM"),
        }
    }
}

/// Who performed a mutation: a kind and an identifier.
#[derive(Debug, Clone, PartialEq, Eq, Hash)]
pub struct ActorId {
    pub kind: ActorKind,
    pub id: String,
}

impl ActorId {
    /// A human actor.
    pub fn human(id: &str) -> (r: Self)
        ensures
            r.kind == ActorKind::Human,
            r.id@ == id@,
    {
        ActorId { kind: ActorKind::Human, id: String::from_str(id) }
    }

    /// An agent actor.
    pub fn agent(id: &str) -> (r: Self)
        ensures
            r.kind == ActorKind::Agent,
            r.id@ == id@,
    {
        ActorId { kind: ActorKind::Agent, id: String::from_str(id) }
    }

    /// The system actor, named `system`.
    pub fn system() -> (r: Self)
        ensures
            r.kind == ActorKind::System,
            r.id@ == "system"@,
    {
        ActorId { kind: ActorKind::System, id: String::from_str("system") }
    }

    /// Whether the actor is a human.
    pub fn is_human(&self) -> (r: bool)
        ensures
            r == (self.kind == ActorKind::Human),
    {
        matches!(self.kind, ActorKind::Human)
    }

    /// The actor written as its kind's label, `:` and its identifier.
    pub fn to_string(&self) -> (r: String)
        ensures
            r@ == actor_kind_label(self.kind) + ":"@ + self.id@,
    {
        self.kind.to_string().concat(":").concat(self.id.as_str())
    }

    /// A copy of the actor.
    pub fn duplicate(&self) -> (r: Self)
        ensures
            r.kind == self.kind,
            r.id@ == self.id@,
    {
        ActorId { kind: self.kind, id: self.id.clone() }
    }
}

} // verus!
