//! Git object IDs and commit IDs.

use vstd::prelude::*;

use crate::text::encode_hex;
use crate::text::hex;

verus! {

/// The hash functions that name Git objects.
#[derive(Clone, Copy, Debug, PartialEq, Eq, Structural)]
pub enum HashKind {
    Sha1,
    Sha256,
}

/// The lengths in bytes that an object ID can have.
pub open spec fn is_hash_len(n: nat) -> bool {
    n == 20 || n == 32
}

/// The hash function whose digests are as long as `id`.
pub open spec fn hash_kind(id: Seq<u8>) -> HashKind {
    if id.len() == 20 {
        HashKind::Sha1
    } else {
        HashKind::Sha256
    }
}

/// The name of a hash function in messages.
pub open spec fn hash_kind_name(kind: HashKind) -> Seq<char> {
    match kind {
        HashKind::Sha1 => "sha1"@,
        HashKind::Sha256 => "sha256"@,
    }
}

/// `gix::ObjectId::kind`: an ID of 20 bytes is a SHA-1 digest, one of 32 bytes a SHA-256
/// digest. `gix::ObjectId::from_bytes_or_panic` makes the ID, and takes no other length.
#[verifier::external_body]
fn gix_kind(id: &[u8]) -> (kind: HashKind)
    requires
        is_hash_len(id@.len()),
    ensures
        kind == hash_kind(id@),
{
    match gix::ObjectId::from_bytes_or_panic(id).kind() {
        gix::hash::Kind::Sha1 => HashKind::Sha1,
        _ => HashKind::Sha256,
    }
}

/// The `Display` form of `gix::ObjectId`: all bytes in lower-case hexadecimal.
/// `gix::ObjectId::from_bytes_or_panic` makes the ID, and takes no length but 20 and 32.
#[verifier::external_body]
fn gix_hex(id: &[u8]) -> (text: String)
    requires
        is_hash_len(id@.len()),
    ensures
        text@ == hex(id@),
{
    gix::ObjectId::from_bytes_or_panic(id).to_string()
}

/// The `Display` form of `gix::hash::Kind`: `sha1` or `sha256`.
#[verifier::external_body]
fn gix_kind_name(kind: HashKind) -> (text: String)
    ensures
        text@ == hash_kind_name(kind),
{
    match kind {
        HashKind::Sha1 => gix::hash::Kind::Sha1.to_string(),
        HashKind::Sha256 => gix::hash::Kind::Sha256.to_string(),
    }
}

impl HashKind {
    /// The name of the hash function in messages.
    pub fn name(self) -> (text: String)
        ensures
            text@ == hash_kind_name(self),
    {
        gix_kind_name(self)
    }
}

/// A full Git object ID: a digest of one of the supported hash functions.
#[derive(Debug, PartialEq, Eq)]
pub struct ObjectId {
    bytes: Vec<u8>,
}

impl View for ObjectId {
    type V = Seq<u8>;

    closed spec fn view(&self) -> Seq<u8> {
        self.bytes@
    }
}

impl Clone for ObjectId {
    fn clone(&self) -> (copy: Self)
        ensures
            copy@ == self@,
    {
        proof {
            use_type_invariant(self);
        }
        ObjectId { bytes: clone_bytes(&self.bytes) }
    }
}

impl ObjectId {
    #[verifier::type_invariant]
    spec fn has_hash_len(&self) -> bool {
        is_hash_len(self.bytes@.len())
    }

    /// An object ID from the bytes of a digest. Only the lengths of the supported hash
    /// functions are taken.
    pub fn from_bytes_or_panic(bytes: &Vec<u8>) -> (id: ObjectId)
        requires
            is_hash_len(bytes@.len()),
        ensures
            id@ == bytes@,
    {
        ObjectId { bytes: clone_bytes(bytes) }
    }

    /// The bytes of the digest.
    pub fn as_bytes(&self) -> (bytes: &Vec<u8>)
        ensures
            bytes@ == self@,
            is_hash_len(self@.len()),
    {
        proof {
            use_type_invariant(self);
        }
        &self.bytes
    }

    /// The bytes of the digest, for keeps.
    pub fn into_bytes(self) -> (bytes: Vec<u8>)
        ensures
            bytes@ == self@,
    {
        self.bytes
    }

    /// The hash function that the ID is a digest of.
    pub fn kind(&self) -> (kind: HashKind)
        ensures
            kind == hash_kind(self@),
    {
        proof {
            use_type_invariant(self);
        }
        gix_kind(self.bytes.as_slice())
    }

    /// The ID in hexadecimal.
    pub fn hex(&self) -> (text: String)
        ensures
            text@ == hex(self@),
    {
        proof {
            use_type_invariant(self);
        }
        gix_hex(self.bytes.as_slice())
    }

    /// Whether two IDs are the same.
    pub fn same(&self, other: &ObjectId) -> (yes: bool)
        ensures
            yes == (self@ == other@),
    {
        same_bytes(&self.bytes, &other.bytes)
    }
}

/// The bytes of an object ID that may be missing.
pub open spec fn opt_object_id(id: Option<ObjectId>) -> Option<Seq<u8>> {
    match id {
        Some(id) => Some(id@),
        None => None,
    }
}

/// Copies an object ID that may be missing.
pub fn clone_opt_object_id(id: &Option<ObjectId>) -> (copy: Option<ObjectId>)
    ensures
        opt_object_id(copy) == opt_object_id(*id),
{
    match id {
        Some(id) => Some(id.clone()),
        None => None,
    }
}

/// The ID of a commit in the repository's store.
#[derive(Debug, PartialEq, Eq)]
pub struct CommitId {
    pub bytes: Vec<u8>,
}

impl View for CommitId {
    type V = Seq<u8>;

    open spec fn view(&self) -> Seq<u8> {
        self.bytes@
    }
}

impl Clone for CommitId {
    fn clone(&self) -> (copy: Self)
        ensures
            copy@ == self@,
    {
        CommitId { bytes: clone_bytes(&self.bytes) }
    }
}

impl CommitId {
    /// The ID in hexadecimal.
    pub fn hex(&self) -> (text: String)
        ensures
            text@ == hex(self@),
    {
        encode_hex(&self.bytes)
    }

    /// Whether two IDs are the same.
    pub fn same(&self, other: &CommitId) -> (yes: bool)
        ensures
            yes == (self@ == other@),
    {
        same_bytes(&self.bytes, &other.bytes)
    }
}

/// The bytes of each ID of a list.
pub open spec fn commit_ids(list: Seq<CommitId>) -> Seq<Seq<u8>> {
    list.map_values(|id: CommitId| id@)
}

fn clone_bytes(bytes: &Vec<u8>) -> (copy: Vec<u8>)
    ensures
        copy@ == bytes@,
{
    let mut copy: Vec<u8> = Vec::new();
    copy.extend_from_slice(bytes.as_slice());
    assert(copy@ =~= bytes@);
    copy
}

fn same_bytes(a: &Vec<u8>, b: &Vec<u8>) -> (yes: bool)
    ensures
        yes == (a@ == b@),
{
    if a.len() != b.len() {
        return false;
    }
    let mut i: usize = 0;
    while i < a.len()
        invariant
            i <= a@.len(),
            a@.len() == b@.len(),
            forall|j: int| 0 <= j < i ==> a@[j] == b@[j],
        decreases a@.len() - i,
    {
        if a[i] != b[i] {
            return false;
        }
        i = i + 1;
    }
    assert(a@ =~= b@);
    true
}

/// Object IDs have 20 or 32 bytes: the former are SHA-1 digests, the latter SHA-256 digests, and
/// messages say so.
pub proof fn law_hash_kinds(id: Seq<u8>)
    ensures
        is_hash_len(id.len()) <==> id.len() == 20 || id.len() == 32,
        id.len() == 20 ==> hash_kind(id) == HashKind::Sha1,
        id.len() == 32 ==> hash_kind(id) == HashKind::Sha256,
        hash_kind_name(HashKind::Sha1) == "sha1"@,
        hash_kind_name(HashKind::Sha256) == "sha256"@,
{
}

/// The bytes of a list of IDs are those of each ID, at its place.
pub proof fn law_commit_ids(list: Seq<CommitId>)
    ensures
        commit_ids(list).len() == list.len(),
        forall|i: int| 0 <= i < list.len() ==> #[trigger] commit_ids(list)[i] == list[i].bytes@,
{
}

/// A missing ID has no bytes, and another has its own.
pub proof fn law_opt_object_id(id: Option<ObjectId>)
    ensures
        id is None <==> opt_object_id(id) is None,
        id is Some ==> opt_object_id(id) == Some(id->0@),
{
}

} // verus!
