//! What the values on both sides of the boundary mean, as mathematical
//! values. A flat record and the host value built from it have the same
//! meaning.

use vstd::prelude::*;

verus! {

/// The eight bytes of a 64-bit word, the most significant byte first.
pub open spec fn be_bytes(word: u64) -> Seq<u8> {
    seq![
        (word / 0x0100_0000_0000_0000) as u8,
        (word / 0x0001_0000_0000_0000 % 0x100) as u8,
        (word / 0x0000_0100_0000_0000 % 0x100) as u8,
        (word / 0x0000_0001_0000_0000 % 0x100) as u8,
        (word / 0x0000_0000_0100_0000 % 0x100) as u8,
        (word / 0x0000_0000_0001_0000 % 0x100) as u8,
        (word / 0x0000_0000_0000_0100 % 0x100) as u8,
        (word % 0x100) as u8,
    ]
}

/// The number that the first eight of `bytes` stand for, the most
/// significant byte first.
pub open spec fn be_number(bytes: Seq<u8>) -> int {
    bytes[0] * 0x0100_0000_0000_0000 + bytes[1] * 0x0001_0000_0000_0000 + bytes[2]
        * 0x0000_0100_0000_0000 + bytes[3] * 0x0000_0001_0000_0000 + bytes[4]
        * 0x0000_0000_0100_0000 + bytes[5] * 0x0000_0000_0001_0000 + bytes[6]
        * 0x0000_0000_0000_0100 + bytes[7]
}

/// The 32 bytes of a hash that is given as four words: the bytes of the
/// first word, then those of the second, the third and the fourth.
pub open spec fn hash_bytes_of(first: u64, second: u64, third: u64, fourth: u64) -> Seq<u8> {
    be_bytes(first) + be_bytes(second) + be_bytes(third) + be_bytes(fourth)
}

/// The kind of virtual machine that runs a module.
#[derive(Clone, Copy, Debug, PartialEq, Eq, Structural)]
pub enum VmKind {
    Wasm,
    Evm,
}

/// A module: the bytes of the hashes of its two bytecode blobs, and the
/// virtual machine that runs them.
pub struct ModuleIdView {
    pub contract_blob_hash: Seq<u8>,
    pub service_blob_hash: Seq<u8>,
    pub vm_runtime: VmKind,
}

/// An application: the bytes of the hash of its description, and its module.
pub struct ApplicationIdView {
    pub application_description_hash: Seq<u8>,
    pub module_id: ModuleIdView,
}

/// Who owns an account: a user, by the bytes of the owner's hash, or an
/// application.
pub enum AccountOwnerView {
    User(Seq<u8>),
    Application(ApplicationIdView),
}

/// A message: the bytes of the hash of the chain that sent it, the height of
/// the block that holds it, and its index in that block.
pub struct MessageIdView {
    pub chain_id: Seq<u8>,
    pub height: u64,
    pub index: u32,
}

/// The round timeouts of a chain, each in microseconds.
pub struct TimeoutView {
    pub fast_round_duration: Option<u64>,
    pub base_timeout: u64,
    pub timeout_increment: u64,
    pub fallback_duration: u64,
}

/// Who may propose blocks on a chain. Owners are known by the bytes of their
/// hashes. The super owners are a set and the regular owners a map to their
/// weights: neither has an order, and no owner is in either twice.
pub struct OwnershipView {
    pub super_owners: Set<Seq<u8>>,
    pub owners: Map<Seq<u8>, u64>,
    pub multi_leader_rounds: u32,
    pub open_multi_leader_rounds: bool,
    pub timeout_config: TimeoutView,
}

/// One header of an HTTP message.
pub struct HeaderView {
    pub name: Seq<char>,
    pub value: Seq<u8>,
}

/// An HTTP response; the headers are in the order in which they were sent.
pub struct ResponseView {
    pub status: u16,
    pub headers: Seq<HeaderView>,
    pub body: Seq<u8>,
}

/// Why a chain could not be closed.
#[derive(Clone, Copy, Debug, PartialEq, Eq, Structural)]
pub enum CloseChainRefusal {
    NotPermitted,
}

/// Why the permissions of the applications on a chain could not be changed.
#[derive(Clone, Copy, Debug, PartialEq, Eq, Structural)]
pub enum PermissionsChangeRefusal {
    NotPermitted,
}

} // verus!
