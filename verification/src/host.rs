//! The host's value types, which come from `linera_base`. Verus cannot look
//! inside them: what each one holds has a name here, and each function or
//! constructor that builds one says what the value it returns holds. Nothing
//! in this file is proved; the rest of the library is proved from it.

use vstd::prelude::*;
use linera_base::crypto::CryptoHash;
use linera_base::data_types::{Amount, BlockHeight, TimeDelta, Timestamp};
use linera_base::http::{Header, Response};
use linera_base::identifiers::{AccountOwner, ChainId, MessageId, ModuleId};
use linera_base::ownership::{
    ChainOwnership, ChangeApplicationPermissionsError, CloseChainError, TimeoutConfig,
};
use linera_base::vm::VmRuntime;
use std::collections::{BTreeMap, BTreeSet};
use crate::model::{
    hash_bytes_of, CloseChainRefusal, HeaderView, MessageIdView, ModuleIdView, OwnershipView,
    PermissionsChangeRefusal, ResponseView, TimeoutView, VmKind,
};

verus! {

/// A 256-bit hash, `linera_base::crypto::CryptoHash`.
#[verifier::external_type_specification]
#[verifier::external_body]
pub struct ExCryptoHash(linera_base::crypto::CryptoHash);

/// A token amount in attos, `linera_base::data_types::Amount`.
#[verifier::external_type_specification]
#[verifier::external_body]
pub struct ExAmount(linera_base::data_types::Amount);

/// A block height, `linera_base::data_types::BlockHeight`.
#[verifier::external_type_specification]
#[verifier::external_body]
pub struct ExBlockHeight(linera_base::data_types::BlockHeight);

/// A point in time, `linera_base::data_types::Timestamp`.
#[verifier::external_type_specification]
#[verifier::external_body]
pub struct ExTimestamp(linera_base::data_types::Timestamp);

/// A duration, `linera_base::data_types::TimeDelta`.
#[verifier::external_type_specification]
#[verifier::external_body]
pub struct ExTimeDelta(linera_base::data_types::TimeDelta);

/// The enum of virtual machines, `linera_base::vm::VmRuntime`.
#[verifier::external_type_specification]
#[verifier::external_body]
pub struct ExVmRuntime(linera_base::vm::VmRuntime);

/// A chain id, `linera_base::identifiers::ChainId`.
#[verifier::external_type_specification]
#[verifier::external_body]
pub struct ExChainId(linera_base::identifiers::ChainId);

/// A module id, `linera_base::identifiers::ModuleId`, with its three type
/// parameters.
#[verifier::external_type_specification]
#[verifier::external_body]
#[verifier::reject_recursive_types(Abi)]
#[verifier::reject_recursive_types(Parameters)]
#[verifier::reject_recursive_types(InstantiationArgument)]
pub struct ExModuleId<Abi, Parameters, InstantiationArgument>(
    linera_base::identifiers::ModuleId<Abi, Parameters, InstantiationArgument>,
);

/// A message id, `linera_base::identifiers::MessageId`.
#[verifier::external_type_specification]
#[verifier::external_body]
pub struct ExMessageId(linera_base::identifiers::MessageId);

/// The round timeouts of a chain, `linera_base::ownership::TimeoutConfig`.
#[verifier::external_type_specification]
#[verifier::external_body]
pub struct ExTimeoutConfig(linera_base::ownership::TimeoutConfig);

/// The owners of a chain, `linera_base::ownership::ChainOwnership`.
#[verifier::external_type_specification]
#[verifier::external_body]
pub struct ExChainOwnership(linera_base::ownership::ChainOwnership);

/// An HTTP header, `linera_base::http::Header`.
#[verifier::external_type_specification]
#[verifier::external_body]
pub struct ExHeader(linera_base::http::Header);

/// An HTTP response, `linera_base::http::Response`.
#[verifier::external_type_specification]
#[verifier::external_body]
pub struct ExResponse(linera_base::http::Response);

/// The enum `linera_base::ownership::CloseChainError`.
#[verifier::external_type_specification]
#[verifier::external_body]
pub struct ExCloseChainError(linera_base::ownership::CloseChainError);

/// The enum `linera_base::ownership::ChangeApplicationPermissionsError`.
#[verifier::external_type_specification]
#[verifier::external_body]
pub struct ExChangeApplicationPermissionsError(
    linera_base::ownership::ChangeApplicationPermissionsError,
);

/// The 32 bytes of a hash, which `CryptoHash::as_bytes` gives.
pub uninterp spec fn hash_bytes(hash: CryptoHash) -> Seq<u8>;

/// The number of attos in an amount, which `u128::from` returns.
pub uninterp spec fn amount_attos(amount: Amount) -> u128;

/// The number that a block height wraps: its one field.
pub uninterp spec fn height_value(height: BlockHeight) -> u64;

/// The microseconds since the Unix epoch, which `Timestamp::micros` returns.
pub uninterp spec fn timestamp_micros(timestamp: Timestamp) -> u64;

/// The microseconds of a duration, which `TimeDelta::as_micros` returns.
pub uninterp spec fn delta_micros(delta: TimeDelta) -> u64;

/// The variant of a `VmRuntime`.
pub uninterp spec fn runtime_kind(runtime: VmRuntime) -> VmKind;

/// The bytes of the hash that a chain id wraps: its one field.
pub uninterp spec fn chain_id_bytes(chain_id: ChainId) -> Seq<u8>;

/// The three public fields of a module id.
pub uninterp spec fn module_id_view(module_id: ModuleId) -> ModuleIdView;

/// The three fields of a message id.
pub uninterp spec fn message_id_view(message_id: MessageId) -> MessageIdView;

/// The four fields of a timeout configuration, each duration in
/// microseconds.
pub uninterp spec fn timeout_view(config: TimeoutConfig) -> TimeoutView;

/// The five fields of a chain ownership. Each owner is known by the bytes
/// of its address: for a 32-byte address, the bytes of its hash.
pub uninterp spec fn ownership_view(ownership: ChainOwnership) -> OwnershipView;

/// The two fields of a header.
pub uninterp spec fn header_view(header: Header) -> HeaderView;

/// The three fields of a response.
pub uninterp spec fn response_view(response: Response) -> ResponseView;

/// The variant of a `CloseChainError`.
pub uninterp spec fn close_chain_refusal(error: CloseChainError) -> CloseChainRefusal;

/// The variant of a `ChangeApplicationPermissionsError`.
pub uninterp spec fn permissions_change_refusal(
    error: ChangeApplicationPermissionsError,
) -> PermissionsChangeRefusal;

/// `CryptoHash::from` on four words: the hash whose bytes are the
/// big-endian bytes of the first word, then those of the second, the third
/// and the fourth.
pub assume_specification[ <linera_base::crypto::CryptoHash as From<[u64; 4]>>::from ](
    integers: [u64; 4],
) -> (result: CryptoHash)
    ensures
        hash_bytes(result) == hash_bytes_of(integers[0], integers[1], integers[2], integers[3]),
;

/// `<[u64; 4]>::from` on a hash: it reads each run of eight bytes as one
/// big-endian word, so the big-endian bytes of the four words, in their
/// order, are the bytes of the hash.
pub assume_specification[ <[u64; 4] as From<linera_base::crypto::CryptoHash>>::from ](
    hash: CryptoHash,
) -> (result: [u64; 4])
    ensures
        hash_bytes_of(result[0], result[1], result[2], result[3]) == hash_bytes(hash),
;

/// `Amount::from_attos`: the amount of exactly that many attos.
pub assume_specification[ linera_base::data_types::Amount::from_attos ](
    attotokens: u128,
) -> (result: Amount)
    ensures
        amount_attos(result) == attotokens,
;

/// The tuple struct `BlockHeight` around a number.
#[verifier::external_body]
pub(crate) fn block_height_of(value: u64) -> (height: BlockHeight)
    ensures
        height_value(height) == value,
{
    BlockHeight(value)
}

/// `Timestamp::from` on a number of microseconds, which it wraps unchanged.
pub assume_specification[ <linera_base::data_types::Timestamp as From<u64>>::from ](
    t: u64,
) -> (result: Timestamp)
    ensures
        timestamp_micros(result) == t,
;

/// `TimeDelta::from_micros`, which wraps the number unchanged.
pub assume_specification[ linera_base::data_types::TimeDelta::from_micros ](
    micros: u64,
) -> (result: TimeDelta)
    ensures
        delta_micros(result) == micros,
;

/// The variant `VmRuntime::Wasm`.
#[verifier::external_body]
pub(crate) fn runtime_wasm() -> (runtime: VmRuntime)
    ensures
        runtime_kind(runtime) == VmKind::Wasm,
{
    VmRuntime::Wasm
}

/// The variant `VmRuntime::Evm`.
#[verifier::external_body]
pub(crate) fn runtime_evm() -> (runtime: VmRuntime)
    ensures
        runtime_kind(runtime) == VmKind::Evm,
{
    VmRuntime::Evm
}

/// The tuple struct `ChainId` around a hash.
#[verifier::external_body]
pub(crate) fn chain_id_of(hash: CryptoHash) -> (chain_id: ChainId)
    ensures
        chain_id_bytes(chain_id) == hash_bytes(hash),
{
    ChainId(hash)
}

/// `ModuleId::new`, which stores its three arguments in the fields of the
/// same names.
pub assume_specification[ linera_base::identifiers::ModuleId::new ](
    contract_blob_hash: CryptoHash,
    service_blob_hash: CryptoHash,
    runtime: VmRuntime,
) -> (result: ModuleId)
    ensures
        module_id_view(result) == (ModuleIdView {
            contract_blob_hash: hash_bytes(contract_blob_hash),
            service_blob_hash: hash_bytes(service_blob_hash),
            vm_runtime: runtime_kind(runtime),
        }),
;

/// The struct `MessageId` with the three fields given.
#[verifier::external_body]
pub(crate) fn message_id_of(
    chain_id: ChainId,
    height: BlockHeight,
    index: u32,
) -> (message_id: MessageId)
    ensures
        message_id_view(message_id) == (MessageIdView {
            chain_id: chain_id_bytes(chain_id),
            height: height_value(height),
            index,
        }),
{
    MessageId { chain_id, height, index }
}

/// The struct `TimeoutConfig` with the four fields given.
#[verifier::external_body]
pub(crate) fn timeout_config_of(
    fast_round_duration: Option<TimeDelta>,
    base_timeout: TimeDelta,
    timeout_increment: TimeDelta,
    fallback_duration: TimeDelta,
) -> (config: TimeoutConfig)
    ensures
        timeout_view(config) == (TimeoutView {
            fast_round_duration: match fast_round_duration {
                Some(delta) => Some(delta_micros(delta)),
                None => None,
            },
            base_timeout: delta_micros(base_timeout),
            timeout_increment: delta_micros(timeout_increment),
            fallback_duration: delta_micros(fallback_duration),
        }),
{
    TimeoutConfig { fast_round_duration, base_timeout, timeout_increment, fallback_duration }
}

/// The struct `ChainOwnership` with an empty set of super owners, an empty
/// map of regular owners, and the other three fields as given.
#[verifier::external_body]
pub(crate) fn ownership_without_owners(
    multi_leader_rounds: u32,
    open_multi_leader_rounds: bool,
    timeout_config: TimeoutConfig,
) -> (ownership: ChainOwnership)
    ensures
        ownership_view(ownership) == (OwnershipView {
            super_owners: Set::empty(),
            owners: Map::empty(),
            multi_leader_rounds,
            open_multi_leader_rounds,
            timeout_config: timeout_view(timeout_config),
        }),
{
    ChainOwnership {
        super_owners: BTreeSet::new(),
        owners: BTreeMap::new(),
        multi_leader_rounds,
        open_multi_leader_rounds,
        timeout_config,
    }
}

/// `BTreeSet::insert` on the super owners, with the owner as the 32-byte
/// address of the hash given: the set gains that owner, and nothing else
/// changes.
#[verifier::external_body]
pub(crate) fn ownership_with_super_owner(
    ownership: ChainOwnership,
    owner: CryptoHash,
) -> (result: ChainOwnership)
    ensures
        ownership_view(result) == (OwnershipView {
            super_owners: ownership_view(ownership).super_owners.insert(hash_bytes(owner)),
            ..ownership_view(ownership)
        }),
{
    let mut result = ownership;
    result.super_owners.insert(AccountOwner::Address32(owner));
    result
}

/// `ChainOwnership::with_regular_owner`, with the owner as the 32-byte
/// address of the hash given: it inserts the pair into the map of regular
/// owners, so the owner has the weight given whether or not it had one
/// before, and nothing else changes.
#[verifier::external_body]
pub(crate) fn ownership_with_owner(
    ownership: ChainOwnership,
    owner: CryptoHash,
    weight: u64,
) -> (result: ChainOwnership)
    ensures
        ownership_view(result) == (OwnershipView {
            owners: ownership_view(ownership).owners.insert(hash_bytes(owner), weight),
            ..ownership_view(ownership)
        }),
{
    ownership.with_regular_owner(AccountOwner::Address32(owner), weight)
}

/// `Header::new`, which stores the name and the value as they are.
#[verifier::external_body]
pub(crate) fn header_new(name: String, value: Vec<u8>) -> (header: Header)
    ensures
        header_view(header) == (HeaderView { name: name@, value: value@ }),
{
    Header::new(name, value)
}

/// The struct `Response` with the three fields given; the headers stay in
/// the order of the vector.
#[verifier::external_body]
pub(crate) fn response_of(
    status: u16,
    headers: Vec<Header>,
    body: Vec<u8>,
) -> (response: Response)
    ensures
        response_view(response) == (ResponseView {
            status,
            headers: headers@.map_values(|header: Header| header_view(header)),
            body: body@,
        }),
{
    Response { status, headers, body }
}

/// The one variant of `CloseChainError`.
#[verifier::external_body]
pub(crate) fn close_chain_not_permitted() -> (error: CloseChainError)
    ensures
        close_chain_refusal(error) == CloseChainRefusal::NotPermitted,
{
    CloseChainError::NotPermitted
}

/// The one variant of `ChangeApplicationPermissionsError`.
#[verifier::external_body]
pub(crate) fn permissions_change_not_permitted() -> (error: ChangeApplicationPermissionsError)
    ensures
        permissions_change_refusal(error) == PermissionsChangeRefusal::NotPermitted,
{
    ChangeApplicationPermissionsError::NotPermitted
}

} // verus!
