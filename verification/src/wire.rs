//! The flat records that cross the guest boundary. Every execution context
//! of the guest uses this one schema.

use vstd::prelude::*;
use crate::model::{
    hash_bytes_of, AccountOwnerView, ApplicationIdView, CloseChainRefusal, HeaderView,
    MessageIdView, ModuleIdView, OwnershipView, PermissionsChangeRefusal, ResponseView,
    TimeoutView, VmKind,
};

verus! {

/// A 256-bit hash in four 64-bit parts, the most significant part first.
#[derive(Clone, Copy, Debug, PartialEq, Eq, Structural)]
pub struct WireCryptoHash {
    pub part1: u64,
    pub part2: u64,
    pub part3: u64,
    pub part4: u64,
}

/// The owner of a chain or of an account, by hash.
#[derive(Clone, Copy, Debug, PartialEq, Eq, Structural)]
pub struct WireOwner {
    pub inner0: WireCryptoHash,
}

/// A 128-bit token amount as its lower and its upper 64 bits, in that order.
#[derive(Clone, Copy, Debug, PartialEq, Eq)]
pub struct WireAmount {
    pub inner0: (u64, u64),
}

/// The height of a block in its chain.
#[derive(Clone, Copy, Debug, PartialEq, Eq, Structural)]
pub struct WireBlockHeight {
    pub inner0: u64,
}

/// A chain, by hash.
#[derive(Clone, Copy, Debug, PartialEq, Eq, Structural)]
pub struct WireChainId {
    pub inner0: WireCryptoHash,
}

/// The virtual machine that runs a module.
#[derive(Clone, Copy, Debug, PartialEq, Eq, Structural)]
pub enum WireVmRuntime {
    Wasm,
    Evm,
}

/// A module: the hashes of its contract and service bytecode, and the
/// virtual machine that runs them.
#[derive(Clone, Copy, Debug, PartialEq, Eq, Structural)]
pub struct WireModuleId {
    pub contract_blob_hash: WireCryptoHash,
    pub service_blob_hash: WireCryptoHash,
    pub vm_runtime: WireVmRuntime,
}

/// An application: the hash of its description, and its module.
#[derive(Clone, Copy, Debug, PartialEq, Eq, Structural)]
pub struct WireApplicationId {
    pub application_description_hash: WireCryptoHash,
    pub module_id: WireModuleId,
}

/// The owner of an account: a user or an application.
#[derive(Clone, Copy, Debug, PartialEq, Eq, Structural)]
pub enum WireAccountOwner {
    User(WireOwner),
    Application(WireApplicationId),
}

/// A message: the chain that sent it, the height of the block that holds
/// it, and its index in that block.
#[derive(Clone, Copy, Debug, PartialEq, Eq, Structural)]
pub struct WireMessageId {
    pub chain_id: WireChainId,
    pub height: WireBlockHeight,
    pub index: u32,
}

/// A point in time, in microseconds since the Unix epoch.
#[derive(Clone, Copy, Debug, PartialEq, Eq, Structural)]
pub struct WireTimestamp {
    pub inner0: u64,
}

/// A duration in microseconds.
#[derive(Clone, Copy, Debug, PartialEq, Eq, Structural)]
pub struct WireTimeDelta {
    pub inner0: u64,
}

/// How long the rounds of a chain last. A chain may have no fast round.
#[derive(Clone, Copy, Debug, PartialEq, Eq)]
pub struct WireTimeoutConfig {
    pub fast_round_duration: Option<WireTimeDelta>,
    pub base_timeout: WireTimeDelta,
    pub timeout_increment: WireTimeDelta,
    pub fallback_duration: WireTimeDelta,
}

/// The owners of a chain. The super owners come in no particular order, and
/// so do the regular owners, each paired with a weight; where a regular
/// owner occurs more than once, the last pair counts.
#[derive(Clone, Debug, PartialEq, Eq)]
pub struct WireChainOwnership {
    pub super_owners: Vec<WireOwner>,
    pub owners: Vec<(WireOwner, u64)>,
    pub multi_leader_rounds: u32,
    pub open_multi_leader_rounds: bool,
    pub timeout_config: WireTimeoutConfig,
}

/// One header of an HTTP message; the value may hold any bytes.
#[derive(Clone, Debug, PartialEq, Eq)]
pub struct WireHttpHeader {
    pub name: String,
    pub value: Vec<u8>,
}

/// An HTTP response, with its headers in the order in which they were sent.
#[derive(Clone, Debug, PartialEq, Eq)]
pub struct WireHttpResponse {
    pub status: u16,
    pub headers: Vec<WireHttpHeader>,
    pub body: Vec<u8>,
}

/// Why a chain could not be closed.
#[derive(Clone, Copy, Debug, PartialEq, Eq, Structural)]
pub enum WireCloseChainError {
    NotPermitted,
}

/// Why the permissions of the applications on a chain could not be changed.
#[derive(Clone, Copy, Debug, PartialEq, Eq, Structural)]
pub enum WireChangeApplicationPermissionsError {
    NotPermitted,
}

impl View for WireCryptoHash {
    type V = Seq<u8>;

    /// The 32 bytes of the hash: those of the four parts, in the order in
    /// which the record declares them.
    open spec fn view(&self) -> Seq<u8> {
        hash_bytes_of(self.part1, self.part2, self.part3, self.part4)
    }
}

impl View for WireAmount {
    type V = nat;

    /// The number whose lower 64 bits are the first half and whose upper 64
    /// bits are the second.
    open spec fn view(&self) -> nat {
        (self.inner0.1 * 0x1_0000_0000_0000_0000 + self.inner0.0) as nat
    }
}

impl View for WireVmRuntime {
    type V = VmKind;

    open spec fn view(&self) -> VmKind {
        match self {
            WireVmRuntime::Wasm => VmKind::Wasm,
            WireVmRuntime::Evm => VmKind::Evm,
        }
    }
}

impl View for WireCloseChainError {
    type V = CloseChainRefusal;

    open spec fn view(&self) -> CloseChainRefusal {
        match self {
            WireCloseChainError::NotPermitted => CloseChainRefusal::NotPermitted,
        }
    }
}

impl View for WireChangeApplicationPermissionsError {
    type V = PermissionsChangeRefusal;

    open spec fn view(&self) -> PermissionsChangeRefusal {
        match self {
            WireChangeApplicationPermissionsError::NotPermitted => {
                PermissionsChangeRefusal::NotPermitted
            },
        }
    }
}

impl View for WireModuleId {
    type V = ModuleIdView;

    open spec fn view(&self) -> ModuleIdView {
        ModuleIdView {
            contract_blob_hash: self.contract_blob_hash@,
            service_blob_hash: self.service_blob_hash@,
            vm_runtime: self.vm_runtime@,
        }
    }
}

impl View for WireApplicationId {
    type V = ApplicationIdView;

    open spec fn view(&self) -> ApplicationIdView {
        ApplicationIdView {
            application_description_hash: self.application_description_hash@,
            module_id: self.module_id@,
        }
    }
}

impl View for WireAccountOwner {
    type V = AccountOwnerView;

    open spec fn view(&self) -> AccountOwnerView {
        match self {
            WireAccountOwner::User(owner) => AccountOwnerView::User(owner.inner0@),
            WireAccountOwner::Application(id) => AccountOwnerView::Application(id@),
        }
    }
}

impl View for WireMessageId {
    type V = MessageIdView;

    open spec fn view(&self) -> MessageIdView {
        MessageIdView {
            chain_id: self.chain_id.inner0@,
            height: self.height.inner0,
            index: self.index,
        }
    }
}

impl View for WireTimeoutConfig {
    type V = TimeoutView;

    /// An absent fast-round duration stays absent.
    open spec fn view(&self) -> TimeoutView {
        TimeoutView {
            fast_round_duration: match self.fast_round_duration {
                Some(delta) => Some(delta.inner0),
                None => None,
            },
            base_timeout: self.base_timeout.inner0,
            timeout_increment: self.timeout_increment.inner0,
            fallback_duration: self.fallback_duration.inner0,
        }
    }
}

/// The owners among the first `n` of `owners`, each by the bytes of its hash.
pub open spec fn owner_set(owners: Seq<WireOwner>, n: int) -> Set<Seq<u8>>
    decreases n,
{
    if n <= 0 {
        Set::empty()
    } else {
        owner_set(owners, n - 1).insert(owners[n - 1].inner0@)
    }
}

/// The weights that the first `n` of `pairs` give: each pair sets the weight
/// of its owner, so a later pair for the same owner replaces an earlier one.
pub open spec fn owner_weights(pairs: Seq<(WireOwner, u64)>, n: int) -> Map<Seq<u8>, u64>
    decreases n,
{
    if n <= 0 {
        Map::empty()
    } else {
        owner_weights(pairs, n - 1).insert(pairs[n - 1].0.inner0@, pairs[n - 1].1)
    }
}

impl View for WireChainOwnership {
    type V = OwnershipView;

    open spec fn view(&self) -> OwnershipView {
        OwnershipView {
            super_owners: owner_set(self.super_owners@, self.super_owners@.len() as int),
            owners: owner_weights(self.owners@, self.owners@.len() as int),
            multi_leader_rounds: self.multi_leader_rounds,
            open_multi_leader_rounds: self.open_multi_leader_rounds,
            timeout_config: self.timeout_config@,
        }
    }
}

impl View for WireHttpHeader {
    type V = HeaderView;

    open spec fn view(&self) -> HeaderView {
        HeaderView { name: self.name@, value: self.value@ }
    }
}

impl View for WireHttpResponse {
    type V = ResponseView;

    /// The headers keep their order.
    open spec fn view(&self) -> ResponseView {
        ResponseView {
            status: self.status,
            headers: self.headers@.map_values(|header: WireHttpHeader| header@),
            body: self.body@,
        }
    }
}

} // verus!
