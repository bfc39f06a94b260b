//! Identifiers: values made of hashes, a kind of virtual machine, and
//! counters.

use vstd::prelude::*;
use linera_base::crypto::CryptoHash;
use linera_base::identifiers::{ChainId, MessageId, ModuleId};
use crate::host::{
    chain_id_bytes, chain_id_of, hash_bytes, message_id_of, message_id_view, module_id_view,
};
use crate::model::{AccountOwnerView, ApplicationIdView};
use crate::scalars::{block_height, crypto_hash, vm_runtime};
use crate::wire::{
    WireAccountOwner, WireApplicationId, WireChainId, WireMessageId, WireModuleId, WireOwner,
};

verus! {

/// The owner of a chain or of an account: the hash of a public key.
#[derive(Clone, Copy, Debug, PartialEq, Eq)]
pub struct Owner(pub CryptoHash);

/// An application: the hash of its description, and the module it was
/// created from.
#[derive(Clone, Copy, Debug, PartialEq, Eq)]
pub struct ApplicationId {
    pub application_description_hash: CryptoHash,
    pub module_id: ModuleId,
}

/// Who owns an account: a user or an application.
#[derive(Clone, Copy, Debug, PartialEq, Eq)]
pub enum AccountOwner {
    User(Owner),
    Application(ApplicationId),
}

impl View for Owner {
    type V = Seq<u8>;

    open spec fn view(&self) -> Seq<u8> {
        hash_bytes(self.0)
    }
}

impl View for ApplicationId {
    type V = ApplicationIdView;

    open spec fn view(&self) -> ApplicationIdView {
        ApplicationIdView {
            application_description_hash: hash_bytes(self.application_description_hash),
            module_id: module_id_view(self.module_id),
        }
    }
}

impl View for AccountOwner {
    type V = AccountOwnerView;

    open spec fn view(&self) -> AccountOwnerView {
        match self {
            AccountOwner::User(owner) => AccountOwnerView::User(owner@),
            AccountOwner::Application(id) => AccountOwnerView::Application(id@),
        }
    }
}

/// Converts both hashes and the kind of virtual machine, and builds the
/// module id from them, each in its own place.
pub fn module_id(wire: WireModuleId) -> (module_id: ModuleId)
    ensures
        module_id_view(module_id) == wire@,
{
    ModuleId::new(
        crypto_hash(wire.contract_blob_hash),
        crypto_hash(wire.service_blob_hash),
        vm_runtime(wire.vm_runtime),
    )
}

/// Converts the chain id and the height, and keeps the index.
pub fn message_id(wire: WireMessageId) -> (message_id: MessageId)
    ensures
        message_id_view(message_id) == wire@,
{
    message_id_of(chain_id(wire.chain_id), block_height(wire.height), wire.index)
}

/// Converts the hash of the description and the module id.
pub fn application_id(wire: WireApplicationId) -> (id: ApplicationId)
    ensures
        id@ == wire@,
{
    ApplicationId {
        application_description_hash: crypto_hash(wire.application_description_hash),
        module_id: module_id(wire.module_id),
    }
}

/// Keeps the variant and converts what it carries.
pub fn account_owner(wire: WireAccountOwner) -> (account_owner: AccountOwner)
    ensures
        account_owner@ == wire@,
{
    match wire {
        WireAccountOwner::User(user) => AccountOwner::User(owner(user)),
        WireAccountOwner::Application(id) => AccountOwner::Application(application_id(id)),
    }
}

/// Wraps the converted hash.
pub fn owner(wire: WireOwner) -> (owner: Owner)
    ensures
        owner@ == wire.inner0@,
{
    Owner(crypto_hash(wire.inner0))
}

/// Wraps the converted hash.
pub fn chain_id(wire: WireChainId) -> (chain_id: ChainId)
    ensures
        chain_id_bytes(chain_id) == wire.inner0@,
{
    chain_id_of(crypto_hash(wire.inner0))
}

} // verus!
