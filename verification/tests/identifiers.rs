use linera_base::crypto::CryptoHash;
use linera_base::data_types::BlockHeight;
use linera_base::identifiers::{ChainId, MessageId, ModuleId};
use linera_base::vm::VmRuntime;
use wire_conversions::identifiers::{
    account_owner, application_id, chain_id, message_id, module_id, owner, AccountOwner,
    ApplicationId, Owner,
};
use wire_conversions::wire::{
    WireAccountOwner, WireApplicationId, WireBlockHeight, WireChainId, WireCryptoHash,
    WireMessageId, WireModuleId, WireOwner, WireVmRuntime,
};

fn parts(first: u64) -> WireCryptoHash {
    WireCryptoHash { part1: first, part2: first + 1, part3: first + 2, part4: first + 3 }
}

fn hash(first: u64) -> CryptoHash {
    CryptoHash::from([first, first + 1, first + 2, first + 3])
}

fn wire_module() -> WireModuleId {
    WireModuleId {
        contract_blob_hash: parts(10),
        service_blob_hash: parts(20),
        vm_runtime: WireVmRuntime::Evm,
    }
}

#[test]
fn owner_wraps_the_hash() {
    assert_eq!(owner(WireOwner { inner0: parts(1) }), Owner(hash(1)));
    assert_eq!(owner(WireOwner { inner0: parts(1) }).0, CryptoHash::from([1, 2, 3, 4]));
    assert_ne!(owner(WireOwner { inner0: parts(1) }), owner(WireOwner { inner0: parts(2) }));
}

#[test]
fn chain_id_wraps_the_hash() {
    assert_eq!(chain_id(WireChainId { inner0: parts(7) }), ChainId(hash(7)));
    assert_eq!(chain_id(WireChainId { inner0: parts(7) }).0, CryptoHash::from([7, 8, 9, 10]));
}

#[test]
fn module_id_keeps_each_hash_in_its_place() {
    let converted = module_id(wire_module());
    assert_eq!(converted.contract_blob_hash, hash(10));
    assert_eq!(converted.service_blob_hash, hash(20));
    assert_eq!(converted.vm_runtime, VmRuntime::Evm);
    assert_eq!(converted, ModuleId::new(hash(10), hash(20), VmRuntime::Evm));
}

#[test]
fn module_id_keeps_the_wasm_runtime() {
    let converted = module_id(WireModuleId { vm_runtime: WireVmRuntime::Wasm, ..wire_module() });
    assert_eq!(converted, ModuleId::new(hash(10), hash(20), VmRuntime::Wasm));
}

#[test]
fn application_id_keeps_the_description_and_the_module() {
    let converted = application_id(WireApplicationId {
        application_description_hash: parts(30),
        module_id: wire_module(),
    });
    assert_eq!(
        converted,
        ApplicationId {
            application_description_hash: hash(30),
            module_id: ModuleId::new(hash(10), hash(20), VmRuntime::Evm),
        }
    );
}

#[test]
fn account_owner_of_a_user_stays_a_user() {
    let converted = account_owner(WireAccountOwner::User(WireOwner { inner0: parts(5) }));
    assert_eq!(converted, AccountOwner::User(Owner(hash(5))));
}

#[test]
fn account_owner_of_an_application_stays_an_application() {
    let wire =
        WireApplicationId { application_description_hash: parts(5), module_id: wire_module() };
    let converted = account_owner(WireAccountOwner::Application(wire));
    assert_eq!(converted, AccountOwner::Application(application_id(wire)));
    assert!(matches!(
        converted,
        AccountOwner::Application(id) if id.application_description_hash == hash(5)
    ));
    assert_ne!(converted, account_owner(WireAccountOwner::User(WireOwner { inner0: parts(5) })));
}

#[test]
fn message_id_keeps_chain_height_and_index() {
    let converted = message_id(WireMessageId {
        chain_id: WireChainId { inner0: parts(3) },
        height: WireBlockHeight { inner0: 17 },
        index: 4,
    });
    assert_eq!(
        converted,
        MessageId { chain_id: ChainId(hash(3)), height: BlockHeight(17), index: 4 }
    );
}

#[test]
fn message_id_at_the_limits() {
    let converted = message_id(WireMessageId {
        chain_id: WireChainId { inner0: parts(0) },
        height: WireBlockHeight { inner0: u64::MAX },
        index: u32::MAX,
    });
    assert_eq!(converted.height, BlockHeight(u64::MAX));
    assert_eq!(converted.index, u32::MAX);
    assert_eq!(converted.chain_id, ChainId(hash(0)));
}
