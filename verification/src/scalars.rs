//! Hashes, amounts, and the counters that are wrapped one for one.

use vstd::prelude::*;
use linera_base::crypto::CryptoHash;
use linera_base::data_types::{Amount, BlockHeight, TimeDelta, Timestamp};
use linera_base::vm::VmRuntime;
use crate::host::{
    amount_attos, block_height_of, delta_micros, hash_bytes, height_value, runtime_evm,
    runtime_kind, runtime_wasm, timestamp_micros,
};
use crate::wire::{
    WireAmount, WireBlockHeight, WireCryptoHash, WireTimeDelta, WireTimestamp, WireVmRuntime,
};

verus! {

/// Builds the hash from the four parts of `wire`, in the order in which the
/// record declares them: its bytes are the bytes of the first part, then
/// those of the second, the third and the fourth.
pub fn crypto_hash(wire: WireCryptoHash) -> (hash: CryptoHash)
    ensures
        hash_bytes(hash) == wire@,
{
    CryptoHash::from([wire.part1, wire.part2, wire.part3, wire.part4])
}

/// Splits a hash into the record of its four parts.
pub fn crypto_hash_parts(hash: CryptoHash) -> (wire: WireCryptoHash)
    ensures
        wire@ == hash_bytes(hash),
{
    let parts = <[u64; 4]>::from(hash);
    WireCryptoHash { part1: parts[0], part2: parts[1], part3: parts[2], part4: parts[3] }
}

/// Joins the two halves of `wire` into one amount: the upper half is widened
/// to 128 bits before it is shifted, so no bit of it is lost.
pub fn amount(wire: WireAmount) -> (amount: Amount)
    ensures
        amount_attos(amount) == wire@,
        amount_attos(amount) == wire.inner0.1 * 0x1_0000_0000_0000_0000 + wire.inner0.0,
{
    let (lower_half, upper_half) = wire.inner0;
    let value: u128 = ((upper_half as u128) << 64) | (lower_half as u128);
    assert(value == upper_half * 0x1_0000_0000_0000_0000 + lower_half) by (bit_vector)
        requires
            value == ((upper_half as u128) << 64) | (lower_half as u128),
    ;
    Amount::from_attos(value)
}

/// Wraps the height unchanged.
pub fn block_height(wire: WireBlockHeight) -> (height: BlockHeight)
    ensures
        height_value(height) == wire.inner0,
{
    block_height_of(wire.inner0)
}

/// Wraps the instant unchanged: both sides count microseconds since the
/// Unix epoch.
pub fn timestamp(wire: WireTimestamp) -> (timestamp: Timestamp)
    ensures
        timestamp_micros(timestamp) == wire.inner0,
{
    Timestamp::from(wire.inner0)
}

/// Wraps the duration unchanged: both sides count microseconds.
pub fn time_delta(wire: WireTimeDelta) -> (delta: TimeDelta)
    ensures
        delta_micros(delta) == wire.inner0,
{
    TimeDelta::from_micros(wire.inner0)
}

/// Maps each kind of virtual machine to the host's variant of the same name.
pub fn vm_runtime(wire: WireVmRuntime) -> (runtime: VmRuntime)
    ensures
        runtime_kind(runtime) == wire@,
{
    match wire {
        WireVmRuntime::Wasm => runtime_wasm(),
        WireVmRuntime::Evm => runtime_evm(),
    }
}

} // verus!
