//! What holds of the conversions as a whole: that none of them loses
//! information, and how the collections treat order and repetition.

use vstd::prelude::*;
use linera_base::crypto::CryptoHash;
use crate::host::hash_bytes;
use crate::model::{be_bytes, be_number};
use crate::wire::{
    owner_set, owner_weights, WireAccountOwner, WireAmount, WireApplicationId, WireCryptoHash,
    WireHttpResponse, WireMessageId, WireModuleId, WireOwner, WireTimeoutConfig, WireVmRuntime,
};

verus! {

/// The eight big-endian bytes of a word stand for that word.
pub proof fn be_bytes_keep_the_word(word: u64)
    ensures
        be_bytes(word).len() == 8,
        be_number(be_bytes(word)) == word,
{
    assert((word / 0x0100_0000_0000_0000) * 0x0100_0000_0000_0000
        + (word / 0x0001_0000_0000_0000 % 0x100) * 0x0001_0000_0000_0000
        + (word / 0x0000_0100_0000_0000 % 0x100) * 0x0000_0100_0000_0000
        + (word / 0x0000_0001_0000_0000 % 0x100) * 0x0000_0001_0000_0000
        + (word / 0x0000_0000_0100_0000 % 0x100) * 0x0000_0000_0100_0000
        + (word / 0x0000_0000_0001_0000 % 0x100) * 0x0000_0000_0001_0000
        + (word / 0x0000_0000_0000_0100 % 0x100) * 0x0000_0000_0000_0100
        + word % 0x100 == word) by (bit_vector);
}

/// A record of four parts has 32 bytes, and each part can be read back from
/// its own eight of them: no two records have the same bytes.
pub proof fn hash_parts_can_be_read_back(wire: WireCryptoHash)
    ensures
        wire@.len() == 32,
        wire@.subrange(0, 8) == be_bytes(wire.part1),
        wire@.subrange(8, 16) == be_bytes(wire.part2),
        wire@.subrange(16, 24) == be_bytes(wire.part3),
        wire@.subrange(24, 32) == be_bytes(wire.part4),
        be_number(wire@.subrange(0, 8)) == wire.part1,
        be_number(wire@.subrange(8, 16)) == wire.part2,
        be_number(wire@.subrange(16, 24)) == wire.part3,
        be_number(wire@.subrange(24, 32)) == wire.part4,
{
    assert(wire@.subrange(0, 8) =~= be_bytes(wire.part1));
    assert(wire@.subrange(8, 16) =~= be_bytes(wire.part2));
    assert(wire@.subrange(16, 24) =~= be_bytes(wire.part3));
    assert(wire@.subrange(24, 32) =~= be_bytes(wire.part4));
    be_bytes_keep_the_word(wire.part1);
    be_bytes_keep_the_word(wire.part2);
    be_bytes_keep_the_word(wire.part3);
    be_bytes_keep_the_word(wire.part4);
}

/// Two records with the same bytes are the same record, part for part.
pub proof fn hash_records_differ_in_their_bytes(a: WireCryptoHash, b: WireCryptoHash)
    ensures
        a@ == b@ <==> a == b,
{
    hash_parts_can_be_read_back(a);
    hash_parts_can_be_read_back(b);
}

/// Converting a record into a hash and splitting that hash again gives the
/// record back, part for part: `hash` is what `crypto_hash` returns for
/// `wire`, and `back` what `crypto_hash_parts` returns for `hash`.
pub proof fn hash_round_trip(wire: WireCryptoHash, hash: CryptoHash, back: WireCryptoHash)
    requires
        hash_bytes(hash) == wire@,
        back@ == hash_bytes(hash),
    ensures
        back == wire,
{
    hash_records_differ_in_their_bytes(back, wire);
}

/// The number that the two halves of an amount stand for fits in 128 bits,
/// and both halves can be read back from it: the upper half is the quotient
/// by 2^64 and the lower half the remainder.
pub proof fn amount_keeps_both_halves(wire: WireAmount)
    ensures
        wire@ == wire.inner0.1 * 0x1_0000_0000_0000_0000 + wire.inner0.0,
        wire@ <= u128::MAX,
        wire@ / 0x1_0000_0000_0000_0000 == wire.inner0.1,
        wire@ % 0x1_0000_0000_0000_0000 == wire.inner0.0,
{
}

/// Two amounts that stand for the same number have the same halves.
pub proof fn amounts_differ_in_their_numbers(a: WireAmount, b: WireAmount)
    ensures
        a@ == b@ <==> a == b,
{
    amount_keeps_both_halves(a);
    amount_keeps_both_halves(b);
}

/// Each kind of virtual machine on the wire has its own kind on the host.
pub proof fn runtime_kinds_correspond(a: WireVmRuntime, b: WireVmRuntime)
    ensures
        a@ == b@ <==> a == b,
{
}

/// Two module records with the same meaning are the same record.
pub proof fn module_records_differ_in_their_meaning(a: WireModuleId, b: WireModuleId)
    ensures
        a@ == b@ <==> a == b,
{
    hash_records_differ_in_their_bytes(a.contract_blob_hash, b.contract_blob_hash);
    hash_records_differ_in_their_bytes(a.service_blob_hash, b.service_blob_hash);
}

/// Two application records with the same meaning are the same record.
pub proof fn application_records_differ_in_their_meaning(
    a: WireApplicationId,
    b: WireApplicationId,
)
    ensures
        a@ == b@ <==> a == b,
{
    hash_records_differ_in_their_bytes(
        a.application_description_hash,
        b.application_description_hash,
    );
    module_records_differ_in_their_meaning(a.module_id, b.module_id);
}

/// An account owner keeps its kind, and two records with the same meaning
/// are the same record: a user is never taken for an application.
pub proof fn account_owner_keeps_its_kind(a: WireAccountOwner, b: WireAccountOwner)
    ensures
        a@ is User <==> a is User,
        a@ is Application <==> a is Application,
        a@ == b@ <==> a == b,
{
    match (a, b) {
        (WireAccountOwner::User(x), WireAccountOwner::User(y)) => {
            hash_records_differ_in_their_bytes(x.inner0, y.inner0);
        },
        (WireAccountOwner::Application(x), WireAccountOwner::Application(y)) => {
            application_records_differ_in_their_meaning(x, y);
        },
        _ => {},
    }
}

/// Two message records with the same meaning are the same record.
pub proof fn message_records_differ_in_their_meaning(a: WireMessageId, b: WireMessageId)
    ensures
        a@ == b@ <==> a == b,
{
    hash_records_differ_in_their_bytes(a.chain_id.inner0, b.chain_id.inner0);
}

/// An absent fast-round duration stays absent, and one that is there stays
/// there with its own length, be it zero.
pub proof fn absent_fast_round_stays_absent(wire: WireTimeoutConfig)
    ensures
        wire@.fast_round_duration is None <==> wire.fast_round_duration is None,
        wire.fast_round_duration matches Some(delta)
            ==> wire@.fast_round_duration == Some(delta.inner0),
{
}

/// A response has as many headers as its record, and each stands where the
/// record has it.
pub proof fn headers_keep_their_order(wire: WireHttpResponse, i: int)
    requires
        0 <= i < wire.headers@.len(),
    ensures
        wire@.headers.len() == wire.headers@.len(),
        wire@.headers[i] == wire.headers@[i]@,
{
}

/// An owner is among the super owners exactly if one of the records names
/// it, however often and wherever.
pub proof fn super_owners_are_those_named(owners: Seq<WireOwner>, n: int, owner: WireOwner)
    requires
        0 <= n <= owners.len(),
    ensures
        owner_set(owners, n).contains(owner.inner0@)
            <==> exists|i: int| 0 <= i < n && owners[i] == owner,
    decreases n,
{
    if n > 0 {
        super_owners_are_those_named(owners, n - 1, owner);
        hash_records_differ_in_their_bytes(owners[n - 1].inner0, owner.inner0);
        if owners[n - 1] == owner {
            assert(0 <= n - 1 < n && owners[n - 1] == owner);
        }
    }
}

/// An owner has a weight exactly if one of the pairs names it.
pub proof fn weighted_owners_are_those_named(
    pairs: Seq<(WireOwner, u64)>,
    n: int,
    owner: WireOwner,
)
    requires
        0 <= n <= pairs.len(),
    ensures
        owner_weights(pairs, n).dom().contains(owner.inner0@)
            <==> exists|i: int| 0 <= i < n && pairs[i].0 == owner,
    decreases n,
{
    if n > 0 {
        weighted_owners_are_those_named(pairs, n - 1, owner);
        hash_records_differ_in_their_bytes(pairs[n - 1].0.inner0, owner.inner0);
        if pairs[n - 1].0 == owner {
            assert(0 <= n - 1 < n && pairs[n - 1].0 == owner);
        }
    }
}

/// The last pair that names an owner decides its weight.
pub proof fn last_weight_counts(pairs: Seq<(WireOwner, u64)>, n: int, i: int)
    requires
        0 <= i < n <= pairs.len(),
        forall|j: int| i < j < n ==> pairs[j].0 != pairs[i].0,
    ensures
        owner_weights(pairs, n).dom().contains(pairs[i].0.inner0@),
        owner_weights(pairs, n)[pairs[i].0.inner0@] == pairs[i].1,
    decreases n,
{
    if i < n - 1 {
        last_weight_counts(pairs, n - 1, i);
        hash_records_differ_in_their_bytes(pairs[n - 1].0.inner0, pairs[i].0.inner0);
    }
}

/// Where no owner is named twice, every pair has its own entry: there are
/// as many entries as pairs.
pub proof fn distinct_owners_all_have_entries(pairs: Seq<(WireOwner, u64)>, n: int)
    requires
        0 <= n <= pairs.len(),
        forall|i: int, j: int| 0 <= i < j < n ==> pairs[i].0 != pairs[j].0,
    ensures
        owner_weights(pairs, n).dom().finite(),
        owner_weights(pairs, n).dom().len() == n,
    decreases n,
{
    if n > 0 {
        distinct_owners_all_have_entries(pairs, n - 1);
        weighted_owners_are_those_named(pairs, n - 1, pairs[n - 1].0);
    }
}

/// Where no owner is named twice, each pair has the entry of its owner.
pub proof fn distinct_owners_keep_their_weights(pairs: Seq<(WireOwner, u64)>, i: int)
    requires
        0 <= i < pairs.len(),
        forall|j: int, k: int| 0 <= j < k < pairs.len() ==> pairs[j].0 != pairs[k].0,
    ensures
        owner_weights(pairs, pairs.len() as int).dom().contains(pairs[i].0.inner0@),
        owner_weights(pairs, pairs.len() as int)[pairs[i].0.inner0@] == pairs[i].1,
{
    last_weight_counts(pairs, pairs.len() as int, i);
}

/// Where no owner is named twice, the order of the pairs does not matter:
/// two lists of the same pairs give the same weights.
pub proof fn weights_do_not_depend_on_order(a: Seq<(WireOwner, u64)>, b: Seq<(WireOwner, u64)>)
    requires
        forall|i: int, j: int| 0 <= i < j < a.len() ==> a[i].0 != a[j].0,
        forall|i: int, j: int| 0 <= i < j < b.len() ==> b[i].0 != b[j].0,
        a.to_set() == b.to_set(),
    ensures
        owner_weights(a, a.len() as int) == owner_weights(b, b.len() as int),
{
    let wa = owner_weights(a, a.len() as int);
    let wb = owner_weights(b, b.len() as int);
    assert forall|key: Seq<u8>|
        #[trigger] wa.dom().contains(key) == wb.dom().contains(key)
            && (wa.dom().contains(key) ==> wa[key] == wb[key]) by {
        if wa.dom().contains(key) {
            weight_is_shared(a, b, key);
        }
        if wb.dom().contains(key) {
            weight_is_shared(b, a, key);
        }
    }
    assert(wa =~= wb);
}

/// A weight that the pairs of `a` give is given by those of `b` too, where
/// `b` has every pair of `a` and names no owner twice.
proof fn weight_is_shared(a: Seq<(WireOwner, u64)>, b: Seq<(WireOwner, u64)>, key: Seq<u8>)
    requires
        forall|i: int, j: int| 0 <= i < j < b.len() ==> b[i].0 != b[j].0,
        a.to_set() == b.to_set(),
        owner_weights(a, a.len() as int).dom().contains(key),
    ensures
        owner_weights(b, b.len() as int).dom().contains(key),
        owner_weights(b, b.len() as int)[key] == owner_weights(a, a.len() as int)[key],
{
    let i = pair_of_weight(a, a.len() as int, key);
    assert(a.contains(a[i]));
    assert(b.to_set().contains(a[i]));
    let j = b.index_of(a[i]);
    distinct_owners_keep_their_weights(b, j);
}

/// Every weight in the map is the weight of one of the pairs; the result is
/// the place of such a pair.
proof fn pair_of_weight(pairs: Seq<(WireOwner, u64)>, n: int, key: Seq<u8>) -> (i: int)
    requires
        0 <= n <= pairs.len(),
        owner_weights(pairs, n).dom().contains(key),
    ensures
        0 <= i < n,
        pairs[i].0.inner0@ == key,
        owner_weights(pairs, n)[key] == pairs[i].1,
    decreases n,
{
    if pairs[n - 1].0.inner0@ == key {
        n - 1
    } else {
        pair_of_weight(pairs, n - 1, key)
    }
}

} // verus!
