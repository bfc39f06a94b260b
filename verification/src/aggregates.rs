//! Values made of several converted parts: timeouts, the owners of a chain,
//! and HTTP responses.

use vstd::prelude::*;
use linera_base::http::{Header, Response};
use linera_base::ownership::{ChainOwnership, TimeoutConfig};
use crate::host::{
    header_new, header_view, ownership_view, ownership_with_owner, ownership_with_super_owner,
    ownership_without_owners, response_of, response_view, timeout_config_of, timeout_view,
};
use crate::model::OwnershipView;
use crate::identifiers::owner;
use crate::scalars::time_delta;
use crate::wire::{
    owner_set, owner_weights, WireChainOwnership, WireHttpHeader, WireHttpResponse,
    WireTimeoutConfig,
};

verus! {

/// Converts each of the four durations. The fast-round duration is
/// converted where there is one and stays absent where there is none.
pub fn timeout_config(wire: WireTimeoutConfig) -> (config: TimeoutConfig)
    ensures
        timeout_view(config) == wire@,
{
    let fast_round_duration = match wire.fast_round_duration {
        Some(delta) => Some(time_delta(delta)),
        None => None,
    };
    timeout_config_of(
        fast_round_duration,
        time_delta(wire.base_timeout),
        time_delta(wire.timeout_increment),
        time_delta(wire.fallback_duration),
    )
}

/// Collects the super owners into a set and the regular owners into a map
/// from owner to weight, converts the timeouts, and keeps the two settings
/// of the multi-leader rounds. In which order the owners come does not
/// matter, but for an owner with more than one weight: the last one counts.
pub fn chain_ownership(wire: WireChainOwnership) -> (ownership: ChainOwnership)
    ensures
        ownership_view(ownership) == wire@,
{
    let mut ownership = ownership_without_owners(
        wire.multi_leader_rounds,
        wire.open_multi_leader_rounds,
        timeout_config(wire.timeout_config),
    );
    let mut i: usize = 0;
    while i < wire.super_owners.len()
        invariant
            i <= wire.super_owners.len(),
            ownership_view(ownership) == (OwnershipView {
                super_owners: owner_set(wire.super_owners@, i as int),
                owners: Map::empty(),
                ..wire@
            }),
        decreases wire.super_owners.len() - i,
    {
        let super_owner = owner(wire.super_owners[i]);
        ownership = ownership_with_super_owner(ownership, super_owner.0);
        i += 1;
    }
    let mut j: usize = 0;
    while j < wire.owners.len()
        invariant
            j <= wire.owners.len(),
            ownership_view(ownership) == (OwnershipView {
                owners: owner_weights(wire.owners@, j as int),
                ..wire@
            }),
        decreases wire.owners.len() - j,
    {
        let (wire_owner, weight) = wire.owners[j];
        let regular_owner = owner(wire_owner);
        ownership = ownership_with_owner(ownership, regular_owner.0, weight);
        j += 1;
    }
    ownership
}

/// Builds the header from the name and the value, both unchanged.
pub fn http_header(wire: WireHttpHeader) -> (header: Header)
    ensures
        header_view(header) == wire@,
{
    header_new(wire.name, wire.value)
}

/// Converts the headers one by one, in their order, and keeps the status
/// and the body.
pub fn http_response(wire: WireHttpResponse) -> (response: Response)
    ensures
        response_view(response) == wire@,
{
    let WireHttpResponse { status, headers: wire_headers, body } = wire;
    let ghost sent = wire_headers@;
    let mut headers: Vec<Header> = Vec::new();
    for wire_header in it: wire_headers
        invariant
            it.seq() == sent,
            headers@.len() == it.index(),
            forall|k: int| 0 <= k < headers@.len() ==> header_view(headers@[k]) == sent[k]@,
    {
        headers.push(http_header(wire_header));
    }
    let response = response_of(status, headers, body);
    assert(response_view(response).headers =~= wire@.headers);
    response
}

} // verus!
