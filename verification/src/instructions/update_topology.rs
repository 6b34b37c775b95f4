use vstd::prelude::*;

use crate::model::membership::Membership;
use crate::model::topology::Topology;
use crate::pubkey::Pubkey;

verus! {

/// What `update_topology` reads and writes: the topology, the proposing
/// member and the topology's authority, which signs.
#[derive(Clone, Debug, PartialEq, Eq)]
pub struct UpdateTopology {
    pub topology: Topology,
    pub proposer: Membership,
    pub authority: Pubkey,
}

/// The account constraint of `update_topology`: the signer is the
/// topology's authority.
pub open spec fn signed_by_authority(ctx: UpdateTopology) -> bool {
    ctx.authority == ctx.topology.authority
}

/// Setting cell `id` to `value` takes the context from `old_ctx` to
/// `new_ctx`.
pub open spec fn topology_updated(
    old_ctx: UpdateTopology,
    new_ctx: UpdateTopology,
    id: u8,
    value: u8,
) -> bool {
    &&& new_ctx.topology.values@ == old_ctx.topology.values@.update(id as int, value)
    &&& new_ctx == (UpdateTopology {
        topology: (Topology { values: new_ctx.topology.values, ..old_ctx.topology }),
        ..old_ctx
    })
}

/// Sets cell `id` of the topology to `value`.
pub fn handler(ctx: &mut UpdateTopology, id: u8, value: u8)
    requires
        id < old(ctx).topology.values@.len(),
    ensures
        topology_updated(*old(ctx), *final(ctx), id, value),
        final(ctx).topology.encoded_len() == old(ctx).topology.encoded_len(),
        final(ctx).topology.capacity == old(ctx).topology.capacity,
        final(ctx).topology.values@.len() == old(ctx).topology.values@.len(),
{
    ctx.topology.values.set(id as usize, value);
}

} // verus!
