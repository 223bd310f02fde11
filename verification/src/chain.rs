use vstd::prelude::*;
use crate::digest::{compute_fork_digest, spec_fork_digest};
use crate::fork_id::EnrForkId;

verus! {

/// The network constants this resolver reads from the chain specification:
/// epoch arithmetic, the subnet count, and a static fork schedule of the
/// genesis fork plus at most one scheduled fork (`next_fork_epoch ==
/// u64::MAX` is the sentinel for "none scheduled", in which case
/// `next_fork_version` repeats the current version).
#[derive(Clone, Copy, Debug)]
pub struct ChainSpec {
    pub genesis_fork_version: [u8; 4],
    pub next_fork_version: [u8; 4],
    pub next_fork_epoch: u64,
    pub far_future_epoch: u64,
    pub attestation_subnet_count: u64,
    pub slots_per_epoch: u64,
}

/// The fork version active at the epoch a slot belongs to, under the
/// specification's schedule.
pub open spec fn spec_current_version(spec: ChainSpec, slot: u64) -> Seq<u8>
    recommends
        spec.well_formed(),
{
    if slot / spec.slots_per_epoch >= spec.next_fork_epoch {
        spec.next_fork_version@
    } else {
        spec.genesis_fork_version@
    }
}

impl ChainSpec {
    pub open spec fn well_formed(&self) -> bool {
        self.slots_per_epoch > 0
    }

    /// The epoch a slot belongs to.
    pub fn slot_to_epoch(&self, slot: u64) -> (r: u64)
        requires
            self.well_formed(),
        ensures
            r == slot / self.slots_per_epoch,
    {
        slot / self.slots_per_epoch
    }

    /// Resolves the fork identity for a given slot and genesis validators
    /// root: the digest of the fork active at that slot, and the scheduled
    /// next fork (the sentinel epoch when none is scheduled).  Well-defined
    /// for every representable slot.
    pub fn enr_fork_id(&self, slot: u64, genesis_validators_root: &[u8; 32]) -> (r: EnrForkId)
        requires
            self.well_formed(),
        ensures
            r.fork_digest@ == spec_fork_digest(
                spec_current_version(*self, slot),
                genesis_validators_root@,
            ),
            r.next_fork_version == self.next_fork_version,
            r.next_fork_epoch == self.next_fork_epoch,
    {
        let epoch = self.slot_to_epoch(slot);
        let current: [u8; 4] = if epoch >= self.next_fork_epoch {
            self.next_fork_version
        } else {
            self.genesis_fork_version
        };
        let fork_digest = compute_fork_digest(&current, genesis_validators_root);
        EnrForkId {
            fork_digest,
            next_fork_version: self.next_fork_version,
            next_fork_epoch: self.next_fork_epoch,
        }
    }
}

/// The chain specification of the main network: no scheduled fork, 64
/// attestation subnets, 32 slots per epoch.
pub fn get_chain_spec() -> (r: ChainSpec)
    ensures
        r.well_formed(),
        r.genesis_fork_version@ == seq![0u8, 0u8, 0u8, 0u8],
        r.next_fork_version@ == seq![0u8, 0u8, 0u8, 0u8],
        r.next_fork_epoch == u64::MAX,
        r.far_future_epoch == u64::MAX,
        r.attestation_subnet_count == 64,
        r.slots_per_epoch == 32,
{
    let r = ChainSpec {
        genesis_fork_version: [0; 4],
        next_fork_version: [0; 4],
        next_fork_epoch: u64::MAX,
        far_future_epoch: u64::MAX,
        attestation_subnet_count: 64,
        slots_per_epoch: 32,
    };
    proof {
        assert(r.genesis_fork_version@ =~= seq![0u8, 0u8, 0u8, 0u8]);
        assert(r.next_fork_version@ =~= seq![0u8, 0u8, 0u8, 0u8]);
    }
    r
}

/// The full network configuration: the chain specification under its
/// constant-set name.
#[derive(Clone, Copy, Debug)]
pub struct Eth2Config {
    pub spec: ChainSpec,
}

/// The configuration of the main network.
pub fn get_eth2_config() -> (r: Eth2Config)
    ensures
        r.spec.well_formed(),
        r.spec.genesis_fork_version@ == seq![0u8, 0u8, 0u8, 0u8],
        r.spec.next_fork_version@ == seq![0u8, 0u8, 0u8, 0u8],
        r.spec.next_fork_epoch == u64::MAX,
        r.spec.far_future_epoch == u64::MAX,
        r.spec.attestation_subnet_count == 64,
        r.spec.slots_per_epoch == 32,
{
    Eth2Config { spec: get_chain_spec() }
}

} // verus!
