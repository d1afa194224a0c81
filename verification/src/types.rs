//! Data model of the supervisor: marketplace offers, owned instances, and the
//! response shapes the control plane serves.
//!
//! Prices are carried as fixed-point milli-dollars per hour (thousandths), so
//! that sums and comparisons are exact.

use vstd::prelude::*;

use crate::numbers::{dec_str, milli_2dp_str, format_milli_2dp, u64_to_string};

verus! {

/// A snapshot of a rentable marketplace listing, holding the fields the
/// supervisor's logic reads. The I/O shell decodes the marketplace's full
/// offer document and hands this snapshot over.
pub struct Offer {
    pub id: u64,
    pub machine_id: u64,
    pub host_id: u64,
    pub gpu_name: String,
    pub geolocation: String,
    /// Dollars per hour, in thousandths.
    pub dph_total_milli: u64,
}

impl Clone for Offer {
    fn clone(&self) -> (r: Self)
        ensures
            r == *self,
    {
        Offer {
            id: self.id,
            machine_id: self.machine_id,
            host_id: self.host_id,
            gpu_name: self.gpu_name.clone(),
            geolocation: self.geolocation.clone(),
            dph_total_milli: self.dph_total_milli,
        }
    }
}

/// A rental this supervisor owns: an accepted offer now running in the
/// marketplace.
pub struct VastInstance {
    /// Assigned by the marketplace when the rent call succeeds.
    pub instance_id: u64,
    /// The offer snapshot captured at rent time.
    pub offer: Offer,
    /// Seconds on the supervisor's monotonic clock when the rent succeeded.
    pub created_at: u64,
    /// Flipped to true exactly once by a verify command.
    pub contemplant_verified: bool,
    /// Mark-for-destruction; once true it stays true until removal.
    pub should_drop: bool,
}

impl VastInstance {
    /// A fresh instance record: unverified and not marked for drop.
    pub fn new(instance_id: u64, offer: Offer, created_at: u64) -> (r: Self)
        ensures
            r.instance_id == instance_id,
            r.offer == offer,
            r.created_at == created_at,
            !r.contemplant_verified,
            !r.should_drop,
    {
        VastInstance {
            instance_id,
            offer,
            created_at,
            contemplant_verified: false,
            should_drop: false,
        }
    }
}

impl Clone for VastInstance {
    fn clone(&self) -> (r: Self)
        ensures
            r == *self,
    {
        VastInstance {
            instance_id: self.instance_id,
            offer: self.offer.clone(),
            created_at: self.created_at,
            contemplant_verified: self.contemplant_verified,
            should_drop: self.should_drop,
        }
    }
}

/// The one-line description of an instance, as the supervisor logs it.
pub open spec fn instance_description(inst: VastInstance) -> Seq<char> {
    "instance_id "@ + dec_str(inst.instance_id as nat) + ": "@ + inst.offer.gpu_name@ + " in "@
        + inst.offer.geolocation@ + " machine_id "@ + dec_str(inst.offer.machine_id as nat)
        + " host_id "@ + dec_str(inst.offer.host_id as nat) + " $"@ + milli_2dp_str(
        inst.offer.dph_total_milli as nat,
    ) + "/hour"@
}

impl VastInstance {
    /// Renders the one-line description used in log output: the instance
    /// id, the GPU and where it runs, and the hourly price with two
    /// decimals.
    pub fn describe(&self) -> (r: String)
        ensures
            r@ == instance_description(*self),
    {
        let mut s = "instance_id ".to_owned();
        let id = u64_to_string(self.instance_id);
        s.append(id.as_str());
        s.append(": ");
        s.append(self.offer.gpu_name.as_str());
        s.append(" in ");
        s.append(self.offer.geolocation.as_str());
        s.append(" machine_id ");
        let machine = u64_to_string(self.offer.machine_id);
        s.append(machine.as_str());
        s.append(" host_id ");
        let host = u64_to_string(self.offer.host_id);
        s.append(host.as_str());
        s.append(" $");
        let price = format_milli_2dp(self.offer.dph_total_milli);
        s.append(price.as_str());
        s.append("/hour");
        s
    }
}

/// Decoded body of a successful create-instance call.
#[derive(Clone, Copy)]
pub struct VastCreateInstanceResponse {
    pub success: bool,
    /// The new instance's id.
    pub new_contract: u64,
}

/// Decoded body of a successful list-offers call.
pub struct VastOfferResponse {
    pub offers: Vec<Offer>,
}

/// One line of the summary: what an operator sees per instance.
pub struct InstanceOverview {
    pub instance_id: u64,
    pub gpu: String,
    pub location: String,
    pub machine_id: u64,
    pub host_id: u64,
    /// Dollars per hour, in thousandths.
    pub cost_per_hour_milli: u64,
}

impl InstanceOverview {
    /// The overview line for one owned instance.
    pub fn from_instance(inst: &VastInstance) -> (r: Self)
        ensures
            r == overview_of(*inst),
    {
        InstanceOverview {
            instance_id: inst.instance_id,
            gpu: inst.offer.gpu_name.clone(),
            location: inst.offer.geolocation.clone(),
            machine_id: inst.offer.machine_id,
            host_id: inst.offer.host_id,
            cost_per_hour_milli: inst.offer.dph_total_milli,
        }
    }
}

/// The overview line that belongs to an instance.
pub open spec fn overview_of(inst: VastInstance) -> InstanceOverview {
    InstanceOverview {
        instance_id: inst.instance_id,
        gpu: inst.offer.gpu_name,
        location: inst.offer.geolocation,
        machine_id: inst.offer.machine_id,
        host_id: inst.offer.host_id,
        cost_per_hour_milli: inst.offer.dph_total_milli,
    }
}

/// The summary served by the control plane: instances marked for drop are
/// excluded, the rest are counted and their hourly cost summed.
pub struct SummaryResponse {
    /// Sum of the kept instances' dollars per hour, in thousandths. Wide
    /// enough that the sum can never overflow.
    pub total_cost_per_hour_milli: u128,
    pub num_instances: usize,
    pub instance_overview: Vec<InstanceOverview>,
}

/// The instances a summary reports: those not marked for drop.
pub open spec fn summary_kept(instances: Seq<VastInstance>) -> Seq<VastInstance> {
    instances.filter(|inst: VastInstance| !inst.should_drop)
}

/// Sum of hourly cost over a sequence of instances, in thousandths.
pub open spec fn total_dph_milli(instances: Seq<VastInstance>) -> int
    decreases instances.len(),
{
    if instances.len() == 0 {
        0
    } else {
        total_dph_milli(instances.drop_last()) + instances.last().offer.dph_total_milli
    }
}

/// The sum of hourly costs is bounded by the count times the largest cost.
proof fn lemma_total_dph_milli_bound(instances: Seq<VastInstance>)
    ensures
        0 <= total_dph_milli(instances) <= instances.len() * u64::MAX,
    decreases instances.len(),
{
    if instances.len() > 0 {
        lemma_total_dph_milli_bound(instances.drop_last());
        assert((instances.len() - 1) * u64::MAX + u64::MAX == instances.len() * u64::MAX)
            by (nonlinear_arith);
    }
}

/// Builds the summary of a table snapshot: drops the instances marked for
/// drop, sums the hourly cost of the rest, and lists one overview line per
/// kept instance, in table order.
pub fn summarize(instances: &Vec<VastInstance>) -> (r: SummaryResponse)
    ensures
        r.total_cost_per_hour_milli == total_dph_milli(summary_kept(instances@)),
        r.num_instances == summary_kept(instances@).len(),
        r.instance_overview@ == summary_kept(instances@).map_values(
            |inst: VastInstance| overview_of(inst),
        ),
{
    let mut kept: Vec<VastInstance> = Vec::new();
    let mut i: usize = 0;
    proof {
        assert(instances@.subrange(0, 0).filter(|inst: VastInstance| !inst.should_drop)
            =~= Seq::<VastInstance>::empty());
    }
    while i < instances.len()
        invariant
            0 <= i <= instances@.len(),
            kept@ == instances@.subrange(0, i as int).filter(
                |inst: VastInstance| !inst.should_drop,
            ),
        decreases instances@.len() - i,
    {
        proof {
            let pred = |inst: VastInstance| !inst.should_drop;
            let pre = instances@.subrange(0, i as int);
            let cur = instances@.subrange(0, i + 1);
            assert(cur.drop_last() =~= pre);
            reveal(Seq::filter);
            assert(cur.filter(pred) == if pred(cur.last()) {
                pre.filter(pred).push(cur.last())
            } else {
                pre.filter(pred)
            });
        }
        if !instances[i].should_drop {
            kept.push(instances[i].clone());
        }
        i += 1;
    }
    proof {
        assert(instances@.subrange(0, instances@.len() as int) =~= instances@);
    }
    let mut total: u128 = 0;
    let mut overview: Vec<InstanceOverview> = Vec::new();
    let mut j: usize = 0;
    proof {
        assert(total_dph_milli(kept@.subrange(0, 0)) == 0);
        assert(kept@.subrange(0, 0).map_values(|inst: VastInstance| overview_of(inst))
            =~= Seq::<InstanceOverview>::empty());
        lemma_total_dph_milli_bound(kept@);
    }
    while j < kept.len()
        invariant
            0 <= j <= kept@.len(),
            total == total_dph_milli(kept@.subrange(0, j as int)),
            0 <= total_dph_milli(kept@.subrange(0, j as int)),
            total_dph_milli(kept@) <= kept@.len() * u64::MAX < u128::MAX,
            overview@ == kept@.subrange(0, j as int).map_values(
                |inst: VastInstance| overview_of(inst),
            ),
        decreases kept@.len() - j,
    {
        proof {
            let cur = kept@.subrange(0, j + 1);
            assert(cur.drop_last() =~= kept@.subrange(0, j as int));
            assert(total_dph_milli(cur) == total_dph_milli(kept@.subrange(0, j as int))
                + kept@[j as int].offer.dph_total_milli);
            lemma_total_dph_milli_prefix_le(kept@, j + 1);
            assert(cur.map_values(|inst: VastInstance| overview_of(inst))
                =~= kept@.subrange(0, j as int).map_values(
                    |inst: VastInstance| overview_of(inst),
                ).push(overview_of(kept@[j as int])));
        }
        total = total + kept[j].offer.dph_total_milli as u128;
        overview.push(InstanceOverview::from_instance(&kept[j]));
        j += 1;
    }
    proof {
        assert(kept@.subrange(0, kept@.len() as int) =~= kept@);
    }
    SummaryResponse {
        total_cost_per_hour_milli: total,
        num_instances: kept.len(),
        instance_overview: overview,
    }
}

/// A prefix's cost sum never exceeds the whole sequence's.
proof fn lemma_total_dph_milli_prefix_le(instances: Seq<VastInstance>, i: int)
    requires
        0 <= i <= instances.len(),
    ensures
        total_dph_milli(instances.subrange(0, i)) <= total_dph_milli(instances),
    decreases instances.len() - i,
{
    if i < instances.len() {
        let a = instances.subrange(0, i);
        let b = instances.subrange(0, i + 1);
        assert(b.drop_last() =~= a);
        lemma_total_dph_milli_prefix_le(instances, i + 1);
        assert(instances.subrange(0, instances.len() as int) =~= instances);
    } else {
        assert(instances.subrange(0, i) =~= instances);
    }
}

} // verus!
