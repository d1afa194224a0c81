//! The reconciliation engine: the single writer that owns the instance table.
//!
//! The engine is driven by commands (drop, verify, snapshot, tick). A tick is
//! a fixed sequence of steps: zombie reconciliation, verification-deadline
//! enforcement, the destroy pass, and the refill pass. Marketplace calls
//! suspend the driving task, so every step that depends on a marketplace
//! answer takes that answer as a plain value and is verified for each
//! possible value of it.

use vstd::prelude::*;

use crate::numbers::{dec_str, u64_to_string};
use crate::types::{Offer, VastInstance};

verus! {

/// The commands the engine processes, one at a time, in FIFO order.
pub enum InstanceControllerCommand {
    /// Mark the instance holding this offer for destruction. Destruction
    /// itself happens on the next tick.
    Drop { offer_id: u64 },
    /// Snapshot the instance table.
    GetAll,
    /// Run one reconciliation pass.
    HandleUnfinishedBusiness,
    /// Record that the contemplant on this offer's instance reported in.
    VerifyInstance { offer_id: u64 },
}

/// No two table entries share an instance id.
pub open spec fn unique_ids(s: Seq<VastInstance>) -> bool {
    forall|i: int, j: int| 0 <= i < j < s.len() ==> s[i].instance_id != s[j].instance_id
}

/// Index of the first entry whose offer id matches, or -1.
pub open spec fn find_offer_idx(s: Seq<VastInstance>, offer_id: u64) -> int
    decreases s.len(),
{
    if s.len() == 0 {
        -1
    } else if s[0].offer.id == offer_id {
        0
    } else {
        let r = find_offer_idx(s.drop_first(), offer_id);
        if r == -1 {
            -1
        } else {
            r + 1
        }
    }
}

/// What `find_offer_idx` returns: -1 exactly when no entry matches, else the
/// first matching index.
pub proof fn lemma_find_offer_idx(s: Seq<VastInstance>, offer_id: u64)
    ensures
        find_offer_idx(s, offer_id) == -1 ==> forall|i: int|
            0 <= i < s.len() ==> s[i].offer.id != offer_id,
        find_offer_idx(s, offer_id) != -1 ==> {
            let k = find_offer_idx(s, offer_id);
            &&& 0 <= k < s.len()
            &&& s[k].offer.id == offer_id
            &&& forall|i: int| 0 <= i < k ==> s[i].offer.id != offer_id
        },
    decreases s.len(),
{
    if s.len() > 0 && s[0].offer.id != offer_id {
        let t = s.drop_first();
        lemma_find_offer_idx(t, offer_id);
        let r = find_offer_idx(t, offer_id);
        if r == -1 {
            assert forall|i: int| 0 <= i < s.len() implies s[i].offer.id != offer_id by {
                if i > 0 {
                    assert(t[i - 1] == s[i]);
                }
            }
        } else {
            assert(t[r] == s[r + 1]);
            assert forall|i: int| 0 <= i < r + 1 implies s[i].offer.id != offer_id by {
                if i > 0 {
                    assert(t[i - 1] == s[i]);
                }
            }
        }
    }
}

/// Index of the first entry whose instance id matches, or -1.
pub open spec fn find_instance_idx(s: Seq<VastInstance>, instance_id: u64) -> int
    decreases s.len(),
{
    if s.len() == 0 {
        -1
    } else if s[0].instance_id == instance_id {
        0
    } else {
        let r = find_instance_idx(s.drop_first(), instance_id);
        if r == -1 {
            -1
        } else {
            r + 1
        }
    }
}

/// What `find_instance_idx` returns: -1 exactly when no entry matches, else
/// the first matching index.
pub proof fn lemma_find_instance_idx(s: Seq<VastInstance>, instance_id: u64)
    ensures
        find_instance_idx(s, instance_id) == -1 ==> forall|i: int|
            0 <= i < s.len() ==> s[i].instance_id != instance_id,
        find_instance_idx(s, instance_id) != -1 ==> {
            let k = find_instance_idx(s, instance_id);
            &&& 0 <= k < s.len()
            &&& s[k].instance_id == instance_id
            &&& forall|i: int| 0 <= i < k ==> s[i].instance_id != instance_id
        },
    decreases s.len(),
{
    if s.len() > 0 && s[0].instance_id != instance_id {
        let t = s.drop_first();
        lemma_find_instance_idx(t, instance_id);
        let r = find_instance_idx(t, instance_id);
        if r == -1 {
            assert forall|i: int| 0 <= i < s.len() implies s[i].instance_id != instance_id by {
                if i > 0 {
                    assert(t[i - 1] == s[i]);
                }
            }
        } else {
            assert(t[r] == s[r + 1]);
            assert forall|i: int| 0 <= i < r + 1 implies s[i].instance_id != instance_id by {
                if i > 0 {
                    assert(t[i - 1] == s[i]);
                }
            }
        }
    }
}

/// The same entry, marked for destruction.
pub open spec fn with_drop(inst: VastInstance) -> VastInstance {
    VastInstance { should_drop: true, ..inst }
}

/// The same entry, marked as verified by its contemplant.
pub open spec fn with_verified(inst: VastInstance) -> VastInstance {
    VastInstance { contemplant_verified: true, ..inst }
}

/// The table after a drop command: the first entry holding the offer is
/// marked for destruction; an unknown offer leaves the table unchanged.
pub open spec fn drop_marked(s: Seq<VastInstance>, offer_id: u64) -> Seq<VastInstance> {
    let k = find_offer_idx(s, offer_id);
    if k == -1 {
        s
    } else {
        s.update(k, with_drop(s[k]))
    }
}

/// The table after a verify command: the first entry holding the offer is
/// marked verified; an unknown offer leaves the table unchanged.
pub open spec fn verify_marked(s: Seq<VastInstance>, offer_id: u64) -> Seq<VastInstance> {
    let k = find_offer_idx(s, offer_id);
    if k == -1 {
        s
    } else {
        s.update(k, with_verified(s[k]))
    }
}

/// The reply to a successful drop command.
pub open spec fn drop_message(instance_id: u64) -> Seq<char> {
    dec_str(instance_id as nat) + " will be dropped"@
}

/// First index of `instances` whose offer id is `offer_id`, if any.
fn find_by_offer(instances: &Vec<VastInstance>, offer_id: u64) -> (r: Option<usize>)
    ensures
        match r {
            Some(i) => i < instances@.len() && find_offer_idx(instances@, offer_id) == i,
            None => find_offer_idx(instances@, offer_id) == -1,
        },
{
    let mut i: usize = 0;
    while i < instances.len()
        invariant
            0 <= i <= instances@.len(),
            forall|j: int| 0 <= j < i ==> instances@[j].offer.id != offer_id,
        decreases instances@.len() - i,
    {
        if instances[i].offer.id == offer_id {
            proof {
                lemma_find_offer_idx(instances@, offer_id);
            }
            return Some(i);
        }
        i += 1;
    }
    proof {
        lemma_find_offer_idx(instances@, offer_id);
    }
    None
}

/// The reconciliation engine. It owns the authoritative instance table; all
/// mutation goes through its methods (single writer).
pub struct InstanceController {
    instances: Vec<VastInstance>,
    target_instances: usize,
    base_backoff_secs: u64,
    verification_timeout_secs: u64,
}

impl InstanceController {
    /// The instance table, in insertion order.
    pub closed spec fn table(&self) -> Seq<VastInstance> {
        self.instances@
    }

    /// How many instances this engine keeps running.
    pub closed spec fn target(&self) -> usize {
        self.target_instances
    }

    /// Base backoff, in seconds, for rate-limited rent calls.
    pub closed spec fn base_backoff(&self) -> u64 {
        self.base_backoff_secs
    }

    /// How long an unverified instance may live, in seconds.
    pub closed spec fn verification_timeout(&self) -> u64 {
        self.verification_timeout_secs
    }

    /// Engine configuration never changes after construction.
    pub open spec fn same_config(&self, other: &InstanceController) -> bool {
        &&& self.target() == other.target()
        &&& self.base_backoff() == other.base_backoff()
        &&& self.verification_timeout() == other.verification_timeout()
    }

    /// Well-formedness: instance ids are unique, and at rest the table never
    /// exceeds the configured target.
    pub open spec fn wf(&self) -> bool {
        &&& unique_ids(self.table())
        &&& self.table().len() <= self.target()
    }

    /// A fresh engine with an empty table.
    pub fn new(
        target_instances: usize,
        base_backoff_secs: u64,
        verification_timeout_secs: u64,
    ) -> (r: Self)
        ensures
            r.wf(),
            r.table() == Seq::<VastInstance>::empty(),
            r.target() == target_instances,
            r.base_backoff() == base_backoff_secs,
            r.verification_timeout() == verification_timeout_secs,
    {
        let r = InstanceController {
            instances: Vec::new(),
            target_instances,
            base_backoff_secs,
            verification_timeout_secs,
        };
        proof {
            assert(r.table() =~= Seq::<VastInstance>::empty());
        }
        r
    }

    /// Current table size.
    pub fn instance_count(&self) -> (r: usize)
        ensures
            r == self.table().len(),
    {
        self.instances.len()
    }

    /// The configured target, as a value.
    pub fn target_count(&self) -> (r: usize)
        ensures
            r == self.target(),
    {
        self.target_instances
    }

    /// How many instances are missing: `max(0, target - |table|)`.
    pub open spec fn spec_need(&self) -> int {
        if self.table().len() < self.target() {
            self.target() - self.table().len()
        } else {
            0
        }
    }

    /// How many instances are missing, as a value.
    pub fn need(&self) -> (r: usize)
        ensures
            r == self.spec_need(),
    {
        if self.instances.len() < self.target_instances {
            self.target_instances - self.instances.len()
        } else {
            0
        }
    }

    /// Drop command: mark the first instance holding `offer_id` for
    /// destruction and name it in the reply; answer 400 for an unknown offer.
    /// The table itself shrinks only in a later tick's destroy pass.
    ///
    /// Issuing the same drop twice is idempotent (see
    /// `lemma_drop_idempotent`): the second call marks the already-marked
    /// entry again and returns the same reply.
    pub fn handle_drop(&mut self, offer_id: u64) -> (r: Result<String, u16>)
        requires
            old(self).wf(),
        ensures
            final(self).wf(),
            final(self).same_config(old(self)),
            final(self).table() == drop_marked(old(self).table(), offer_id),
            ({
                let k = find_offer_idx(old(self).table(), offer_id);
                if k == -1 {
                    r == Err::<String, u16>(400u16)
                } else {
                    r matches Ok(m) && m@ == drop_message(old(self).table()[k].instance_id)
                }
            }),
    {
        let ghost s0 = self.instances@;
        match find_by_offer(&self.instances, offer_id) {
            Some(i) => {
                let instance_id = self.instances[i].instance_id;
                let mut updated = self.instances[i].clone();
                updated.should_drop = true;
                proof {
                    assert(updated == with_drop(s0[i as int]));
                }
                self.instances.set(i, updated);
                proof {
                    assert(forall|a: int|
                        0 <= a < self.instances@.len() ==> self.instances@[a].instance_id
                            == s0[a].instance_id);
                }
                let mut msg = u64_to_string(instance_id);
                msg.append(" will be dropped");
                Ok(msg)
            },
            None => Err(400),
        }
    }

    /// Verify command: mark the first instance holding `offer_id` as
    /// verified. Fire-and-forget; an unknown offer is ignored. A
    /// destruction mark is never cleared by this.
    pub fn handle_verify(&mut self, offer_id: u64)
        requires
            old(self).wf(),
        ensures
            final(self).wf(),
            final(self).same_config(old(self)),
            final(self).table() == verify_marked(old(self).table(), offer_id),
    {
        let ghost s0 = self.instances@;
        match find_by_offer(&self.instances, offer_id) {
            Some(i) => {
                let mut updated = self.instances[i].clone();
                updated.contemplant_verified = true;
                proof {
                    assert(updated == with_verified(s0[i as int]));
                }
                self.instances.set(i, updated);
                proof {
                    assert(forall|a: int|
                        0 <= a < self.instances@.len() ==> self.instances@[a].instance_id
                            == s0[a].instance_id);
                }
            },
            None => {},
        }
    }

    /// Snapshot command: a value copy of the table, so that no caller ever
    /// holds a reference into the engine's owned state.
    pub fn get_all(&self) -> (r: Vec<VastInstance>)
        ensures
            r@ == self.table(),
    {
        let r = self.instances.clone();
        proof {
            assert(r@ =~= self.instances@);
        }
        r
    }
}

/// Marking an entry for drop twice is the same as marking it once, and the
/// targeted entry (hence the reply) is the same both times: drop commands
/// are idempotent.
pub proof fn lemma_drop_idempotent(s: Seq<VastInstance>, offer_id: u64)
    ensures
        drop_marked(drop_marked(s, offer_id), offer_id) == drop_marked(s, offer_id),
        find_offer_idx(drop_marked(s, offer_id), offer_id) == find_offer_idx(s, offer_id),
        find_offer_idx(s, offer_id) != -1 ==> drop_marked(s, offer_id)[find_offer_idx(
            s,
            offer_id,
        )].instance_id == s[find_offer_idx(s, offer_id)].instance_id,
{
    let k = find_offer_idx(s, offer_id);
    lemma_find_offer_idx(s, offer_id);
    if k != -1 {
        let s1 = s.update(k, with_drop(s[k]));
        lemma_find_offer_idx_same_offers(s, s1, offer_id);
        assert(drop_marked(s1, offer_id) =~= s1);
    }
}

/// `find_offer_idx` only looks at offer ids, so two tables whose entries
/// hold the same offer ids agree on it.
proof fn lemma_find_offer_idx_same_offers(a: Seq<VastInstance>, b: Seq<VastInstance>, offer_id: u64)
    requires
        a.len() == b.len(),
        forall|i: int| 0 <= i < a.len() ==> a[i].offer.id == b[i].offer.id,
    ensures
        find_offer_idx(a, offer_id) == find_offer_idx(b, offer_id),
    decreases a.len(),
{
    if a.len() > 0 {
        lemma_find_offer_idx_same_offers(a.drop_first(), b.drop_first(), offer_id);
    }
}

/// Whether `x` occurs in `v`.
fn contains_u64(v: &Vec<u64>, x: u64) -> (r: bool)
    ensures
        r == v@.contains(x),
{
    let mut i: usize = 0;
    while i < v.len()
        invariant
            0 <= i <= v@.len(),
            forall|j: int| 0 <= j < i ==> v@[j] != x,
        decreases v@.len() - i,
    {
        if v[i] == x {
            proof {
                assert(v@[i as int] == x);
            }
            return true;
        }
        i += 1;
    }
    false
}

/// Filtering a table keeps instance ids unique, membership, and never grows.
proof fn lemma_filter_unique(s: Seq<VastInstance>, pred: spec_fn(VastInstance) -> bool)
    requires
        unique_ids(s),
    ensures
        unique_ids(s.filter(pred)),
        s.filter(pred).len() <= s.len(),
        forall|x: VastInstance| #[trigger] s.filter(pred).contains(x) ==> s.contains(x),
    decreases s.len(),
{
    reveal(Seq::filter);
    if s.len() > 0 {
        let t = s.drop_last();
        assert(forall|i: int| 0 <= i < t.len() ==> t[i] == s[i]);
        assert(unique_ids(t));
        lemma_filter_unique(t, pred);
        let f = s.filter(pred);
        let ft = t.filter(pred);
        assert forall|x: VastInstance| #[trigger] f.contains(x) implies s.contains(x) by {
            let i = choose|i: int| 0 <= i < f.len() && f[i] == x;
            if pred(s.last()) && i == f.len() - 1 {
                assert(s[s.len() - 1] == x);
            } else {
                assert(ft[i] == x);
                assert(ft.contains(x));
                assert(t.contains(x));
                let k = choose|k: int| 0 <= k < t.len() && t[k] == x;
                assert(s[k] == x);
            }
        }
        if pred(s.last()) {
            assert(f == ft.push(s.last()));
            assert forall|i: int, j: int| 0 <= i < j < f.len() implies f[i].instance_id
                != f[j].instance_id by {
                if j < f.len() - 1 {
                    assert(f[i] == ft[i] && f[j] == ft[j]);
                } else {
                    assert(f[j] == s.last());
                    assert(f[i] == ft[i]);
                    assert(ft.contains(ft[i]));
                    assert(t.contains(ft[i]));
                    let k = choose|k: int| 0 <= k < t.len() && t[k] == ft[i];
                    assert(s[k] == ft[i]);
                    assert(s[k].instance_id != s[s.len() - 1].instance_id);
                }
            }
        }
    }
}

/// The entries the marketplace still knows about.
pub open spec fn live_pred(marketplace_ids: Seq<u64>) -> spec_fn(VastInstance) -> bool {
    |inst: VastInstance| marketplace_ids.contains(inst.instance_id)
}

/// The entries that survive a destroy pass that destroyed `destroyed_ids`.
pub open spec fn not_destroyed_pred(destroyed_ids: Seq<u64>) -> spec_fn(VastInstance) -> bool {
    |inst: VastInstance| !destroyed_ids.contains(inst.instance_id)
}

/// The entries awaiting destruction.
pub open spec fn marked_pred() -> spec_fn(VastInstance) -> bool {
    |inst: VastInstance| inst.should_drop
}

/// Ids of the entries awaiting destruction, in table order.
pub open spec fn drop_candidate_ids(s: Seq<VastInstance>) -> Seq<u64> {
    s.filter(marked_pred()).map_values(|inst: VastInstance| inst.instance_id)
}

/// Whether the verification deadline has passed for an entry: it is not
/// verified and was created more than `timeout` seconds before `now`.
pub open spec fn overdue(inst: VastInstance, now: u64, timeout: u64) -> bool {
    &&& !inst.contemplant_verified
    &&& inst.created_at <= now
    &&& now - inst.created_at > timeout
}

/// An entry after deadline enforcement: marked for drop if overdue,
/// untouched otherwise.
pub open spec fn deadline_marked(inst: VastInstance, now: u64, timeout: u64) -> VastInstance {
    if overdue(inst, now, timeout) {
        with_drop(inst)
    } else {
        inst
    }
}

/// Verification deadline: an unverified entry created at `t0` is marked
/// for destruction by any deadline pass run later than `t0` plus the
/// timeout. (At exactly `t0 + timeout` the entry is still within its
/// window: the rule is strictly "older than the timeout".)
pub proof fn lemma_verification_deadline(inst: VastInstance, now: u64, timeout: u64)
    requires
        !inst.contemplant_verified,
        inst.created_at <= now,
        now - inst.created_at > timeout,
    ensures
        deadline_marked(inst, now, timeout).should_drop,
{
}

/// Zombie cleanup: after zombie reconciliation an entry is in the table
/// exactly when it was there before and the marketplace still lists its
/// instance id. An entry the marketplace forgot disappears without any
/// destroy call: the step takes no marketplace action at all.
pub proof fn lemma_zombie_cleanup(s: Seq<VastInstance>, marketplace_ids: Seq<u64>)
    requires
        unique_ids(s),
    ensures
        forall|x: VastInstance|
            #[trigger] s.filter(live_pred(marketplace_ids)).contains(x) <==> (s.contains(x)
                && marketplace_ids.contains(x.instance_id)),
{
    broadcast use vstd::seq_lib::group_filter_ensures;

    let pred = live_pred(marketplace_ids);
    let f = s.filter(pred);
    lemma_filter_unique(s, pred);
    assert forall|x: VastInstance| #[trigger] f.contains(x) implies s.contains(x)
        && marketplace_ids.contains(x.instance_id) by {
        let i = choose|i: int| 0 <= i < f.len() && f[i] == x;
        assert(pred(f[i]));
    }
    assert forall|x: VastInstance|
        s.contains(x) && marketplace_ids.contains(x.instance_id) implies #[trigger] f.contains(
        x,
    ) by {
        let i = choose|i: int| 0 <= i < s.len() && s[i] == x;
        assert(pred(s[i]));
        assert(f.contains(s[i]));
    }
}

impl InstanceController {
    /// Zombie reconciliation: every entry whose instance id is absent from
    /// the marketplace's own list was removed behind this supervisor's back;
    /// it is deleted from the table without any destroy call, and every
    /// entry the marketplace still knows stays, unchanged and in order. The
    /// caller skips this step entirely when the marketplace list could not
    /// be fetched.
    pub fn remove_zombies(&mut self, marketplace_ids: &Vec<u64>)
        requires
            old(self).wf(),
        ensures
            final(self).wf(),
            final(self).same_config(old(self)),
            final(self).table() == old(self).table().filter(live_pred(marketplace_ids@)),
    {
        let ghost s0 = self.instances@;
        let ghost pred = live_pred(marketplace_ids@);
        let mut kept: Vec<VastInstance> = Vec::new();
        let mut i: usize = 0;
        proof {
            assert(s0.subrange(0, 0).filter(pred) =~= Seq::<VastInstance>::empty());
        }
        while i < self.instances.len()
            invariant
                0 <= i <= s0.len(),
                self.instances@ == s0,
                pred == live_pred(marketplace_ids@),
                kept@ == s0.subrange(0, i as int).filter(pred),
            decreases s0.len() - i,
        {
            proof {
                let pre = s0.subrange(0, i as int);
                let cur = s0.subrange(0, i + 1);
                assert(cur.drop_last() =~= pre);
                reveal(Seq::filter);
                assert(cur.filter(pred) == if pred(cur.last()) {
                    pre.filter(pred).push(cur.last())
                } else {
                    pre.filter(pred)
                });
            }
            if contains_u64(marketplace_ids, self.instances[i].instance_id) {
                kept.push(self.instances[i].clone());
            }
            i += 1;
        }
        proof {
            assert(s0.subrange(0, s0.len() as int) =~= s0);
        }
        self.instances = kept;
        proof {
            lemma_filter_unique(s0, pred);
        }
    }

    /// Verification-deadline enforcement: every entry that is unverified and
    /// older than the verification timeout is marked for drop; all other
    /// entries are untouched.
    pub fn enforce_verification_deadline(&mut self, now: u64)
        requires
            old(self).wf(),
        ensures
            final(self).wf(),
            final(self).same_config(old(self)),
            final(self).table() == old(self).table().map_values(
                |inst: VastInstance| deadline_marked(inst, now, old(self).verification_timeout()),
            ),
    {
        let ghost s0 = self.instances@;
        let timeout = self.verification_timeout_secs;
        let mut i: usize = 0;
        while i < self.instances.len()
            invariant
                0 <= i <= s0.len(),
                self.instances@.len() == s0.len(),
                self.target_instances == old(self).target_instances,
                self.base_backoff_secs == old(self).base_backoff_secs,
                self.verification_timeout_secs == old(self).verification_timeout_secs,
                timeout == old(self).verification_timeout_secs,
                forall|j: int| 0 <= j < i ==> self.instances@[j] == deadline_marked(
                    s0[j],
                    now,
                    timeout,
                ),
                forall|j: int| i <= j < s0.len() ==> self.instances@[j] == s0[j],
            decreases s0.len() - i,
        {
            let created = self.instances[i].created_at;
            if !self.instances[i].contemplant_verified && created <= now && now - created
                > timeout {
                let mut updated = self.instances[i].clone();
                updated.should_drop = true;
                proof {
                    assert(overdue(s0[i as int], now, timeout));
                    assert(updated == with_drop(s0[i as int]));
                }
                self.instances.set(i, updated);
            } else {
                proof {
                    assert(!overdue(s0[i as int], now, timeout));
                }
            }
            i += 1;
        }
        proof {
            assert(self.instances@ =~= s0.map_values(
                |inst: VastInstance| deadline_marked(inst, now, timeout),
            ));
            assert(forall|a: int|
                0 <= a < self.instances@.len() ==> self.instances@[a].instance_id
                    == s0[a].instance_id);
        }
    }

    /// The ids the destroy pass must call destroy for: every entry marked
    /// for drop, in table order.
    pub fn drop_candidates(&self) -> (r: Vec<u64>)
        ensures
            r@ == drop_candidate_ids(self.table()),
    {
        let ghost pred = marked_pred();
        let mut r: Vec<u64> = Vec::new();
        let mut i: usize = 0;
        proof {
            assert(self.instances@.subrange(0, 0).filter(pred) =~= Seq::<VastInstance>::empty());
            assert(drop_candidate_ids(self.instances@.subrange(0, 0)) =~= Seq::<u64>::empty());
        }
        while i < self.instances.len()
            invariant
                0 <= i <= self.instances@.len(),
                pred == marked_pred(),
                r@ == drop_candidate_ids(self.instances@.subrange(0, i as int)),
            decreases self.instances@.len() - i,
        {
            proof {
                let pre = self.instances@.subrange(0, i as int);
                let cur = self.instances@.subrange(0, i + 1);
                assert(cur.drop_last() =~= pre);
                reveal(Seq::filter);
                assert(cur.filter(pred) == if pred(cur.last()) {
                    pre.filter(pred).push(cur.last())
                } else {
                    pre.filter(pred)
                });
                if pred(cur.last()) {
                    assert(drop_candidate_ids(cur) =~= drop_candidate_ids(pre).push(
                        cur.last().instance_id,
                    ));
                } else {
                    assert(drop_candidate_ids(cur) =~= drop_candidate_ids(pre));
                }
            }
            if self.instances[i].should_drop {
                r.push(self.instances[i].instance_id);
            }
            i += 1;
        }
        proof {
            assert(self.instances@.subrange(0, self.instances@.len() as int) =~= self.instances@);
        }
        r
    }

    /// Destroy-pass bookkeeping: the entries whose destroy call succeeded
    /// are removed from the table; entries whose destroy failed stay (they
    /// are retried on the next tick), unchanged and in order.
    pub fn remove_instances(&mut self, destroyed_ids: &Vec<u64>)
        requires
            old(self).wf(),
        ensures
            final(self).wf(),
            final(self).same_config(old(self)),
            final(self).table() == old(self).table().filter(not_destroyed_pred(destroyed_ids@)),
    {
        let ghost s0 = self.instances@;
        let ghost pred = not_destroyed_pred(destroyed_ids@);
        let mut kept: Vec<VastInstance> = Vec::new();
        let mut i: usize = 0;
        proof {
            assert(s0.subrange(0, 0).filter(pred) =~= Seq::<VastInstance>::empty());
        }
        while i < self.instances.len()
            invariant
                0 <= i <= s0.len(),
                self.instances@ == s0,
                pred == not_destroyed_pred(destroyed_ids@),
                kept@ == s0.subrange(0, i as int).filter(pred),
            decreases s0.len() - i,
        {
            proof {
                let pre = s0.subrange(0, i as int);
                let cur = s0.subrange(0, i + 1);
                assert(cur.drop_last() =~= pre);
                reveal(Seq::filter);
                assert(cur.filter(pred) == if pred(cur.last()) {
                    pre.filter(pred).push(cur.last())
                } else {
                    pre.filter(pred)
                });
            }
            if !contains_u64(destroyed_ids, self.instances[i].instance_id) {
                kept.push(self.instances[i].clone());
            }
            i += 1;
        }
        proof {
            assert(s0.subrange(0, s0.len() as int) =~= s0);
        }
        self.instances = kept;
        proof {
            lemma_filter_unique(s0, pred);
        }
    }
}

/// A destruction mark is monotonic: no command or deadline step ever
/// clears `should_drop` on an entry it keeps; only removal from the table
/// ends it.
pub proof fn lemma_drop_mark_monotone(
    s: Seq<VastInstance>,
    offer_id: u64,
    now: u64,
    timeout: u64,
)
    ensures
        forall|i: int|
            0 <= i < s.len() && s[i].should_drop ==> drop_marked(s, offer_id)[i].should_drop,
        forall|i: int|
            0 <= i < s.len() && s[i].should_drop ==> verify_marked(s, offer_id)[i].should_drop,
        forall|i: int|
            0 <= i < s.len() && s[i].should_drop ==> s.map_values(
                |inst: VastInstance| deadline_marked(inst, now, timeout),
            )[i].should_drop,
{
    lemma_find_offer_idx(s, offer_id);
}

/// After deadline enforcement the table satisfies the liveness invariant:
/// every entry is verified, or still within its verification window, or
/// marked for destruction.
pub proof fn lemma_deadline_invariant(s: Seq<VastInstance>, now: u64, timeout: u64)
    ensures
        forall|i: int|
            0 <= i < s.len() ==> {
                let e = deadline_marked(#[trigger] s[i], now, timeout);
                e.contemplant_verified || !overdue(e, now, timeout) || e.should_drop
            },
{
}

/// Outcome of one rent call, as the marketplace client reports it. A rate
/// limit is a distinct outcome, never an error: the refill pass reacts to it
/// with backoff, not by skipping the offer.
#[derive(Clone, Copy, Debug, PartialEq, Eq, Structural)]
pub enum RentOutcome {
    /// The marketplace accepted and assigned this instance id.
    Accepted { instance_id: u64 },
    /// HTTP 429: back off and retry the same offer.
    RateLimited,
    /// Any other failure: move on to the next offer.
    Failed,
}

/// What the refill pass should do next.
#[derive(Clone, Copy, Debug, PartialEq, Eq, Structural)]
pub enum RefillAction {
    /// Call rent on this offer.
    Rent { offer_id: u64 },
    /// The offer list ran out before the need was met: end the pass.
    Exhausted,
    /// The need is met: end the pass.
    Done,
}

/// Mathematical model of the refill pass's state.
#[verifier::ext_equal]
pub ghost struct RefillModel {
    pub offers: Seq<Offer>,
    pub idx: int,
    pub need: int,
    pub base_backoff_secs: u64,
    pub current_backoff_secs: u64,
    pub last_rate_limited: bool,
    pub rented: Seq<VastInstance>,
}

/// The next refill action: done once the need is met, exhausted once the
/// offers run out, else rent the current offer.
pub open spec fn refill_next_action(m: RefillModel) -> RefillAction {
    if m.need <= 0 {
        RefillAction::Done
    } else if m.idx >= m.offers.len() {
        RefillAction::Exhausted
    } else {
        RefillAction::Rent { offer_id: m.offers[m.idx].id }
    }
}

/// The sleep taken on a rate-limited outcome: the base backoff, or, when the
/// previous outcome in this pass was also rate-limited, one base more than
/// the previous sleep (saturating at the integer limit).
pub open spec fn rate_limit_backoff(m: RefillModel) -> u64 {
    if m.last_rate_limited {
        if m.current_backoff_secs + m.base_backoff_secs <= u64::MAX {
            (m.current_backoff_secs + m.base_backoff_secs) as u64
        } else {
            u64::MAX
        }
    } else {
        m.base_backoff_secs
    }
}

/// The instance record created when the current offer's rent is accepted.
pub open spec fn rented_instance(m: RefillModel, instance_id: u64, now: u64) -> VastInstance {
    VastInstance {
        instance_id,
        offer: m.offers[m.idx],
        created_at: now,
        contemplant_verified: false,
        should_drop: false,
    }
}

/// One step of the refill pass, and the sleep it requests:
/// - accepted: record the instance, advance to the next offer, one less
///   needed, and clear the rate-limit run;
/// - rate-limited: stay on the same offer and sleep with linear backoff;
/// - failed: skip the offer and clear the rate-limit run.
pub open spec fn refill_apply(m: RefillModel, outcome: RentOutcome, now: u64) -> (
    RefillModel,
    Option<u64>,
) {
    match outcome {
        RentOutcome::Accepted { instance_id } => (
            RefillModel {
                idx: m.idx + 1,
                need: m.need - 1,
                last_rate_limited: false,
                rented: m.rented.push(rented_instance(m, instance_id, now)),
                ..m
            },
            None::<u64>,
        ),
        RentOutcome::RateLimited => (
            RefillModel {
                current_backoff_secs: rate_limit_backoff(m),
                last_rate_limited: true,
                ..m
            },
            Some(rate_limit_backoff(m)),
        ),
        RentOutcome::Failed => (
            RefillModel { idx: m.idx + 1, last_rate_limited: false, ..m },
            None::<u64>,
        ),
    }
}

/// State of one refill pass. Created by `InstanceController::begin_refill`,
/// stepped with each rent outcome, and folded back into the table by
/// `InstanceController::finish_refill`.
pub struct RefillState {
    pub offers: Vec<Offer>,
    pub idx: usize,
    pub need: usize,
    pub base_backoff_secs: u64,
    pub current_backoff_secs: u64,
    pub last_rate_limited: bool,
    pub rented: Vec<VastInstance>,
}

impl RefillState {
    /// The mathematical model of this state.
    pub open spec fn model(&self) -> RefillModel {
        RefillModel {
            offers: self.offers@,
            idx: self.idx as int,
            need: self.need as int,
            base_backoff_secs: self.base_backoff_secs,
            current_backoff_secs: self.current_backoff_secs,
            last_rate_limited: self.last_rate_limited,
            rented: self.rented@,
        }
    }

    /// What the refill pass should do next.
    pub fn next_action(&self) -> (a: RefillAction)
        ensures
            a == refill_next_action(self.model()),
    {
        if self.need == 0 {
            RefillAction::Done
        } else if self.idx >= self.offers.len() {
            RefillAction::Exhausted
        } else {
            RefillAction::Rent { offer_id: self.offers[self.idx].id }
        }
    }

    /// Step the pass with the outcome of the rent call it asked for. The
    /// returned value is how many seconds the caller must sleep before the
    /// next call, if any.
    pub fn apply_outcome(&mut self, outcome: RentOutcome, now: u64) -> (sleep: Option<u64>)
        requires
            refill_next_action(old(self).model()) matches RefillAction::Rent { .. },
        ensures
            final(self).model() == refill_apply(old(self).model(), outcome, now).0,
            sleep == refill_apply(old(self).model(), outcome, now).1,
    {
        let ghost m0 = self.model();
        match outcome {
            RentOutcome::Accepted { instance_id } => {
                let n = self.offers.len();
                proof {
                    assert(self.idx < n);
                }
                let offer = self.offers[self.idx].clone();
                let inst = VastInstance::new(instance_id, offer, now);
                proof {
                    assert(inst == rented_instance(m0, instance_id, now));
                }
                self.rented.push(inst);
                self.idx = self.idx + 1;
                self.need = self.need - 1;
                self.last_rate_limited = false;
                proof {
                    assert(self.model() =~= refill_apply(m0, outcome, now).0);
                }
                None
            },
            RentOutcome::RateLimited => {
                let b: u64 = if self.last_rate_limited {
                    if self.current_backoff_secs <= u64::MAX - self.base_backoff_secs {
                        self.current_backoff_secs + self.base_backoff_secs
                    } else {
                        u64::MAX
                    }
                } else {
                    self.base_backoff_secs
                };
                proof {
                    assert(b == rate_limit_backoff(m0));
                }
                self.current_backoff_secs = b;
                self.last_rate_limited = true;
                proof {
                    assert(self.model() =~= refill_apply(m0, outcome, now).0);
                }
                Some(b)
            },
            RentOutcome::Failed => {
                let n = self.offers.len();
                proof {
                    assert(self.idx < n);
                }
                self.idx = self.idx + 1;
                self.last_rate_limited = false;
                proof {
                    assert(self.model() =~= refill_apply(m0, outcome, now).0);
                }
                None
            },
        }
    }
}

/// The table after inserting one rented instance: an entry with the same
/// instance id is replaced in place, otherwise the record is appended.
pub open spec fn upsert(s: Seq<VastInstance>, inst: VastInstance) -> Seq<VastInstance> {
    let k = find_instance_idx(s, inst.instance_id);
    if k == -1 {
        s.push(inst)
    } else {
        s.update(k, inst)
    }
}

/// The table after inserting each rented instance, in order.
pub open spec fn upsert_all(s: Seq<VastInstance>, rs: Seq<VastInstance>) -> Seq<VastInstance>
    decreases rs.len(),
{
    if rs.len() == 0 {
        s
    } else {
        upsert_all(upsert(s, rs[0]), rs.drop_first())
    }
}

/// Folding from the left one element at a time agrees with `upsert_all`.
proof fn lemma_upsert_all_snoc(s: Seq<VastInstance>, rs: Seq<VastInstance>, x: VastInstance)
    ensures
        upsert_all(s, rs.push(x)) == upsert(upsert_all(s, rs), x),
    decreases rs.len(),
{
    reveal_with_fuel(upsert_all, 2);
    if rs.len() == 0 {
        assert(rs.push(x)[0] == x);
        assert(rs.push(x).drop_first() =~= Seq::<VastInstance>::empty());
        assert(upsert_all(s, rs.push(x)) == upsert_all(upsert(s, x), rs.push(x).drop_first()));
    } else {
        assert(rs.push(x)[0] == rs[0]);
        assert(rs.push(x).drop_first() =~= rs.drop_first().push(x));
        lemma_upsert_all_snoc(upsert(s, rs[0]), rs.drop_first(), x);
        assert(upsert_all(s, rs.push(x)) == upsert_all(
            upsert(s, rs[0]),
            rs.drop_first().push(x),
        ));
        assert(upsert_all(s, rs) == upsert_all(upsert(s, rs[0]), rs.drop_first()));
    }
}

/// Inserts one instance record, replacing any entry that already holds its
/// instance id.
fn upsert_instance(instances: &mut Vec<VastInstance>, inst: VastInstance)
    requires
        unique_ids(old(instances)@),
    ensures
        final(instances)@ == upsert(old(instances)@, inst),
        unique_ids(final(instances)@),
        final(instances)@.len() <= old(instances)@.len() + 1,
{
    let ghost s0 = instances@;
    let mut i: usize = 0;
    while i < instances.len()
        invariant
            0 <= i <= s0.len(),
            old(instances)@ == s0,
            unique_ids(s0),
            instances@ == s0,
            forall|j: int| 0 <= j < i ==> s0[j].instance_id != inst.instance_id,
        decreases s0.len() - i,
    {
        if instances[i].instance_id == inst.instance_id {
            proof {
                lemma_find_instance_idx(s0, inst.instance_id);
                let k = find_instance_idx(s0, inst.instance_id);
                assert(s0[i as int].instance_id == inst.instance_id);
                assert(k != -1);
                assert(k == i);
            }
            instances.set(i, inst);
            proof {
                assert(forall|a: int|
                    0 <= a < instances@.len() ==> instances@[a].instance_id
                        == s0[a].instance_id);
            }
            return;
        }
        i += 1;
    }
    proof {
        lemma_find_instance_idx(s0, inst.instance_id);
    }
    instances.push(inst);
}

impl InstanceController {
    /// Starts a refill pass: the need is what is missing from the target,
    /// the backoff run is clear, and nothing is rented yet.
    pub fn begin_refill(&self, offers: Vec<Offer>) -> (st: RefillState)
        ensures
            st.model() == (RefillModel {
                offers: offers@,
                idx: 0,
                need: self.spec_need(),
                base_backoff_secs: self.base_backoff(),
                current_backoff_secs: self.base_backoff(),
                last_rate_limited: false,
                rented: Seq::<VastInstance>::empty(),
            }),
    {
        let n = self.need();
        let st = RefillState {
            offers,
            idx: 0,
            need: n,
            base_backoff_secs: self.base_backoff_secs,
            current_backoff_secs: self.base_backoff_secs,
            last_rate_limited: false,
            rented: Vec::new(),
        };
        proof {
            assert(st.model() =~= (RefillModel {
                offers: st.offers@,
                idx: 0,
                need: self.spec_need(),
                base_backoff_secs: self.base_backoff(),
                current_backoff_secs: self.base_backoff(),
                last_rate_limited: false,
                rented: Seq::<VastInstance>::empty(),
            }));
        }
        st
    }

    /// Ends a refill pass: every rented instance is inserted into the
    /// table. Because the pass never rents more than was missing, the table
    /// stays within the target: the count bound holds after every tick.
    pub fn finish_refill(&mut self, state: RefillState)
        requires
            old(self).wf(),
            state.rented@.len() <= old(self).spec_need(),
        ensures
            final(self).wf(),
            final(self).same_config(old(self)),
            final(self).table() == upsert_all(old(self).table(), state.rented@),
            final(self).table().len() <= old(self).target(),
    {
        let ghost s0 = self.instances@;
        let ghost rs = state.rented@;
        let rented = state.rented;
        let mut k: usize = 0;
        proof {
            assert(rs.subrange(0, 0) =~= Seq::<VastInstance>::empty());
        }
        while k < rented.len()
            invariant
                0 <= k <= rs.len(),
                rented@ == rs,
                rs.len() + s0.len() <= old(self).target(),
                self.target_instances == old(self).target_instances,
                self.base_backoff_secs == old(self).base_backoff_secs,
                self.verification_timeout_secs == old(self).verification_timeout_secs,
                unique_ids(self.instances@),
                self.instances@ == upsert_all(s0, rs.subrange(0, k as int)),
                self.instances@.len() <= s0.len() + k,
            decreases rs.len() - k,
        {
            proof {
                assert(rs.subrange(0, k + 1) =~= rs.subrange(0, k as int).push(rs[k as int]));
                lemma_upsert_all_snoc(s0, rs.subrange(0, k as int), rs[k as int]);
            }
            upsert_instance(&mut self.instances, rented[k].clone());
            k += 1;
        }
        proof {
            assert(rs.subrange(0, rs.len() as int) =~= rs);
        }
    }
}

/// Inserting records whose instance ids are pairwise distinct and new to
/// the table appends them: nothing is replaced.
pub proof fn lemma_upsert_all_fresh(s: Seq<VastInstance>, rs: Seq<VastInstance>)
    requires
        forall|i: int, j: int| 0 <= i < j < rs.len() ==> rs[i].instance_id != rs[j].instance_id,
        forall|i: int, j: int|
            0 <= i < s.len() && 0 <= j < rs.len() ==> s[i].instance_id != rs[j].instance_id,
    ensures
        upsert_all(s, rs) == s + rs,
    decreases rs.len(),
{
    if rs.len() == 0 {
        assert(s + rs =~= s);
    } else {
        lemma_find_instance_idx(s, rs[0].instance_id);
        let k = find_instance_idx(s, rs[0].instance_id);
        assert(k == -1) by {
            if k != -1 {
                assert(s[k].instance_id == rs[0].instance_id);
            }
        }
        assert(upsert(s, rs[0]) == s.push(rs[0]));
        let s1 = s.push(rs[0]);
        let rs1 = rs.drop_first();
        assert(forall|j: int| 0 <= j < rs1.len() ==> rs1[j] == rs[j + 1]);
        assert forall|i: int, j: int|
            0 <= i < s1.len() && 0 <= j < rs1.len() implies s1[i].instance_id
            != rs1[j].instance_id by {
            assert(rs1[j] == rs[j + 1]);
            if i < s.len() {
                assert(s1[i] == s[i]);
            } else {
                assert(s1[i] == rs[0]);
            }
        }
        lemma_upsert_all_fresh(s1, rs1);
        assert(s1 + rs1 =~= s + rs);
    }
}

/// Convergence, table form: folding `n` rented records with
/// pairwise-distinct, new instance ids into a table of `target - n`
/// entries yields exactly `target` entries. Together with
/// `lemma_refill_converges` this is the convergence law: enough offers and
/// all rents accepted fill the table to the target in one tick.
pub proof fn lemma_refill_fills_table(s: Seq<VastInstance>, rs: Seq<VastInstance>)
    requires
        forall|i: int, j: int| 0 <= i < j < rs.len() ==> rs[i].instance_id != rs[j].instance_id,
        forall|i: int, j: int|
            0 <= i < s.len() && 0 <= j < rs.len() ==> s[i].instance_id != rs[j].instance_id,
    ensures
        upsert_all(s, rs).len() == s.len() + rs.len(),
{
    lemma_upsert_all_fresh(s, rs);
}

/// The refill pass iterated on a run of accepted outcomes assigning these
/// instance ids, in order.
pub open spec fn accept_iter(m: RefillModel, ids: Seq<u64>, now: u64) -> RefillModel
    decreases ids.len(),
{
    if ids.len() == 0 {
        m
    } else {
        accept_iter(
            refill_apply(m, RentOutcome::Accepted { instance_id: ids[0] }, now).0,
            ids.drop_first(),
            now,
        )
    }
}

/// The records a run of accepted rents creates: the j-th carries the j-th
/// assigned instance id and the j-th offer still ahead, created now,
/// unverified and unmarked.
pub open spec fn rented_records(m: RefillModel, ids: Seq<u64>, now: u64) -> Seq<VastInstance> {
    Seq::new(
        ids.len(),
        |j: int|
            VastInstance {
                instance_id: ids[j],
                offer: m.offers[m.idx + j],
                created_at: now,
                contemplant_verified: false,
                should_drop: false,
            },
    )
}

/// Convergence: when the offer list still holds at least as many offers as
/// instances are needed and every rent call is accepted, the refill pass
/// ends with the need met, having rented exactly the missing count — one
/// record per assigned id, in order.
pub proof fn lemma_refill_converges(m: RefillModel, ids: Seq<u64>, now: u64)
    requires
        m.need >= 0,
        m.idx >= 0,
        ids.len() == m.need,
        m.idx + m.need <= m.offers.len(),
    ensures
        accept_iter(m, ids, now).need == 0,
        accept_iter(m, ids, now).rented.len() == m.rented.len() + m.need,
        accept_iter(m, ids, now).idx == m.idx + m.need,
        refill_next_action(accept_iter(m, ids, now)) == RefillAction::Done,
        accept_iter(m, ids, now).rented == m.rented + rented_records(m, ids, now),
    decreases ids.len(),
{
    if ids.len() == 0 {
        assert(m.rented + rented_records(m, ids, now) =~= m.rented);
    } else {
        let m1 = refill_apply(m, RentOutcome::Accepted { instance_id: ids[0] }, now).0;
        lemma_refill_converges(m1, ids.drop_first(), now);
        assert(m1.rented == m.rented.push(rented_instance(m, ids[0], now)));
        assert forall|k: int|
            0 <= k < m.rented.len() + ids.len() implies (m1.rented + rented_records(
            m1,
            ids.drop_first(),
            now,
        ))[k] == (m.rented + rented_records(m, ids, now))[k] by {
            if k < m.rented.len() {
            } else if k == m.rented.len() {
                assert(rented_records(m, ids, now)[0] == rented_instance(m, ids[0], now));
            } else {
                let j = k - m.rented.len() - 1;
                assert(ids.drop_first()[j] == ids[j + 1]);
                assert(rented_records(m1, ids.drop_first(), now)[j] == rented_records(
                    m,
                    ids,
                    now,
                )[j + 1]);
            }
        }
        assert(m1.rented + rented_records(m1, ids.drop_first(), now) =~= m.rented
            + rented_records(m, ids, now));
    }
}

/// The convergence law in full: a table below target, at least as many
/// filtered offers as instances missing, and every rent accepted with
/// instance ids that are pairwise distinct and new to the table — one
/// refill pass ends `Done`, and folding its rentals into the table makes
/// it hold exactly `target` instances.
pub proof fn lemma_tick_reaches_target(
    s: Seq<VastInstance>,
    offers: Seq<Offer>,
    ids: Seq<u64>,
    now: u64,
    target: usize,
    base: u64,
)
    requires
        s.len() <= target,
        ids.len() == target - s.len(),
        ids.len() <= offers.len(),
        forall|i: int, j: int| 0 <= i < j < ids.len() ==> ids[i] != ids[j],
        forall|i: int, j: int|
            0 <= i < s.len() && 0 <= j < ids.len() ==> s[i].instance_id != ids[j],
    ensures
        ({
            let m = RefillModel {
                offers,
                idx: 0,
                need: target - s.len(),
                base_backoff_secs: base,
                current_backoff_secs: base,
                last_rate_limited: false,
                rented: Seq::<VastInstance>::empty(),
            };
            let done = accept_iter(m, ids, now);
            refill_next_action(done) == RefillAction::Done && upsert_all(s, done.rented).len()
                == target
        }),
{
    let m = RefillModel {
        offers,
        idx: 0,
        need: target - s.len(),
        base_backoff_secs: base,
        current_backoff_secs: base,
        last_rate_limited: false,
        rented: Seq::<VastInstance>::empty(),
    };
    lemma_refill_converges(m, ids, now);
    let records = rented_records(m, ids, now);
    assert(accept_iter(m, ids, now).rented =~= records);
    assert(forall|j: int| 0 <= j < records.len() ==> records[j].instance_id == ids[j]);
    lemma_upsert_all_fresh(s, records);
}

/// The refill pass iterated on a run of `k` consecutive rate-limited
/// outcomes.
pub open spec fn rate_limited_iter(m: RefillModel, k: nat) -> RefillModel
    decreases k,
{
    if k == 0 {
        m
    } else {
        refill_apply(rate_limited_iter(m, (k - 1) as nat), RentOutcome::RateLimited, 0).0
    }
}

/// Backoff monotonicity: starting from a state whose previous outcome was
/// not rate-limited, the k-th of a run of consecutive rate-limited outcomes
/// sleeps exactly k times the base backoff; applied at each k this gives the
/// sleep sequence base, 2·base, 3·base, ... (The rate-limited step neither
/// moves to another offer nor rents, so the run stays within one refill
/// step.)
pub proof fn lemma_backoff_monotonic(m: RefillModel, k: nat)
    requires
        !m.last_rate_limited,
        1 <= k,
        k * m.base_backoff_secs <= u64::MAX,
    ensures
        rate_limited_iter(m, k).last_rate_limited,
        rate_limited_iter(m, k).base_backoff_secs == m.base_backoff_secs,
        rate_limited_iter(m, k).current_backoff_secs == k * m.base_backoff_secs,
        refill_apply(rate_limited_iter(m, (k - 1) as nat), RentOutcome::RateLimited, 0).1
            == Some(rate_limited_iter(m, k).current_backoff_secs),
    decreases k,
{
    let b = m.base_backoff_secs;
    if k == 1 {
        assert(rate_limited_iter(m, 0) == m);
        assert(rate_limit_backoff(m) == b);
        assert(rate_limited_iter(m, k) == refill_apply(m, RentOutcome::RateLimited, 0).0);
        assert(rate_limited_iter(m, k).current_backoff_secs == b);
        assert(k * b == b) by (nonlinear_arith)
            requires
                k == 1,
        ;
    } else {
        assert((k - 1) * b + b == k * b) by (nonlinear_arith);
        assert((k - 1) * b <= k * b);
        lemma_backoff_monotonic(m, (k - 1) as nat);
        let prev = rate_limited_iter(m, (k - 1) as nat);
        assert(rate_limit_backoff(prev) == k * b);
        assert(rate_limited_iter(m, k) == refill_apply(prev, RentOutcome::RateLimited, 0).0);
        assert(rate_limited_iter(m, k).current_backoff_secs == rate_limit_backoff(prev));
    }
}

/// Rate-limited steps never change the base backoff.
proof fn lemma_rate_limited_iter_base(m: RefillModel, k: nat)
    ensures
        rate_limited_iter(m, k).base_backoff_secs == m.base_backoff_secs,
    decreases k,
{
    if k > 0 {
        lemma_rate_limited_iter_base(m, (k - 1) as nat);
    }
}

/// Backoff reset: after any outcome that is not rate-limited, the next
/// rate-limited outcome sleeps exactly the base backoff again.
pub proof fn lemma_backoff_resets(m: RefillModel, outcome: RentOutcome, now: u64)
    requires
        !(outcome is RateLimited),
    ensures
        !refill_apply(m, outcome, now).0.last_rate_limited,
        refill_apply(refill_apply(m, outcome, now).0, RentOutcome::RateLimited, now).1 == Some(
            m.base_backoff_secs,
        ),
{
}

} // verus!


