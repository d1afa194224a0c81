//! The marketplace client's decision logic: request builders, response
//! classification, and the offer filter. The HTTP transport itself lives in
//! the I/O shell; it feeds status codes and decoded bodies to the
//! classifiers here and sends the strings built here.

use vstd::prelude::*;

use crate::instance_controller::RentOutcome;
use crate::numbers::{dec_str, u64_to_string};
use crate::types::{Offer, VastCreateInstanceResponse};

verus! {

pub const VAST_BASE_URL: &'static str = "https://console.vast.ai/api/v0";

pub const VAST_OFFERS_ENDPOINT: &'static str = "/bundles";

pub const VAST_CREATE_INSTANCE_ENDPOINT: &'static str = "/asks";

pub const VAST_DELETE_INSTANCE_ENDPOINT: &'static str = "/instances";

/// A status in the 2xx range.
pub open spec fn is_success_status(status: u16) -> bool {
    200 <= status <= 299
}

/// Whether an HTTP status reports success, as `reqwest`'s
/// `StatusCode::is_success` does.
pub fn status_is_success(status: u16) -> (r: bool)
    ensures
        r == is_success_status(status),
{
    200 <= status && status <= 299
}

/// How a rent call's answer is read: a 2xx answer whose body decoded is an
/// acceptance carrying the new instance id; 429 is the distinct rate-limit
/// outcome, not an error; anything else (a 2xx answer whose body did not
/// decode included) is a failure.
pub open spec fn rent_outcome_spec(status: u16, body: Option<VastCreateInstanceResponse>)
    -> RentOutcome {
    if is_success_status(status) {
        match body {
            Some(b) => RentOutcome::Accepted { instance_id: b.new_contract },
            None => RentOutcome::Failed,
        }
    } else if status == 429 {
        RentOutcome::RateLimited
    } else {
        RentOutcome::Failed
    }
}

/// Classifies a rent call's HTTP status and decoded body (if the body
/// decoded) into the outcome the refill pass acts on.
pub fn classify_rent_response(status: u16, body: Option<VastCreateInstanceResponse>) -> (r:
    RentOutcome)
    ensures
        r == rent_outcome_spec(status, body),
{
    if status_is_success(status) {
        match body {
            Some(b) => RentOutcome::Accepted { instance_id: b.new_contract },
            None => RentOutcome::Failed,
        }
    } else if status == 429 {
        RentOutcome::RateLimited
    } else {
        RentOutcome::Failed
    }
}

/// Why startup validation of the offer query failed.
#[derive(Clone, Copy, Debug, PartialEq, Eq, Structural)]
pub enum StartupError {
    /// The query returned no offers at all.
    NoOffers,
    /// The query returned fewer offers than instances to run.
    InsufficientOffers,
}

/// Startup validation: the process must not start unless the filtered offer
/// list is non-empty and holds at least one offer per instance to run.
pub fn validate_offer_count(num_offers: usize, required: usize) -> (r: Result<(), StartupError>)
    ensures
        num_offers == 0 ==> r == Err::<(), StartupError>(StartupError::NoOffers),
        0 < num_offers < required ==> r == Err::<(), StartupError>(
            StartupError::InsufficientOffers,
        ),
        num_offers > 0 && num_offers >= required ==> r == Ok::<(), StartupError>(()),
{
    if num_offers == 0 {
        Err(StartupError::NoOffers)
    } else if num_offers < required {
        Err(StartupError::InsufficientOffers)
    } else {
        Ok(())
    }
}

/// The ids of an optional id list, as a mathematical value.
pub open spec fn opt_ids(ids: Option<Vec<u64>>) -> Option<Seq<u64>> {
    match ids {
        Some(v) => Some(v@),
        None => None,
    }
}

/// An offer passes the blacklist: its host is in no bad-host list and its
/// machine is in no bad-machine list.
pub open spec fn offer_allowed(o: Offer, bh: Option<Seq<u64>>, bm: Option<Seq<u64>>) -> bool {
    &&& match bh {
        Some(b) => !b.contains(o.host_id),
        None => true,
    }
    &&& match bm {
        Some(b) => !b.contains(o.machine_id),
        None => true,
    }
}

/// An offer is allowlisted: its host or its machine is on a good list.
pub open spec fn offer_preferred(o: Offer, gh: Option<Seq<u64>>, gm: Option<Seq<u64>>) -> bool {
    ||| match gh {
        Some(g) => g.contains(o.host_id),
        None => false,
    }
    ||| match gm {
        Some(g) => g.contains(o.machine_id),
        None => false,
    }
}

/// The blacklist test, as a predicate on offers.
pub open spec fn allowed_pred(bh: Option<Seq<u64>>, bm: Option<Seq<u64>>) -> spec_fn(Offer)
    -> bool {
    |o: Offer| offer_allowed(o, bh, bm)
}

/// The allowlist test, as a predicate on offers.
pub open spec fn preferred_pred(gh: Option<Seq<u64>>, gm: Option<Seq<u64>>) -> spec_fn(Offer)
    -> bool {
    |o: Offer| offer_preferred(o, gh, gm)
}

/// The complement of the allowlist test.
pub open spec fn not_preferred_pred(gh: Option<Seq<u64>>, gm: Option<Seq<u64>>) -> spec_fn(Offer)
    -> bool {
    |o: Offer| !offer_preferred(o, gh, gm)
}

/// What the offer filter returns: the blacklisted offers are dropped, and
/// the survivors are stably partitioned, allowlisted offers first, each
/// bucket keeping the marketplace's order (score descending).
pub open spec fn filtered_offers(
    offers: Seq<Offer>,
    bh: Option<Seq<u64>>,
    bm: Option<Seq<u64>>,
    gh: Option<Seq<u64>>,
    gm: Option<Seq<u64>>,
) -> Seq<Offer> {
    let kept = offers.filter(allowed_pred(bh, bm));
    kept.filter(preferred_pred(gh, gm)) + kept.filter(not_preferred_pred(gh, gm))
}

/// Every element of a filtered sequence occurs in the sequence it was
/// filtered from.
proof fn lemma_filter_subset<A>(s: Seq<A>, pred: spec_fn(A) -> bool)
    ensures
        forall|x: A| #[trigger] s.filter(pred).contains(x) ==> s.contains(x),
    decreases s.len(),
{
    reveal(Seq::filter);
    if s.len() > 0 {
        let t = s.drop_last();
        lemma_filter_subset(t, pred);
        assert forall|x: A| #[trigger] s.filter(pred).contains(x) implies s.contains(x) by {
            let f = s.filter(pred);
            let i = choose|i: int| 0 <= i < f.len() && f[i] == x;
            if pred(s.last()) && i == f.len() - 1 {
                assert(s[s.len() - 1] == x);
            } else {
                assert(t.filter(pred)[i] == x);
                assert(t.filter(pred).contains(x));
                assert(t.contains(x));
                let k = choose|k: int| 0 <= k < t.len() && t[k] == x;
                assert(s[k] == x);
            }
        }
    }
}

/// Filter correctness, spelled out: the filtered list holds no offer with a
/// blacklisted host or machine; the first block (up to the number of kept
/// allowlisted offers) is exactly the allowlisted survivors, the rest are
/// the non-allowlisted survivors. Relative order within each block is the
/// input's, because each block is a filter of the input.
pub proof fn lemma_filter_offers_correct(
    offers: Seq<Offer>,
    bh: Option<Seq<u64>>,
    bm: Option<Seq<u64>>,
    gh: Option<Seq<u64>>,
    gm: Option<Seq<u64>>,
)
    ensures
        forall|i: int|
            0 <= i < filtered_offers(offers, bh, bm, gh, gm).len() ==> offer_allowed(
                #[trigger] filtered_offers(offers, bh, bm, gh, gm)[i],
                bh,
                bm,
            ),
        forall|i: int|
            0 <= i < offers.filter(allowed_pred(bh, bm)).filter(preferred_pred(gh, gm)).len()
                ==> offer_preferred(#[trigger] filtered_offers(offers, bh, bm, gh, gm)[i], gh, gm),
        forall|i: int|
            offers.filter(allowed_pred(bh, bm)).filter(preferred_pred(gh, gm)).len() <= i
                < filtered_offers(offers, bh, bm, gh, gm).len() ==> !offer_preferred(
                #[trigger] filtered_offers(offers, bh, bm, gh, gm)[i],
                gh,
                gm,
            ),
{
    let kept = offers.filter(allowed_pred(bh, bm));
    let good = kept.filter(preferred_pred(gh, gm));
    let rest = kept.filter(not_preferred_pred(gh, gm));
    let f = filtered_offers(offers, bh, bm, gh, gm);
    broadcast use vstd::seq_lib::group_filter_ensures;
    lemma_filter_subset(kept, preferred_pred(gh, gm));
    lemma_filter_subset(kept, not_preferred_pred(gh, gm));
    assert forall|i: int| 0 <= i < f.len() implies offer_allowed(f[i], bh, bm) by {
        if i < good.len() {
            assert(f[i] == good[i]);
            assert(good.contains(good[i]));
            assert(kept.contains(f[i]));
            let k = choose|k: int| 0 <= k < kept.len() && kept[k] == f[i];
            assert(allowed_pred(bh, bm)(kept[k]));
        } else {
            assert(f[i] == rest[i - good.len()]);
            assert(rest.contains(rest[i - good.len()]));
            assert(kept.contains(f[i]));
            let k = choose|k: int| 0 <= k < kept.len() && kept[k] == f[i];
            assert(allowed_pred(bh, bm)(kept[k]));
        }
    }
    assert forall|i: int| 0 <= i < good.len() implies offer_preferred(f[i], gh, gm) by {
        assert(f[i] == good[i]);
        assert(preferred_pred(gh, gm)(good[i]));
    }
    assert forall|i: int| good.len() <= i < f.len() implies !offer_preferred(f[i], gh, gm) by {
        assert(f[i] == rest[i - good.len()]);
        assert(not_preferred_pred(gh, gm)(rest[i - good.len()]));
    }
}

/// The offer filter: drops every offer whose host or machine is
/// blacklisted, then stably moves the allowlisted survivors to the front.
/// The marketplace's score-descending order is preserved within each
/// bucket.
pub fn filter_offers(
    offers: Vec<Offer>,
    bad_hosts: &Option<Vec<u64>>,
    bad_machines: &Option<Vec<u64>>,
    good_hosts: &Option<Vec<u64>>,
    good_machines: &Option<Vec<u64>>,
) -> (r: Vec<Offer>)
    ensures
        r@ == filtered_offers(
            offers@,
            opt_ids(*bad_hosts),
            opt_ids(*bad_machines),
            opt_ids(*good_hosts),
            opt_ids(*good_machines),
        ),
{
    let ghost bh = opt_ids(*bad_hosts);
    let ghost bm = opt_ids(*bad_machines);
    let ghost gh = opt_ids(*good_hosts);
    let ghost gm = opt_ids(*good_machines);
    let mut good: Vec<Offer> = Vec::new();
    let mut rest: Vec<Offer> = Vec::new();
    let mut i: usize = 0;
    proof {
        let e = offers@.subrange(0, 0);
        assert(e.filter(allowed_pred(bh, bm)) =~= Seq::<Offer>::empty());
        assert(e.filter(allowed_pred(bh, bm)).filter(preferred_pred(gh, gm)) =~= Seq::<
            Offer,
        >::empty());
        assert(e.filter(allowed_pred(bh, bm)).filter(not_preferred_pred(gh, gm)) =~= Seq::<
            Offer,
        >::empty());
    }
    while i < offers.len()
        invariant
            0 <= i <= offers@.len(),
            bh == opt_ids(*bad_hosts),
            bm == opt_ids(*bad_machines),
            gh == opt_ids(*good_hosts),
            gm == opt_ids(*good_machines),
            good@ == offers@.subrange(0, i as int).filter(allowed_pred(bh, bm)).filter(
                preferred_pred(gh, gm),
            ),
            rest@ == offers@.subrange(0, i as int).filter(allowed_pred(bh, bm)).filter(
                not_preferred_pred(gh, gm),
            ),
        decreases offers@.len() - i,
    {
        proof {
            let pre = offers@.subrange(0, i as int);
            let cur = offers@.subrange(0, i + 1);
            assert(cur.drop_last() =~= pre);
            reveal(Seq::filter);
            assert(cur.filter(allowed_pred(bh, bm)) == if allowed_pred(bh, bm)(cur.last()) {
                pre.filter(allowed_pred(bh, bm)).push(cur.last())
            } else {
                pre.filter(allowed_pred(bh, bm))
            });
            if allowed_pred(bh, bm)(cur.last()) {
                let ka = pre.filter(allowed_pred(bh, bm));
                let kb = ka.push(cur.last());
                assert(kb.drop_last() =~= ka);
                assert(kb.filter(preferred_pred(gh, gm)) == if preferred_pred(gh, gm)(
                    cur.last(),
                ) {
                    ka.filter(preferred_pred(gh, gm)).push(cur.last())
                } else {
                    ka.filter(preferred_pred(gh, gm))
                });
                assert(kb.filter(not_preferred_pred(gh, gm)) == if not_preferred_pred(gh, gm)(
                    cur.last(),
                ) {
                    ka.filter(not_preferred_pred(gh, gm)).push(cur.last())
                } else {
                    ka.filter(not_preferred_pred(gh, gm))
                });
            }
        }
        let o = &offers[i];
        let host_ok = match bad_hosts {
            Some(b) => !contains_id(b, o.host_id),
            None => true,
        };
        let machine_ok = match bad_machines {
            Some(b) => !contains_id(b, o.machine_id),
            None => true,
        };
        if host_ok && machine_ok {
            let preferred = match good_hosts {
                Some(g) => contains_id(g, o.host_id),
                None => false,
            } || match good_machines {
                Some(g) => contains_id(g, o.machine_id),
                None => false,
            };
            if preferred {
                good.push(offers[i].clone());
            } else {
                rest.push(offers[i].clone());
            }
        }
        i += 1;
    }
    proof {
        assert(offers@.subrange(0, offers@.len() as int) =~= offers@);
    }
    let mut result = good;
    let mut rest = rest;
    result.append(&mut rest);
    result
}

/// Whether `x` occurs in `v`.
fn contains_id(v: &Vec<u64>, x: u64) -> (r: bool)
    ensures
        r == v@.contains(x),
{
    let mut i: usize = 0;
    while i < v.len()
        invariant
            0 <= i <= v@.len(),
            forall|j: int| 0 <= j < i ==> v@[j] != x,
        decreases v@.len() - i,
    {
        if v[i] == x {
            proof {
                assert(v@[i as int] == x);
            }
            return true;
        }
        i += 1;
    }
    false
}

/// The list-offers URL: the offers endpoint with the filter document as the
/// `q` query parameter.
pub open spec fn offers_url_spec(query: Seq<char>) -> Seq<char> {
    "https://console.vast.ai/api/v0"@ + "/bundles"@ + "/?q="@ + query
}

/// Builds the list-offers URL around a filter document.
pub fn offers_url(query: &str) -> (r: String)
    ensures
        r@ == offers_url_spec(query@),
{
    let mut r = VAST_BASE_URL.to_owned();
    r.append(VAST_OFFERS_ENDPOINT);
    r.append("/?q=");
    r.append(query);
    r
}

/// The rent URL: the create-instance endpoint keyed by offer id.
pub open spec fn create_instance_url_spec(offer_id: u64) -> Seq<char> {
    "https://console.vast.ai/api/v0"@ + "/asks"@ + "/"@ + dec_str(offer_id as nat) + "/"@
}

/// Builds the rent URL for one offer.
pub fn create_instance_url(offer_id: u64) -> (r: String)
    ensures
        r@ == create_instance_url_spec(offer_id),
{
    let mut r = VAST_BASE_URL.to_owned();
    r.append(VAST_CREATE_INSTANCE_ENDPOINT);
    r.append("/");
    let id = u64_to_string(offer_id);
    r.append(id.as_str());
    r.append("/");
    r
}

/// The destroy URL: the instance endpoint keyed by instance id.
pub open spec fn destroy_instance_url_spec(instance_id: u64) -> Seq<char> {
    "https://console.vast.ai/api/v0"@ + "/instances"@ + "/"@ + dec_str(instance_id as nat)
        + "/"@
}

/// Builds the destroy URL for one instance.
pub fn destroy_instance_url(instance_id: u64) -> (r: String)
    ensures
        r@ == destroy_instance_url_spec(instance_id),
{
    let mut r = VAST_BASE_URL.to_owned();
    r.append(VAST_DELETE_INSTANCE_ENDPOINT);
    r.append("/");
    let id = u64_to_string(instance_id);
    r.append(id.as_str());
    r.append("/");
    r
}

/// The list-my-instances URL: the account's current instances.
pub open spec fn list_instances_url_spec() -> Seq<char> {
    "https://console.vast.ai/api/v0"@ + "/instances"@
}

/// Builds the list-my-instances URL.
pub fn list_instances_url() -> (r: String)
    ensures
        r@ == list_instances_url_spec(),
{
    let mut r = VAST_BASE_URL.to_owned();
    r.append(VAST_DELETE_INSTANCE_ENDPOINT);
    r
}

/// An address with any single trailing slash removed.
pub open spec fn stripped_addr(addr: Seq<char>) -> Seq<char> {
    if addr.len() > 0 && addr.last() == '/' {
        addr.drop_last()
    } else {
        addr
    }
}

/// Removes a trailing `/` from the supervisor's address, if there is one.
pub fn strip_trailing_slash(addr: &str) -> (r: &str)
    ensures
        r@ == stripped_addr(addr@),
{
    let len = addr.unicode_len();
    if len > 0 && addr.get_char(len - 1) == '/' {
        let r = addr.substring_char(0, len - 1);
        proof {
            assert(addr@.subrange(0, addr@.len() - 1) =~= addr@.drop_last());
        }
        r
    } else {
        addr
    }
}

/// The shell command a rented instance runs on start: it exports the drop
/// endpoint `{address}:{port}/drop/{offer_id}` under
/// `MAGISTER_DROP_ENDPOINT`, then hands control to the template's
/// entrypoint. The address is taken with its trailing slash already
/// stripped.
pub open spec fn onstart_spec(addr: Seq<char>, http_port: u16, offer_id: u64) -> Seq<char> {
    "\"export MAGISTER_DROP_ENDPOINT=\\\""@ + addr + ":"@ + dec_str(http_port as nat) + "/drop/"@
        + dec_str(offer_id as nat)
        + "\\\" chmod +x /entrypoint.sh;bash /entrypoint.sh\""@
}

/// Builds the onstart command for one offer.
pub fn onstart_command(addr: &str, http_port: u16, offer_id: u64) -> (r: String)
    ensures
        r@ == onstart_spec(addr@, http_port, offer_id),
{
    let mut r = "\"export MAGISTER_DROP_ENDPOINT=\\\"".to_owned();
    r.append(addr);
    r.append(":");
    let port = u64_to_string(http_port as u64);
    r.append(port.as_str());
    r.append("/drop/");
    let id = u64_to_string(offer_id);
    r.append(id.as_str());
    r.append("\\\" chmod +x /entrypoint.sh;bash /entrypoint.sh\"");
    r
}

/// The body of a rent call: a JSON document naming the template hash, the
/// label `magister`, the configured disk size, and the onstart command; the
/// marketplace wants every unused field spelled out as null.
pub open spec fn rent_body_spec(
    template_hash: Seq<char>,
    disk_space: u64,
    onstart: Seq<char>,
) -> Seq<char> {
    "{\n            \"template_id\": null,\n            \"template_hash_id\": \""@
        + template_hash
        + "\",\n            \"client_id\": null,\n            \"image\": null,\n            \"extra_env\": null,\n            \"args_str\": null,\n            \"onstart\": "@
        + onstart
        + ",\n            \"runtype\": null,\n            \"image_login\": null,\n            \"use_jupyter_lab\": false,\n            \"jupyter_dir\": null,\n            \"python_utf8\": null,\n            \"lang_utf8\": null,\n            \"label\": \"magister\",\n            \"disk\": "@
        + dec_str(disk_space as nat) + "\n        }"@
}

/// Builds the body of a rent call.
pub fn rent_body(template_hash: &str, disk_space: u64, onstart: &str) -> (r: String)
    ensures
        r@ == rent_body_spec(template_hash@, disk_space, onstart@),
{
    let mut r =
        "{\n            \"template_id\": null,\n            \"template_hash_id\": \"".to_owned();
    r.append(template_hash);
    r.append(
        "\",\n            \"client_id\": null,\n            \"image\": null,\n            \"extra_env\": null,\n            \"args_str\": null,\n            \"onstart\": ",
    );
    r.append(onstart);
    r.append(
        ",\n            \"runtype\": null,\n            \"image_login\": null,\n            \"use_jupyter_lab\": false,\n            \"jupyter_dir\": null,\n            \"python_utf8\": null,\n            \"lang_utf8\": null,\n            \"label\": \"magister\",\n            \"disk\": ",
    );
    let disk = u64_to_string(disk_space);
    r.append(disk.as_str());
    r.append("\n        }");
    r
}

} // verus!

