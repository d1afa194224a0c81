use magister::instance_controller::{InstanceController, RefillAction, RentOutcome};
use magister::types::{Offer, VastInstance};

fn offer(id: u64) -> Offer {
    Offer {
        id,
        machine_id: 1,
        host_id: 1,
        gpu_name: "RTX 4090".to_string(),
        geolocation: "US".to_string(),
        dph_total_milli: 500,
    }
}

/// Rents one instance per (offer id, instance id) pair through the refill
/// machine, asserting every rent is asked for in order.
fn fill(engine: &mut InstanceController, pairs: &[(u64, u64)], now: u64) {
    let offers: Vec<Offer> = pairs.iter().map(|(oid, _)| offer(*oid)).collect();
    let mut st = engine.begin_refill(offers);
    let mut i = 0;
    loop {
        match st.next_action() {
            RefillAction::Rent { offer_id } => {
                assert_eq!(offer_id, pairs[i].0);
                let sleep = st.apply_outcome(RentOutcome::Accepted { instance_id: pairs[i].1 }, now);
                assert_eq!(sleep, None);
                i += 1;
            }
            _ => break,
        }
    }
    engine.finish_refill(st);
}

#[test]
fn new_engine_is_empty() {
    let engine = InstanceController::new(2, 10, 180);
    assert_eq!(engine.instance_count(), 0);
    assert_eq!(engine.target_count(), 2);
    assert_eq!(engine.need(), 2);
}

#[test]
fn drop_marks_without_removing() {
    let mut engine = InstanceController::new(2, 10, 180);
    fill(&mut engine, &[(101, 9001), (102, 9002)], 0);
    let reply = engine.handle_drop(101);
    assert_eq!(reply, Ok("9001 will be dropped".to_string()));
    // the table itself is untouched until the next tick's destroy pass
    assert_eq!(engine.instance_count(), 2);
    let table = engine.get_all();
    let marked: Vec<bool> = table.iter().map(|i| i.should_drop).collect();
    assert_eq!(marked, vec![true, false]);
}

#[test]
fn drop_is_idempotent() {
    let mut engine = InstanceController::new(2, 10, 180);
    fill(&mut engine, &[(101, 9001), (102, 9002)], 0);
    let first = engine.handle_drop(101);
    let table_once: Vec<(u64, bool)> =
        engine.get_all().iter().map(|i| (i.instance_id, i.should_drop)).collect();
    let second = engine.handle_drop(101);
    let table_twice: Vec<(u64, bool)> =
        engine.get_all().iter().map(|i| (i.instance_id, i.should_drop)).collect();
    assert_eq!(first, second);
    assert_eq!(table_once, table_twice);
}

#[test]
fn drop_of_unknown_offer_is_bad_request() {
    let mut engine = InstanceController::new(2, 10, 180);
    fill(&mut engine, &[(101, 9001)], 0);
    assert_eq!(engine.handle_drop(77777), Err(400));
    assert_eq!(engine.instance_count(), 1);
    assert!(!engine.get_all()[0].should_drop);
}

#[test]
fn verify_marks_instance() {
    let mut engine = InstanceController::new(1, 10, 180);
    fill(&mut engine, &[(101, 9001)], 0);
    assert!(!engine.get_all()[0].contemplant_verified);
    engine.handle_verify(101);
    assert!(engine.get_all()[0].contemplant_verified);
}

#[test]
fn verify_does_not_clear_drop_mark() {
    let mut engine = InstanceController::new(1, 10, 180);
    fill(&mut engine, &[(101, 9001)], 0);
    engine.handle_drop(101).unwrap();
    engine.handle_verify(101);
    let inst = &engine.get_all()[0];
    assert!(inst.contemplant_verified);
    assert!(inst.should_drop);
}

#[test]
fn verify_of_unknown_offer_is_ignored() {
    let mut engine = InstanceController::new(1, 10, 180);
    fill(&mut engine, &[(101, 9001)], 0);
    engine.handle_verify(555);
    assert!(!engine.get_all()[0].contemplant_verified);
}

#[test]
fn deadline_marks_only_overdue_unverified() {
    let mut engine = InstanceController::new(3, 10, 60);
    fill(&mut engine, &[(101, 9001), (102, 9002), (103, 9003)], 0);
    engine.handle_verify(102);
    engine.enforce_verification_deadline(61);
    let table = engine.get_all();
    assert!(table[0].should_drop); // unverified, 61 > 60
    assert!(!table[1].should_drop); // verified
    assert!(table[2].should_drop); // unverified
}

#[test]
fn deadline_spares_instances_within_timeout() {
    let mut engine = InstanceController::new(1, 10, 60);
    fill(&mut engine, &[(101, 9001)], 0);
    engine.enforce_verification_deadline(30);
    assert!(!engine.get_all()[0].should_drop);
    // the rule is strictly "older than the timeout"
    engine.enforce_verification_deadline(60);
    assert!(!engine.get_all()[0].should_drop);
}

#[test]
fn drop_candidates_lists_marked_instances() {
    let mut engine = InstanceController::new(2, 10, 180);
    fill(&mut engine, &[(101, 9001), (102, 9002)], 0);
    assert_eq!(engine.drop_candidates(), Vec::<u64>::new());
    engine.handle_drop(102).unwrap();
    assert_eq!(engine.drop_candidates(), vec![9002]);
}

#[test]
fn remove_instances_keeps_failed_destroys() {
    let mut engine = InstanceController::new(2, 10, 180);
    fill(&mut engine, &[(101, 9001), (102, 9002)], 0);
    engine.handle_drop(101).unwrap();
    engine.handle_drop(102).unwrap();
    // destroy succeeded only for 9001: 9002 stays, still marked, for retry
    engine.remove_instances(&vec![9001]);
    let table = engine.get_all();
    assert_eq!(table.len(), 1);
    assert_eq!(table[0].instance_id, 9002);
    assert!(table[0].should_drop);
}

#[test]
fn backoff_grows_linearly_and_resets() {
    let mut engine = InstanceController::new(2, 10, 180);
    let mut st = engine.begin_refill(vec![offer(101), offer(102)]);
    assert_eq!(st.apply_outcome(RentOutcome::RateLimited, 0), Some(10));
    assert_eq!(st.apply_outcome(RentOutcome::RateLimited, 0), Some(20));
    assert_eq!(st.apply_outcome(RentOutcome::RateLimited, 0), Some(30));
    assert_eq!(st.apply_outcome(RentOutcome::Failed, 0), None);
    // the run was broken: the next rate-limited sleep is base again
    assert_eq!(st.apply_outcome(RentOutcome::RateLimited, 0), Some(10));
    engine.finish_refill(st);
    assert_eq!(engine.instance_count(), 0);
}

#[test]
fn rate_limit_retries_the_same_offer() {
    let mut engine = InstanceController::new(1, 10, 180);
    let mut st = engine.begin_refill(vec![offer(101), offer(102)]);
    assert_eq!(st.next_action(), RefillAction::Rent { offer_id: 101 });
    st.apply_outcome(RentOutcome::RateLimited, 0);
    assert_eq!(st.next_action(), RefillAction::Rent { offer_id: 101 });
}

#[test]
fn failed_rent_moves_to_next_offer() {
    let mut engine = InstanceController::new(1, 10, 180);
    let mut st = engine.begin_refill(vec![offer(101), offer(102)]);
    st.apply_outcome(RentOutcome::Failed, 0);
    assert_eq!(st.next_action(), RefillAction::Rent { offer_id: 102 });
}

#[test]
fn refill_reports_exhaustion() {
    let mut engine = InstanceController::new(2, 10, 180);
    let mut st = engine.begin_refill(vec![offer(101)]);
    st.apply_outcome(RentOutcome::Failed, 0);
    assert_eq!(st.next_action(), RefillAction::Exhausted);
    engine.finish_refill(st);
    assert_eq!(engine.instance_count(), 0);
}

#[test]
fn table_never_exceeds_target() {
    let mut engine = InstanceController::new(2, 10, 180);
    fill(&mut engine, &[(101, 9001), (102, 9002)], 0);
    assert_eq!(engine.need(), 0);
    // a refill started at the target asks for nothing
    let st = engine.begin_refill(vec![offer(103)]);
    assert_eq!(st.next_action(), RefillAction::Done);
    engine.finish_refill(st);
    assert_eq!(engine.instance_count(), 2);
}

#[test]
fn rent_replacing_existing_id_keeps_count() {
    let mut engine = InstanceController::new(3, 10, 180);
    fill(&mut engine, &[(101, 9001), (102, 9002)], 0);
    // the marketplace hands back an id the table already holds
    fill(&mut engine, &[(103, 9001)], 5);
    let table = engine.get_all();
    assert_eq!(table.len(), 2);
    let replaced = table.iter().find(|i| i.instance_id == 9001).unwrap();
    assert_eq!(replaced.offer.id, 103);
    assert_eq!(replaced.created_at, 5);
}

#[test]
fn describes_an_instance_for_logs() {
    let inst = VastInstance::new(
        9001,
        Offer {
            id: 101,
            machine_id: 7,
            host_id: 8,
            gpu_name: "RTX 4090".to_string(),
            geolocation: "US".to_string(),
            dph_total_milli: 530,
        },
        0,
    );
    assert_eq!(
        inst.describe(),
        "instance_id 9001: RTX 4090 in US machine_id 7 host_id 8 $0.53/hour"
    );
}

#[test]
fn description_price_keeps_two_decimals() {
    let mut inst = VastInstance::new(
        9001,
        Offer {
            id: 101,
            machine_id: 7,
            host_id: 8,
            gpu_name: "A100".to_string(),
            geolocation: "EU".to_string(),
            dph_total_milli: 500,
        },
        0,
    );
    assert!(inst.describe().ends_with("$0.50/hour"));
    inst.offer.dph_total_milli = 1999;
    assert!(inst.describe().ends_with("$2.00/hour"));
}

#[test]
fn zero_target_engine_stays_empty() {
    let engine = InstanceController::new(0, 10, 180);
    assert_eq!(engine.need(), 0);
    let st = engine.begin_refill(vec![offer(101)]);
    assert_eq!(st.next_action(), RefillAction::Done);
}

#[test]
fn zombie_check_ignores_foreign_marketplace_ids() {
    let mut engine = InstanceController::new(2, 10, 180);
    fill(&mut engine, &[(101, 9001), (102, 9002)], 0);
    // the account may hold instances this supervisor does not own
    engine.remove_zombies(&vec![9002, 9001, 4444]);
    let ids: Vec<u64> = engine.get_all().iter().map(|i| i.instance_id).collect();
    assert_eq!(ids, vec![9001, 9002]);
}
