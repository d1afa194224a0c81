//! End-to-end scenarios: each drives the reconciliation engine the way the
//! I/O shell does, with scripted marketplace answers.

use magister::http_handler::{hello_message, parse_offer_id};
use magister::instance_controller::{InstanceController, RefillAction, RentOutcome};
use magister::types::{summarize, Offer};
use magister::vast::filter_offers;

fn offer(id: u64, dph_milli: u64) -> Offer {
    Offer {
        id,
        machine_id: id * 10,
        host_id: id * 100,
        gpu_name: "RTX 4090".to_string(),
        geolocation: "US".to_string(),
        dph_total_milli: dph_milli,
    }
}

/// One reconciliation pass, with the marketplace's answers scripted:
/// `marketplace_ids` is what list-my-instances returned (None: the call
/// failed, skip zombie reconciliation), `destroy_ok` tells which destroy
/// calls succeed, and `rents` are the instance ids handed out for accepted
/// rents, in order.
fn tick(
    engine: &mut InstanceController,
    now: u64,
    marketplace_ids: Option<Vec<u64>>,
    destroy_ok: &dyn Fn(u64) -> bool,
    offers: Vec<Offer>,
    rents: &[u64],
) -> u64 {
    if let Some(ids) = marketplace_ids {
        engine.remove_zombies(&ids);
    }
    engine.enforce_verification_deadline(now);
    let mut destroyed: Vec<u64> = Vec::new();
    for id in engine.drop_candidates() {
        if destroy_ok(id) {
            destroyed.push(id);
        }
    }
    engine.remove_instances(&destroyed);
    let mut st = engine.begin_refill(offers);
    let mut slept: u64 = 0;
    let mut next_rent = 0;
    loop {
        match st.next_action() {
            RefillAction::Rent { offer_id: _ } => {
                let outcome = if next_rent < rents.len() {
                    RentOutcome::Accepted { instance_id: rents[next_rent] }
                } else {
                    RentOutcome::Failed
                };
                if let Some(secs) = st.apply_outcome(outcome, now) {
                    slept += secs;
                } else {
                    next_rent += 1;
                }
            }
            _ => break,
        }
    }
    engine.finish_refill(st);
    slept
}

fn ids_of(engine: &InstanceController) -> Vec<u64> {
    engine.get_all().iter().map(|i| i.instance_id).collect()
}

#[test]
fn cold_start_sufficient_offers() {
    // target 2; offers 101, 102, 103; rents accepted in order
    let mut engine = InstanceController::new(2, 10, 180);
    let offers = filter_offers(
        vec![offer(101, 500), offer(102, 300), offer(103, 200)],
        &None,
        &None,
        &None,
        &None,
    );
    assert_eq!(offers.len(), 3);
    let mut st = engine.begin_refill(offers);
    assert_eq!(st.next_action(), RefillAction::Rent { offer_id: 101 });
    assert_eq!(st.apply_outcome(RentOutcome::Accepted { instance_id: 9001 }, 0), None);
    assert_eq!(st.next_action(), RefillAction::Rent { offer_id: 102 });
    assert_eq!(st.apply_outcome(RentOutcome::Accepted { instance_id: 9002 }, 0), None);
    assert_eq!(st.next_action(), RefillAction::Done);
    engine.finish_refill(st);
    assert_eq!(ids_of(&engine), vec![9001, 9002]);
    let summary = summarize(&engine.get_all());
    assert_eq!(summary.num_instances, 2);
    assert_eq!(summary.total_cost_per_hour_milli, 800);
    assert_eq!(summary.instance_overview.len(), 2);
    assert_eq!(summary.instance_overview[0].instance_id, 9001);
    assert_eq!(summary.instance_overview[0].cost_per_hour_milli, 500);
}

#[test]
fn drop_round_trip() {
    // from the cold start: DELETE /drop/101, then one tick
    let mut engine = InstanceController::new(2, 10, 180);
    tick(&mut engine, 0, None, &|_| true, vec![offer(101, 500), offer(102, 300)], &[9001, 9002]);
    let reply = engine.handle_drop(101);
    assert_eq!(reply, Ok("9001 will be dropped".to_string()));
    // before the next tick both instances are still reported
    assert_eq!(ids_of(&engine), vec![9001, 9002]);
    let slept = tick(
        &mut engine,
        10,
        Some(vec![9001, 9002]),
        &|_| true,
        vec![offer(103, 200)],
        &[9003],
    );
    assert_eq!(slept, 0);
    assert_eq!(ids_of(&engine), vec![9002, 9003]);
}

#[test]
fn verification_timeout() {
    // timeout 60 s; instance 9001 created at t=0, never verified
    let mut engine = InstanceController::new(1, 10, 60);
    tick(&mut engine, 0, None, &|_| true, vec![offer(101, 500)], &[9001]);
    // tick at t=30: nothing changes
    tick(&mut engine, 30, Some(vec![9001]), &|_| true, vec![], &[]);
    assert_eq!(ids_of(&engine), vec![9001]);
    assert!(!engine.get_all()[0].should_drop);
    // tick at t=70: marked, destroyed, and the slot refilled
    tick(&mut engine, 70, Some(vec![9001]), &|_| true, vec![offer(102, 300)], &[9002]);
    assert_eq!(ids_of(&engine), vec![9002]);
}

#[test]
fn rate_limited_refill() {
    // target 2, empty table, offers A=101 and B=102; rent(A) twice 429
    let mut engine = InstanceController::new(2, 10, 180);
    let mut st = engine.begin_refill(vec![offer(101, 500), offer(102, 300)]);
    assert_eq!(st.next_action(), RefillAction::Rent { offer_id: 101 });
    assert_eq!(st.apply_outcome(RentOutcome::RateLimited, 0), Some(10));
    assert_eq!(st.next_action(), RefillAction::Rent { offer_id: 101 });
    assert_eq!(st.apply_outcome(RentOutcome::RateLimited, 0), Some(20));
    assert_eq!(st.next_action(), RefillAction::Rent { offer_id: 101 });
    assert_eq!(st.apply_outcome(RentOutcome::Accepted { instance_id: 9001 }, 0), None);
    assert_eq!(st.next_action(), RefillAction::Rent { offer_id: 102 });
    assert_eq!(st.apply_outcome(RentOutcome::Accepted { instance_id: 9002 }, 0), None);
    assert_eq!(st.next_action(), RefillAction::Done);
    engine.finish_refill(st);
    assert_eq!(engine.instance_count(), 2);
    // total sleep observed: 10 + 20 = 30 seconds
}

#[test]
fn zombie_removal() {
    // table {9001, 9002}; the marketplace only knows 9002
    let mut engine = InstanceController::new(2, 10, 180);
    tick(&mut engine, 0, None, &|_| true, vec![offer(101, 500), offer(102, 300)], &[9001, 9002]);
    let destroy_calls = std::cell::RefCell::new(Vec::<u64>::new());
    tick(
        &mut engine,
        10,
        Some(vec![9002]),
        &|id| {
            destroy_calls.borrow_mut().push(id);
            true
        },
        vec![offer(103, 200)],
        &[9003],
    );
    // 9001 was removed without any destroy call, and the slot was refilled
    assert_eq!(destroy_calls.into_inner(), Vec::<u64>::new());
    assert_eq!(ids_of(&engine), vec![9002, 9003]);
}

#[test]
fn drop_of_unknown_offer() {
    let mut engine = InstanceController::new(2, 10, 180);
    tick(&mut engine, 0, None, &|_| true, vec![offer(101, 500), offer(102, 300)], &[9001, 9002]);
    let before: Vec<u64> = ids_of(&engine);
    assert_eq!(engine.handle_drop(77777), Err(400));
    assert_eq!(ids_of(&engine), before);
    assert_eq!(engine.drop_candidates(), Vec::<u64>::new());
}

#[test]
fn failed_list_my_instances_touches_nothing() {
    // a failed marketplace listing is no evidence of removal
    let mut engine = InstanceController::new(2, 10, 180);
    tick(&mut engine, 0, None, &|_| true, vec![offer(101, 500), offer(102, 300)], &[9001, 9002]);
    tick(&mut engine, 10, None, &|_| true, vec![], &[]);
    assert_eq!(ids_of(&engine), vec![9001, 9002]);
}

#[test]
fn summary_excludes_marked_instances() {
    let mut engine = InstanceController::new(2, 10, 180);
    tick(&mut engine, 0, None, &|_| true, vec![offer(101, 500), offer(102, 300)], &[9001, 9002]);
    engine.handle_drop(101).unwrap();
    let summary = summarize(&engine.get_all());
    assert_eq!(summary.num_instances, 1);
    assert_eq!(summary.total_cost_per_hour_milli, 300);
    assert_eq!(summary.instance_overview[0].instance_id, 9002);
}

#[test]
fn hello_route_greets() {
    assert_eq!(hello_message(), "Hello world!");
}

#[test]
fn path_parameter_parsing() {
    assert_eq!(parse_offer_id("101"), Ok(101));
    assert_eq!(parse_offer_id("abc"), Err(400));
    assert_eq!(parse_offer_id(""), Err(400));
    assert_eq!(parse_offer_id("12.5"), Err(400));
}
