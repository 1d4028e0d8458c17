use ec2_by_name::error::{Ec2SdkError, Error};
use ec2_by_name::fanin::{merge_drain_all, merge_fail_fast, DrainAll, FailFast, Turn};
use ec2_by_name::idset::IdSet;

fn found(ids: &[&str]) -> Result<IdSet, Error> {
    let mut set = IdSet::new();
    for id in ids {
        set.insert(id.to_string());
    }
    Ok(set)
}

fn failed(detail: &str) -> Result<IdSet, Error> {
    Err(Error::ResolveError(detail.to_string()))
}

#[test]
fn fail_fast_with_no_branch_is_the_empty_set() {
    match FailFast::start(0) {
        Turn::Finish(Ok(set)) => assert!(set.is_empty()),
        _ => panic!("there is nothing to wait for"),
    }
    let end = merge_fail_fast(Vec::new());
    assert_eq!(end.awaited, 0);
    assert!(end.result.unwrap().is_empty());
}

#[test]
fn fail_fast_unites_what_the_branches_found() {
    let end = merge_fail_fast(vec![found(&["i-b"]), found(&[]), found(&["i-a", "i-b"])]);
    assert_eq!(end.awaited, 3);
    assert_eq!(end.result.unwrap().to_sorted_vec(), vec!["i-a", "i-b"]);
}

#[test]
fn fail_fast_same_address_in_two_roles_gives_both_instances() {
    // the public address of one instance is the private address of another
    let public_ip = found(&["i-public"]);
    let private_ip = found(&["i-private"]);
    let end = merge_fail_fast(vec![public_ip, found(&[]), private_ip, found(&[]), found(&[])]);
    assert_eq!(end.result.unwrap().to_sorted_vec(), vec!["i-private", "i-public"]);
}

#[test]
fn fail_fast_stops_at_the_first_failure() {
    let end = merge_fail_fast(vec![
        found(&["i-1"]),
        failed("first"),
        found(&["i-2"]),
        failed("second"),
    ]);
    assert_eq!(end.awaited, 2);
    assert_eq!(end.result.err(), Some(Error::ResolveError("first".to_string())));
}

#[test]
fn fail_fast_step_by_step() {
    let gatherer = match FailFast::start(3) {
        Turn::Await(g) => g,
        Turn::Finish(_) => panic!("three branches are pending"),
    };
    let gatherer = match gatherer.on_result(found(&["i-2"])) {
        Turn::Await(g) => g,
        Turn::Finish(_) => panic!("two branches are pending"),
    };
    let gatherer = match gatherer.on_result(found(&["i-1"])) {
        Turn::Await(g) => g,
        Turn::Finish(_) => panic!("one branch is pending"),
    };
    match gatherer.on_result(found(&["i-2", "i-3"])) {
        Turn::Finish(Ok(set)) => assert_eq!(set.to_sorted_vec(), vec!["i-1", "i-2", "i-3"]),
        _ => panic!("the last branch has ended"),
    }
}

#[test]
fn fail_fast_failure_ends_the_gathering_while_branches_are_pending() {
    let gatherer = match FailFast::start(5) {
        Turn::Await(g) => g,
        Turn::Finish(_) => panic!("five branches are pending"),
    };
    let error = Error::SdkError(Ec2SdkError::DescribeInstancesError("denied".to_string()));
    match gatherer.on_result(Err(error.clone())) {
        Turn::Finish(Err(e)) => assert_eq!(e, error),
        _ => panic!("the failure is the result at once"),
    }
}

#[test]
fn drain_all_with_no_branch_is_the_empty_set() {
    match DrainAll::start(0) {
        Turn::Finish(Ok(set)) => assert!(set.is_empty()),
        _ => panic!("there is nothing to wait for"),
    }
    let end = merge_drain_all(Vec::new());
    assert_eq!(end.awaited, 0);
    assert!(end.result.unwrap().is_empty());
}

#[test]
fn drain_all_unites_what_the_branches_found() {
    let end = merge_drain_all(vec![found(&["i-3", "i-1"]), found(&["i-2", "i-1"])]);
    assert_eq!(end.awaited, 2);
    assert_eq!(end.result.unwrap().to_sorted_vec(), vec!["i-1", "i-2", "i-3"]);
}

#[test]
fn drain_all_hears_every_branch_after_a_failure() {
    let end = merge_drain_all(vec![
        failed("a"),
        found(&["i-1"]),
        failed("b"),
        found(&["i-2"]),
    ]);
    assert_eq!(end.awaited, 4);
    assert_eq!(end.result.err(), Some(Error::ResolveError("a".to_string())));
}

#[test]
fn drain_all_waits_on_after_a_failure_step_by_step() {
    let gatherer = match DrainAll::start(2) {
        Turn::Await(g) => g,
        Turn::Finish(_) => panic!("two branches are pending"),
    };
    // branch A fails fast; branch B is still heard before anything is reported
    let gatherer = match gatherer.on_result(failed("A")) {
        Turn::Await(g) => g,
        Turn::Finish(_) => panic!("branch B has not ended yet"),
    };
    match gatherer.on_result(found(&["i-b"])) {
        Turn::Finish(Err(e)) => assert_eq!(e, Error::ResolveError("A".to_string())),
        _ => panic!("the failure of A is the result once B has ended"),
    }
}

#[test]
fn drain_all_keeps_the_first_failure_of_several() {
    let gatherer = match DrainAll::start(3) {
        Turn::Await(g) => g,
        Turn::Finish(_) => panic!("three branches are pending"),
    };
    let gatherer = match gatherer.on_result(found(&["i-1"])) {
        Turn::Await(g) => g,
        Turn::Finish(_) => panic!("two branches are pending"),
    };
    let gatherer = match gatherer.on_result(failed("earlier")) {
        Turn::Await(g) => g,
        Turn::Finish(_) => panic!("one branch is pending"),
    };
    match gatherer.on_result(failed("later")) {
        Turn::Finish(Err(e)) => assert_eq!(e, Error::ResolveError("earlier".to_string())),
        _ => panic!("the last branch has ended"),
    }
}

#[test]
fn order_of_the_branches_does_not_change_what_is_found() {
    let one = merge_drain_all(vec![found(&["i-1", "i-2"]), found(&["i-3"]), found(&["i-2"])]);
    let other = merge_drain_all(vec![found(&["i-2"]), found(&["i-3"]), found(&["i-1", "i-2"])]);
    assert_eq!(one.result.unwrap().to_sorted_vec(), other.result.unwrap().to_sorted_vec());
}
