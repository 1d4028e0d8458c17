use ec2_by_name::address::IpAddress;
use ec2_by_name::error::{Ec2SdkError, Error};
use ec2_by_name::fanin::Turn;
use ec2_by_name::idset::IdSet;
use ec2_by_name::resolve::{begin_name, begin_names, conclude, orchestrate, NameStart, Outcome};

fn found(ids: &[&str]) -> Result<IdSet, Error> {
    let mut set = IdSet::new();
    for id in ids {
        set.insert(id.to_string());
    }
    Ok(set)
}

fn invoked(outcome: Outcome) -> Vec<String> {
    match outcome {
        Outcome::Invoke(list) => list,
        Outcome::Fail(e) => panic!("the operation was to go on, but: {:?}", e),
    }
}

#[test]
fn no_name_invokes_the_operation_with_the_empty_list() {
    let end = orchestrate(Vec::new());
    assert_eq!(end.awaited, 0);
    assert_eq!(invoked(end.outcome), Vec::<String>::new());
    match begin_names(&Vec::new()) {
        Turn::Finish(Ok(set)) => assert_eq!(invoked(conclude(Ok(set))), Vec::<String>::new()),
        _ => panic!("with no name there is nothing to wait for"),
    }
}

#[test]
fn names_that_find_nothing_invoke_the_operation_with_the_empty_list() {
    let end = orchestrate(vec![found(&[]), found(&[])]);
    assert_eq!(end.awaited, 2);
    assert_eq!(invoked(end.outcome), Vec::<String>::new());
}

#[test]
fn names_with_the_same_instances_give_each_id_once_and_sorted() {
    let end = orchestrate(vec![
        found(&["i-0b", "i-0a"]),
        found(&["i-0c", "i-0a"]),
        found(&["i-0b"]),
    ]);
    assert_eq!(end.awaited, 3);
    assert_eq!(invoked(end.outcome), vec!["i-0a", "i-0b", "i-0c"]);
}

#[test]
fn failed_name_fails_the_run_after_all_names_were_heard() {
    let error = Error::ResolveError("no such host".to_string());
    let end = orchestrate(vec![Err(error.clone()), found(&["i-1"]), found(&["i-2"])]);
    assert_eq!(end.awaited, 3);
    match end.outcome {
        Outcome::Fail(e) => assert_eq!(e, error),
        Outcome::Invoke(_) => panic!("the operation is not begun after a failure"),
    }
}

#[test]
fn first_of_several_failures_is_reported() {
    let first = Error::SdkError(Ec2SdkError::DescribeInstancesError("denied".to_string()));
    let second = Error::ResolveError("timeout".to_string());
    let end = orchestrate(vec![found(&["i-1"]), Err(first.clone()), Err(second)]);
    assert_eq!(end.awaited, 3);
    match end.outcome {
        Outcome::Fail(e) => assert_eq!(e, first),
        Outcome::Invoke(_) => panic!("the operation is not begun after a failure"),
    }
}

#[test]
fn begin_names_waits_for_one_branch_for_each_name() {
    let names = vec!["a.example".to_string(), "b.example".to_string()];
    let gatherer = match begin_names(&names) {
        Turn::Await(g) => g,
        Turn::Finish(_) => panic!("two names are pending"),
    };
    let gatherer = match gatherer.on_result(found(&["i-2"])) {
        Turn::Await(g) => g,
        Turn::Finish(_) => panic!("one name is pending"),
    };
    match gatherer.on_result(found(&["i-1"])) {
        Turn::Finish(result) => assert_eq!(invoked(conclude(result)), vec!["i-1", "i-2"]),
        Turn::Await(_) => panic!("both names have ended"),
    }
}

#[test]
fn conclude_hands_a_failure_on_unchanged() {
    let error = Error::Runtime("broken".to_string());
    match conclude(Err(error.clone())) {
        Outcome::Fail(e) => assert_eq!(e, error),
        Outcome::Invoke(_) => panic!("the operation is not begun after a failure"),
    }
}

#[test]
fn name_that_cannot_be_resolved_fails() {
    let error = Error::ResolveError("no record found".to_string());
    match begin_name(Err(error.clone())) {
        NameStart::Failed(e) => assert_eq!(e, error),
        NameStart::Dispatch(..) => panic!("nothing is dispatched for a name that failed"),
    }
}

#[test]
fn name_without_an_address_finds_the_empty_set() {
    match begin_name(Ok(Vec::new())) {
        NameStart::Dispatch(addresses, Turn::Finish(Ok(set))) => {
            assert!(addresses.is_empty());
            assert!(set.is_empty());
        }
        _ => panic!("a name without an address has ended with nothing"),
    }
}

#[test]
fn name_with_addresses_dispatches_each_of_them() {
    let addresses = vec![
        IpAddress::V4("198.51.100.1".to_string()),
        IpAddress::V6("2001:db8::1".to_string()),
    ];
    match begin_name(Ok(addresses.clone())) {
        NameStart::Dispatch(list, Turn::Await(gatherer)) => {
            assert_eq!(list, addresses);
            let gatherer = match gatherer.on_result(found(&["i-4"])) {
                Turn::Await(g) => g,
                Turn::Finish(_) => panic!("one address is pending"),
            };
            match gatherer.on_result(found(&["i-6", "i-4"])) {
                Turn::Finish(Ok(set)) => assert_eq!(set.to_sorted_vec(), vec!["i-4", "i-6"]),
                _ => panic!("both addresses have ended"),
            }
        }
        _ => panic!("two addresses are to be resolved"),
    }
}
