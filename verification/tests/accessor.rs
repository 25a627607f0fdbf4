use priority::platform::narrow;
use priority::Fault;
use priority::GetPriority;
use priority::Platform;
use priority::PriorityError;
use priority::Reply;
use priority::SetPriority;
use priority::WhichPriority;

fn table() -> Platform {
    Platform {
        process: 0,
        process_group: 1,
        user: 2,
        minimum: -20,
        maximum: 20,
        invalid_argument: 22,
        no_such_process: 3,
        access_denied: 13,
        not_permitted: 1,
    }
}

fn reply(result: i32, error_code: i32) -> Reply {
    Reply { result, error_code }
}

#[test]
fn set_then_get_on_current_process() {
    let platform = Platform::host();
    let change = WhichPriority::Process.set(WhichPriority::CurrentProcessOrThread, 10, &platform);
    assert_eq!(
        change,
        SetPriority { which: libc::PRIO_PROCESS as i32, who: 0, priority: 10 }
    );
    assert_eq!(change.complete(reply(0, 0), &platform), Ok(Ok(())));
    let query = WhichPriority::Process.get(WhichPriority::CurrentProcessOrThread, &platform);
    assert_eq!(query, GetPriority { which: libc::PRIO_PROCESS as i32, who: 0 });
    assert_eq!(query.complete(reply(change.priority, 0), &platform), Ok(Ok(10)));
}

#[test]
fn get_of_missing_process_is_not_found() {
    let platform = Platform::host();
    let query = WhichPriority::Process.get(4_000_000_000, &platform);
    assert_eq!(query.who, 4_000_000_000);
    assert_eq!(
        query.complete(reply(-1, libc::ESRCH), &platform),
        Ok(Err(PriorityError::NotFound))
    );
}

#[test]
fn set_on_missing_target_is_not_found() {
    let platform = Platform::host();
    for kind in [WhichPriority::Process, WhichPriority::ProcessGroup, WhichPriority::User] {
        let change = kind.set(4_000_000_000, 5, &platform);
        assert_eq!(
            change.complete(reply(-1, libc::ESRCH), &platform),
            Ok(Err(PriorityError::NotFound))
        );
    }
}

#[test]
fn set_without_privilege_is_permission_denied() {
    let platform = Platform::host();
    let change = WhichPriority::Process.set(1, -5, &platform);
    assert_eq!(change.priority, -5);
    assert_eq!(
        change.complete(reply(-1, libc::EACCES), &platform),
        Ok(Err(PriorityError::PermissionDenied))
    );
    assert_eq!(
        change.complete(reply(-1, libc::EPERM), &platform),
        Ok(Err(PriorityError::PermissionDenied))
    );
}

#[test]
fn host_table_holds_the_constants_of_libc() {
    let platform = Platform::host();
    assert_eq!(platform.process, libc::PRIO_PROCESS as i32);
    assert_eq!(platform.process_group, libc::PRIO_PGRP as i32);
    assert_eq!(platform.user, libc::PRIO_USER as i32);
    assert_eq!(platform.minimum, libc::PRIO_MIN as i8);
    assert_eq!(platform.maximum, libc::PRIO_MAX as i8);
    assert_eq!(platform.invalid_argument, libc::EINVAL);
    assert_eq!(platform.no_such_process, libc::ESRCH);
    assert_eq!(platform.access_denied, libc::EACCES);
    assert_eq!(platform.not_permitted, libc::EPERM);
}

#[test]
fn host_table_is_coherent() {
    let platform = Platform::host();
    assert!(platform.is_coherent());
    assert!(platform.admits(0));
    assert!(platform.minimum < 0);
    assert!(platform.maximum > 0);
}

#[test]
fn new_narrows_the_two_bounds() {
    let platform = Platform::new(0, 1, 2, -20, 20, 22, 3, 13, 1);
    assert_eq!(platform, table());
    let wrapped = Platform::new(5, 6, 7, 236, -236, 8, 9, 10, 11);
    assert_eq!(wrapped.minimum, -20);
    assert_eq!(wrapped.maximum, 20);
    assert_eq!(wrapped.process, 5);
    assert_eq!(wrapped.process_group, 6);
    assert_eq!(wrapped.user, 7);
    assert_eq!(wrapped.invalid_argument, 8);
    assert_eq!(wrapped.no_such_process, 9);
    assert_eq!(wrapped.access_denied, 10);
    assert_eq!(wrapped.not_permitted, 11);
}

#[test]
fn narrow_keeps_the_low_eight_bits() {
    assert_eq!(narrow(0), 0);
    assert_eq!(narrow(19), 19);
    assert_eq!(narrow(-20), -20);
    assert_eq!(narrow(127), 127);
    assert_eq!(narrow(-128), -128);
    assert_eq!(narrow(128), -128);
    assert_eq!(narrow(-129), 127);
    assert_eq!(narrow(300), 44);
    assert_eq!(narrow(256), 0);
    assert_eq!(narrow(i32::MAX), -1);
    assert_eq!(narrow(i32::MIN), 0);
}

#[test]
fn coherence_is_tested_exactly() {
    assert!(table().is_coherent());
    assert!(!Platform { process_group: 0, ..table() }.is_coherent());
    assert!(!Platform { user: 0, ..table() }.is_coherent());
    assert!(!Platform { user: 1, ..table() }.is_coherent());
    assert!(!Platform { minimum: 21, ..table() }.is_coherent());
    assert!(Platform { minimum: 20, ..table() }.is_coherent());
    assert!(!Platform { invalid_argument: 0, ..table() }.is_coherent());
    assert!(!Platform { no_such_process: 0, ..table() }.is_coherent());
    assert!(!Platform { access_denied: 0, ..table() }.is_coherent());
    assert!(!Platform { not_permitted: 0, ..table() }.is_coherent());
    assert!(!Platform { no_such_process: 22, ..table() }.is_coherent());
    assert!(!Platform { access_denied: 22, ..table() }.is_coherent());
    assert!(!Platform { not_permitted: 22, ..table() }.is_coherent());
    assert!(!Platform { access_denied: 3, ..table() }.is_coherent());
    assert!(!Platform { not_permitted: 3, ..table() }.is_coherent());
    assert!(Platform { not_permitted: 13, ..table() }.is_coherent());
}

#[test]
fn admits_exactly_the_range() {
    let platform = table();
    assert!(platform.admits(-20));
    assert!(platform.admits(0));
    assert!(platform.admits(20));
    assert!(!platform.admits(-21));
    assert!(!platform.admits(21));
    assert!(!platform.admits(i8::MIN));
    assert!(!platform.admits(i8::MAX));
}

#[test]
fn each_kind_has_its_tag() {
    let platform = Platform { process: 7, process_group: 8, user: 9, ..table() };
    assert_eq!(WhichPriority::Process.tag(&platform), 7);
    assert_eq!(WhichPriority::ProcessGroup.tag(&platform), 8);
    assert_eq!(WhichPriority::User.tag(&platform), 9);
    assert_eq!(WhichPriority::ProcessGroup.get(41, &platform), GetPriority { which: 8, who: 41 });
    assert_eq!(
        WhichPriority::User.set(1000, -3, &platform),
        SetPriority { which: 9, who: 1000, priority: -3 }
    );
}

#[test]
fn current_target_is_zero() {
    assert_eq!(WhichPriority::CurrentProcessOrThread, 0);
}

#[test]
fn set_widens_without_change_of_value() {
    let platform = table();
    for priority in -20i8..=20 {
        let change = WhichPriority::Process.set(0, priority, &platform);
        assert_eq!(change.priority, i32::from(priority));
        let query = WhichPriority::Process.get(0, &platform);
        assert_eq!(query.which, change.which);
        assert_eq!(query.who, change.who);
        assert_eq!(query.complete(reply(change.priority, 0), &platform), Ok(Ok(priority)));
    }
}

#[test]
fn get_reads_a_negative_value_as_a_value() {
    let platform = table();
    let query = WhichPriority::Process.get(0, &platform);
    assert_eq!(query.complete(reply(-1, 0), &platform), Ok(Ok(-1)));
    assert_eq!(query.complete(reply(-20, 0), &platform), Ok(Ok(-20)));
    assert_eq!(query.complete(reply(19, 0), &platform), Ok(Ok(19)));
    assert_eq!(query.complete(reply(300, 0), &platform), Ok(Ok(44)));
}

#[test]
fn get_goes_by_the_error_code_alone() {
    let platform = table();
    let query = WhichPriority::User.get(0, &platform);
    assert_eq!(query.complete(reply(0, 3), &platform), Ok(Err(PriorityError::NotFound)));
    assert_eq!(query.complete(reply(7, 3), &platform), Ok(Err(PriorityError::NotFound)));
    assert_eq!(query.complete(reply(0, 22), &platform), Err(Fault::InvalidArgument));
    assert_eq!(query.complete(reply(-1, 22), &platform), Err(Fault::InvalidArgument));
}

#[test]
fn get_takes_every_other_code_for_a_fault() {
    let platform = table();
    let query = WhichPriority::Process.get(0, &platform);
    assert_eq!(query.complete(reply(-1, 13), &platform), Err(Fault::UnexpectedErrno(13)));
    assert_eq!(query.complete(reply(-1, 1), &platform), Err(Fault::UnexpectedErrno(1)));
    assert_eq!(query.complete(reply(-1, 12), &platform), Err(Fault::UnexpectedErrno(12)));
    assert_eq!(query.complete(reply(-1, -4), &platform), Err(Fault::UnexpectedErrno(-4)));
}

#[test]
fn set_succeeds_on_zero_whatever_the_error_slot_holds() {
    let platform = table();
    let change = WhichPriority::Process.set(0, 4, &platform);
    assert_eq!(change.complete(reply(0, 0), &platform), Ok(Ok(())));
    assert_eq!(change.complete(reply(0, 1), &platform), Ok(Ok(())));
    assert_eq!(change.complete(reply(0, 22), &platform), Ok(Ok(())));
    assert_eq!(change.complete(reply(0, 3), &platform), Ok(Ok(())));
}

#[test]
fn set_sorts_the_error_codes() {
    let platform = table();
    let change = WhichPriority::ProcessGroup.set(12, 0, &platform);
    assert_eq!(change.complete(reply(-1, 22), &platform), Err(Fault::InvalidArgument));
    assert_eq!(change.complete(reply(-1, 3), &platform), Ok(Err(PriorityError::NotFound)));
    assert_eq!(
        change.complete(reply(-1, 13), &platform),
        Ok(Err(PriorityError::PermissionDenied))
    );
    assert_eq!(
        change.complete(reply(-1, 1), &platform),
        Ok(Err(PriorityError::PermissionDenied))
    );
    assert_eq!(change.complete(reply(-1, 12), &platform), Err(Fault::UnexpectedErrno(12)));
    assert_eq!(change.complete(reply(-1, 0), &platform), Err(Fault::UnexpectedErrno(0)));
    assert_eq!(change.complete(reply(5, 3), &platform), Ok(Err(PriorityError::NotFound)));
}

#[test]
fn codes_are_tried_in_a_fixed_order_on_any_table() {
    let odd = Platform { invalid_argument: 3, access_denied: 3, ..table() };
    let query = WhichPriority::Process.get(0, &odd);
    assert_eq!(query.complete(reply(-1, 3), &odd), Err(Fault::InvalidArgument));
    let change = WhichPriority::Process.set(0, 0, &odd);
    assert_eq!(change.complete(reply(-1, 3), &odd), Err(Fault::InvalidArgument));
    let blank = Platform { invalid_argument: 0, ..table() };
    assert_eq!(query.complete(reply(6, 0), &blank), Ok(Ok(6)));
    assert_eq!(change.complete(reply(-1, 0), &blank), Err(Fault::InvalidArgument));
}

#[test]
fn tags_tell_the_kinds_apart() {
    let platform = Platform::host();
    let kinds = [WhichPriority::Process, WhichPriority::ProcessGroup, WhichPriority::User];
    for a in kinds {
        for b in kinds {
            assert_eq!(a.tag(&platform) == b.tag(&platform), a == b);
        }
    }
}

#[test]
fn pending_calls_hold_their_arguments() {
    assert_eq!(GetPriority::new(2, 1000), GetPriority { which: 2, who: 1000 });
    assert_eq!(SetPriority::new(1, 77, 4096), SetPriority { which: 1, who: 77, priority: 4096 });
    assert_eq!(SetPriority::new(0, 0, -128).priority, -128);
}

#[test]
fn host_table_has_the_numbers_that_every_target_shares() {
    let platform = Platform::host();
    assert_eq!(platform.process, 0);
    assert_eq!(platform.process_group, 1);
    assert_eq!(platform.user, 2);
    assert_eq!(platform.minimum, -20);
    assert_eq!(platform.maximum, 20);
    let codes = [
        platform.invalid_argument,
        platform.no_such_process,
        platform.access_denied,
        platform.not_permitted,
    ];
    for (i, a) in codes.iter().enumerate() {
        assert_ne!(*a, 0);
        for b in &codes[i + 1..] {
            assert_ne!(a, b);
        }
    }
}
