use container_core::capability::{
    default_allow_list, CapabilityAllowList, check_subset, drop_to, govern,
};
use container_core::errors::CapError;

fn names(list: &[&str]) -> Vec<String> {
    list.iter().map(|s| s.to_string()).collect()
}

#[test]
fn subset_check_is_exact() {
    let held = names(&["CAP_CHOWN", "CAP_SETUID", "CAP_SETGID"]);
    assert!(check_subset(&CapabilityAllowList::new(names(&[])), &held));
    assert!(check_subset(&CapabilityAllowList::new(names(&["CAP_SETUID"])), &held));
    assert!(check_subset(
        &CapabilityAllowList::new(names(&["CAP_SETGID", "CAP_CHOWN"])),
        &held
    ));
    assert!(!check_subset(
        &CapabilityAllowList::new(names(&["CAP_SYS_ADMIN"])),
        &held
    ));
    assert!(!check_subset(
        &CapabilityAllowList::new(names(&["CAP_SETUID", "CAP_SYS_ADMIN"])),
        &held
    ));
}

#[test]
fn govern_refuses_an_allow_list_beyond_the_held_set() {
    let held = names(&["CAP_CHOWN", "CAP_SETUID"]);
    let allow = CapabilityAllowList::new(names(&["CAP_SETUID", "CAP_SYS_ADMIN"]));
    let outcome = govern(&allow, &held);
    assert!(matches!(outcome, Err(CapError::InsufficientPrivilege)));
}

#[test]
fn govern_narrows_to_exactly_the_allow_list_with_empty_inheritable() {
    let held = names(&[
        "CAP_CHOWN",
        "CAP_DAC_OVERRIDE",
        "CAP_FOWNER",
        "CAP_SETGID",
        "CAP_SETUID",
        "CAP_SYS_ADMIN",
    ]);
    let allow = CapabilityAllowList::new(names(&["CAP_SETUID", "CAP_SETGID"]));
    let triple = govern(&allow, &held).expect("subset of held");
    assert_eq!(triple.effective, names(&["CAP_SETUID", "CAP_SETGID"]));
    assert_eq!(triple.permitted, names(&["CAP_SETUID", "CAP_SETGID"]));
    assert!(triple.inheritable.is_empty());
}

#[test]
fn stock_allow_list_holds_exactly_the_five_kept_capabilities() {
    let allow = default_allow_list();
    assert_eq!(
        allow.names,
        names(&[
            "CAP_CHOWN",
            "CAP_DAC_OVERRIDE",
            "CAP_FOWNER",
            "CAP_SETGID",
            "CAP_SETUID",
        ])
    );
}

#[test]
fn drop_to_refuses_an_unknown_capability_before_touching_the_process() {
    // No kernel set holds an identifier outside the canonical table, so
    // the subset check refuses the drop before any kernel call.
    let allow = CapabilityAllowList::new(names(&["CAP_NOT_A_CAPABILITY"]));
    let outcome = drop_to(&allow);
    assert!(matches!(outcome, Err(CapError::InsufficientPrivilege)));
}
