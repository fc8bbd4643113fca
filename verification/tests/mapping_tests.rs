use container_core::decimal::u64_to_dec;
use container_core::errors::MapError;
use container_core::launch::ContainerSpec;
use container_core::mapping::{
    IdentityMapWriter, IdentityMapping, MapEntry, check_table, current_user_root_mapping,
    render_table, root_mapping,
};
use container_core::namespace::NamespaceFlagSet;
use container_core::capability::CapabilityAllowList;

fn entry(ns_start: u64, host_start: u64, length: u64) -> MapEntry {
    MapEntry { ns_start, host_start, length }
}

fn single_root_mapping() -> IdentityMapping {
    IdentityMapping { uid_entries: vec![entry(0, 1000, 1)], gid_entries: vec![entry(0, 1000, 1)] }
}

#[test]
fn decimal_renders_exact_digits() {
    assert_eq!(u64_to_dec(0), "0");
    assert_eq!(u64_to_dec(7), "7");
    assert_eq!(u64_to_dec(10), "10");
    assert_eq!(u64_to_dec(1000), "1000");
    assert_eq!(u64_to_dec(4294967295), "4294967295");
    assert_eq!(u64_to_dec(18446744073709551615), "18446744073709551615");
}

#[test]
fn table_renders_single_record() {
    let text = render_table(&vec![entry(0, 1000, 1)]);
    assert_eq!(text, "0 1000 1");
}

#[test]
fn table_renders_multiple_records_newline_separated() {
    let text = render_table(&vec![entry(0, 1000, 1), entry(1, 100000, 65536)]);
    assert_eq!(text, "0 1000 1\n1 100000 65536");
}

#[test]
fn table_check_accepts_valid_tables() {
    assert!(check_table(&vec![entry(0, 1000, 1)]));
    assert!(check_table(&vec![entry(0, 1000, 1), entry(1, 100000, 65536)]));
}

#[test]
fn table_check_rejects_empty_table() {
    assert!(!check_table(&vec![]));
}

#[test]
fn table_check_rejects_zero_length_range() {
    assert!(!check_table(&vec![entry(0, 1000, 0)]));
}

#[test]
fn table_check_rejects_table_without_namespace_zero() {
    assert!(!check_table(&vec![entry(1, 1000, 1)]));
}

#[test]
fn table_check_rejects_namespace_side_overlap() {
    assert!(!check_table(&vec![entry(0, 1000, 1), entry(0, 2000, 1)]));
}

#[test]
fn table_check_rejects_host_side_overlap() {
    assert!(!check_table(&vec![entry(0, 1000, 10), entry(100, 1005, 10)]));
}

#[test]
fn table_check_rejects_out_of_bounds_range() {
    assert!(!check_table(&vec![entry(4294967295, 0, 2)]));
    assert!(!check_table(&vec![entry(0, 4294967295, 2)]));
}

#[test]
fn apply_plans_three_writes_in_mandated_order() {
    let mut writer = IdentityMapWriter::new();
    let mapping = IdentityMapping {
        uid_entries: vec![entry(0, 1000, 1)],
        gid_entries: vec![entry(0, 2000, 1)],
    };
    let plan = writer.apply(1234, &mapping).expect("valid mapping must be planned");
    assert_eq!(plan.len(), 3);
    assert_eq!(plan[0].path, "/proc/1234/setgroups");
    assert_eq!(plan[0].contents, "deny");
    assert_eq!(plan[1].path, "/proc/1234/gid_map");
    assert_eq!(plan[1].contents, "0 2000 1");
    assert_eq!(plan[2].path, "/proc/1234/uid_map");
    assert_eq!(plan[2].contents, "0 1000 1");
}

#[test]
fn overlapping_namespace_zero_table_is_rejected_with_no_writes() {
    let mut writer = IdentityMapWriter::new();
    let mapping = IdentityMapping {
        uid_entries: vec![entry(0, 1000, 1), entry(0, 2000, 1)],
        gid_entries: vec![entry(0, 1000, 1)],
    };
    let outcome = writer.apply(1234, &mapping);
    assert!(matches!(outcome, Err(MapError::InvalidMapping)));
    let retry = writer.apply(1234, &single_root_mapping());
    assert!(retry.is_ok(), "a rejected mapping must leave the pid unmapped");
}

#[test]
fn reapplying_a_mapped_pid_is_rejected_and_keeps_existing_mappings() {
    let mut writer = IdentityMapWriter::new();
    writer.apply(77, &single_root_mapping()).expect("first application succeeds");
    let second = writer.apply(77, &single_root_mapping());
    assert!(matches!(second, Err(MapError::AlreadyMapped)));
    let other = writer.apply(78, &single_root_mapping());
    assert!(other.is_ok(), "another pid is still mappable");
    let third = writer.apply(77, &single_root_mapping());
    assert!(matches!(third, Err(MapError::AlreadyMapped)));
}

#[test]
fn validation_precedes_the_already_mapped_check() {
    let mut writer = IdentityMapWriter::new();
    writer.apply(5, &single_root_mapping()).expect("first application succeeds");
    let overlapping = IdentityMapping {
        uid_entries: vec![entry(0, 1000, 1), entry(0, 2000, 1)],
        gid_entries: vec![entry(0, 1000, 1)],
    };
    let outcome = writer.apply(5, &overlapping);
    assert!(matches!(outcome, Err(MapError::InvalidMapping)));
}

#[test]
fn root_mapping_covers_namespace_zero() {
    let mapping = root_mapping(1000, 2000);
    assert_eq!(mapping.uid_entries, vec![entry(0, 1000, 1)]);
    assert_eq!(mapping.gid_entries, vec![entry(0, 2000, 1)]);
    assert!(check_table(&mapping.uid_entries));
    assert!(check_table(&mapping.gid_entries));
}

#[test]
fn current_user_mapping_is_well_formed() {
    let mapping = current_user_root_mapping();
    assert!(check_table(&mapping.uid_entries));
    assert!(check_table(&mapping.gid_entries));
    assert_eq!(mapping.uid_entries[0].ns_start, 0);
    assert_eq!(mapping.uid_entries[0].length, 1);
}

#[test]
fn spec_check_requires_command_and_mapping() {
    let valid = ContainerSpec {
        command: "/bin/true".to_string(),
        args: vec!["/bin/true".to_string()],
        namespaces: NamespaceFlagSet::all(),
        allow_list: CapabilityAllowList::new(vec![]),
        mapping: single_root_mapping(),
    };
    assert!(valid.check());

    let empty_command = ContainerSpec {
        command: String::new(),
        args: vec![],
        namespaces: NamespaceFlagSet::all(),
        allow_list: CapabilityAllowList::new(vec![]),
        mapping: single_root_mapping(),
    };
    assert!(!empty_command.check());

    let bad_mapping = ContainerSpec {
        command: "/bin/true".to_string(),
        args: vec![],
        namespaces: NamespaceFlagSet::all(),
        allow_list: CapabilityAllowList::new(vec![]),
        mapping: IdentityMapping { uid_entries: vec![], gid_entries: vec![] },
    };
    assert!(!bad_mapping.check());

    let bad_mapping_without_user_ns = ContainerSpec {
        command: "/bin/true".to_string(),
        args: vec![],
        namespaces: NamespaceFlagSet::none(),
        allow_list: CapabilityAllowList::new(vec![]),
        mapping: IdentityMapping { uid_entries: vec![], gid_entries: vec![] },
    };
    assert!(bad_mapping_without_user_ns.check());
}
