use sidecar_supervisor::system::{
    check_system_requirements, get_network_info, get_os_info, NetworkInterface,
};

const GB: u64 = 1024 * 1024 * 1024;

fn interface(name: &str, received: u64, transmitted: u64) -> NetworkInterface {
    NetworkInterface {
        name: String::from(name),
        bytes_received: received,
        bytes_transmitted: transmitted,
        packets_received: 1,
        packets_transmitted: 2,
        errors_received: 3,
        errors_transmitted: 4,
    }
}

#[test]
fn os_info_fills_in_unknown() {
    let info = get_os_info(
        Some(String::from("Linux")),
        None,
        String::from("x86_64"),
        None,
        99,
    );
    assert_eq!(info.name, "Linux");
    assert_eq!(info.version, "Unknown");
    assert_eq!(info.architecture, "x86_64");
    assert_eq!(info.hostname, "Unknown");
    assert_eq!(info.uptime, 99);
}

#[test]
fn network_totals_are_summed() {
    let info = get_network_info(vec![interface("a", 10, 1), interface("b", 20, 2)]).unwrap();
    assert_eq!(info.total_bytes_received, 30);
    assert_eq!(info.total_bytes_transmitted, 3);
    assert_eq!(info.interfaces.len(), 2);
    assert_eq!(info.interfaces[1].name, "b");
    let none = get_network_info(Vec::new()).unwrap();
    assert_eq!(none.total_bytes_received, 0);
    assert_eq!(none.total_bytes_transmitted, 0);
    let full = get_network_info(vec![interface("a", u64::MAX, 0), interface("b", 0, u64::MAX)])
        .unwrap();
    assert_eq!(full.total_bytes_received, u64::MAX);
    assert_eq!(full.total_bytes_transmitted, u64::MAX);
}

#[test]
fn network_totals_that_do_not_fit_give_none() {
    assert!(get_network_info(vec![interface("a", u64::MAX, 0), interface("b", 1, 0)]).is_none());
    assert!(get_network_info(vec![interface("a", 0, u64::MAX), interface("b", 0, 1)]).is_none());
}

#[test]
fn requirements_pass_with_enough_memory_and_disk() {
    let r = check_system_requirements(8 * GB + 5, &vec![GB / 2, 3 * GB, 2 * GB]);
    assert!(r.meets_requirements);
    assert_eq!(r.checks.len(), 2);
    assert_eq!(r.checks[0].0, "memory");
    assert_eq!(r.checks[0].1.name, "Minimum RAM");
    assert_eq!(r.checks[0].1.required, "2 GB");
    assert_eq!(r.checks[0].1.actual, "8 GB");
    assert!(r.checks[0].1.passed);
    assert_eq!(r.checks[1].0, "disk");
    assert_eq!(r.checks[1].1.name, "Available Disk Space");
    assert_eq!(r.checks[1].1.required, "1 GB");
    assert_eq!(r.checks[1].1.actual, "3 GB");
    assert!(r.checks[1].1.passed);
}

#[test]
fn requirements_fail_at_the_boundaries() {
    let r = check_system_requirements(2 * GB - 1, &vec![GB]);
    assert!(!r.meets_requirements);
    assert!(!r.checks[0].1.passed);
    assert_eq!(r.checks[0].1.actual, "1 GB");
    assert!(r.checks[1].1.passed);
    let r = check_system_requirements(2 * GB, &vec![GB - 1]);
    assert!(!r.meets_requirements);
    assert!(r.checks[0].1.passed);
    assert!(!r.checks[1].1.passed);
    assert_eq!(r.checks[1].1.actual, "0 GB");
    let r = check_system_requirements(u64::MAX, &Vec::new());
    assert!(!r.meets_requirements);
    assert_eq!(r.checks[0].1.actual, "17179869183 GB");
    assert_eq!(r.checks[1].1.actual, "0 GB");
    assert!(check_system_requirements(2 * GB, &vec![GB]).meets_requirements);
}
