use sidecar_supervisor::ports::{find_available_port, get_available_ports};

#[test]
fn find_in_free_range_returns_lowest() {
    assert_eq!(find_available_port(3000, 3002, &|_port: u16| true), Some(3000));
}

#[test]
fn find_skips_taken_ports() {
    let probe = |port: u16| port != 3000 && port != 3001;
    assert_eq!(find_available_port(3000, 3002, &probe), Some(3002));
    assert_eq!(find_available_port(3000, 3001, &probe), None);
}

#[test]
fn find_in_fully_taken_range_returns_none() {
    assert_eq!(find_available_port(3000, 3002, &|_port: u16| false), None);
}

#[test]
fn find_in_empty_range_returns_none() {
    assert_eq!(find_available_port(3002, 3000, &|_port: u16| true), None);
}

#[test]
fn find_handles_the_top_of_the_port_space() {
    assert_eq!(find_available_port(65534, 65535, &|port: u16| port == 65535), Some(65535));
    assert_eq!(find_available_port(65535, 65535, &|_port: u16| false), None);
    assert_eq!(find_available_port(0, 65535, &|port: u16| port == 40000), Some(40000));
}

#[test]
fn find_probes_nothing_past_the_first_free_port() {
    let asked = std::cell::RefCell::new(Vec::new());
    let probe = |port: u16| {
        asked.borrow_mut().push(port);
        port >= 3001
    };
    assert_eq!(find_available_port(3000, 3005, &probe), Some(3001));
    assert_eq!(*asked.borrow(), vec![3000, 3001]);
}

#[test]
fn available_ports_are_collected_in_order() {
    let probe = |port: u16| port % 2 == 0;
    assert_eq!(get_available_ports(3000, 3010, 3, &probe), vec![3000, 3002, 3004]);
    assert_eq!(get_available_ports(3000, 3004, 10, &probe), vec![3000, 3002, 3004]);
    assert_eq!(get_available_ports(3000, 3010, 0, &probe), Vec::<u16>::new());
    assert_eq!(get_available_ports(3001, 3001, 2, &probe), Vec::<u16>::new());
    assert_eq!(get_available_ports(65534, 65535, 5, &|_p: u16| true), vec![65534, 65535]);
}

#[test]
fn available_ports_scan_stops_when_enough_are_found() {
    let asked = std::cell::RefCell::new(Vec::new());
    let probe = |port: u16| {
        asked.borrow_mut().push(port);
        true
    };
    assert_eq!(get_available_ports(3000, 3010, 2, &probe), vec![3000, 3001]);
    assert_eq!(*asked.borrow(), vec![3000, 3001]);
}
