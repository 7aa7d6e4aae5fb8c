use ntk::ports::{common_ports, port_map, port_name, port_range, PortIter};

fn drain(mut it: PortIter) -> Vec<u16> {
    let mut v = Vec::new();
    while let Some(p) = it.next() {
        v.push(p);
    }
    v
}

#[test]
fn well_known_names() {
    let m = port_map();
    assert_eq!(m.get(&22), Some(&"SSH"));
    assert_eq!(m.get(&443), Some(&"HTTPS"));
    assert_eq!(m.get(&49152), Some(&"Dynamic / Ephemeral Port"));
    assert_eq!(port_name(&m, 53), "DNS");
    assert_eq!(port_name(&m, 2), "Unknown");
    assert_eq!(port_name(&m, 65535), "Unknown");
    assert_eq!(m.get(&1), Some(&"TCPMUX"));
    assert_eq!(m.get(&49162), None);
    assert_eq!(port_name(&m, 65389), "LDAP Alternate High Port");
    assert_eq!(m.len(), 316);
}

#[test]
fn ranges_include_both_ends() {
    assert_eq!(port_range(5, 7), vec![5, 6, 7]);
    assert_eq!(port_range(9, 9), vec![9]);
    assert!(port_range(7, 5).is_empty());
    assert_eq!(port_range(65534, 65535), vec![65534, 65535]);
}

#[test]
fn common_ports_list() {
    let c = common_ports();
    assert_eq!(c.len(), 1000);
    assert_eq!(c[0], 1);
    assert_eq!(c[999], 65389);
    let mut d = c.clone();
    d.sort();
    d.dedup();
    assert_eq!(d.len(), 1000);
}

#[test]
fn range_scan_visits_each_port_once() {
    let it = PortIter::new(Some(10), Some(20));
    assert_eq!(it.count(), 11);
    let mut got = drain(it);
    got.sort();
    assert_eq!(got, (10..=20).collect::<Vec<u16>>());
}

#[test]
fn single_port_scan() {
    assert_eq!(drain(PortIter::new(Some(80), Some(80))), vec![80]);
}

#[test]
fn missing_range_ends() {
    let mut high = drain(PortIter::new(Some(65530), None));
    high.sort();
    assert_eq!(high, vec![65530, 65531, 65532, 65533, 65534, 65535]);
    let mut low = drain(PortIter::new(None, Some(3)));
    low.sort();
    assert_eq!(low, vec![0, 1, 2, 3]);
    assert_eq!(PortIter::new(Some(9), Some(3)).count(), 0);
}

#[test]
fn default_scan_is_the_common_ports() {
    let it = PortIter::new(None, None);
    assert_eq!(it.count(), 1000);
    let mut got = drain(it);
    got.sort();
    assert_eq!(got, common_ports());
}

#[test]
fn iterator_ends() {
    let mut it = PortIter::new(Some(1), Some(2));
    assert!(it.next().is_some());
    assert_eq!(it.count(), 1);
    assert!(it.next().is_some());
    assert_eq!(it.next(), None);
    assert_eq!(it.next(), None);
    assert_eq!(it.count(), 0);
}
