use e2l_parser::directory::E2LActiveDirectory;

fn key(b: u8) -> Vec<u8> {
    vec![b; 16]
}

#[test]
fn unassociated_device_read_back() {
    let mut d = E2LActiveDirectory::new();
    assert!(d.get_unassociated_dev("0011AABB").is_none());
    d.add_unassociated_dev("eui-1".to_string(), "0011AABB".to_string(), "gw-2".to_string());
    let info = d.get_unassociated_dev("0011AABB").unwrap();
    assert_eq!(info.dev_eui, "eui-1");
    assert_eq!(info.dev_addr, "0011AABB");
    assert_eq!(info.e2gw_id, "gw-2");
    assert!(!d.is_associated_dev("0011AABB"));
    d.add_unassociated_dev("eui-9".to_string(), "0011AABB".to_string(), "gw-3".to_string());
    assert_eq!(d.get_unassociated_dev("0011AABB").unwrap().e2gw_id, "gw-3");
    d.remove_unassociated_dev("0011AABB");
    assert!(d.get_unassociated_dev("0011AABB").is_none());
}

#[test]
fn associated_device_keeps_fcnts_when_readded() {
    let mut d = E2LActiveDirectory::new();
    d.add_associated_dev("eui".to_string(), "01020304".to_string(), vec![4, 1], key(1), key(2));
    assert!(d.is_associated_dev("01020304"));
    d.add_fcnt("01020304", 7);
    d.add_fcnt("01020304", 8);
    d.add_fcnt("FFFFFFFF", 9);
    assert!(d.get_associated_dev("FFFFFFFF").is_none());
    d.add_associated_dev("eui2".to_string(), "01020304".to_string(), vec![4, 2], key(3), key(4));
    let info = d.get_associated_dev("01020304").unwrap();
    assert_eq!(info.dev_eui, "eui2");
    assert_eq!(info.dev_public_key, vec![4, 2]);
    assert_eq!(info.edge_s_enc_key, key(3));
    assert_eq!(info.edge_s_int_key, key(4));
    assert_eq!(info.fcnts, vec![7, 8]);
}

#[test]
fn removing_one_address_leaves_others() {
    let mut d = E2LActiveDirectory::new();
    d.add_associated_dev("a".to_string(), "A".to_string(), vec![], key(1), key(2));
    d.add_associated_dev("b".to_string(), "B".to_string(), vec![], key(3), key(4));
    d.add_unassociated_dev("c".to_string(), "A".to_string(), "gw".to_string());
    d.remove_associated_dev("A");
    assert!(!d.is_associated_dev("A"));
    assert!(d.is_associated_dev("B"));
    assert_eq!(d.get_unassociated_dev("A").unwrap().dev_eui, "c");
    d.remove_associated_dev("unknown");
    assert!(d.is_associated_dev("B"));
}

#[test]
fn default_directory_is_empty() {
    let d = E2LActiveDirectory::default();
    assert!(!d.is_associated_dev(""));
    assert!(d.get_unassociated_dev("").is_none());
}

#[test]
fn entries_read_back_under_their_own_address() {
    let mut d = E2LActiveDirectory::new();
    d.add_unassociated_dev("e1".to_string(), "AAAA0001".to_string(), "gw-2".to_string());
    d.add_associated_dev("e2".to_string(), "AAAA0002".to_string(), vec![4], key(3), key(4));
    d.add_fcnt("AAAA0002", 5);
    d.add_unassociated_dev("e3".to_string(), "AAAA0003".to_string(), "gw-3".to_string());
    d.remove_unassociated_dev("AAAA0003");
    for a in ["AAAA0001", "AAAA0002", "AAAA0003"] {
        if let Some(info) = d.get_unassociated_dev(a) {
            assert_eq!(info.dev_addr, a);
        }
        if let Some(info) = d.get_associated_dev(a) {
            assert_eq!(info.dev_addr, a);
        }
        assert_eq!(d.get_associated_dev(a).is_some(), d.is_associated_dev(a));
    }
    assert!(d.get_unassociated_dev("AAAA0001").is_some());
    assert!(d.get_associated_dev("AAAA0002").is_some());
    assert!(d.get_unassociated_dev("AAAA0003").is_none());
}
