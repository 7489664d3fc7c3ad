use neli::Nl;
use neli::buffer::ReadCursor;
use neli::consts::{alignto, CtrlAttr, CtrlAttrMcastGrp};
use neli::nlattr::{AttrHandle, Nlattr};

#[test]
fn attr_round_trip_keeps_type_and_payload() {
    for l in 0..13usize {
        let payload: Vec<u8> = (0..l).map(|i| i as u8 + 1).collect();
        let a = Nlattr::new_binary_payload(None, CtrlAttr::Ops, payload.clone());
        assert_eq!(a.nla_len as usize, 4 + l);
        let mut mem = Vec::new();
        a.serialize(&mut mem).unwrap();
        assert_eq!(mem.len(), 4 + alignto(l));
        assert_eq!(a.asize(), mem.len());
        assert_eq!(a.size(), 4 + alignto(l));
        let mut cur = ReadCursor::new(&mem);
        let b = Nlattr::<CtrlAttr>::deserialize(&mut cur).unwrap();
        assert_eq!(b.nla_type, CtrlAttr::Ops);
        assert_eq!(b.payload, payload);
        assert_eq!(b.nla_len as usize, 4 + l);
        assert_eq!(cur.remaining(), 0);
    }
}

#[test]
fn attr_padding_is_zero_and_not_counted() {
    let a = Nlattr::new_binary_payload(None, CtrlAttr::Maxattr, vec![0xff]);
    let mut mem = Vec::new();
    a.serialize(&mut mem).unwrap();
    assert_eq!(mem, vec![5, 0, 5, 0, 0xff, 0, 0, 0]);
}

#[test]
fn attr_explicit_length_is_kept() {
    let a = Nlattr::new_binary_payload(Some(40), CtrlAttr::Maxattr, vec![1, 2]);
    assert_eq!(a.nla_len, 40);
    let s = Nlattr::new_str_payload(Some(3), CtrlAttr::FamilyName, "ab").unwrap();
    assert_eq!(s.nla_len, 3);
    assert_eq!(s.payload, vec![97, 98, 0]);
}

#[test]
fn attr_str_payload_length_limit() {
    let ok = "a".repeat(65530);
    let a = Nlattr::new_str_payload(None, CtrlAttr::FamilyName, &ok).unwrap();
    assert_eq!(a.nla_len, 65535);
    let long = "a".repeat(65531);
    assert!(Nlattr::new_str_payload(None, CtrlAttr::FamilyName, &long).is_err());
}

#[test]
fn attr_serialize_rejects_oversize_payload() {
    let a = Nlattr::new_binary_payload(Some(4), CtrlAttr::Ops, vec![0u8; 65532]);
    let mut mem = vec![1u8];
    let e = a.serialize(&mut mem).unwrap_err();
    assert_eq!(e.description(), "Attribute payload does not fit the length field");
    assert_eq!(mem, vec![1u8]);
}

#[test]
fn traversal_overlong_length_fails() {
    let bytes = vec![20u8, 0, 1, 0, 1, 2, 3, 4];
    let h = AttrHandle::<CtrlAttr>::new(&bytes);
    assert!(h.get_attrs().is_err());
    let mut cur = ReadCursor::new(&bytes);
    assert!(Nlattr::<CtrlAttr>::deserialize(&mut cur).is_err());
}

#[test]
fn traversal_length_below_header_fails() {
    let bytes = vec![2u8, 0, 1, 0];
    assert!(AttrHandle::<CtrlAttr>::new(&bytes).get_attrs().is_err());
}

#[test]
fn traversal_truncated_header_fails() {
    let mut bytes = Vec::new();
    Nlattr::new_binary_payload(None, CtrlAttr::Version, vec![1, 2, 3, 4])
        .serialize(&mut bytes)
        .unwrap();
    assert_eq!(AttrHandle::<CtrlAttr>::new(&bytes).get_attrs().unwrap().len(), 1);
    for cut in 1..4 {
        let mut t = bytes.clone();
        t.extend_from_slice(&[8, 0, 1][..cut]);
        assert!(AttrHandle::<CtrlAttr>::new(&t).get_attrs().is_err());
        let mut cur = ReadCursor::new(&t[8..]);
        assert!(Nlattr::<CtrlAttr>::deserialize(&mut cur).is_err());
    }
}

#[test]
fn traversal_last_record_without_padding() {
    let bytes = vec![5u8, 0, 3, 0, 42];
    let attrs = AttrHandle::<CtrlAttr>::new(&bytes).get_attrs().unwrap();
    assert_eq!(attrs.len(), 1);
    assert_eq!(attrs[0].nla_type, CtrlAttr::Version);
    assert_eq!(attrs[0].payload, vec![42]);
}

#[test]
fn traversal_nested_handle() {
    let mut inner = Vec::new();
    Nlattr::new_str_payload(None, CtrlAttrMcastGrp::Name, "grp")
        .unwrap()
        .serialize(&mut inner)
        .unwrap();
    Nlattr::new_binary_payload(None, CtrlAttrMcastGrp::Id, vec![2, 0, 0, 0])
        .serialize(&mut inner)
        .unwrap();
    let outer = Nlattr::new_binary_payload(None, CtrlAttr::McastGroups, inner);
    let mut mem = Vec::new();
    outer.serialize(&mut mem).unwrap();
    let top = AttrHandle::<CtrlAttr>::new(&mem).get_attrs().unwrap();
    assert_eq!(top[0].nla_type, CtrlAttr::McastGroups);
    let nested = top[0].get_attr_handle::<CtrlAttrMcastGrp>().get_attrs().unwrap();
    assert_eq!(nested.len(), 2);
    assert_eq!(nested[0].nla_type, CtrlAttrMcastGrp::Name);
    assert_eq!(nested[0].payload, b"grp\0".to_vec());
    assert_eq!(nested[1].nla_type, CtrlAttrMcastGrp::Id);
    assert_eq!(nested[1].payload, vec![2, 0, 0, 0]);
}

#[test]
fn traversal_parsed_handle_gives_its_attributes() {
    let v = vec![Nlattr::new_binary_payload(None, CtrlAttr::Ops, vec![1])];
    let h: AttrHandle<CtrlAttr> = AttrHandle::Parsed(v);
    let out = h.get_attrs().unwrap();
    assert_eq!(out, vec![Nlattr::new_binary_payload(None, CtrlAttr::Ops, vec![1])]);
}

#[test]
fn attr_nested_payload_from_value() {
    let inner = Nlattr::new_binary_payload(None, CtrlAttrMcastGrp::Id, vec![2, 0, 0, 0]);
    let outer = Nlattr::new_nl_payload(None, CtrlAttr::McastGroups, &inner).unwrap();
    assert_eq!(outer.nla_len, 12);
    assert_eq!(outer.payload, vec![8, 0, 2, 0, 2, 0, 0, 0]);
    let back = outer.get_attr_handle::<CtrlAttrMcastGrp>().get_attrs().unwrap();
    assert_eq!(back, vec![inner]);
}

#[test]
fn attr_nested_payload_too_long_fails() {
    let inner = Nlattr::new_binary_payload(None, CtrlAttr::Ops, vec![0u8; 65528]);
    assert_eq!(inner.asize(), 65532);
    assert!(Nlattr::new_nl_payload(None, CtrlAttr::Ops, &inner).is_err());
    let bad = Nlattr::new_binary_payload(Some(4), CtrlAttr::Ops, vec![0u8; 65532]);
    assert!(Nlattr::new_nl_payload(Some(8), CtrlAttr::Ops, &bad).is_err());
}

#[test]
fn attr_string_payload_reads_back() {
    let a = Nlattr::new_str_payload(None, CtrlAttr::FamilyName, "nlctrl").unwrap();
    assert_eq!(a.get_payload_as_string().unwrap(), "nlctrl");
    let e = Nlattr::new_str_payload(None, CtrlAttr::FamilyName, "").unwrap();
    assert_eq!(e.payload, vec![0]);
    assert_eq!(e.get_payload_as_string().unwrap(), "");
    let u = Nlattr::new_str_payload(None, CtrlAttr::FamilyName, "h\u{e9}").unwrap();
    assert_eq!(u.payload, vec![104, 0xc3, 0xa9, 0]);
    assert_eq!(u.get_payload_as_string().unwrap(), "h\u{e9}");
    let raw = Nlattr::new_binary_payload(None, CtrlAttr::FamilyName, vec![111, 107]);
    assert_eq!(raw.get_payload_as_string().unwrap(), "ok");
}

#[test]
fn attr_string_payload_invalid_utf8_fails() {
    let a = Nlattr::new_binary_payload(None, CtrlAttr::FamilyName, vec![0x41, 0xff, 0]);
    let e = a.get_payload_as_string().unwrap_err();
    assert_eq!(
        e.description(),
        String::from_utf8(vec![0x41, 0xff]).unwrap_err().to_string()
    );
}
