use byteorder::{NativeEndian, WriteBytesExt};
use neli::Nl;
use neli::buffer::ReadCursor;
use std::io::{Cursor, Write};
use neli::consts::{ConstU16, ConstU8, CtrlAttr, CtrlCmd};
use neli::genl::Genlmsghdr;
use neli::nlattr::Nlattr;

#[test]
fn test_serialize() {
    let attr = vec![Nlattr::new_binary_payload(
        None,
        CtrlAttr::FamilyId,
        vec![0, 1, 2, 3, 4, 5, 0, 0],
    )];
    let genl = Genlmsghdr::new(CtrlCmd::Getops, 2, attr).unwrap();
    let mut mem = Vec::new();
    genl.serialize(&mut mem).unwrap();
    let v = Vec::with_capacity(genl.size());
    let v_final = {
        let mut c = Cursor::new(v);
        c.write_u8(CtrlCmd::Getops.to_u8()).unwrap();
        c.write_u8(2).unwrap();
        c.write_u16::<NativeEndian>(0).unwrap();
        c.write_u16::<NativeEndian>(12).unwrap();
        c.write_u16::<NativeEndian>(CtrlAttr::FamilyId.to_u16()).unwrap();
        c.write_all(&vec![0, 1, 2, 3, 4, 5, 0, 0]).unwrap();
        c.into_inner()
    };
    assert_eq!(mem.as_slice(), v_final.as_slice())
}

#[test]
fn test_deserialize() {
    let genl_mock = Genlmsghdr::new(
        CtrlCmd::Getops,
        2,
        vec![Nlattr::new_str_payload(None, CtrlAttr::FamilyId, "AAAAAAA").unwrap()],
    )
    .unwrap();
    let v = Vec::new();
    let v_final = {
        let mut c = Cursor::new(v);
        c.write_u8(CtrlCmd::Getops.to_u8()).unwrap();
        c.write_u8(2).unwrap();
        c.write_u16::<NativeEndian>(0).unwrap();
        c.write_u16::<NativeEndian>(12).unwrap();
        c.write_u16::<NativeEndian>(CtrlAttr::FamilyId.to_u16()).unwrap();
        c.write_all(&vec![65, 65, 65, 65, 65, 65, 65, 0]).unwrap();
        c.into_inner()
    };
    let mut mem = ReadCursor::new(&v_final);
    let genl = Genlmsghdr::<CtrlCmd>::deserialize(&mut mem).unwrap();
    assert_eq!(genl, genl_mock)
}

#[test]
fn genl_exact_bytes_of_binary_attribute() {
    let attr = vec![Nlattr::new_binary_payload(
        None,
        CtrlAttr::FamilyId,
        vec![0, 1, 2, 3, 4, 5, 0, 0],
    )];
    let genl = Genlmsghdr::new(CtrlCmd::Getops, 2, attr).unwrap();
    let mut mem = Vec::new();
    genl.serialize(&mut mem).unwrap();
    assert_eq!(mem, vec![6, 2, 0, 0, 12, 0, 1, 0, 0, 1, 2, 3, 4, 5, 0, 0]);
    assert_eq!(genl.size(), 16);
}

#[test]
fn genl_exact_bytes_of_string_attribute() {
    let attr = vec![Nlattr::new_str_payload(None, CtrlAttr::FamilyId, "AAAAAAA").unwrap()];
    assert_eq!(attr[0].nla_len, 12);
    assert_eq!(attr[0].payload.len(), 8);
    let genl = Genlmsghdr::new(CtrlCmd::Getops, 2, attr).unwrap();
    let mut mem = Vec::new();
    genl.serialize(&mut mem).unwrap();
    assert_eq!(
        mem,
        vec![6, 2, 0, 0, 12, 0, 1, 0, 65, 65, 65, 65, 65, 65, 65, 0]
    );
}

#[test]
fn genl_pads_each_attribute() {
    let attrs = vec![
        Nlattr::new_binary_payload(None, CtrlAttr::Version, vec![9]),
        Nlattr::new_binary_payload(None, CtrlAttr::Hdrsize, vec![1, 2, 3, 4, 5]),
    ];
    let genl = Genlmsghdr::new(CtrlCmd::Getfamily, 1, attrs).unwrap();
    assert_eq!(
        genl.attrs().to_vec(),
        vec![5, 0, 3, 0, 9, 0, 0, 0, 9, 0, 4, 0, 1, 2, 3, 4, 5, 0, 0, 0]
    );
    let parsed = genl.get_attr_handle::<CtrlAttr>().get_attrs().unwrap();
    assert_eq!(parsed.len(), 2);
    assert_eq!(parsed[0].nla_type, CtrlAttr::Version);
    assert_eq!(parsed[0].nla_len, 5);
    assert_eq!(parsed[0].payload, vec![9]);
    assert_eq!(parsed[1].nla_type, CtrlAttr::Hdrsize);
    assert_eq!(parsed[1].nla_len, 9);
    assert_eq!(parsed[1].payload, vec![1, 2, 3, 4, 5]);
}

#[test]
fn genl_empty_attribute_list() {
    let attrs: Vec<Nlattr<CtrlAttr>> = Vec::new();
    let genl = Genlmsghdr::new(CtrlCmd::Unspec, 0, attrs).unwrap();
    let mut mem = Vec::new();
    genl.serialize(&mut mem).unwrap();
    assert_eq!(mem, vec![0, 0, 0, 0]);
    let parsed = genl.get_attr_handle::<CtrlAttr>().get_attrs().unwrap();
    assert!(parsed.is_empty());
}

#[test]
fn genl_new_rejects_payload_over_length_field() {
    let attrs = vec![Nlattr::new_binary_payload(
        Some(4),
        CtrlAttr::FamilyName,
        vec![0u8; 65532],
    )];
    let e = Genlmsghdr::new(CtrlCmd::Getfamily, 1, attrs).unwrap_err();
    assert_eq!(e.description(), "Attribute payload does not fit the length field");
}

#[test]
fn genl_deserialize_short_input_fails() {
    let bytes = vec![6u8, 2, 0];
    let mut cur = ReadCursor::new(&bytes);
    assert!(Genlmsghdr::<CtrlCmd>::deserialize(&mut cur).is_err());
}

#[test]
fn genl_round_trip_keeps_unknown_command() {
    let attrs = vec![Nlattr::new_binary_payload(None, CtrlAttr::UnrecognizedVariant(300), vec![7, 7])];
    let genl = Genlmsghdr::new(CtrlCmd::UnrecognizedVariant(200), 3, attrs).unwrap();
    let mut mem = Vec::new();
    genl.serialize(&mut mem).unwrap();
    let mut cur = ReadCursor::new(&mem);
    let back = Genlmsghdr::<CtrlCmd>::deserialize(&mut cur).unwrap();
    assert_eq!(back, genl);
    assert_eq!(cur.remaining(), 0);
    let parsed = back.get_attr_handle::<CtrlAttr>().get_attrs().unwrap();
    assert_eq!(parsed[0].nla_type, CtrlAttr::UnrecognizedVariant(300));
    assert_eq!(parsed[0].payload, vec![7, 7]);
}

#[test]
fn genl_new_rejects_length_field_not_matching_payload() {
    let attrs = vec![
        Nlattr::new_binary_payload(None, CtrlAttr::Version, vec![1]),
        Nlattr::new_binary_payload(Some(100), CtrlAttr::FamilyId, vec![1, 2]),
        Nlattr::new_binary_payload(Some(4), CtrlAttr::Ops, vec![0u8; 65532]),
    ];
    let e = Genlmsghdr::new(CtrlCmd::Getops, 2, attrs).unwrap_err();
    assert_eq!(e.description(), "Attribute length field does not match its payload");
    let ok = vec![Nlattr::new_binary_payload(Some(6), CtrlAttr::FamilyId, vec![1, 2])];
    assert!(Genlmsghdr::new(CtrlCmd::Getops, 2, ok).is_ok());
}

#[test]
fn genl_reserved_is_zero_on_the_wire() {
    let bytes = vec![3u8, 1, 0x34, 0x12, 5, 0, 1, 0, 9, 0, 0, 0];
    let mut cur = ReadCursor::new(&bytes);
    let genl = Genlmsghdr::<CtrlCmd>::deserialize(&mut cur).unwrap();
    assert_eq!(genl.cmd, CtrlCmd::Getfamily);
    assert_eq!(genl.version, 1);
    assert_eq!(genl.attrs(), &bytes[4..]);
    let mut out = Vec::new();
    genl.serialize(&mut out).unwrap();
    assert_eq!(out, vec![3u8, 1, 0, 0, 5, 0, 1, 0, 9, 0, 0, 0]);
}
