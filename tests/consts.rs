use neli::buffer::ReadCursor;
use neli::consts::{
    alignto, read_const_i32, read_const_u16, read_const_u32, read_const_u8, write_const_i32,
    write_const_u16, write_const_u32, write_const_u8, ConstI32, ConstU16, ConstU32, ConstU8, CtrlAttr,
    CtrlAttrMcastGrp, CtrlCmd, GenlId, Iff, NlFamily, Nlmsg,
};

#[test]
fn alignto_values() {
    assert_eq!(alignto(0), 0);
    assert_eq!(alignto(1), 4);
    assert_eq!(alignto(4), 4);
    assert_eq!(alignto(5), 8);
    assert_eq!(alignto(7), 8);
    assert_eq!(alignto(8), 8);
    for n in 0..1000usize {
        let a = alignto(n);
        assert_eq!(alignto(a), a);
        assert!(a >= n);
        assert_eq!(a % 4, 0);
        if n % 4 == 0 {
            assert_eq!(a, n);
        }
    }
}

#[test]
fn ctrl_cmd_round_trip_every_value() {
    assert_eq!(CtrlCmd::from_u8(6), CtrlCmd::Getops);
    assert_eq!(CtrlCmd::Getops.to_u8(), 6);
    assert_eq!(CtrlCmd::from_u8(10), CtrlCmd::UnrecognizedVariant(10));
    for v in 0..=255u8 {
        let c = CtrlCmd::from_u8(v);
        assert_eq!(c.to_u8(), v);
        let mut buf = Vec::new();
        write_const_u8(&c, &mut buf);
        assert_eq!(buf, vec![v]);
        let mut cur = ReadCursor::new(&buf);
        assert_eq!(read_const_u8::<CtrlCmd>(&mut cur).unwrap(), c);
    }
}

#[test]
fn u16_families_round_trip_every_value() {
    assert_eq!(CtrlAttr::from_u16(1), CtrlAttr::FamilyId);
    assert_eq!(CtrlAttrMcastGrp::from_u16(2), CtrlAttrMcastGrp::Id);
    assert_eq!(GenlId::from_u16(16), GenlId::Ctrl);
    assert_eq!(Nlmsg::from_u16(2), Nlmsg::Error);
    assert_eq!(Nlmsg::from_u16(0), Nlmsg::UnrecognizedVariant(0));
    for v in 0..=65535u16 {
        let a = CtrlAttr::from_u16(v);
        assert_eq!(a.to_u16(), v);
        assert_eq!(CtrlAttrMcastGrp::from_u16(v).to_u16(), v);
        assert_eq!(GenlId::from_u16(v).to_u16(), v);
        assert_eq!(Nlmsg::from_u16(v).to_u16(), v);
        let mut buf = Vec::new();
        write_const_u16(&a, &mut buf);
        assert_eq!(buf, v.to_le_bytes().to_vec());
        let mut cur = ReadCursor::new(&buf);
        assert_eq!(read_const_u16::<CtrlAttr>(&mut cur).unwrap(), a);
    }
}

#[test]
fn const_read_past_end_fails() {
    let one = vec![1u8];
    let mut cur = ReadCursor::new(&one);
    assert!(read_const_u16::<CtrlAttr>(&mut cur).is_err());
    assert_eq!(cur.remaining(), 1);
    let none: Vec<u8> = Vec::new();
    let mut cur = ReadCursor::new(&none);
    assert!(read_const_u8::<CtrlCmd>(&mut cur).is_err());
}

#[test]
fn u32_family_round_trip() {
    assert_eq!(Iff::from_u32(0x40), Iff::Running);
    assert_eq!(Iff::LowerUp.to_u32(), 0x10000);
    assert_eq!(Iff::from_u32(3), Iff::UnrecognizedVariant(3));
    for v in [0u32, 1, 2, 3, 0x8000, 0x10000, 0x40000, 0x40001, u32::MAX] {
        let f = Iff::from_u32(v);
        assert_eq!(f.to_u32(), v);
        let mut buf = Vec::new();
        write_const_u32(&f, &mut buf);
        assert_eq!(buf, v.to_le_bytes().to_vec());
        let mut cur = ReadCursor::new(&buf);
        assert_eq!(read_const_u32::<Iff>(&mut cur).unwrap(), f);
    }
}

#[test]
fn i32_family_round_trip() {
    assert_eq!(NlFamily::from_i32(16), NlFamily::Generic);
    assert_eq!(NlFamily::Route.to_i32(), 0);
    assert_eq!(NlFamily::from_i32(17), NlFamily::UnrecognizedVariant(17));
    for v in [i32::MIN, -1, 0, 15, 16, 17, 21, 22, i32::MAX] {
        let f = NlFamily::from_i32(v);
        assert_eq!(f.to_i32(), v);
        let mut buf = Vec::new();
        write_const_i32(&f, &mut buf);
        assert_eq!(buf, v.to_le_bytes().to_vec());
        let mut cur = ReadCursor::new(&buf);
        assert_eq!(read_const_i32::<NlFamily>(&mut cur).unwrap(), f);
    }
    let short = vec![1u8, 2, 3];
    let mut cur = ReadCursor::new(&short);
    assert!(read_const_i32::<NlFamily>(&mut cur).is_err());
}
