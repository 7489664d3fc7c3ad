//! Alignment and the protocol constant families.
//!
//! Every constant family is a closed set of named values plus one open
//! variant that carries any other backing integer, so that decoding never
//! fails on a value that this library does not know.
use vstd::prelude::*;
use crate::buffer::{
    le16, le32, lemma_u16_round_trip, lemma_u32_round_trip, u16_of, u32_of, write_u16, write_u32, write_u8,
    ReadCursor,
};
use crate::err::DeError;

verus! {

/// Boundary to which every attribute record is padded on the wire.
pub const NLA_ALIGNTO: usize = 4;

/// `n` rounded up to the next multiple of four.
pub open spec fn spec_alignto(n: int) -> int {
    (n + 3) / 4 * 4
}

/// Rounds a byte length up to the attribute alignment boundary.
pub fn alignto(len: usize) -> (r: usize)
    requires
        len + 3 <= usize::MAX,
    ensures
        r == spec_alignto(len as int),
{
    let s: usize = len + (NLA_ALIGNTO - 1);
    let r: usize = s & !(NLA_ALIGNTO - 1);
    assert(s & !3usize == s - s % 4) by (bit_vector);
    r
}

/// Rounding up is idempotent, never decreases its argument, and leaves a
/// multiple of four unchanged.
pub proof fn lemma_alignto(n: int)
    requires
        n >= 0,
    ensures
        spec_alignto(spec_alignto(n)) == spec_alignto(n),
        spec_alignto(n) >= n,
        spec_alignto(n) < n + 4,
        spec_alignto(n) % 4 == 0,
        n % 4 == 0 ==> spec_alignto(n) == n,
{
}

/// A constant family backed by an 8-bit integer: every integer stands for
/// exactly one member, named or not.
pub trait ConstU8: Sized {
    /// The member that stands for `v`.
    spec fn spec_from_u8(v: u8) -> Self;

    /// The integer that this member stands for.
    spec fn spec_to_u8(&self) -> u8;

    /// The member is the one its integer decodes to: an unnamed member
    /// never carries the value of a named one.
    spec fn spec_wf(&self) -> bool;

    fn from_u8(v: u8) -> (r: Self)
        ensures
            r == Self::spec_from_u8(v),
    ;

    fn to_u8(&self) -> (r: u8)
        ensures
            r == self.spec_to_u8(),
    ;

    /// Integer to member to integer is the identity, and yields a
    /// well-formed member.
    proof fn lemma_to_from(v: u8)
        ensures
            Self::spec_from_u8(v).spec_to_u8() == v,
            Self::spec_from_u8(v).spec_wf(),
    ;

    /// Member to integer to member is the identity on well-formed members.
    proof fn lemma_from_to(&self)
        requires
            self.spec_wf(),
        ensures
            Self::spec_from_u8(self.spec_to_u8()) == *self,
    ;
}

/// A constant family backed by a 16-bit integer: every integer stands for
/// exactly one member, named or not.
pub trait ConstU16: Sized {
    /// The member that stands for `v`.
    spec fn spec_from_u16(v: u16) -> Self;

    /// The integer that this member stands for.
    spec fn spec_to_u16(&self) -> u16;

    /// The member is the one its integer decodes to: an unnamed member
    /// never carries the value of a named one.
    spec fn spec_wf(&self) -> bool;

    fn from_u16(v: u16) -> (r: Self)
        ensures
            r == Self::spec_from_u16(v),
    ;

    fn to_u16(&self) -> (r: u16)
        ensures
            r == self.spec_to_u16(),
    ;

    /// Integer to member to integer is the identity, and yields a
    /// well-formed member.
    proof fn lemma_to_from(v: u16)
        ensures
            Self::spec_from_u16(v).spec_to_u16() == v,
            Self::spec_from_u16(v).spec_wf(),
    ;

    /// Member to integer to member is the identity on well-formed members.
    proof fn lemma_from_to(&self)
        requires
            self.spec_wf(),
        ensures
            Self::spec_from_u16(self.spec_to_u16()) == *self,
    ;
}

/// A constant family backed by an unsigned 32-bit integer: every integer
/// stands for exactly one member, named or not.
pub trait ConstU32: Sized {
    /// The member that stands for `v`.
    spec fn spec_from_u32(v: u32) -> Self;

    /// The integer that this member stands for.
    spec fn spec_to_u32(&self) -> u32;

    /// The member is the one its integer decodes to: an unnamed member
    /// never carries the value of a named one.
    spec fn spec_wf(&self) -> bool;

    fn from_u32(v: u32) -> (r: Self)
        ensures
            r == Self::spec_from_u32(v),
    ;

    fn to_u32(&self) -> (r: u32)
        ensures
            r == self.spec_to_u32(),
    ;

    /// Integer to member to integer is the identity, and yields a
    /// well-formed member.
    proof fn lemma_to_from(v: u32)
        ensures
            Self::spec_from_u32(v).spec_to_u32() == v,
            Self::spec_from_u32(v).spec_wf(),
    ;

    /// Member to integer to member is the identity on well-formed members.
    proof fn lemma_from_to(&self)
        requires
            self.spec_wf(),
        ensures
            Self::spec_from_u32(self.spec_to_u32()) == *self,
    ;
}

/// A constant family backed by a signed 32-bit integer: every integer
/// stands for exactly one member, named or not.
pub trait ConstI32: Sized {
    /// The member that stands for `v`.
    spec fn spec_from_i32(v: i32) -> Self;

    /// The integer that this member stands for.
    spec fn spec_to_i32(&self) -> i32;

    /// The member is the one its integer decodes to: an unnamed member
    /// never carries the value of a named one.
    spec fn spec_wf(&self) -> bool;

    fn from_i32(v: i32) -> (r: Self)
        ensures
            r == Self::spec_from_i32(v),
    ;

    fn to_i32(&self) -> (r: i32)
        ensures
            r == self.spec_to_i32(),
    ;

    /// Integer to member to integer is the identity, and yields a
    /// well-formed member.
    proof fn lemma_to_from(v: i32)
        ensures
            Self::spec_from_i32(v).spec_to_i32() == v,
            Self::spec_from_i32(v).spec_wf(),
    ;

    /// Member to integer to member is the identity on well-formed members.
    proof fn lemma_from_to(&self)
        requires
            self.spec_wf(),
        ensures
            Self::spec_from_i32(self.spec_to_i32()) == *self,
    ;
}

/// Families that may stand in the type field of the outer netlink header.
pub trait NlType: ConstU16 {}

/// Commands of the generic netlink controller.
#[derive(Clone, Copy, Debug, PartialEq, Eq, Structural)]
pub enum CtrlCmd {
    Unspec,
    Newfamily,
    Delfamily,
    Getfamily,
    Newops,
    Delops,
    Getops,
    NewmcastGrp,
    DelmcastGrp,
    GetmcastGrp,
    /// A value that this library does not name.
    UnrecognizedVariant(u8),
}

impl ConstU8 for CtrlCmd {
    open spec fn spec_from_u8(v: u8) -> Self {
        if v == 0 {
            CtrlCmd::Unspec
        } else if v == 1 {
            CtrlCmd::Newfamily
        } else if v == 2 {
            CtrlCmd::Delfamily
        } else if v == 3 {
            CtrlCmd::Getfamily
        } else if v == 4 {
            CtrlCmd::Newops
        } else if v == 5 {
            CtrlCmd::Delops
        } else if v == 6 {
            CtrlCmd::Getops
        } else if v == 7 {
            CtrlCmd::NewmcastGrp
        } else if v == 8 {
            CtrlCmd::DelmcastGrp
        } else if v == 9 {
            CtrlCmd::GetmcastGrp
        } else {
            CtrlCmd::UnrecognizedVariant(v)
        }
    }

    open spec fn spec_to_u8(&self) -> u8 {
        match self {
            CtrlCmd::Unspec => 0,
            CtrlCmd::Newfamily => 1,
            CtrlCmd::Delfamily => 2,
            CtrlCmd::Getfamily => 3,
            CtrlCmd::Newops => 4,
            CtrlCmd::Delops => 5,
            CtrlCmd::Getops => 6,
            CtrlCmd::NewmcastGrp => 7,
            CtrlCmd::DelmcastGrp => 8,
            CtrlCmd::GetmcastGrp => 9,
            CtrlCmd::UnrecognizedVariant(v) => *v,
        }
    }

    open spec fn spec_wf(&self) -> bool {
        match self {
            CtrlCmd::UnrecognizedVariant(v) => *v != 0 && *v != 1 && *v != 2 && *v != 3 && *v != 4 && *v != 5 && *v != 6 && *v != 7 && *v != 8 && *v != 9,
            _ => true,
        }
    }

    fn from_u8(v: u8) -> (r: Self) {
        if v == 0 {
            CtrlCmd::Unspec
        } else if v == 1 {
            CtrlCmd::Newfamily
        } else if v == 2 {
            CtrlCmd::Delfamily
        } else if v == 3 {
            CtrlCmd::Getfamily
        } else if v == 4 {
            CtrlCmd::Newops
        } else if v == 5 {
            CtrlCmd::Delops
        } else if v == 6 {
            CtrlCmd::Getops
        } else if v == 7 {
            CtrlCmd::NewmcastGrp
        } else if v == 8 {
            CtrlCmd::DelmcastGrp
        } else if v == 9 {
            CtrlCmd::GetmcastGrp
        } else {
            CtrlCmd::UnrecognizedVariant(v)
        }
    }

    fn to_u8(&self) -> (r: u8) {
        match self {
            CtrlCmd::Unspec => 0,
            CtrlCmd::Newfamily => 1,
            CtrlCmd::Delfamily => 2,
            CtrlCmd::Getfamily => 3,
            CtrlCmd::Newops => 4,
            CtrlCmd::Delops => 5,
            CtrlCmd::Getops => 6,
            CtrlCmd::NewmcastGrp => 7,
            CtrlCmd::DelmcastGrp => 8,
            CtrlCmd::GetmcastGrp => 9,
            CtrlCmd::UnrecognizedVariant(v) => *v,
        }
    }

    proof fn lemma_to_from(v: u8) {
    }

    proof fn lemma_from_to(&self) {
    }
}

/// Attribute types of the generic netlink controller.
#[derive(Clone, Copy, Debug, PartialEq, Eq, Structural)]
pub enum CtrlAttr {
    Unspec,
    FamilyId,
    FamilyName,
    Version,
    Hdrsize,
    Maxattr,
    Ops,
    McastGroups,
    /// A value that this library does not name.
    UnrecognizedVariant(u16),
}

impl ConstU16 for CtrlAttr {
    open spec fn spec_from_u16(v: u16) -> Self {
        if v == 0 {
            CtrlAttr::Unspec
        } else if v == 1 {
            CtrlAttr::FamilyId
        } else if v == 2 {
            CtrlAttr::FamilyName
        } else if v == 3 {
            CtrlAttr::Version
        } else if v == 4 {
            CtrlAttr::Hdrsize
        } else if v == 5 {
            CtrlAttr::Maxattr
        } else if v == 6 {
            CtrlAttr::Ops
        } else if v == 7 {
            CtrlAttr::McastGroups
        } else {
            CtrlAttr::UnrecognizedVariant(v)
        }
    }

    open spec fn spec_to_u16(&self) -> u16 {
        match self {
            CtrlAttr::Unspec => 0,
            CtrlAttr::FamilyId => 1,
            CtrlAttr::FamilyName => 2,
            CtrlAttr::Version => 3,
            CtrlAttr::Hdrsize => 4,
            CtrlAttr::Maxattr => 5,
            CtrlAttr::Ops => 6,
            CtrlAttr::McastGroups => 7,
            CtrlAttr::UnrecognizedVariant(v) => *v,
        }
    }

    open spec fn spec_wf(&self) -> bool {
        match self {
            CtrlAttr::UnrecognizedVariant(v) => *v != 0 && *v != 1 && *v != 2 && *v != 3 && *v != 4 && *v != 5 && *v != 6 && *v != 7,
            _ => true,
        }
    }

    fn from_u16(v: u16) -> (r: Self) {
        if v == 0 {
            CtrlAttr::Unspec
        } else if v == 1 {
            CtrlAttr::FamilyId
        } else if v == 2 {
            CtrlAttr::FamilyName
        } else if v == 3 {
            CtrlAttr::Version
        } else if v == 4 {
            CtrlAttr::Hdrsize
        } else if v == 5 {
            CtrlAttr::Maxattr
        } else if v == 6 {
            CtrlAttr::Ops
        } else if v == 7 {
            CtrlAttr::McastGroups
        } else {
            CtrlAttr::UnrecognizedVariant(v)
        }
    }

    fn to_u16(&self) -> (r: u16) {
        match self {
            CtrlAttr::Unspec => 0,
            CtrlAttr::FamilyId => 1,
            CtrlAttr::FamilyName => 2,
            CtrlAttr::Version => 3,
            CtrlAttr::Hdrsize => 4,
            CtrlAttr::Maxattr => 5,
            CtrlAttr::Ops => 6,
            CtrlAttr::McastGroups => 7,
            CtrlAttr::UnrecognizedVariant(v) => *v,
        }
    }

    proof fn lemma_to_from(v: u16) {
    }

    proof fn lemma_from_to(&self) {
    }
}

/// Attribute types nested in a multicast group of the generic netlink controller.
#[derive(Clone, Copy, Debug, PartialEq, Eq, Structural)]
pub enum CtrlAttrMcastGrp {
    Unspec,
    Name,
    Id,
    /// A value that this library does not name.
    UnrecognizedVariant(u16),
}

impl ConstU16 for CtrlAttrMcastGrp {
    open spec fn spec_from_u16(v: u16) -> Self {
        if v == 0 {
            CtrlAttrMcastGrp::Unspec
        } else if v == 1 {
            CtrlAttrMcastGrp::Name
        } else if v == 2 {
            CtrlAttrMcastGrp::Id
        } else {
            CtrlAttrMcastGrp::UnrecognizedVariant(v)
        }
    }

    open spec fn spec_to_u16(&self) -> u16 {
        match self {
            CtrlAttrMcastGrp::Unspec => 0,
            CtrlAttrMcastGrp::Name => 1,
            CtrlAttrMcastGrp::Id => 2,
            CtrlAttrMcastGrp::UnrecognizedVariant(v) => *v,
        }
    }

    open spec fn spec_wf(&self) -> bool {
        match self {
            CtrlAttrMcastGrp::UnrecognizedVariant(v) => *v != 0 && *v != 1 && *v != 2,
            _ => true,
        }
    }

    fn from_u16(v: u16) -> (r: Self) {
        if v == 0 {
            CtrlAttrMcastGrp::Unspec
        } else if v == 1 {
            CtrlAttrMcastGrp::Name
        } else if v == 2 {
            CtrlAttrMcastGrp::Id
        } else {
            CtrlAttrMcastGrp::UnrecognizedVariant(v)
        }
    }

    fn to_u16(&self) -> (r: u16) {
        match self {
            CtrlAttrMcastGrp::Unspec => 0,
            CtrlAttrMcastGrp::Name => 1,
            CtrlAttrMcastGrp::Id => 2,
            CtrlAttrMcastGrp::UnrecognizedVariant(v) => *v,
        }
    }

    proof fn lemma_to_from(v: u16) {
    }

    proof fn lemma_from_to(&self) {
    }
}

/// Control message types of the outer netlink header.
#[derive(Clone, Copy, Debug, PartialEq, Eq, Structural)]
pub enum Nlmsg {
    Noop,
    Error,
    Done,
    Overrun,
    /// A value that this library does not name.
    UnrecognizedVariant(u16),
}

impl ConstU16 for Nlmsg {
    open spec fn spec_from_u16(v: u16) -> Self {
        if v == 1 {
            Nlmsg::Noop
        } else if v == 2 {
            Nlmsg::Error
        } else if v == 3 {
            Nlmsg::Done
        } else if v == 4 {
            Nlmsg::Overrun
        } else {
            Nlmsg::UnrecognizedVariant(v)
        }
    }

    open spec fn spec_to_u16(&self) -> u16 {
        match self {
            Nlmsg::Noop => 1,
            Nlmsg::Error => 2,
            Nlmsg::Done => 3,
            Nlmsg::Overrun => 4,
            Nlmsg::UnrecognizedVariant(v) => *v,
        }
    }

    open spec fn spec_wf(&self) -> bool {
        match self {
            Nlmsg::UnrecognizedVariant(v) => *v != 1 && *v != 2 && *v != 3 && *v != 4,
            _ => true,
        }
    }

    fn from_u16(v: u16) -> (r: Self) {
        if v == 1 {
            Nlmsg::Noop
        } else if v == 2 {
            Nlmsg::Error
        } else if v == 3 {
            Nlmsg::Done
        } else if v == 4 {
            Nlmsg::Overrun
        } else {
            Nlmsg::UnrecognizedVariant(v)
        }
    }

    fn to_u16(&self) -> (r: u16) {
        match self {
            Nlmsg::Noop => 1,
            Nlmsg::Error => 2,
            Nlmsg::Done => 3,
            Nlmsg::Overrun => 4,
            Nlmsg::UnrecognizedVariant(v) => *v,
        }
    }

    proof fn lemma_to_from(v: u16) {
    }

    proof fn lemma_from_to(&self) {
    }
}

impl NlType for Nlmsg {}

/// Fixed generic netlink family ids used as outer message types.
#[derive(Clone, Copy, Debug, PartialEq, Eq, Structural)]
pub enum GenlId {
    Ctrl,
    VfsDquot,
    Pmcraid,
    /// A value that this library does not name.
    UnrecognizedVariant(u16),
}

impl ConstU16 for GenlId {
    open spec fn spec_from_u16(v: u16) -> Self {
        if v == 16 {
            GenlId::Ctrl
        } else if v == 17 {
            GenlId::VfsDquot
        } else if v == 18 {
            GenlId::Pmcraid
        } else {
            GenlId::UnrecognizedVariant(v)
        }
    }

    open spec fn spec_to_u16(&self) -> u16 {
        match self {
            GenlId::Ctrl => 16,
            GenlId::VfsDquot => 17,
            GenlId::Pmcraid => 18,
            GenlId::UnrecognizedVariant(v) => *v,
        }
    }

    open spec fn spec_wf(&self) -> bool {
        match self {
            GenlId::UnrecognizedVariant(v) => *v != 16 && *v != 17 && *v != 18,
            _ => true,
        }
    }

    fn from_u16(v: u16) -> (r: Self) {
        if v == 16 {
            GenlId::Ctrl
        } else if v == 17 {
            GenlId::VfsDquot
        } else if v == 18 {
            GenlId::Pmcraid
        } else {
            GenlId::UnrecognizedVariant(v)
        }
    }

    fn to_u16(&self) -> (r: u16) {
        match self {
            GenlId::Ctrl => 16,
            GenlId::VfsDquot => 17,
            GenlId::Pmcraid => 18,
            GenlId::UnrecognizedVariant(v) => *v,
        }
    }

    proof fn lemma_to_from(v: u16) {
    }

    proof fn lemma_from_to(&self) {
    }
}

impl NlType for GenlId {}

/// Interface flags.
#[derive(Clone, Copy, Debug, PartialEq, Eq, Structural)]
pub enum Iff {
    Up,
    Broadcast,
    Debug,
    Loopback,
    Pointopoint,
    Notrailers,
    Running,
    Noarp,
    Promisc,
    Allmulti,
    Master,
    Slave,
    Multicast,
    Portsel,
    Automedia,
    Dynamic,
    LowerUp,
    Dormant,
    Echo,
    /// A value that this library does not name.
    UnrecognizedVariant(u32),
}

impl ConstU32 for Iff {
    open spec fn spec_from_u32(v: u32) -> Self {
        if v == 1 {
            Iff::Up
        } else if v == 2 {
            Iff::Broadcast
        } else if v == 4 {
            Iff::Debug
        } else if v == 8 {
            Iff::Loopback
        } else if v == 16 {
            Iff::Pointopoint
        } else if v == 32 {
            Iff::Notrailers
        } else if v == 64 {
            Iff::Running
        } else if v == 128 {
            Iff::Noarp
        } else if v == 256 {
            Iff::Promisc
        } else if v == 512 {
            Iff::Allmulti
        } else if v == 1024 {
            Iff::Master
        } else if v == 2048 {
            Iff::Slave
        } else if v == 4096 {
            Iff::Multicast
        } else if v == 8192 {
            Iff::Portsel
        } else if v == 16384 {
            Iff::Automedia
        } else if v == 32768 {
            Iff::Dynamic
        } else if v == 65536 {
            Iff::LowerUp
        } else if v == 131072 {
            Iff::Dormant
        } else if v == 262144 {
            Iff::Echo
        } else {
            Iff::UnrecognizedVariant(v)
        }
    }

    open spec fn spec_to_u32(&self) -> u32 {
        match self {
            Iff::Up => 1,
            Iff::Broadcast => 2,
            Iff::Debug => 4,
            Iff::Loopback => 8,
            Iff::Pointopoint => 16,
            Iff::Notrailers => 32,
            Iff::Running => 64,
            Iff::Noarp => 128,
            Iff::Promisc => 256,
            Iff::Allmulti => 512,
            Iff::Master => 1024,
            Iff::Slave => 2048,
            Iff::Multicast => 4096,
            Iff::Portsel => 8192,
            Iff::Automedia => 16384,
            Iff::Dynamic => 32768,
            Iff::LowerUp => 65536,
            Iff::Dormant => 131072,
            Iff::Echo => 262144,
            Iff::UnrecognizedVariant(v) => *v,
        }
    }

    open spec fn spec_wf(&self) -> bool {
        match self {
            Iff::UnrecognizedVariant(v) => *v != 1 && *v != 2 && *v != 4 && *v != 8 && *v != 16 && *v != 32 && *v != 64 && *v != 128 && *v != 256 && *v != 512 && *v != 1024 && *v != 2048 && *v != 4096 && *v != 8192 && *v != 16384 && *v != 32768 && *v != 65536 && *v != 131072 && *v != 262144,
            _ => true,
        }
    }

    fn from_u32(v: u32) -> (r: Self) {
        if v == 1 {
            Iff::Up
        } else if v == 2 {
            Iff::Broadcast
        } else if v == 4 {
            Iff::Debug
        } else if v == 8 {
            Iff::Loopback
        } else if v == 16 {
            Iff::Pointopoint
        } else if v == 32 {
            Iff::Notrailers
        } else if v == 64 {
            Iff::Running
        } else if v == 128 {
            Iff::Noarp
        } else if v == 256 {
            Iff::Promisc
        } else if v == 512 {
            Iff::Allmulti
        } else if v == 1024 {
            Iff::Master
        } else if v == 2048 {
            Iff::Slave
        } else if v == 4096 {
            Iff::Multicast
        } else if v == 8192 {
            Iff::Portsel
        } else if v == 16384 {
            Iff::Automedia
        } else if v == 32768 {
            Iff::Dynamic
        } else if v == 65536 {
            Iff::LowerUp
        } else if v == 131072 {
            Iff::Dormant
        } else if v == 262144 {
            Iff::Echo
        } else {
            Iff::UnrecognizedVariant(v)
        }
    }

    fn to_u32(&self) -> (r: u32) {
        match self {
            Iff::Up => 1,
            Iff::Broadcast => 2,
            Iff::Debug => 4,
            Iff::Loopback => 8,
            Iff::Pointopoint => 16,
            Iff::Notrailers => 32,
            Iff::Running => 64,
            Iff::Noarp => 128,
            Iff::Promisc => 256,
            Iff::Allmulti => 512,
            Iff::Master => 1024,
            Iff::Slave => 2048,
            Iff::Multicast => 4096,
            Iff::Portsel => 8192,
            Iff::Automedia => 16384,
            Iff::Dynamic => 32768,
            Iff::LowerUp => 65536,
            Iff::Dormant => 131072,
            Iff::Echo => 262144,
            Iff::UnrecognizedVariant(v) => *v,
        }
    }

    proof fn lemma_to_from(v: u32) {
    }

    proof fn lemma_from_to(&self) {
    }
}

/// Netlink protocol families, chosen when a socket is opened.
#[derive(Clone, Copy, Debug, PartialEq, Eq, Structural)]
pub enum NlFamily {
    Route,
    Unused,
    Usersock,
    Firewall,
    SockOrInetDiag,
    Nflog,
    Xfrm,
    Selinux,
    Iscsi,
    Audit,
    FibLookup,
    Connector,
    Netfilter,
    Ip6Fw,
    Dnrtmsg,
    KobjectUevent,
    Generic,
    Scsitransport,
    Ecryptfs,
    Rdma,
    Crypto,
    /// A value that this library does not name.
    UnrecognizedVariant(i32),
}

impl ConstI32 for NlFamily {
    open spec fn spec_from_i32(v: i32) -> Self {
        if v == 0 {
            NlFamily::Route
        } else if v == 1 {
            NlFamily::Unused
        } else if v == 2 {
            NlFamily::Usersock
        } else if v == 3 {
            NlFamily::Firewall
        } else if v == 4 {
            NlFamily::SockOrInetDiag
        } else if v == 5 {
            NlFamily::Nflog
        } else if v == 6 {
            NlFamily::Xfrm
        } else if v == 7 {
            NlFamily::Selinux
        } else if v == 8 {
            NlFamily::Iscsi
        } else if v == 9 {
            NlFamily::Audit
        } else if v == 10 {
            NlFamily::FibLookup
        } else if v == 11 {
            NlFamily::Connector
        } else if v == 12 {
            NlFamily::Netfilter
        } else if v == 13 {
            NlFamily::Ip6Fw
        } else if v == 14 {
            NlFamily::Dnrtmsg
        } else if v == 15 {
            NlFamily::KobjectUevent
        } else if v == 16 {
            NlFamily::Generic
        } else if v == 18 {
            NlFamily::Scsitransport
        } else if v == 19 {
            NlFamily::Ecryptfs
        } else if v == 20 {
            NlFamily::Rdma
        } else if v == 21 {
            NlFamily::Crypto
        } else {
            NlFamily::UnrecognizedVariant(v)
        }
    }

    open spec fn spec_to_i32(&self) -> i32 {
        match self {
            NlFamily::Route => 0,
            NlFamily::Unused => 1,
            NlFamily::Usersock => 2,
            NlFamily::Firewall => 3,
            NlFamily::SockOrInetDiag => 4,
            NlFamily::Nflog => 5,
            NlFamily::Xfrm => 6,
            NlFamily::Selinux => 7,
            NlFamily::Iscsi => 8,
            NlFamily::Audit => 9,
            NlFamily::FibLookup => 10,
            NlFamily::Connector => 11,
            NlFamily::Netfilter => 12,
            NlFamily::Ip6Fw => 13,
            NlFamily::Dnrtmsg => 14,
            NlFamily::KobjectUevent => 15,
            NlFamily::Generic => 16,
            NlFamily::Scsitransport => 18,
            NlFamily::Ecryptfs => 19,
            NlFamily::Rdma => 20,
            NlFamily::Crypto => 21,
            NlFamily::UnrecognizedVariant(v) => *v,
        }
    }

    open spec fn spec_wf(&self) -> bool {
        match self {
            NlFamily::UnrecognizedVariant(v) => *v != 0 && *v != 1 && *v != 2 && *v != 3 && *v != 4 && *v != 5 && *v != 6 && *v != 7 && *v != 8 && *v != 9 && *v != 10 && *v != 11 && *v != 12 && *v != 13 && *v != 14 && *v != 15 && *v != 16 && *v != 18 && *v != 19 && *v != 20 && *v != 21,
            _ => true,
        }
    }

    fn from_i32(v: i32) -> (r: Self) {
        if v == 0 {
            NlFamily::Route
        } else if v == 1 {
            NlFamily::Unused
        } else if v == 2 {
            NlFamily::Usersock
        } else if v == 3 {
            NlFamily::Firewall
        } else if v == 4 {
            NlFamily::SockOrInetDiag
        } else if v == 5 {
            NlFamily::Nflog
        } else if v == 6 {
            NlFamily::Xfrm
        } else if v == 7 {
            NlFamily::Selinux
        } else if v == 8 {
            NlFamily::Iscsi
        } else if v == 9 {
            NlFamily::Audit
        } else if v == 10 {
            NlFamily::FibLookup
        } else if v == 11 {
            NlFamily::Connector
        } else if v == 12 {
            NlFamily::Netfilter
        } else if v == 13 {
            NlFamily::Ip6Fw
        } else if v == 14 {
            NlFamily::Dnrtmsg
        } else if v == 15 {
            NlFamily::KobjectUevent
        } else if v == 16 {
            NlFamily::Generic
        } else if v == 18 {
            NlFamily::Scsitransport
        } else if v == 19 {
            NlFamily::Ecryptfs
        } else if v == 20 {
            NlFamily::Rdma
        } else if v == 21 {
            NlFamily::Crypto
        } else {
            NlFamily::UnrecognizedVariant(v)
        }
    }

    fn to_i32(&self) -> (r: i32) {
        match self {
            NlFamily::Route => 0,
            NlFamily::Unused => 1,
            NlFamily::Usersock => 2,
            NlFamily::Firewall => 3,
            NlFamily::SockOrInetDiag => 4,
            NlFamily::Nflog => 5,
            NlFamily::Xfrm => 6,
            NlFamily::Selinux => 7,
            NlFamily::Iscsi => 8,
            NlFamily::Audit => 9,
            NlFamily::FibLookup => 10,
            NlFamily::Connector => 11,
            NlFamily::Netfilter => 12,
            NlFamily::Ip6Fw => 13,
            NlFamily::Dnrtmsg => 14,
            NlFamily::KobjectUevent => 15,
            NlFamily::Generic => 16,
            NlFamily::Scsitransport => 18,
            NlFamily::Ecryptfs => 19,
            NlFamily::Rdma => 20,
            NlFamily::Crypto => 21,
            NlFamily::UnrecognizedVariant(v) => *v,
        }
    }

    proof fn lemma_to_from(v: i32) {
    }

    proof fn lemma_from_to(&self) {
    }
}

/// Appends a constant as its 8-bit integer.
pub fn write_const_u8<T: ConstU8>(v: &T, buf: &mut Vec<u8>)
    ensures
        final(buf)@ == old(buf)@.push(v.spec_to_u8()),
{
    write_u8(buf, v.to_u8());
}

/// Reads a constant from one byte; an unnamed value reads as the open
/// member. Fails only where no byte is left.
pub fn read_const_u8<T: ConstU8>(cur: &mut ReadCursor) -> (r: Result<T, DeError>)
    requires
        old(cur).wf(),
    ensures
        final(cur).wf(),
        r is Ok <==> old(cur)@.len() >= 1,
        r is Ok ==> r->Ok_0 == T::spec_from_u8(old(cur)@[0]) && final(cur)@ == old(cur)@.skip(1),
{
    match cur.read_u8() {
        Ok(v) => Ok(T::from_u8(v)),
        Err(e) => Err(e),
    }
}

/// Appends a constant as its 16-bit integer, low byte first.
pub fn write_const_u16<T: ConstU16>(v: &T, buf: &mut Vec<u8>)
    ensures
        final(buf)@ == old(buf)@ + le16(v.spec_to_u16()),
{
    write_u16(buf, v.to_u16());
}

/// Reads a constant from two bytes; an unnamed value reads as the open
/// member. Fails only where fewer than two bytes are left.
pub fn read_const_u16<T: ConstU16>(cur: &mut ReadCursor) -> (r: Result<T, DeError>)
    requires
        old(cur).wf(),
    ensures
        final(cur).wf(),
        r is Ok <==> old(cur)@.len() >= 2,
        r is Ok ==> r->Ok_0 == T::spec_from_u16(u16_of(old(cur)@)) && final(cur)@ == old(cur)@.skip(
            2,
        ),
{
    match cur.read_u16() {
        Ok(v) => Ok(T::from_u16(v)),
        Err(e) => Err(e),
    }
}

/// Appends a constant as its 32-bit integer, low byte first.
pub fn write_const_u32<T: ConstU32>(v: &T, buf: &mut Vec<u8>)
    ensures
        final(buf)@ == old(buf)@ + le32(v.spec_to_u32()),
{
    write_u32(buf, v.to_u32());
}

/// Reads a constant from four bytes; an unnamed value reads as the open
/// member. Fails only where fewer than four bytes are left.
pub fn read_const_u32<T: ConstU32>(cur: &mut ReadCursor) -> (r: Result<T, DeError>)
    requires
        old(cur).wf(),
    ensures
        final(cur).wf(),
        r is Ok <==> old(cur)@.len() >= 4,
        r is Ok ==> r->Ok_0 == T::spec_from_u32(u32_of(old(cur)@)) && final(cur)@ == old(cur)@.skip(
            4,
        ),
{
    match cur.read_u32() {
        Ok(v) => Ok(T::from_u32(v)),
        Err(e) => Err(e),
    }
}

/// Appends a signed constant as the four bytes of its two's complement,
/// low byte first.
pub fn write_const_i32<T: ConstI32>(v: &T, buf: &mut Vec<u8>)
    ensures
        final(buf)@ == old(buf)@ + le32(v.spec_to_i32() as u32),
{
    write_u32(buf, v.to_i32() as u32);
}

/// Reads a signed constant from four bytes of two's complement; an unnamed
/// value reads as the open member. Fails only where fewer than four bytes
/// are left.
pub fn read_const_i32<T: ConstI32>(cur: &mut ReadCursor) -> (r: Result<T, DeError>)
    requires
        old(cur).wf(),
    ensures
        final(cur).wf(),
        r is Ok <==> old(cur)@.len() >= 4,
        r is Ok ==> r->Ok_0 == T::spec_from_i32(u32_of(old(cur)@) as i32) && final(cur)@
            == old(cur)@.skip(4),
{
    match cur.read_u32() {
        Ok(v) => Ok(T::from_i32(v as i32)),
        Err(e) => Err(e),
    }
}

/// For every 8-bit family: integer to member to integer is the identity,
/// and a well-formed member written and read back is the same member.
pub proof fn lemma_const_u8_round_trip<T: ConstU8>(v: u8, e: T)
    requires
        e.spec_wf(),
    ensures
        T::spec_from_u8(v).spec_to_u8() == v,
        T::spec_from_u8(seq![e.spec_to_u8()][0]) == e,
{
    T::lemma_to_from(v);
    e.lemma_from_to();
}

/// For every 16-bit family: integer to member to integer is the identity,
/// and a well-formed member written and read back is the same member.
pub proof fn lemma_const_u16_round_trip<T: ConstU16>(v: u16, e: T)
    requires
        e.spec_wf(),
    ensures
        T::spec_from_u16(v).spec_to_u16() == v,
        T::spec_from_u16(u16_of(le16(e.spec_to_u16()))) == e,
{
    T::lemma_to_from(v);
    e.lemma_from_to();
    lemma_u16_round_trip(e.spec_to_u16());
}

/// For every unsigned 32-bit family: integer to member to integer is the
/// identity, and a well-formed member written and read back is the same
/// member.
pub proof fn lemma_const_u32_round_trip<T: ConstU32>(v: u32, e: T)
    requires
        e.spec_wf(),
    ensures
        T::spec_from_u32(v).spec_to_u32() == v,
        T::spec_from_u32(u32_of(le32(e.spec_to_u32()))) == e,
{
    T::lemma_to_from(v);
    e.lemma_from_to();
    lemma_u32_round_trip(e.spec_to_u32());
}

/// For every signed 32-bit family: integer to member to integer is the
/// identity, and a well-formed member written and read back is the same
/// member.
pub proof fn lemma_const_i32_round_trip<T: ConstI32>(v: i32, e: T)
    requires
        e.spec_wf(),
    ensures
        T::spec_from_i32(v).spec_to_i32() == v,
        T::spec_from_i32(u32_of(le32(e.spec_to_i32() as u32)) as i32) == e,
{
    T::lemma_to_from(v);
    e.lemma_from_to();
    let x = e.spec_to_i32();
    lemma_u32_round_trip(x as u32);
    assert(((x as u32) as i32) == x) by (bit_vector);
}

} // verus!
