//! The outer netlink header, as it stands in a kernel error reply, and the
//! error frame itself.
use vstd::prelude::*;
use crate::buffer::{le16, le32, lemma_u16_round_trip, lemma_u32_round_trip, u16_of, u32_of, write_u16, write_u32, ReadCursor};
use crate::consts::{read_const_u16, write_const_u16, NlType};
use crate::err::{DeError, SerError};
use crate::Nl;

verus! {

/// Size of the outer header on the wire.
pub const NLMSG_HDRLEN: usize = 16;

/// The outer netlink header with an empty payload: the copy of a failed
/// request that an error reply carries.
#[derive(Debug, PartialEq)]
pub struct Nlmsghdr<T> {
    /// Length of the message the header heads.
    pub nl_len: u32,
    /// Message type.
    pub nl_type: T,
    /// Flags, as their raw bits.
    pub nl_flags: u16,
    /// Sequence number.
    pub nl_seq: u32,
    /// Port id of the sender.
    pub nl_pid: u32,
}

/// A kernel error reply: the error code and the header of the request that
/// failed.
#[derive(Debug, PartialEq)]
pub struct Nlmsgerr<T> {
    /// Error code.
    pub error: i32,
    /// Header of the request that failed.
    pub nlmsg: Nlmsghdr<T>,
}

impl<T: NlType> Nlmsgerr<T> {
    /// Reading a frame's own bytes gives back every field (where the
    /// message type is well formed).
    pub proof fn lemma_round_trip(&self)
        requires
            self.nlmsg.nl_type.spec_wf(),
        ensures
            ({
                let s = self.spec_wire();
                &&& s.len() == 20
                &&& u32_of(s) as i32 == self.error
                &&& u32_of(s.skip(4)) == self.nlmsg.nl_len
                &&& T::spec_from_u16(u16_of(s.skip(8))) == self.nlmsg.nl_type
                &&& u16_of(s.skip(10)) == self.nlmsg.nl_flags
                &&& u32_of(s.skip(12)) == self.nlmsg.nl_seq
                &&& u32_of(s.skip(16)) == self.nlmsg.nl_pid
            }),
    {
        let s = self.spec_wire();
        let h = self.nlmsg;
        lemma_u32_round_trip(self.error as u32);
        lemma_u32_round_trip(h.nl_len);
        lemma_u32_round_trip(h.nl_seq);
        lemma_u32_round_trip(h.nl_pid);
        lemma_u16_round_trip(h.nl_type.spec_to_u16());
        lemma_u16_round_trip(h.nl_flags);
        h.nl_type.lemma_from_to();
        assert(s.subrange(0, 4) =~= le32(self.error as u32));
        assert(s.subrange(2, 4) =~= le32(self.error as u32).subrange(2, 4));
        assert(s.skip(4).subrange(0, 4) =~= le32(h.nl_len));
        assert(s.skip(4).subrange(2, 4) =~= le32(h.nl_len).subrange(2, 4));
        assert(s.skip(8).subrange(0, 2) =~= le16(h.nl_type.spec_to_u16()));
        assert(s.skip(10).subrange(0, 2) =~= le16(h.nl_flags));
        assert(s.skip(12).subrange(0, 4) =~= le32(h.nl_seq));
        assert(s.skip(12).subrange(2, 4) =~= le32(h.nl_seq).subrange(2, 4));
        assert(s.skip(16).subrange(0, 4) =~= le32(h.nl_pid));
        assert(s.skip(16).subrange(2, 4) =~= le32(h.nl_pid).subrange(2, 4));
        let e = self.error;
        assert(((e as u32) as i32) == e) by (bit_vector);
    }
}

impl<T: NlType> Nl for Nlmsghdr<T> {
    /// The header's bytes on the wire.
    open spec fn spec_wire(&self) -> Seq<u8> {
        le32(self.nl_len) + le16(self.nl_type.spec_to_u16()) + le16(self.nl_flags) + le32(
            self.nl_seq,
        ) + le32(self.nl_pid)
    }

    /// Every header can be written.
    open spec fn spec_ser_ok(&self) -> bool {
        true
    }

    open spec fn spec_ser_err(&self) -> Seq<char> {
        Seq::empty()
    }

    /// Sixteen bytes.
    open spec fn spec_de_len(s: Seq<u8>) -> Option<nat> {
        if s.len() >= 16 {
            Some(16)
        } else {
            None
        }
    }

    open spec fn spec_de_matches(&self, s: Seq<u8>) -> bool {
        &&& self.nl_len == u32_of(s)
        &&& self.nl_type == T::spec_from_u16(u16_of(s.skip(4)))
        &&& self.nl_flags == u16_of(s.skip(6))
        &&& self.nl_seq == u32_of(s.skip(8))
        &&& self.nl_pid == u32_of(s.skip(12))
    }

    /// Appends the header's fields in order.
    fn serialize(&self, buf: &mut Vec<u8>) -> (r: Result<(), SerError>)
    {
        write_u32(buf, self.nl_len);
        write_const_u16(&self.nl_type, buf);
        write_u16(buf, self.nl_flags);
        write_u32(buf, self.nl_seq);
        write_u32(buf, self.nl_pid);
        assert(buf@ =~= old(buf)@ + self.spec_wire());
        Ok(())
    }

    /// Bytes of the header on the wire.
    fn size(&self) -> (r: usize) {
        NLMSG_HDRLEN
    }

    /// Reads a header. Fails where fewer than sixteen bytes remain.
    fn deserialize(cur: &mut ReadCursor) -> (r: Result<Self, DeError>) {
        let ghost s = cur@;
        if cur.remaining() < NLMSG_HDRLEN {
            return Err(DeError::new("Buffer ended inside a netlink header"));
        }
        let nl_len = cur.read_u32();
        let nl_type = read_const_u16::<T>(&mut *cur);
        let nl_flags = cur.read_u16();
        let nl_seq = cur.read_u32();
        let nl_pid = cur.read_u32();
        match (nl_len, nl_type, nl_flags, nl_seq, nl_pid) {
            (Ok(nl_len), Ok(nl_type), Ok(nl_flags), Ok(nl_seq), Ok(nl_pid)) => {
                assert(s.skip(4).skip(2) =~= s.skip(6));
                assert(s.skip(6).skip(2) =~= s.skip(8));
                assert(s.skip(8).skip(4) =~= s.skip(12));
                assert(s.skip(12).skip(4) =~= s.skip(16));
                Ok(Nlmsghdr { nl_len, nl_type, nl_flags, nl_seq, nl_pid })
            },
            _ => Err(DeError::new("Buffer ended inside a netlink header")),
        }
    }
}

impl<T: NlType> Nl for Nlmsgerr<T> {
    /// The frame's bytes on the wire.
    open spec fn spec_wire(&self) -> Seq<u8> {
        le32(self.error as u32) + self.nlmsg.spec_wire()
    }

    /// Every frame can be written.
    open spec fn spec_ser_ok(&self) -> bool {
        true
    }

    open spec fn spec_ser_err(&self) -> Seq<char> {
        Seq::empty()
    }

    /// Twenty bytes.
    open spec fn spec_de_len(s: Seq<u8>) -> Option<nat> {
        if s.len() >= 20 {
            Some(20)
        } else {
            None
        }
    }

    open spec fn spec_de_matches(&self, s: Seq<u8>) -> bool {
        &&& self.error == u32_of(s) as i32
        &&& self.nlmsg.spec_de_matches(s.skip(4))
    }

    /// Appends the error code, then the header.
    fn serialize(&self, buf: &mut Vec<u8>) -> (r: Result<(), SerError>)
    {
        write_u32(buf, self.error as u32);
        let r = self.nlmsg.serialize(buf);
        assert(buf@ =~= old(buf)@ + self.spec_wire());
        r
    }

    /// Bytes of the frame on the wire.
    fn size(&self) -> (r: usize) {
        4 + self.nlmsg.size()
    }

    /// Reads an error frame. Fails where fewer than twenty bytes remain.
    fn deserialize(cur: &mut ReadCursor) -> (r: Result<Self, DeError>) {
        let ghost s = cur@;
        if cur.remaining() < 20 {
            return Err(DeError::new("Buffer ended inside a netlink error frame"));
        }
        let error = cur.read_u32();
        match error {
            Ok(error) => {
                let nlmsg = Nlmsghdr::<T>::deserialize(&mut *cur);
                match nlmsg {
                    Ok(nlmsg) => {
                        proof {
                            let t = s.skip(4);
                            assert(t.skip(4) =~= s.skip(8));
                            assert(t.skip(6) =~= s.skip(10));
                            assert(t.skip(8) =~= s.skip(12));
                            assert(t.skip(12) =~= s.skip(16));
                            assert(t.skip(16) =~= s.skip(20));
                        }
                        Ok(Nlmsgerr { error: error as i32, nlmsg })
                    },
                    Err(e) => Err(e),
                }
            },
            Err(e) => Err(e),
        }
    }
}

} // verus!
