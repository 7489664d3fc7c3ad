//! The generic netlink header: a command, a version, a reserved field, and
//! a blob of attribute records that is parsed only on request.
use vstd::prelude::*;
use crate::buffer::{le16, u16_of, write_bytes, write_u16, write_u8, ReadCursor};
use crate::consts::{write_const_u8, ConstU8};
use crate::consts::ConstU16;
use crate::err::{DeError, SerError};
use crate::Nl;
use crate::nlattr::{
    attr_wire, attrs_wire, lemma_attrs_round_trip, parse_attrs, payload_too_long_text, rec_built, recs_of,
    too_long_message, AttrHandle, AttrView, Nlattr, NLA_HDRLEN, NLA_MAX_PAYLOAD,
};

verus! {

/// Every attribute is one that a payload builds: its payload fits the
/// length field and its length field is the header size plus the payload
/// size.
pub open spec fn all_built<T: ConstU16>(v: Seq<Nlattr<T>>) -> bool {
    forall|i: int| 0 <= i < v.len() ==> rec_built(#[trigger] v[i].view_rec())
}

/// The text of the error that building a header from `v` gives: that of
/// the first attribute from index `i` on that is not built from its payload.
pub open spec fn build_err_text<T: ConstU16>(v: Seq<Nlattr<T>>, i: int) -> Seq<char>
    decreases v.len() - i,
{
    if i < 0 || i >= v.len() {
        Seq::empty()
    } else if v[i].payload@.len() > NLA_MAX_PAYLOAD {
        payload_too_long_text()
    } else if v[i].nla_len != 4 + v[i].payload@.len() {
        length_mismatch_text()
    } else {
        build_err_text(v, i + 1)
    }
}

/// Text of the error for an attribute whose length field does not match
/// its payload.
pub open spec fn length_mismatch_text() -> Seq<char> {
    "Attribute length field does not match its payload"@
}

/// Appending a record appends its bytes.
pub proof fn lemma_attrs_wire_push(s: Seq<AttrView>, a: AttrView)
    ensures
        attrs_wire(s.push(a)) == attrs_wire(s) + attr_wire(a),
    decreases s.len(),
{
    if s.len() == 0 {
        assert(s.push(a).skip(1) =~= Seq::<AttrView>::empty());
        assert(attrs_wire(Seq::<AttrView>::empty()) == Seq::<u8>::empty());
        assert(attrs_wire(s) == Seq::<u8>::empty());
        assert(s.push(a)[0] == a);
        assert(attrs_wire(s.push(a)) =~= attrs_wire(s) + attr_wire(a));
    } else {
        lemma_attrs_wire_push(s.skip(1), a);
        assert(s.push(a).skip(1) =~= s.skip(1).push(a));
        assert(s.push(a)[0] == s[0]);
        assert(attrs_wire(s.push(a)) =~= attrs_wire(s) + attr_wire(a));
    }
}

/// What a generic netlink header holds.
pub struct GenlView<C> {
    pub cmd: C,
    pub version: u8,
    pub reserved: u16,
    pub attrs: Seq<u8>,
}

/// Generic netlink header with its attribute blob.
#[derive(Debug, PartialEq)]
pub struct Genlmsghdr<C> {
    /// Command of the generic netlink family.
    pub cmd: C,
    /// Version of the family's protocol.
    pub version: u8,
    reserved: u16,
    attrs: Vec<u8>,
}

impl<C> View for Genlmsghdr<C> {
    type V = GenlView<C>;

    closed spec fn view(&self) -> GenlView<C> {
        GenlView { cmd: self.cmd, version: self.version, reserved: self.reserved, attrs: self.attrs@ }
    }
}

impl<C: ConstU8> Genlmsghdr<C> {
    /// A header over the given attributes, serialized one after another,
    /// each padded, with a zero reserved field. Fails where an attribute's
    /// payload does not fit the length field, or its length field is not the
    /// header size plus the payload size; the error is that of the first
    /// such attribute.
    pub fn new<T: ConstU16>(cmd: C, version: u8, attrs: Vec<Nlattr<T>>) -> (r: Result<Self, SerError>)
        ensures
            r is Ok <==> all_built(attrs@),
            r is Ok ==> ({
                let h = r->Ok_0@;
                &&& h.cmd == cmd
                &&& h.version == version
                &&& h.reserved == 0
                &&& h.attrs == attrs_wire(recs_of(attrs@))
                &&& parse_attrs(h.attrs) == Some(recs_of(attrs@))
            }),
            r is Err ==> r->Err_0@ == build_err_text(attrs@, 0),
    {
        let mut hint: usize = 0;
        let mut i: usize = 0;
        while i < attrs.len()
            invariant
                i <= attrs@.len(),
                hint <= 0xffff_ffff,
            decreases attrs@.len() - i,
        {
            if attrs[i].payload.len() <= NLA_MAX_PAYLOAD {
                let a = attrs[i].asize();
                if a <= 0xffff_ffff - hint {
                    hint = hint + a;
                }
            }
            i = i + 1;
        }
        let mut mem: Vec<u8> = Vec::with_capacity(hint);
        let mut j: usize = 0;
        while j < attrs.len()
            invariant
                j <= attrs@.len(),
                all_built(attrs@.take(j as int)),
                build_err_text(attrs@, 0) == build_err_text(attrs@, j as int),
                mem@ == attrs_wire(recs_of(attrs@.take(j as int))),
            decreases attrs@.len() - j,
        {
            if attrs[j].payload.len() > NLA_MAX_PAYLOAD {
                assert(!rec_built(attrs@[j as int].view_rec()));
                return Err(SerError::new(too_long_message()));
            }
            if attrs[j].nla_len as usize != NLA_HDRLEN + attrs[j].payload.len() {
                proof {
                    reveal_strlit("Attribute length field does not match its payload");
                    assert(!rec_built(attrs@[j as int].view_rec()));
                }
                return Err(SerError::new("Attribute length field does not match its payload"));
            }
            match attrs[j].serialize(&mut mem) {
                Ok(()) => {},
                Err(e) => {
                    return Err(e);
                },
            }
            proof {
                let s = attrs@.take(j as int);
                assert(attrs@.take(j + 1) =~= s.push(attrs@[j as int]));
                assert(recs_of(s.push(attrs@[j as int])) =~= recs_of(s).push(attrs@[j as int].view_rec()));
                lemma_attrs_wire_push(recs_of(s), attrs@[j as int].view_rec());
                assert forall|k: int| 0 <= k < j + 1 implies rec_built(#[trigger] attrs@.take(j + 1)[k].view_rec()) by {
                    if k < j {
                        assert(attrs@.take(j + 1)[k] == s[k]);
                    }
                }
            }
            j = j + 1;
        }
        assert(attrs@.take(attrs@.len() as int) =~= attrs@);
        proof {
            let recs = recs_of(attrs@);
            assert forall|k: int| 0 <= k < recs.len() implies rec_built(#[trigger] recs[k]) by {
                assert(recs[k] == attrs@[k].view_rec());
            }
            lemma_attrs_round_trip(recs);
        }
        Ok(Genlmsghdr { cmd, version, reserved: 0, attrs: mem })
    }

    /// The attribute blob.
    pub fn attrs(&self) -> (r: &[u8])
        ensures
            r@ == self@.attrs,
    {
        self.attrs.as_slice()
    }

    /// A handle for walking the attribute blob, with attribute types read
    /// in the family `T`.
    pub fn get_attr_handle<T: ConstU16>(&self) -> (r: AttrHandle<'_, T>)
        ensures
            r is Bin && r->Bin_0@ == self@.attrs,
    {
        AttrHandle::Bin(self.attrs.as_slice())
    }

    /// Reading a header's own bytes gives back its command (where the
    /// command is well formed), version and attribute blob; the reserved
    /// bytes are zero.
    pub proof fn lemma_round_trip(&self)
        requires
            self@.cmd.spec_wf(),
        ensures
            self.spec_wire().len() >= 4,
            C::spec_from_u8(self.spec_wire()[0]) == self@.cmd,
            self.spec_wire()[1] == self@.version,
            self.spec_wire()[2] == 0 && self.spec_wire()[3] == 0,
            u16_of(self.spec_wire().skip(2)) == 0,
            self.spec_wire().skip(4) == self@.attrs,
    {
        self.cmd.lemma_from_to();
        let w = self.spec_wire();
        crate::buffer::lemma_u16_round_trip(0);
        assert(w.skip(2).subrange(0, 2) =~= le16(0));
        assert(w.skip(4) =~= self@.attrs);
    }
}

impl<C: ConstU8> Nl for Genlmsghdr<C> {
    /// The header's bytes on the wire: command, version, two zero bytes for
    /// the reserved field, then the attribute blob as it is.
    open spec fn spec_wire(&self) -> Seq<u8> {
        seq![self@.cmd.spec_to_u8(), self@.version] + le16(0) + self@.attrs
    }

    /// Every header can be written.
    open spec fn spec_ser_ok(&self) -> bool {
        true
    }

    open spec fn spec_ser_err(&self) -> Seq<char> {
        Seq::empty()
    }

    /// Four bytes of header, then everything that follows.
    open spec fn spec_de_len(s: Seq<u8>) -> Option<nat> {
        if s.len() >= 4 {
            Some(s.len())
        } else {
            None
        }
    }

    /// Everything after the reserved field is the attribute blob, left
    /// unparsed.
    open spec fn spec_de_matches(&self, s: Seq<u8>) -> bool {
        &&& self@.cmd == C::spec_from_u8(s[0])
        &&& self@.version == s[1]
        &&& self@.reserved == u16_of(s.skip(2))
        &&& self@.attrs == s.skip(4)
    }

    /// Appends the header: command, version, a zero reserved field,
    /// attributes.
    fn serialize(&self, buf: &mut Vec<u8>) -> (r: Result<(), SerError>) {
        write_const_u8(&self.cmd, buf);
        write_u8(buf, self.version);
        write_u16(buf, 0);
        write_bytes(buf, self.attrs.as_slice());
        assert(buf@ =~= old(buf)@ + self.spec_wire());
        Ok(())
    }

    fn size(&self) -> (r: usize) {
        4 + self.attrs.len()
    }

    fn deserialize(cur: &mut ReadCursor) -> (r: Result<Self, DeError>) {
        let ghost s = cur@;
        if cur.remaining() < 4 {
            return Err(DeError::new("Buffer ended inside a generic netlink header"));
        }
        let cmd = cur.read_u8();
        let version = cur.read_u8();
        let reserved = cur.read_u16();
        match (cmd, version, reserved) {
            (Ok(cmd), Ok(version), Ok(reserved)) => {
                let attrs = cur.read_rest();
                assert(s.skip(1).skip(1) =~= s.skip(2));
                assert(s.skip(2).skip(2) =~= s.skip(4));
                assert(cur@ =~= s.skip(s.len() as int));
                Ok(Genlmsghdr { cmd: C::from_u8(cmd), version, reserved, attrs })
            },
            _ => Err(DeError::new("Buffer ended inside a generic netlink header")),
        }
    }
}

} // verus!
