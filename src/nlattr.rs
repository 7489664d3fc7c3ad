//! Type-length-value attributes and their traversal.
//!
//! On the wire an attribute is its 16-bit length (header and payload, no
//! padding), its 16-bit type, its payload, and zero bytes up to the next
//! multiple of four.
use vstd::prelude::*;
use crate::buffer::{
    le16, u16_of, write_bytes, write_u16, write_zeros, zeros, ReadCursor,
    lemma_u16_round_trip,
};
use crate::consts::{write_const_u16, alignto, lemma_alignto, spec_alignto, ConstU16};
use crate::err::{DeError, SerError};
use crate::Nl;
use vstd::string::StringSliceAdditionalSpecFns;
use vstd::utf8::{encode_utf8, encode_utf8_decode_utf8, encode_utf8_valid_utf8, valid_utf8};

verus! {

/// Size of an attribute header: length and type.
pub const NLA_HDRLEN: usize = 4;

/// Largest payload whose length still fits the 16-bit length field.
pub const NLA_MAX_PAYLOAD: usize = 65531;

/// What an attribute record says: its length field, its raw type, and its
/// payload.
pub struct AttrView {
    pub len: u16,
    pub ty: u16,
    pub payload: Seq<u8>,
}

/// Zero bytes that follow a payload of `n` bytes.
pub open spec fn pad_len(n: nat) -> nat {
    (spec_alignto(4 + n as int) - (4 + n)) as nat
}

/// The bytes of one attribute record on the wire.
pub open spec fn attr_wire(a: AttrView) -> Seq<u8> {
    le16(a.len) + le16(a.ty) + a.payload + zeros(pad_len(a.payload.len()))
}

/// The bytes of a sequence of records, each padded, one after another.
pub open spec fn attrs_wire(s: Seq<AttrView>) -> Seq<u8>
    decreases s.len(),
{
    if s.len() == 0 {
        Seq::empty()
    } else {
        attr_wire(s[0]) + attrs_wire(s.skip(1))
    }
}

/// The leading record header of `s` is complete, and its length covers the
/// header and stays within `s`.
pub open spec fn head_ok(s: Seq<u8>) -> bool {
    s.len() >= 4 && 4 <= u16_of(s) && u16_of(s) <= s.len()
}

/// The record at the front of `s`, where `head_ok(s)`.
pub open spec fn head_rec(s: Seq<u8>) -> AttrView {
    AttrView { len: u16_of(s), ty: u16_of(s.skip(2)), payload: s.subrange(4, u16_of(s) as int) }
}

/// The bytes that the front record takes: its length rounded up, or all of
/// `s` where the padding of the last record is cut short.
pub open spec fn head_step(s: Seq<u8>) -> int {
    let a = spec_alignto(u16_of(s) as int);
    if a <= s.len() {
        a
    } else {
        s.len() as int
    }
}

/// The records of a flat attribute region, or `None` where a header is cut
/// short or a length field is below the header size or runs past the end.
pub open spec fn parse_attrs(s: Seq<u8>) -> Option<Seq<AttrView>>
    decreases s.len(),
{
    if s.len() == 0 {
        Some(Seq::empty())
    } else if !head_ok(s) {
        None
    } else {
        match parse_attrs(s.skip(head_step(s))) {
            Some(rest) => Some(seq![head_rec(s)] + rest),
            None => None,
        }
    }
}

/// A payload without its one trailing zero byte, where it has one.
pub open spec fn strip_nul(p: Seq<u8>) -> Seq<u8> {
    if p.len() > 0 && p.last() == 0 {
        p.drop_last()
    } else {
        p
    }
}

/// Relies on `String::from_utf8`: it succeeds exactly when the bytes are
/// valid UTF-8, and the string then holds those bytes; on failure, the text
/// of its error.
#[verifier::external_body]
fn string_from_utf8(bytes: Vec<u8>) -> (r: Result<String, String>)
    ensures
        r is Ok <==> valid_utf8(bytes@),
        r is Ok ==> encode_utf8(r->Ok_0@) == bytes@,
{
    String::from_utf8(bytes).map_err(|e| e.to_string())
}

/// Text of the error for a payload that does not fit the length field.
pub open spec fn payload_too_long_text() -> Seq<char> {
    "Attribute payload does not fit the length field"@
}

/// Text of the error for a payload that does not fit the length field.
pub fn too_long_message() -> (r: &'static str)
    ensures
        r@ == payload_too_long_text(),
{
    proof {
        reveal_strlit("Attribute payload does not fit the length field");
    }
    "Attribute payload does not fit the length field"
}

/// An attribute whose type is drawn from the family `T`.
#[derive(Debug, PartialEq)]
pub struct Nlattr<T> {
    /// Length of header and payload, without padding.
    pub nla_len: u16,
    /// Type of the attribute.
    pub nla_type: T,
    /// Payload bytes.
    pub payload: Vec<u8>,
}

impl<T: ConstU16> Nlattr<T> {
    /// The record this attribute stands for.
    pub open spec fn view_rec(&self) -> AttrView {
        AttrView { len: self.nla_len, ty: self.nla_type.spec_to_u16(), payload: self.payload@ }
    }

    /// An attribute over raw payload bytes. Without an explicit length the
    /// length field is the header size plus the payload size.
    pub fn new_binary_payload(nla_len: Option<u16>, nla_type: T, payload: Vec<u8>) -> (r: Self)
        requires
            nla_len is Some || payload@.len() <= NLA_MAX_PAYLOAD,
        ensures
            r.nla_len == (match nla_len {
                Some(n) => n,
                None => (4 + payload@.len()) as u16,
            }),
            r.nla_type == nla_type,
            r.payload@ == payload@,
    {
        let len: u16 = match nla_len {
            Some(n) => n,
            None => (NLA_HDRLEN + payload.len()) as u16,
        };
        Nlattr { nla_len: len, nla_type, payload }
    }

    /// An attribute over a string: its bytes and a terminating zero byte.
    /// Fails where no explicit length is given and the length does not fit
    /// the length field.
    pub fn new_str_payload(nla_len: Option<u16>, nla_type: T, payload: &str) -> (r: Result<
        Self,
        SerError,
    >)
        ensures
            r is Ok <==> (nla_len is Some || payload.spec_bytes().len() + 1 <= NLA_MAX_PAYLOAD),
            r is Ok ==> ({
                let a = r->Ok_0;
                &&& a.payload@ == payload.spec_bytes().push(0u8)
                &&& a.nla_type == nla_type
                &&& a.nla_len == (match nla_len {
                    Some(n) => n,
                    None => (5 + payload.spec_bytes().len()) as u16,
                })
            }),
    {
        let bytes = payload.as_bytes();
        if nla_len.is_none() && bytes.len() >= NLA_MAX_PAYLOAD {
            return Err(SerError::new("String payload is too long for an attribute"));
        }
        let mut p: Vec<u8> = Vec::new();
        write_bytes(&mut p, bytes);
        p.push(0u8);
        Ok(Self::new_binary_payload(nla_len, nla_type, p))
    }

    /// An attribute whose payload is the wire form of another value, such
    /// as a nested attribute. Fails where that value cannot be written, or
    /// where no explicit length is given and the length does not fit the
    /// length field.
    pub fn new_nl_payload<P: Nl>(nla_len: Option<u16>, nla_type: T, payload: &P) -> (r: Result<
        Self,
        SerError,
    >)
        ensures
            r is Ok <==> (payload.spec_ser_ok() && (nla_len is Some || payload.spec_wire().len()
                <= NLA_MAX_PAYLOAD)),
            r is Ok ==> ({
                let a = r->Ok_0;
                &&& a.payload@ == payload.spec_wire()
                &&& a.nla_type == nla_type
                &&& a.nla_len == (match nla_len {
                    Some(n) => n,
                    None => (4 + payload.spec_wire().len()) as u16,
                })
            }),
    {
        let mut p: Vec<u8> = Vec::new();
        match payload.serialize(&mut p) {
            Ok(()) => {},
            Err(e) => {
                return Err(e);
            },
        }
        assert(p@ =~= payload.spec_wire());
        if nla_len.is_none() && p.len() > NLA_MAX_PAYLOAD {
            return Err(SerError::new("Payload is too long for an attribute"));
        }
        Ok(Self::new_binary_payload(nla_len, nla_type, p))
    }

    /// The payload read as text, without its terminating zero byte. Fails
    /// where the rest is not valid UTF-8, with the text of std's UTF-8
    /// error.
    pub fn get_payload_as_string(&self) -> (r: Result<String, DeError>)
        ensures
            r is Ok <==> valid_utf8(strip_nul(self.payload@)),
            r is Ok ==> encode_utf8(r->Ok_0@) == strip_nul(self.payload@),
    {
        let n = self.payload.len();
        let end: usize = if n > 0 && self.payload[n - 1] == 0 {
            n - 1
        } else {
            n
        };
        let mut text: Vec<u8> = Vec::with_capacity(end);
        let mut i: usize = 0;
        while i < end
            invariant
                end <= n == self.payload@.len(),
                i <= end,
                text@ == self.payload@.take(i as int),
            decreases end - i,
        {
            text.push(self.payload[i]);
            i = i + 1;
            assert(text@ =~= self.payload@.take(i as int));
        }
        assert(text@ =~= strip_nul(self.payload@));
        match string_from_utf8(text) {
            Ok(t) => Ok(t),
            Err(e) => Err(DeError::new(e.as_str())),
        }
    }

    /// A handle over this attribute's payload, read as nested attributes of
    /// the family `U`.
    pub fn get_attr_handle<U: ConstU16>(&self) -> (r: AttrHandle<'_, U>)
        ensures
            r is Bin && r->Bin_0@ == self.payload@,
    {
        AttrHandle::Bin(self.payload.as_slice())
    }

    /// Bytes on the wire, padding included.
    pub fn asize(&self) -> (r: usize)
        requires
            self.payload@.len() + 7 <= usize::MAX,
        ensures
            r == spec_alignto(4 + self.payload@.len() as int),
            r == self.spec_wire().len(),
    {
        proof {
            lemma_alignto(4 + self.payload@.len() as int);
        }
        alignto(NLA_HDRLEN + self.payload.len())
    }

}

impl<T: ConstU16> Nl for Nlattr<T> {
    /// The bytes of this attribute on the wire.
    open spec fn spec_wire(&self) -> Seq<u8> {
        attr_wire(self.view_rec())
    }

    /// The payload fits the 16-bit length field.
    open spec fn spec_ser_ok(&self) -> bool {
        self.payload@.len() <= NLA_MAX_PAYLOAD
    }

    open spec fn spec_ser_err(&self) -> Seq<char> {
        payload_too_long_text()
    }

    /// A complete header whose length covers the header and stays within
    /// the bytes; the padding is skipped where present.
    open spec fn spec_de_len(s: Seq<u8>) -> Option<nat> {
        if head_ok(s) {
            Some(head_step(s) as nat)
        } else {
            None
        }
    }

    open spec fn spec_de_matches(&self, s: Seq<u8>) -> bool {
        &&& self.view_rec() == head_rec(s)
        &&& self.nla_type == T::spec_from_u16(head_rec(s).ty)
    }

    /// Appends the attribute: length, type, payload and padding. Fails,
    /// writing nothing, where the payload does not fit the length field.
    fn serialize(&self, buf: &mut Vec<u8>) -> (r: Result<(), SerError>)
    {
        if self.payload.len() > NLA_MAX_PAYLOAD {
            return Err(SerError::new(too_long_message()));
        }
        let size = NLA_HDRLEN + self.payload.len();
        let padded = alignto(size);
        write_u16(buf, self.nla_len);
        write_const_u16(&self.nla_type, buf);
        write_bytes(buf, self.payload.as_slice());
        write_zeros(buf, padded - size);
        assert(buf@ =~= old(buf)@ + self.spec_wire());
        Ok(())
    }

    /// Bytes on the wire, padding included.
    fn size(&self) -> (r: usize) {
        self.asize()
    }

    /// Reads one attribute and skips its padding, where present.
    fn deserialize(cur: &mut ReadCursor) -> (r: Result<Self, DeError>)
    {
        let ghost s = cur@;
        if cur.remaining() < NLA_HDRLEN {
            return Err(DeError::new("Buffer ended inside an attribute header"));
        }
        let len = cur.read_u16();
        let ty = cur.read_u16();
        match (len, ty) {
            (Ok(len), Ok(ty)) => {
                if (len as usize) < NLA_HDRLEN || (len as usize) - NLA_HDRLEN > cur.remaining() {
                    return Err(DeError::new("Attribute length is out of bounds"));
                }
                let payload = cur.read_bytes((len as usize) - NLA_HDRLEN);
                match payload {
                    Ok(payload) => {
                        let padded = alignto(len as usize);
                        cur.skip(padded - len as usize);
                        proof {
                            T::lemma_to_from(ty);
                            assert(payload@ =~= s.subrange(4, len as int));
                            assert(cur@ =~= s.skip(head_step(s)));
                        }
                        Ok(Nlattr { nla_len: len, nla_type: T::from_u16(ty), payload })
                    },
                    Err(e) => Err(e),
                }
            },
            _ => Err(DeError::new("Buffer ended inside an attribute header")),
        }
    }
}

/// The records that a sequence of attributes stands for.
pub open spec fn recs_of<T: ConstU16>(v: Seq<Nlattr<T>>) -> Seq<AttrView> {
    v.map_values(|a: Nlattr<T>| a.view_rec())
}

/// Each attribute's type is the family member that its raw type decodes to.
pub open spec fn types_decoded<T: ConstU16>(v: Seq<Nlattr<T>>) -> bool {
    forall|i: int| 0 <= i < v.len() ==> #[trigger] v[i].nla_type == T::spec_from_u16(v[i].view_rec().ty)
}

/// Traversal over attributes: either a flat region of bytes, parsed on
/// request, or attributes that are already typed.
pub enum AttrHandle<'a, T> {
    /// A flat region of attribute records.
    Bin(&'a [u8]),
    /// Attributes already parsed.
    Parsed(Vec<Nlattr<T>>),
}

impl<'a, T: ConstU16> AttrHandle<'a, T> {
    /// A handle over a flat region of attribute records.
    pub fn new(bytes: &'a [u8]) -> (r: Self)
        ensures
            r is Bin && r->Bin_0@ == bytes@,
    {
        AttrHandle::Bin(bytes)
    }

    /// The attributes in order. A flat region is walked record by record;
    /// the walk fails with a decoding error where a header is cut short or
    /// a length field is below the header size or runs past the end.
    pub fn get_attrs(self) -> (r: Result<Vec<Nlattr<T>>, DeError>)
        ensures
            match self {
                AttrHandle::Bin(b) => {
                    &&& r is Ok <==> parse_attrs(b@) is Some
                    &&& r is Ok ==> recs_of(r->Ok_0@) == parse_attrs(b@)->Some_0 && types_decoded(r->Ok_0@)
                },
                AttrHandle::Parsed(v) => r is Ok && r->Ok_0 == v,
            },
    {
        match self {
            AttrHandle::Bin(b) => parse_region(b),
            AttrHandle::Parsed(v) => Ok(v),
        }
    }
}

/// Walks a flat region of attribute records.
fn parse_region<T: ConstU16>(b: &[u8]) -> (r: Result<Vec<Nlattr<T>>, DeError>)
    ensures
        r is Ok <==> parse_attrs(b@) is Some,
        r is Ok ==> recs_of(r->Ok_0@) == parse_attrs(b@)->Some_0 && types_decoded(r->Ok_0@),
{
    let mut cur = ReadCursor::new(b);
    let mut out: Vec<Nlattr<T>> = Vec::new();
    while cur.remaining() > 0
        invariant
            cur.wf(),
            types_decoded(out@),
            parse_attrs(b@) == (match parse_attrs(cur@) {
                Some(rest) => Some(recs_of(out@) + rest),
                None => None::<Seq<AttrView>>,
            }),
        decreases cur@.len(),
    {
        let ghost s = cur@;
        proof {
            lemma_alignto(u16_of(s) as int);
        }
        let a = Nlattr::<T>::deserialize(&mut cur);
        match a {
            Ok(a) => {
                proof {
                    assert(recs_of(out@.push(a)) =~= recs_of(out@).push(a.view_rec()));
                    match parse_attrs(cur@) {
                        Some(rest) => {
                            assert(recs_of(out@) + (seq![head_rec(s)] + rest) =~= recs_of(out@).push(a.view_rec()) + rest);
                        },
                        None => {},
                    }
                }
                out.push(a);
            },
            Err(e) => {
                return Err(e);
            },
        }
    }
    proof {
        assert(recs_of(out@) + Seq::<AttrView>::empty() =~= recs_of(out@));
    }
    Ok(out)
}

/// The record is one that an attribute built from its payload carries: its
/// length field is the header size plus the payload size.
pub open spec fn rec_built(a: AttrView) -> bool {
    &&& a.payload.len() <= NLA_MAX_PAYLOAD
    &&& a.len == 4 + a.payload.len()
}

/// Reading a record from its own bytes followed by anything gives the
/// record back and stops where the anything begins.
pub proof fn lemma_head_of_wire(a: AttrView, rest: Seq<u8>)
    requires
        rec_built(a),
    ensures
        head_ok(attr_wire(a) + rest),
        head_rec(attr_wire(a) + rest) == a,
        head_step(attr_wire(a) + rest) == attr_wire(a).len(),
        (attr_wire(a) + rest).skip(head_step(attr_wire(a) + rest)) == rest,
        attr_wire(a).len() == 4 + spec_alignto(a.payload.len() as int),
{
    let w = attr_wire(a);
    let s = w + rest;
    lemma_u16_round_trip(a.len);
    lemma_u16_round_trip(a.ty);
    lemma_alignto(4 + a.payload.len() as int);
    lemma_alignto(a.payload.len() as int);
    assert(s.subrange(0, 2) =~= le16(a.len));
    assert(u16_of(s) == u16_of(le16(a.len)));
    assert(s.skip(2).subrange(0, 2) =~= le16(a.ty));
    assert(u16_of(s.skip(2)) == u16_of(le16(a.ty)));
    assert(s.subrange(4, a.len as int) =~= a.payload);
    assert(s.skip(w.len() as int) =~= rest);
}

/// Parsing records written one after another, followed by more bytes,
/// gives those records and then whatever the more bytes give.
pub proof fn lemma_parse_concat(recs: Seq<AttrView>, tail: Seq<u8>)
    requires
        forall|i: int| 0 <= i < recs.len() ==> rec_built(#[trigger] recs[i]),
    ensures
        parse_attrs(attrs_wire(recs) + tail) == (match parse_attrs(tail) {
            Some(rest) => Some(recs + rest),
            None => None::<Seq<AttrView>>,
        }),
    decreases recs.len(),
{
    if recs.len() == 0 {
        assert(attrs_wire(recs) + tail =~= tail);
        match parse_attrs(tail) {
            Some(rest) => {
                assert(recs + rest =~= rest);
            },
            None => {},
        }
    } else {
        let a = recs[0];
        let more = recs.skip(1);
        assert(rec_built(a));
        assert forall|i: int| 0 <= i < more.len() implies rec_built(#[trigger] more[i]) by {
            assert(more[i] == recs[i + 1]);
        }
        lemma_parse_concat(more, tail);
        let s = attrs_wire(recs) + tail;
        assert(s =~= attr_wire(a) + (attrs_wire(more) + tail));
        lemma_head_of_wire(a, attrs_wire(more) + tail);
        match parse_attrs(tail) {
            Some(rest) => {
                assert(seq![a] + (more + rest) =~= recs + rest);
            },
            None => {},
        }
    }
}

/// An attribute built from a payload of `L` bytes reads back as the same
/// type and payload; its length field is the header size plus `L`, and on
/// the wire it takes the header size plus `L` rounded up to four.
pub proof fn lemma_attr_round_trip(ty: u16, payload: Seq<u8>)
    requires
        payload.len() <= NLA_MAX_PAYLOAD,
    ensures
        ({
            let a = AttrView { len: (4 + payload.len()) as u16, ty, payload };
            &&& parse_attrs(attr_wire(a)) == Some(seq![a])
            &&& attr_wire(a).len() == 4 + spec_alignto(payload.len() as int)
            &&& a.len == 4 + payload.len()
        }),
{
    let a = AttrView { len: (4 + payload.len()) as u16, ty, payload };
    let recs = seq![a];
    assert(attrs_wire(recs.skip(1)) =~= Seq::<u8>::empty());
    assert(attrs_wire(recs) + Seq::<u8>::empty() =~= attr_wire(a));
    lemma_parse_concat(recs, Seq::empty());
    lemma_head_of_wire(a, Seq::empty());
    assert(recs + Seq::<AttrView>::empty() =~= recs);
}

/// Records written one after another read back as the same records.
pub proof fn lemma_attrs_round_trip(recs: Seq<AttrView>)
    requires
        forall|i: int| 0 <= i < recs.len() ==> rec_built(#[trigger] recs[i]),
    ensures
        parse_attrs(attrs_wire(recs)) == Some(recs),
{
    lemma_parse_concat(recs, Seq::empty());
    assert(attrs_wire(recs) + Seq::<u8>::empty() =~= attrs_wire(recs));
    assert(recs + Seq::<AttrView>::empty() =~= recs);
}

/// A record whose length field runs past the end of the region makes the
/// walk fail.
pub proof fn lemma_overlong_record_fails(s: Seq<u8>)
    requires
        s.len() >= 4,
        u16_of(s) > s.len(),
    ensures
        parse_attrs(s) is None,
{
}

/// Complete records followed by a header cut short make the walk fail.
pub proof fn lemma_truncated_header_fails(recs: Seq<AttrView>, part: Seq<u8>)
    requires
        forall|i: int| 0 <= i < recs.len() ==> rec_built(#[trigger] recs[i]),
        0 < part.len() < 4,
    ensures
        parse_attrs(attrs_wire(recs) + part) is None,
{
    lemma_parse_concat(recs, part);
}

/// A string written as an attribute payload reads back as the same string.
pub proof fn lemma_str_payload_round_trip(text: Seq<char>, back: Seq<char>)
    ensures
        valid_utf8(strip_nul(encode_utf8(text).push(0u8))),
        encode_utf8(back) == strip_nul(encode_utf8(text).push(0u8)) ==> back == text,
{
    let b = encode_utf8(text);
    assert(strip_nul(b.push(0u8)) =~= b);
    encode_utf8_valid_utf8(text);
    encode_utf8_decode_utf8(text);
    encode_utf8_decode_utf8(back);
}

} // verus!
