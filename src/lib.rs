//! Codec layer for the Linux netlink wire protocol: byte cursors, protocol
//! constant families, type-length-value attributes, the generic netlink
//! header, the error frame and the error taxonomy, each with a contract
//! over the exact bytes on the wire.
pub mod buffer;
pub mod consts;
pub mod err;
pub mod genl;
pub mod nl;
pub mod nlattr;

use vstd::prelude::*;
use crate::buffer::ReadCursor;
use crate::err::{DeError, SerError};

verus! {

/// The serialization contract: a value that appends its exact wire bytes to
/// a growable buffer, or fails and appends nothing; that reports how many
/// bytes it takes; and that reads itself back from a cursor.
pub trait Nl: Sized {
    /// The bytes that a successful `serialize` appends.
    spec fn spec_wire(&self) -> Seq<u8>;

    /// Whether the value can be represented on the wire.
    spec fn spec_ser_ok(&self) -> bool;

    /// The text of the error that a failed `serialize` returns.
    spec fn spec_ser_err(&self) -> Seq<char>;

    /// How many bytes at the front of `s` a successful `deserialize` reads,
    /// or `None` where it fails.
    spec fn spec_de_len(s: Seq<u8>) -> Option<nat>;

    /// The value is the one that `deserialize` reads from the front of `s`.
    spec fn spec_de_matches(&self, s: Seq<u8>) -> bool;

    /// Appends the value's wire bytes.
    fn serialize(&self, buf: &mut Vec<u8>) -> (r: Result<(), SerError>)
        ensures
            r is Ok <==> self.spec_ser_ok(),
            r is Ok ==> final(buf)@ == old(buf)@ + self.spec_wire(),
            r is Err ==> final(buf)@ == old(buf)@ && r->Err_0@ == self.spec_ser_err(),
    ;

    /// The number of bytes that `serialize` appends.
    fn size(&self) -> (r: usize)
        requires
            self.spec_wire().len() <= usize::MAX,
        ensures
            r == self.spec_wire().len(),
    ;

    /// Reads a value from the front of the cursor. A failure is a decoding
    /// error, never a partial value.
    fn deserialize(cur: &mut ReadCursor) -> (r: Result<Self, DeError>)
        requires
            old(cur).wf(),
        ensures
            final(cur).wf(),
            r is Ok <==> Self::spec_de_len(old(cur)@) is Some,
            r is Ok ==> r->Ok_0.spec_de_matches(old(cur)@) && final(cur)@ == old(cur)@.skip(
                Self::spec_de_len(old(cur)@)->Some_0 as int,
            ),
    ;
}

} // verus!
