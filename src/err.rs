//! The error taxonomy: encoding failures, decoding failures, and protocol
//! failures. Lower-level failures are carried up by their message text.
use vstd::prelude::*;

verus! {

/// Protocol-level failure.
#[derive(Debug)]
pub enum NlError {
    /// A message carried up from a lower-level failure.
    Msg(String),
    /// No acknowledgment arrived where one was requested.
    NoAck,
}

/// Text that describes a missing acknowledgment.
pub open spec fn no_ack_text() -> Seq<char> {
    "No ack received"@
}

impl NlError {
    /// Creates a message error from text.
    pub fn new(s: &str) -> (r: Self)
        ensures
            r is Msg,
            r->Msg_0@ == s@,
    {
        NlError::Msg(s.to_owned())
    }

    /// The text that describes the error.
    pub open spec fn spec_description(&self) -> Seq<char> {
        match self {
            NlError::Msg(m) => m@,
            NlError::NoAck => no_ack_text(),
        }
    }

    /// The text that describes the error.
    pub fn description(&self) -> (r: &str)
        ensures
            r@ == self.spec_description(),
    {
        match self {
            NlError::Msg(m) => m.as_str(),
            NlError::NoAck => {
                proof {
                    reveal_strlit("No ack received");
                }
                "No ack received"
            },
        }
    }
}

/// Encoding failure: a value cannot be represented in its declared width,
/// or the write target refused the write.
#[derive(Debug)]
pub struct SerError(String);

impl View for SerError {
    type V = Seq<char>;

    closed spec fn view(&self) -> Seq<char> {
        self.0@
    }
}

impl SerError {
    /// Creates an error with the given text as its description.
    pub fn new(msg: &str) -> (r: Self)
        ensures
            r@ == msg@,
    {
        SerError(msg.to_owned())
    }

    /// The text that describes the error.
    pub fn description(&self) -> (r: &str)
        ensures
            r@ == self@,
    {
        self.0.as_str()
    }
}

/// Decoding failure: truncated input, a malformed length field, or text
/// that is not valid.
#[derive(Debug)]
pub struct DeError(String);

impl View for DeError {
    type V = Seq<char>;

    closed spec fn view(&self) -> Seq<char> {
        self.0@
    }
}

impl DeError {
    /// Creates an error with the given text as its description.
    pub fn new(s: &str) -> (r: Self)
        ensures
            r@ == s@,
    {
        DeError(s.to_owned())
    }

    /// The text that describes the error.
    pub fn description(&self) -> (r: &str)
        ensures
            r@ == self@,
    {
        self.0.as_str()
    }
}

impl From<SerError> for NlError {
    fn from(v: SerError) -> (r: NlError) {
        NlError::Msg(v.0)
    }
}

impl vstd::std_specs::convert::FromSpecImpl<SerError> for NlError {
    open spec fn obeys_from_spec() -> bool {
        true
    }

    closed spec fn from_spec(v: SerError) -> NlError {
        NlError::Msg(v.0)
    }
}

impl From<DeError> for NlError {
    fn from(v: DeError) -> (r: NlError) {
        NlError::Msg(v.0)
    }
}

impl vstd::std_specs::convert::FromSpecImpl<DeError> for NlError {
    open spec fn obeys_from_spec() -> bool {
        true
    }

    closed spec fn from_spec(v: DeError) -> NlError {
        NlError::Msg(v.0)
    }
}

/// Carrying an encoding or decoding failure up as a protocol failure gives
/// a message error that keeps its text.
pub proof fn lemma_conversions_keep_text(s: SerError, d: DeError)
    ensures
        <NlError as vstd::std_specs::convert::FromSpec<SerError>>::from_spec(s) is Msg,
        <NlError as vstd::std_specs::convert::FromSpec<DeError>>::from_spec(d) is Msg,
        <NlError as vstd::std_specs::convert::FromSpec<SerError>>::from_spec(s).spec_description() == s@,
        <NlError as vstd::std_specs::convert::FromSpec<DeError>>::from_spec(d).spec_description() == d@,
{
}

} // verus!
