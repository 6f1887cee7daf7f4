//! What a program leaves behind: the bytes that it printed and its exit status.
use vstd::prelude::*;

use crate::outside::{str_from_utf8, string_from_utf8_lossy};

verus! {

/// Bytes that a program printed.  They may or may not be text.
#[derive(PartialEq, Eq, Debug, Hash)]
pub struct Bytes {
    bytes: Vec<u8>,
}

impl View for Bytes {
    type V = Seq<u8>;

    closed spec fn view(&self) -> Seq<u8> {
        self.bytes@
    }
}

impl Bytes {
    /// The text that the bytes encode, where they are valid UTF-8.
    pub open spec fn text(self) -> Option<Seq<char>> {
        if vstd::utf8::valid_utf8(self@) {
            Some(vstd::utf8::decode_utf8(self@))
        } else {
            None
        }
    }

    /// The bytes themselves.
    pub fn as_bytes(&self) -> (r: &[u8])
        ensures
            r@ == self@,
    {
        self.bytes.as_slice()
    }

    /// Tells whether nothing was printed.
    pub fn is_empty(&self) -> (b: bool)
        ensures
            b == (self@.len() == 0),
    {
        self.bytes.len() == 0
    }

    /// The bytes as text, or `None` if they are no valid UTF-8.
    pub fn as_str(&self) -> (r: Option<&str>)
        ensures
            r is Some <==> self.text() is Some,
            r matches Some(s) ==> Some(s@) == self.text(),
    {
        str_from_utf8(self.bytes.as_slice())
    }

    /// The bytes as text, with whatever is no valid UTF-8 replaced by U+FFFD.
    pub fn to_str_lossy(&self) -> (r: String)
        ensures
            r@ == crate::outside::lossy_text(self@),
            self.text() matches Some(text) ==> r@ == text,
    {
        string_from_utf8_lossy(self.bytes.as_slice())
    }
}

impl Clone for Bytes {
    fn clone(&self) -> (r: Bytes)
        ensures
            r@ == self@,
    {
        Bytes { bytes: vstd::slice::slice_to_vec(self.bytes.as_slice()) }
    }
}

impl vstd::std_specs::convert::FromSpecImpl<Vec<u8>> for Bytes {
    open spec fn obeys_from_spec() -> bool {
        true
    }

    closed spec fn from_spec(bytes: Vec<u8>) -> Bytes {
        Bytes { bytes }
    }
}

impl From<Vec<u8>> for Bytes {
    fn from(bytes: Vec<u8>) -> (r: Bytes)
        ensures
            r@ == bytes@,
    {
        Bytes { bytes }
    }
}

impl vstd::std_specs::convert::FromSpecImpl<String> for Bytes {
    open spec fn obeys_from_spec() -> bool {
        false
    }

    open spec fn from_spec(text: String) -> Bytes {
        arbitrary()
    }
}

impl From<String> for Bytes {
    fn from(text: String) -> (r: Bytes)
        ensures
            r@ == vstd::utf8::encode_utf8(text@),
    {
        Bytes { bytes: text.as_str().as_bytes_vec() }
    }
}

/// What a program printed and how it ended.
#[derive(PartialEq, Eq, Debug, Hash)]
pub struct Output {
    /// The standard output.
    pub stdout: Bytes,
    /// The standard error.
    pub stderr: Bytes,
    /// The exit status.
    pub status: i32,
}

impl Output {
    /// Puts together what a program printed and its exit status.
    pub fn new<A: Into<Bytes>, B: Into<Bytes>>(stdout: A, stderr: B, status: i32) -> (r: Output)
        ensures
            call_ensures(<A as Into<Bytes>>::into, (stdout,), r.stdout),
            call_ensures(<B as Into<Bytes>>::into, (stderr,), r.stderr),
            r.status == status,
    {
        Output { stdout: stdout.into(), stderr: stderr.into(), status }
    }

    /// Tells whether the program ended with exit status 0.
    pub fn success(&self) -> (b: bool)
        ensures
            b == (self.status == 0),
    {
        self.status == 0
    }
}

impl Clone for Output {
    fn clone(&self) -> (r: Output)
        ensures
            r.stdout@ == self.stdout@,
            r.stderr@ == self.stderr@,
            r.status == self.status,
    {
        Output { stdout: self.stdout.clone(), stderr: self.stderr.clone(), status: self.status }
    }
}

/// Bytes made from a text give that text back.
pub proof fn text_survives_as_bytes(text: Seq<char>, bytes: Bytes)
    requires
        bytes@ == vstd::utf8::encode_utf8(text),
    ensures
        bytes.text() == Some(text),
{
    vstd::utf8::encode_utf8_valid_utf8(text);
    vstd::utf8::encode_utf8_decode_utf8(text);
}

/// Bytes are kept as they are given, one by one, and are text exactly if they are valid UTF-8.
pub proof fn bytes_are_kept_as_they_are(
    given: Vec<u8>,
    bytes: Bytes,
    slice: &[u8],
    empty: bool,
    text: Option<&str>,
)
    requires
        call_ensures(<Bytes as From<Vec<u8>>>::from, (given,), bytes),
        call_ensures(Bytes::as_bytes, (&bytes,), slice),
        call_ensures(Bytes::is_empty, (&bytes,), empty),
        call_ensures(Bytes::as_str, (&bytes,), text),
    ensures
        bytes@ == given@,
        slice@ == given@,
        empty <==> given@.len() == 0,
        text is Some <==> vstd::utf8::valid_utf8(given@),
        text matches Some(text) ==> vstd::utf8::encode_utf8(text@) == given@,
{
    if vstd::utf8::valid_utf8(given@) {
        vstd::utf8::decode_utf8_encode_utf8(given@);
    }
}

/// A text can be read back from the bytes that were made from it.
pub proof fn text_is_read_back(given: String, bytes: Bytes, text: Option<&str>, lossy: String)
    requires
        call_ensures(<Bytes as From<String>>::from, (given,), bytes),
        call_ensures(Bytes::as_str, (&bytes,), text),
        call_ensures(Bytes::to_str_lossy, (&bytes,), lossy),
    ensures
        text is Some,
        text->0@ == given@,
        lossy@ == given@,
{
    text_survives_as_bytes(given@, bytes);
}

/// An output is put together from the bytes of the two streams, each in its place, and the status; it
/// is a success exactly if the status is 0.
pub proof fn outputs_keep_both_streams_apart(
    stdout: Vec<u8>,
    stderr: Vec<u8>,
    status: i32,
    output: Output,
    success: bool,
)
    requires
        call_ensures(Output::new::<Vec<u8>, Vec<u8>>, (stdout, stderr, status), output),
        call_ensures(Output::success, (&output,), success),
    ensures
        output.stdout@ == stdout@,
        output.stderr@ == stderr@,
        output.status == status,
        success <==> status == 0,
{
}

/// A copy of bytes holds the same bytes, and a copy of an output the same streams and status.
pub proof fn copies_of_outputs_are_the_same(
    bytes: Bytes,
    bytes_copy: Bytes,
    output: Output,
    output_copy: Output,
)
    requires
        call_ensures(<Bytes as Clone>::clone, (&bytes,), bytes_copy),
        call_ensures(<Output as Clone>::clone, (&output,), output_copy),
    ensures
        bytes_copy@ == bytes@,
        output_copy.stdout@ == output.stdout@,
        output_copy.stderr@ == output.stderr@,
        output_copy.status == output.status,
{
}

/// An output is put together from its two streams, each as it is converted on its own.
pub proof fn outputs_are_what_they_are_made_from<A: Into<Bytes>, B: Into<Bytes>>(
    stdout: A,
    stderr: B,
    status: i32,
    output: Output,
)
    requires
        call_ensures(Output::new::<A, B>, (stdout, stderr, status), output),
    ensures
        call_ensures(<A as Into<Bytes>>::into, (stdout,), output.stdout),
        call_ensures(<B as Into<Bytes>>::into, (stderr,), output.stderr),
        output.status == status,
{
}

} // verus!
