//! Byte buffers as they are handed to the foreign component and read back
//! from it.

use crate::os::{CP_ACP, CP_UTF8};
use vstd::prelude::*;
use vstd::slice::slice_to_vec;
use vstd::string::StringSliceAdditionalSpecFns;

verus! {

/// A contiguous run of bytes, with the code page of the text it holds where
/// that is known.
#[derive(Debug)]
pub struct Blob {
    bytes: Vec<u8>,
    encoding: Option<u32>,
}

impl Blob {
    /// The bytes of the blob.
    pub closed spec fn bytes(&self) -> Seq<u8> {
        self.bytes@
    }

    /// The code page that the blob is tagged with, if any.
    pub closed spec fn code_page(&self) -> Option<u32> {
        self.encoding
    }

    /// Wraps a copy of `data`, with no word on what it encodes.
    pub fn new(data: &[u8]) -> (blob: Blob)
        ensures
            blob.bytes() == data@,
            blob.code_page() is None,
    {
        Blob { bytes: slice_to_vec(data), encoding: None }
    }

    /// Wraps a copy of `data` as text in `code_page`.
    pub fn with_encoding(data: &[u8], code_page: u32) -> (blob: Blob)
        ensures
            blob.bytes() == data@,
            blob.code_page() == Some(code_page),
    {
        Blob { bytes: slice_to_vec(data), encoding: Some(code_page) }
    }

    /// Wraps the UTF-8 bytes of `text`, tagged as such.
    pub fn from_text(text: &str) -> (blob: Blob)
        ensures
            blob.bytes() == vstd::utf8::encode_utf8(text@),
            blob.code_page() == Some(CP_UTF8),
    {
        Blob { bytes: slice_to_vec(text.as_bytes()), encoding: Some(CP_UTF8) }
    }

    /// The blob's bytes, in place.
    pub fn as_slice(&self) -> (data: &[u8])
        ensures
            data@ == self.bytes(),
    {
        self.bytes.as_slice()
    }

    /// How many bytes the blob holds.
    pub fn len(&self) -> (n: usize)
        ensures
            n == self.bytes().len(),
    {
        self.bytes.len()
    }

    /// The code page that the blob is tagged with, if any.
    pub fn encoding(&self) -> (code_page: Option<u32>)
        ensures
            code_page == self.code_page(),
    {
        self.encoding
    }

    /// The code page to name to the foreign component when the blob is handed
    /// over: the blob's own, and `CP_ACP` where it has none.
    pub fn declared_code_page(&self) -> (code_page: u32)
        ensures
            code_page == match self.code_page() {
                Some(own) => own,
                None => CP_ACP,
            },
    {
        match self.encoding {
            Some(own) => own,
            None => CP_ACP,
        }
    }

    /// A copy of the blob's bytes.
    pub fn to_vec(&self) -> (data: Vec<u8>)
        ensures
            data@ == self.bytes(),
    {
        slice_to_vec(self.bytes.as_slice())
    }

    /// The blob's bytes, taken out of it.
    pub fn into_vec(self) -> (data: Vec<u8>)
        ensures
            data@ == self.bytes(),
    {
        self.bytes
    }
}

} // verus!
