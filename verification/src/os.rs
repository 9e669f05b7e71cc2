//! The platform's names for the values that cross the foreign boundary.

use vstd::prelude::*;

verus! {

/// The status that every foreign call returns.
#[allow(clippy::upper_case_acronyms)]
pub type HRESULT = i32;

/// The one status that reports success.
pub const S_OK: HRESULT = 0i32;

/// The status of a lookup that found nothing under the name it was given.
pub const E_FILE_NOT_FOUND: HRESULT = -2147024894i32;

/// The status of a call that was handed an argument it cannot use.
pub const E_INVALIDARG: HRESULT = -2147024809i32;

/// The code page of bytes whose encoding is not known.
pub const CP_ACP: u32 = 0u32;

/// The code page of UTF-8 text.
pub const CP_UTF8: u32 = 65001u32;

/// Whether `hr` reports success.
pub open spec fn succeeded(hr: HRESULT) -> bool {
    hr == S_OK
}

/// Turns a status into a `Result`: nothing on success, the status itself
/// otherwise.
pub fn check_hresult(hr: HRESULT) -> (r: Result<(), HRESULT>)
    ensures
        succeeded(hr) ==> r == Ok::<(), HRESULT>(()),
        !succeeded(hr) ==> r == Err::<(), HRESULT>(hr),
{
    if hr == S_OK {
        Ok(())
    } else {
        Err(hr)
    }
}

/// `core::str::Utf8Error`, which says where a byte sequence stops being
/// UTF-8. This crate only carries it.
#[verifier::external_type_specification]
#[verifier::external_body]
pub struct ExUtf8Error(core::str::Utf8Error);

/// `libloading::Error`, the platform loader's account of a library or a
/// symbol that it could not provide. This crate only carries it.
#[verifier::external_type_specification]
#[verifier::external_body]
pub struct ExLoaderError(libloading::Error);

/// The error that `core::str::from_utf8` returns for `bytes`.
pub uninterp spec fn utf8_error(bytes: Seq<u8>) -> core::str::Utf8Error;

/// `core::str::from_utf8` accepts exactly the byte sequences that are UTF-8,
/// and the `str` it returns is made of the bytes it was given. The error it
/// returns for the others depends on the bytes alone.
pub assume_specification[ core::str::from_utf8 ](v: &[u8]) -> (r: Result<
    &str,
    core::str::Utf8Error,
>)
    ensures
        r is Ok <==> vstd::utf8::valid_utf8(v@),
        r is Ok ==> vstd::utf8::encode_utf8(r->Ok_0@) == v@,
        r is Err ==> r->Err_0 == utf8_error(v@),
;

/// The text that `bytes` spell in UTF-8, or why they spell none.
pub open spec fn text_of_utf8(bytes: Seq<u8>) -> Result<Seq<char>, core::str::Utf8Error> {
    if vstd::utf8::valid_utf8(bytes) {
        Ok(vstd::utf8::decode_utf8(bytes))
    } else {
        Err(utf8_error(bytes))
    }
}

/// Reads `bytes` as UTF-8 text.
pub fn decode_utf8_text(bytes: &[u8]) -> (r: Result<String, core::str::Utf8Error>)
    ensures
        match r {
            Ok(text) => text_of_utf8(bytes@) == Ok::<Seq<char>, core::str::Utf8Error>(text@),
            Err(e) => text_of_utf8(bytes@) == Err::<Seq<char>, core::str::Utf8Error>(e),
        },
{
    match core::str::from_utf8(bytes) {
        Ok(text) => {
            proof {
                vstd::utf8::encode_utf8_decode_utf8(text@);
            }
            Ok(text.to_owned())
        },
        Err(e) => Err(e),
    }
}

} // verus!
