//! Strings across the foreign boundary, and the two workflows that most
//! callers want: compiling a source text and validating a container.

use crate::blob::Blob;
use crate::ffi::DxcDefine;
use crate::handler::DxcIncludeHandler;
use crate::os::{decode_utf8_text, text_of_utf8, CP_UTF8};
use crate::session::{CompileCall, CompileSession, Module, Request, ValidateSession};
use crate::wide::{
    decode, encode, lemma_decode_encode, lemma_encode_nul_free, lemma_encode_until_nul,
    lemma_nul_position, lemma_nul_position_is, nul_position, until_nul, WideCode, WideUnit,
};
use vstd::prelude::*;
use vstd::slice::slice_subrange;

verus! {

/// Why a text cannot be handed to a C caller: it holds a nul character, which
/// the caller would take for the end. `position` is that of the first one,
/// counted in code units.
#[derive(Debug, Clone, Copy, PartialEq, Eq)]
pub struct NulError {
    pub position: usize,
}

/// Why a wide string cannot be read: its code units are no text.
#[derive(Debug, Clone, Copy, PartialEq, Eq)]
pub struct FromWideError {}

/// How the foreign component lays out the strings that it allocates for its
/// caller.
#[derive(Debug, Clone, Copy, PartialEq, Eq)]
pub enum BstrLayout {
    /// The length is stored in front of the units, so the string may hold
    /// nul units; the caller reads the length and hands over that many units.
    LengthPrefixed,
    /// No length is stored: the string ends at its first nul unit.
    NulTerminated,
}

/// The nul-terminated wide string of `text`: its code units and a terminator.
pub open spec fn terminated<W: WideCode>(text: Seq<char>) -> Seq<W> {
    encode::<W>(text).push(W::nul())
}

/// The wide string that stands for `text` at the foreign boundary: its code
/// units and the terminator behind them, if none of the units is the
/// terminator already.
pub open spec fn wide_of<W: WideCode>(text: Seq<char>) -> Option<Seq<W>> {
    if text.contains('\0') {
        None
    } else {
        Some(terminated::<W>(text))
    }
}

/// The text of a nul-terminated wide string: what the units before the first
/// terminator encode.
pub open spec fn text_of_wide<W: WideCode>(wide: Seq<W>) -> Option<Seq<char>> {
    decode::<W>(until_nul(wide, W::nul()))
}

/// The text of a string that the foreign component allocated, under the
/// layout that it keeps to.
pub open spec fn text_of_bstr<W: WideCode>(string: Seq<W>, layout: BstrLayout) -> Option<
    Seq<char>,
> {
    match layout {
        BstrLayout::LengthPrefixed => decode::<W>(string),
        BstrLayout::NulTerminated => text_of_wide::<W>(string),
    }
}

/// The text of a nul-terminated string of single bytes: what the bytes before
/// the first zero spell in UTF-8.
pub open spec fn text_of_narrow(string: Seq<u8>) -> Result<Seq<char>, core::str::Utf8Error> {
    text_of_utf8(until_nul(string, 0u8))
}

/// Encodes `msg` as a nul-terminated wide string: its code units, and the
/// terminator behind them.
///
/// Fails on the texts that hold a nul character, and on no others.
pub fn to_wide<W: WideUnit>(msg: &str) -> (r: Result<Vec<W>, NulError>)
    ensures
        match r {
            Ok(wide) => refused::<W>(msg@) is None && wide@ == terminated::<W>(msg@),
            Err(e) => refused::<W>(msg@) == Some(e),
        },
        r is Ok ==> wide_of::<W>(msg@) == Some(r->Ok_0@),
        r is Err ==> wide_of::<W>(msg@) is None,
{
    proof {
        lemma_encode_nul_free::<W>(msg@);
        lemma_nul_position(encode::<W>(msg@), W::nul());
    }
    match W::encode_str(msg) {
        Ok(units) => {
            let mut wide = units;
            wide.push(W::terminator());
            Ok(wide)
        },
        Err(position) => Err(NulError { position }),
    }
}

/// The number of units in front of the first terminator of `wide`.
fn wide_len<W: WideUnit>(wide: &[W]) -> (n: usize)
    ensures
        n == nul_position(wide@, W::nul()),
        n <= wide@.len(),
{
    let mut i: usize = 0;
    while i < wide.len() && !wide[i].is_nul()
        invariant
            i <= wide@.len(),
            forall|j: int| 0 <= j < i ==> wide@[j] != W::nul(),
        decreases wide@.len() - i,
    {
        i += 1;
    }
    proof {
        lemma_nul_position_is(wide@, W::nul(), i as int);
    }
    i
}

/// Decodes all of `units`.
fn decode_all<W: WideUnit>(units: &[W]) -> (r: Result<String, FromWideError>)
    ensures
        match r {
            Ok(text) => decode::<W>(units@) == Some(text@),
            Err(_) => decode::<W>(units@) is None,
        },
{
    match W::decode_units(units) {
        Some(text) => {
            proof {
                lemma_decode_encode::<W>(text@);
            }
            Ok(text)
        },
        None => Err(FromWideError {  }),
    }
}

/// Reads a nul-terminated wide string: the text of the units in front of the
/// first terminator, or of all units where the slice ends before one.
pub fn from_wide<W: WideUnit>(wide: &[W]) -> (r: Result<String, FromWideError>)
    ensures
        match r {
            Ok(text) => text_of_wide::<W>(wide@) == Some(text@),
            Err(_) => text_of_wide::<W>(wide@) is None,
        },
{
    let n = wide_len(wide);
    decode_all(slice_subrange(wide, 0, n))
}

/// Reads a string that the foreign component allocated.
///
/// Under [`BstrLayout::LengthPrefixed`] `string` is the units that the prefix
/// counts, and all of them are read, nul units too. Under
/// [`BstrLayout::NulTerminated`] the string is read as [`from_wide`] reads
/// it, so that it ends at its first nul unit.
pub fn from_bstr<W: WideUnit>(string: &[W], layout: BstrLayout) -> (r: Result<
    String,
    FromWideError,
>)
    ensures
        match r {
            Ok(text) => text_of_bstr::<W>(string@, layout) == Some(text@),
            Err(_) => text_of_bstr::<W>(string@, layout) is None,
        },
{
    match layout {
        BstrLayout::LengthPrefixed => decode_all(string),
        BstrLayout::NulTerminated => from_wide(string),
    }
}

/// The number of bytes in front of the first zero of `string`.
fn narrow_len(string: &[u8]) -> (n: usize)
    ensures
        n == nul_position(string@, 0u8),
        n <= string@.len(),
{
    let mut i: usize = 0;
    while i < string.len() && string[i] != 0
        invariant
            i <= string@.len(),
            forall|j: int| 0 <= j < i ==> string@[j] != 0u8,
        decreases string@.len() - i,
    {
        i += 1;
    }
    proof {
        lemma_nul_position_is(string@, 0u8, i as int);
    }
    i
}

/// Reads a nul-terminated string of single bytes as UTF-8: the bytes in front
/// of the first zero, or all bytes where the slice ends before one.
pub fn from_lpstr(string: &[u8]) -> (r: Result<String, core::str::Utf8Error>)
    ensures
        match r {
            Ok(text) => text_of_narrow(string@) == Ok::<Seq<char>, core::str::Utf8Error>(text@),
            Err(e) => text_of_narrow(string@) == Err::<Seq<char>, core::str::Utf8Error>(e),
        },
{
    let n = narrow_len(string);
    decode_utf8_text(slice_subrange(string, 0, n))
}

/// A text without a nul character comes back from the foreign side as it
/// went: what [`from_wide`] reads from the nul-terminated string that
/// [`to_wide`] made of it, whatever else stands behind the terminator, is the
/// text.
pub proof fn lemma_wide_round_trip<W: WideCode>(text: Seq<char>, behind: Seq<W>)
    requires
        !text.contains('\0'),
    ensures
        wide_of::<W>(text) == Some(terminated::<W>(text)),
        text_of_wide::<W>(wide_of::<W>(text)->Some_0) == Some(text),
        text_of_wide::<W>(wide_of::<W>(text)->Some_0 + behind) == Some(text),
{
    let wide = encode::<W>(text);
    lemma_encode_nul_free::<W>(text);
    lemma_nul_position(wide, W::nul());
    lemma_decode_encode::<W>(text);
    let longer = terminated::<W>(text) + behind;
    assert(longer[wide.len() as int] == W::nul());
    assert forall|i: int| 0 <= i < wide.len() implies longer[i] != W::nul() by {
        assert(longer[i] == wide[i]);
    }
    lemma_nul_position_is(longer, W::nul(), wide.len() as int);
    assert(longer.take(wide.len() as int) =~= wide);
    let exact = terminated::<W>(text);
    assert(exact + Seq::<W>::empty() =~= exact);
    assert forall|i: int| 0 <= i < wide.len() implies exact[i] != W::nul() by {
        assert(exact[i] == wide[i]);
    }
    lemma_nul_position_is(exact, W::nul(), wide.len() as int);
    assert(exact.take(wide.len() as int) =~= wide);
}

/// Where the foreign component keeps to the length prefix, every text comes
/// back from its code units whole, nul characters and what follows them too.
pub proof fn lemma_bstr_length_prefixed<W: WideCode>(text: Seq<char>)
    ensures
        text_of_bstr::<W>(encode::<W>(text), BstrLayout::LengthPrefixed) == Some(text),
{
    lemma_decode_encode::<W>(text);
}

/// Where it does not, a text comes back from its code units only as far as
/// its first nul character, which is left out.
pub proof fn lemma_bstr_nul_terminated<W: WideCode>(text: Seq<char>)
    ensures
        text_of_bstr::<W>(encode::<W>(text), BstrLayout::NulTerminated) == Some(
            until_nul(text, '\0'),
        ),
{
    lemma_encode_until_nul::<W>(text);
    lemma_decode_encode::<W>(until_nul(text, '\0'));
}

/// Why `text` cannot be marshaled, if it cannot.
pub open spec fn refused<W: WideCode>(text: Seq<char>) -> Option<NulError> {
    if text.contains('\0') {
        Some(NulError { position: nul_position(encode::<W>(text), W::nul()) as usize })
    } else {
        None
    }
}

/// The first of two refusals.
pub open spec fn or_else(first: Option<NulError>, second: Option<NulError>) -> Option<NulError> {
    if first is Some {
        first
    } else {
        second
    }
}

/// What `f` has against the first of `items` that it has anything against.
pub open spec fn first_some<T>(items: Seq<T>, f: spec_fn(T) -> Option<NulError>) -> Option<
    NulError,
>
    decreases items.len(),
{
    if items.len() == 0 {
        None
    } else {
        or_else(first_some(items.drop_last(), f), f(items.last()))
    }
}

/// Why one definition cannot be marshaled: for its name, else for its value.
pub open spec fn define_refused<W: WideCode>(define: (&str, Option<&str>)) -> Option<NulError> {
    or_else(
        refused::<W>(define.0@),
        match define.1 {
            Some(value) => refused::<W>(value@),
            None => None,
        },
    )
}

/// [`refused`], of an argument.
pub open spec fn arg_refused<'a, W: WideCode>() -> spec_fn(&'a str) -> Option<NulError> {
    |arg: &str| refused::<W>(arg@)
}

/// [`define_refused`], as a function.
pub open spec fn any_define_refused<'a, W: WideCode>() -> spec_fn(
    (&'a str, Option<&'a str>),
) -> Option<NulError> {
    |define: (&str, Option<&str>)| define_refused::<W>(define)
}

/// Why a compiler call cannot be marshaled: the refusal of the first text
/// that holds a nul character, going through the source name, the entry
/// point, the target profile, the arguments and the definitions in this
/// order.
pub open spec fn call_refused<W: WideCode>(
    source_name: &str,
    entry_point: &str,
    target_profile: &str,
    args: Seq<&str>,
    defines: Seq<(&str, Option<&str>)>,
) -> Option<NulError> {
    or_else(
        refused::<W>(source_name@),
        or_else(
            refused::<W>(entry_point@),
            or_else(
                refused::<W>(target_profile@),
                or_else(
                    first_some(args, arg_refused::<W>()),
                    first_some(defines, any_define_refused::<W>()),
                ),
            ),
        ),
    )
}

/// Whether `call` holds the given texts, each as a nul-terminated wide
/// string.
pub open spec fn marshaled<W: WideCode>(
    call: &CompileCall<W>,
    source_name: &str,
    entry_point: &str,
    target_profile: &str,
    args: Seq<&str>,
    defines: Seq<(&str, Option<&str>)>,
) -> bool {
    &&& call.source_name@ == terminated::<W>(source_name@)
    &&& call.entry_point@ == terminated::<W>(entry_point@)
    &&& call.target_profile@ == terminated::<W>(target_profile@)
    &&& call.arguments@.len() == args.len()
    &&& forall|i: int|
        0 <= i < args.len() ==> (#[trigger] call.arguments@[i])@ == terminated::<W>(args[i]@)
    &&& call.defines@.len() == defines.len()
    &&& forall|i: int|
        0 <= i < defines.len() ==> {
            &&& (#[trigger] call.defines@[i]).name_units() == terminated::<W>(defines[i].0@)
            &&& call.defines@[i].value_units() == match defines[i].1 {
                Some(value) => Some(terminated::<W>(value@)),
                None => None,
            }
        }
}

/// A refusal among the first `n` items is the refusal of them all.
proof fn lemma_first_some_prefix<T>(items: Seq<T>, f: spec_fn(T) -> Option<NulError>, n: int)
    requires
        0 <= n <= items.len(),
        first_some(items.take(n), f) is Some,
    ensures
        first_some(items, f) == first_some(items.take(n), f),
    decreases items.len() - n,
{
    if n < items.len() {
        assert(items.take(n + 1).drop_last() =~= items.take(n));
        lemma_first_some_prefix(items, f, n + 1);
    } else {
        assert(items.take(n) =~= items);
    }
}

/// Marshals the texts of a compiler call, in the order of [`call_refused`],
/// as far as the first that cannot be marshaled.
fn marshal_call<W: WideUnit>(
    source_name: &str,
    entry_point: &str,
    target_profile: &str,
    args: &[&str],
    defines: &[(&str, Option<&str>)],
) -> (r: Result<CompileCall<W>, NulError>)
    ensures
        match r {
            Ok(call) => {
                &&& call_refused::<W>(source_name, entry_point, target_profile, args@, defines@)
                    is None
                &&& marshaled::<W>(&call, source_name, entry_point, target_profile, args@, defines@)
            },
            Err(e) => call_refused::<W>(source_name, entry_point, target_profile, args@, defines@)
                == Some(e),
        },
{
    let wide_name = match to_wide::<W>(source_name) {
        Ok(wide) => wide,
        Err(e) => {
            return Err(e);
        },
    };
    let wide_entry = match to_wide::<W>(entry_point) {
        Ok(wide) => wide,
        Err(e) => {
            return Err(e);
        },
    };
    let wide_profile = match to_wide::<W>(target_profile) {
        Ok(wide) => wide,
        Err(e) => {
            return Err(e);
        },
    };
    let mut arguments: Vec<Vec<W>> = Vec::new();
    let mut i: usize = 0;
    while i < args.len()
        invariant
            i <= args@.len(),
            arguments@.len() == i,
            refused::<W>(source_name@) is None,
            refused::<W>(entry_point@) is None,
            refused::<W>(target_profile@) is None,
            first_some(args@.take(i as int), arg_refused::<W>()) is None,
            forall|j: int|
                0 <= j < i ==> (#[trigger] arguments@[j])@ == terminated::<W>(args@[j]@),
        decreases args@.len() - i,
    {
        proof {
            assert(args@.take(i + 1).drop_last() =~= args@.take(i as int));
            assert(args@.take(i + 1).last() == args@[i as int]);
        }
        match to_wide::<W>(args[i]) {
            Ok(wide) => {
                arguments.push(wide);
            },
            Err(e) => {
                proof {
                    lemma_first_some_prefix(args@, arg_refused::<W>(), i + 1);
                }
                return Err(e);
            },
        }
        i += 1;
    }
    proof {
        assert(args@.take(i as int) =~= args@);
    }
    let mut wide_defines: Vec<DxcDefine<W>> = Vec::new();
    let mut k: usize = 0;
    while k < defines.len()
        invariant
            k <= defines@.len(),
            wide_defines@.len() == k,
            refused::<W>(source_name@) is None,
            refused::<W>(entry_point@) is None,
            refused::<W>(target_profile@) is None,
            first_some(args@, arg_refused::<W>()) is None,
            first_some(defines@.take(k as int), any_define_refused::<W>()) is None,
            forall|j: int|
                0 <= j < k ==> {
                    &&& (#[trigger] wide_defines@[j]).name_units() == terminated::<W>(
                        defines@[j].0@,
                    )
                    &&& wide_defines@[j].value_units() == match defines@[j].1 {
                        Some(value) => Some(terminated::<W>(value@)),
                        None => None,
                    }
                },
        decreases defines@.len() - k,
    {
        proof {
            assert(defines@.take(k + 1).drop_last() =~= defines@.take(k as int));
            assert(defines@.take(k + 1).last() == defines@[k as int]);
        }
        let define = &defines[k];
        let name = match to_wide::<W>(define.0) {
            Ok(wide) => wide,
            Err(e) => {
                proof {
                    lemma_first_some_prefix(defines@, any_define_refused::<W>(), k + 1);
                }
                return Err(e);
            },
        };
        let value = match define.1 {
            Some(text) => match to_wide::<W>(text) {
                Ok(wide) => Some(wide),
                Err(e) => {
                    proof {
                        lemma_first_some_prefix(defines@, any_define_refused::<W>(), k + 1);
                    }
                    return Err(e);
                },
            },
            None => None,
        };
        wide_defines.push(DxcDefine { name, value });
        k += 1;
    }
    proof {
        assert(defines@.take(k as int) =~= defines@);
    }
    Ok(
        CompileCall {
            source_name: wide_name,
            entry_point: wide_entry,
            target_profile: wide_profile,
            arguments,
            defines: wide_defines,
        },
    )
}

/// Begins the compilation of `shader_text`, known to the compiler as
/// `source_name`, from `entry_point` for `target_profile`, with `args` as
/// further arguments and `defines` as preprocessor definitions.
///
/// The session that is returned says which calls to make of the foreign
/// component, has `handler` attached to the compiler call to answer its
/// requests for further sources, and ends with the compiled bytes or with
/// the compiler's diagnostics.
///
/// The texts are marshaled here. One that holds a nul character cannot be
/// handed to the compiler; the session then goes as any other until the
/// source is wrapped, and ends with the refusal in place of the compiler
/// call.
pub fn compile_hlsl<W: WideUnit, H: DxcIncludeHandler>(
    source_name: &str,
    shader_text: &str,
    entry_point: &str,
    target_profile: &str,
    args: &[&str],
    defines: &[(&str, Option<&str>)],
    handler: H,
) -> (session: CompileSession<W, H>)
    ensures
        session.spec_request() == Some(Request::LoadModule(Module::Compiler)),
        session.spec_source().bytes() == vstd::utf8::encode_utf8(shader_text@),
        session.spec_source().code_page() == Some(CP_UTF8),
        *session.spec_server().handler() == handler,
        session.spec_server().asked() == Seq::<Seq<char>>::empty(),
        session.spec_refusal() == call_refused::<W>(
            source_name,
            entry_point,
            target_profile,
            args@,
            defines@,
        ),
        session.spec_refusal() is None ==> marshaled::<W>(
            session.spec_call(),
            source_name,
            entry_point,
            target_profile,
            args@,
            defines@,
        ),
{
    let marshaled = marshal_call::<W>(source_name, entry_point, target_profile, args, defines);
    CompileSession::new(Blob::from_text(shader_text), marshaled, handler)
}

/// Begins the validation of the container in `data`.
///
/// The session that is returned says which calls to make of the foreign
/// component, and ends with the bytes of the container as the validator left
/// them or with the validator's diagnostics.
pub fn validate_dxil(data: &[u8]) -> (session: ValidateSession)
    ensures
        session.spec_request() == Some(Request::LoadModule(Module::Compiler)),
        session.spec_container().bytes() == data@,
        session.spec_container().code_page() is None,
{
    ValidateSession::new(Blob::new(data))
}

} // verus!
