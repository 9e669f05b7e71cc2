//! Wide-character code units and the text they stand for.
//!
//! The foreign component speaks in `wchar_t` strings: sixteen-bit units
//! holding UTF-16 where `wchar_t` is sixteen bits wide, thirty-two-bit units
//! holding one scalar value each where it is thirty-two bits wide. Both widths
//! implement [`WideUnit`], and everything else in this crate is written once,
//! over that trait. [`WideCode`] is its mathematical half: which units stand
//! for which character.

use vstd::prelude::*;

verus! {

/// How text is written in code units of one width.
pub trait WideCode: Copy + Sized {
    /// The unit that terminates a string.
    spec fn nul() -> Self;

    /// The units that stand for one character.
    spec fn units_of(c: char) -> Seq<Self>;

    /// Every character takes at least one unit, and the terminator occurs in
    /// the units of the nul character only, which is the terminator alone.
    proof fn lemma_units_of(c: char)
        ensures
            Self::units_of(c).len() > 0,
            c == '\0' ==> Self::units_of(c) == seq![Self::nul()],
            c != '\0' ==> !Self::units_of(c).contains(Self::nul()),
    ;

    /// No character's units begin another character's units: a unit sequence
    /// that starts with the units of `a` and also with those of `b` has
    /// `a == b`.
    proof fn lemma_units_prefix_free(a: char, b: char, x: Seq<Self>, y: Seq<Self>)
        requires
            Self::units_of(a) + x == Self::units_of(b) + y,
        ensures
            a == b,
    ;
}

/// A code unit of a wide-character string, with the conversions that the
/// `widestring` crate has for its width.
pub trait WideUnit: WideCode {
    /// The terminator.
    fn terminator() -> (unit: Self)
        ensures
            unit == Self::nul(),
    ;

    /// Whether this unit is the terminator.
    fn is_nul(&self) -> (b: bool)
        ensures
            b == (*self == Self::nul()),
    ;

    /// Encodes `text` for a C caller: its units without a terminator, or the
    /// position of the first unit that a C caller would take for one.
    fn encode_str(text: &str) -> (r: Result<Vec<Self>, usize>)
        ensures
            match r {
                Ok(units) => units@ == encode::<Self>(text@) && nul_position(
                    units@,
                    Self::nul(),
                ) == units@.len(),
                Err(position) => position < encode::<Self>(text@).len() && position
                    == nul_position(encode::<Self>(text@), Self::nul()),
            },
    ;

    /// Decodes `units`, all of them, if they are the encoding of some text.
    fn decode_units(units: &[Self]) -> (r: Option<String>)
        ensures
            match r {
                Some(text) => encode::<Self>(text@) == units@,
                None => !is_text::<Self>(units@),
            },
    ;
}

/// The code units of `text`: those of its characters, one after another.
pub open spec fn encode<W: WideCode>(text: Seq<char>) -> Seq<W>
    decreases text.len(),
{
    if text.len() == 0 {
        Seq::empty()
    } else {
        W::units_of(text[0]) + encode::<W>(text.drop_first())
    }
}

/// Whether `units` is the encoding of some text.
pub open spec fn is_text<W: WideCode>(units: Seq<W>) -> bool {
    exists|text: Seq<char>| #[trigger] encode::<W>(text) == units
}

/// The text that `units` encodes, if there is one. There is at most one:
/// see [`lemma_encode_injective`].
pub open spec fn decode<W: WideCode>(units: Seq<W>) -> Option<Seq<char>> {
    if is_text::<W>(units) {
        Some(choose|text: Seq<char>| #[trigger] encode::<W>(text) == units)
    } else {
        None
    }
}

/// The index of the first `nul` in `s`, or the length of `s` if it holds none.
pub open spec fn nul_position<T>(s: Seq<T>, nul: T) -> int
    decreases s.len(),
{
    if s.len() == 0 || s[0] == nul {
        0
    } else {
        1 + nul_position(s.drop_first(), nul)
    }
}

/// What a C reader sees of `s`: the items before the first `nul`, all of them
/// if there is none.
pub open spec fn until_nul<T>(s: Seq<T>, nul: T) -> Seq<T> {
    s.take(nul_position(s, nul))
}

/// `nul_position` is within `s`, nothing before it is `nul`, and unless it is
/// the length of `s` the item there is `nul`.
pub proof fn lemma_nul_position<T>(s: Seq<T>, nul: T)
    ensures
        0 <= nul_position(s, nul) <= s.len(),
        forall|i: int| 0 <= i < nul_position(s, nul) ==> s[i] != nul,
        nul_position(s, nul) < s.len() ==> s[nul_position(s, nul)] == nul,
        nul_position(s, nul) == s.len() <==> !s.contains(nul),
    decreases s.len(),
{
    if s.len() == 0 || s[0] == nul {
    } else {
        let rest = s.drop_first();
        lemma_nul_position(rest, nul);
        let p = nul_position(rest, nul);
        assert forall|i: int| 0 <= i < p + 1 implies s[i] != nul by {
            if i > 0 {
                assert(s[i] == rest[i - 1]);
            }
        }
        if p < rest.len() {
            assert(s[p + 1] == rest[p]);
        }
        if s.contains(nul) {
            let k = choose|k: int| 0 <= k < s.len() && s[k] == nul;
            assert(rest[k - 1] == s[k]);
        }
        if rest.contains(nul) {
            let k = choose|k: int| 0 <= k < rest.len() && rest[k] == nul;
            assert(s[k + 1] == rest[k]);
        }
    }
}

/// A position that holds `nul` or is the end of `s`, with nothing `nul` before
/// it, is `nul_position`.
pub proof fn lemma_nul_position_is<T>(s: Seq<T>, nul: T, p: int)
    requires
        0 <= p <= s.len(),
        forall|i: int| 0 <= i < p ==> s[i] != nul,
        p < s.len() ==> s[p] == nul,
    ensures
        nul_position(s, nul) == p,
    decreases s.len(),
{
    if s.len() == 0 || s[0] == nul {
    } else {
        let rest = s.drop_first();
        assert forall|i: int| 0 <= i < p - 1 implies rest[i] != nul by {
            assert(rest[i] == s[i + 1]);
        }
        if p - 1 < rest.len() {
            assert(rest[p - 1] == s[p]);
        }
        lemma_nul_position_is(rest, nul, p - 1);
    }
}

/// In front of `t`, a sequence `u` without `nul` moves the first `nul` of `t`
/// back by the length of `u`.
pub proof fn lemma_nul_position_concat<T>(u: Seq<T>, t: Seq<T>, nul: T)
    requires
        !u.contains(nul),
    ensures
        nul_position(u + t, nul) == u.len() + nul_position(t, nul),
{
    lemma_nul_position(t, nul);
    let p = nul_position(t, nul);
    let s = u + t;
    assert forall|i: int| 0 <= i < u.len() + p implies s[i] != nul by {
        if i < u.len() {
            assert(s[i] == u[i]);
        } else {
            assert(s[i] == t[i - u.len()]);
        }
    }
    if p < t.len() {
        assert(s[u.len() + p] == t[p]);
    }
    lemma_nul_position_is(s, nul, u.len() + p);
}

/// Encoding goes through concatenation.
pub proof fn lemma_encode_concat<W: WideCode>(a: Seq<char>, b: Seq<char>)
    ensures
        encode::<W>(a + b) == encode::<W>(a) + encode::<W>(b),
    decreases a.len(),
{
    if a.len() == 0 {
        assert(a + b =~= b);
        assert(encode::<W>(a) + encode::<W>(b) =~= encode::<W>(b));
    } else {
        let rest = a.drop_first();
        assert((a + b).drop_first() =~= rest + b);
        lemma_encode_concat::<W>(rest, b);
        assert(W::units_of(a[0]) + (encode::<W>(rest) + encode::<W>(b)) =~= (W::units_of(a[0])
            + encode::<W>(rest)) + encode::<W>(b));
    }
}

/// Two texts with the same code units are the same text.
pub proof fn lemma_encode_injective<W: WideCode>(a: Seq<char>, b: Seq<char>)
    requires
        encode::<W>(a) == encode::<W>(b),
    ensures
        a == b,
    decreases a.len(),
{
    if a.len() == 0 {
        if b.len() > 0 {
            W::lemma_units_of(b[0]);
            assert(encode::<W>(b).len() == W::units_of(b[0]).len() + encode::<W>(
                b.drop_first(),
            ).len());
        }
        assert(a =~= b);
    } else {
        W::lemma_units_of(a[0]);
        assert(encode::<W>(a).len() == W::units_of(a[0]).len() + encode::<W>(
            a.drop_first(),
        ).len());
        assert(b.len() > 0);
        let u = W::units_of(a[0]);
        let x = encode::<W>(a.drop_first());
        let y = encode::<W>(b.drop_first());
        W::lemma_units_prefix_free(a[0], b[0], x, y);
        assert(x =~= (u + x).skip(u.len() as int));
        assert(y =~= (u + y).skip(u.len() as int));
        lemma_encode_injective::<W>(a.drop_first(), b.drop_first());
        assert(a =~= seq![a[0]] + a.drop_first());
        assert(b =~= seq![b[0]] + b.drop_first());
    }
}

/// Decoding undoes encoding.
pub proof fn lemma_decode_encode<W: WideCode>(text: Seq<char>)
    ensures
        is_text::<W>(encode::<W>(text)),
        decode::<W>(encode::<W>(text)) == Some(text),
{
    let units = encode::<W>(text);
    assert(is_text::<W>(units));
    let found = choose|t: Seq<char>| #[trigger] encode::<W>(t) == units;
    lemma_encode_injective::<W>(found, text);
}

/// What a C reader sees of the encoding of `text` is the encoding of what
/// precedes the first nul character of `text`.
pub proof fn lemma_encode_until_nul<W: WideCode>(text: Seq<char>)
    ensures
        until_nul(encode::<W>(text), W::nul()) == encode::<W>(until_nul(text, '\0')),
    decreases text.len(),
{
    let units = encode::<W>(text);
    if text.len() == 0 {
        assert(until_nul(units, W::nul()) =~= Seq::<W>::empty());
        assert(until_nul(text, '\0') =~= Seq::<char>::empty());
    } else {
        W::lemma_units_of(text[0]);
        let u = W::units_of(text[0]);
        let rest = text.drop_first();
        let e = encode::<W>(rest);
        if text[0] == '\0' {
            assert(units[0] == u[0]);
            assert(until_nul(units, W::nul()) =~= Seq::<W>::empty());
            assert(until_nul(text, '\0') =~= Seq::<char>::empty());
        } else {
            lemma_nul_position_concat(u, e, W::nul());
            lemma_encode_until_nul::<W>(rest);
            lemma_nul_position(e, W::nul());
            lemma_nul_position(rest, '\0');
            let p = nul_position(e, W::nul());
            let q = nul_position(rest, '\0');
            assert((u + e).take(u.len() + p) =~= u + e.take(p));
            let seen = until_nul(text, '\0');
            assert(seen =~= text.take(1 + q));
            assert(seen[0] == text[0]);
            assert(seen.drop_first() =~= rest.take(q));
        }
    }
}

/// The encoding of `text` holds a terminator exactly if `text` holds a nul
/// character.
pub proof fn lemma_encode_nul_free<W: WideCode>(text: Seq<char>)
    ensures
        encode::<W>(text).contains(W::nul()) <==> text.contains('\0'),
{
    let units = encode::<W>(text);
    lemma_encode_until_nul::<W>(text);
    lemma_nul_position(units, W::nul());
    lemma_nul_position(text, '\0');
    let q = nul_position(text, '\0');
    if q == text.len() {
        assert(text.take(q) =~= text);
    } else {
        let tail = text.skip(q);
        assert(text =~= text.take(q) + tail);
        lemma_encode_concat::<W>(text.take(q), tail);
        W::lemma_units_of(tail[0]);
    }
}

/// The code units of one character where `wchar_t` is sixteen bits wide:
/// UTF-16, the character itself below U+10000 and a surrogate pair from there
/// on.
pub open spec fn utf16_units_of(c: char) -> Seq<u16> {
    let v = c as u32;
    if v < 0x10000 {
        seq![v as u16]
    } else {
        seq![(0xD800 + (v - 0x10000) / 0x400) as u16, (0xDC00 + (v - 0x10000) % 0x400) as u16]
    }
}

/// The code unit of one character where `wchar_t` is thirty-two bits wide:
/// its scalar value.
pub open spec fn utf32_units_of(c: char) -> Seq<u32> {
    seq![c as u32]
}

/// `widestring::U16CString::from_str`, and `into_vec` on what it returns.
///
/// The first encodes a `str` as UTF-16 and refuses it, with the position of
/// the offending unit, if a unit is zero; the second hands out the units
/// without the terminator that the first appended.
#[verifier::external_body]
fn utf16_c_string(text: &str) -> (r: Result<Vec<u16>, usize>)
    ensures
        match r {
            Ok(units) => units@ == encode::<u16>(text@) && nul_position(units@, 0u16)
                == units@.len(),
            Err(position) => position < encode::<u16>(text@).len() && position == nul_position(
                encode::<u16>(text@),
                0u16,
            ),
        },
{
    match widestring::U16CString::from_str(text) {
        Ok(s) => Ok(s.into_vec()),
        Err(e) => Err(e.nul_position()),
    }
}

/// `widestring::U32CString::from_str`, and `into_vec` on what it returns.
///
/// The first stores the scalar value of each character of a `str` and refuses
/// it, with the position of the offending unit, if one is zero; the second
/// hands out the units without the terminator that the first appended.
#[verifier::external_body]
fn utf32_c_string(text: &str) -> (r: Result<Vec<u32>, usize>)
    ensures
        match r {
            Ok(units) => units@ == encode::<u32>(text@) && nul_position(units@, 0u32)
                == units@.len(),
            Err(position) => position < encode::<u32>(text@).len() && position == nul_position(
                encode::<u32>(text@),
                0u32,
            ),
        },
{
    match widestring::U32CString::from_str(text) {
        Ok(s) => Ok(s.into_vec()),
        Err(e) => Err(e.nul_position()),
    }
}

/// `widestring::U16Str::to_string` on the slice itself.
///
/// It returns the text whose UTF-16 encoding the units are, and fails if
/// they are nobody's encoding (an unpaired surrogate).
#[verifier::external_body]
fn utf16_to_string(units: &[u16]) -> (r: Option<String>)
    ensures
        match r {
            Some(text) => encode::<u16>(text@) == units@,
            None => !is_text::<u16>(units@),
        },
{
    widestring::U16Str::from_slice(units).to_string().ok()
}

/// `widestring::U32Str::to_string` on the slice itself.
///
/// It returns the text whose scalar values the units are, and fails if one
/// of them is no scalar value.
#[verifier::external_body]
fn utf32_to_string(units: &[u32]) -> (r: Option<String>)
    ensures
        match r {
            Some(text) => encode::<u32>(text@) == units@,
            None => !is_text::<u32>(units@),
        },
{
    widestring::U32Str::from_slice(units).to_string().ok()
}

impl WideCode for u16 {
    open spec fn nul() -> u16 {
        0u16
    }

    open spec fn units_of(c: char) -> Seq<u16> {
        utf16_units_of(c)
    }

    proof fn lemma_units_of(c: char) {
        let u = utf16_units_of(c);
        vstd::utf8::char_u32_cast(c, c as u32);
        vstd::utf8::char_u32_cast('\0', 0u32);
        if c != '\0' {
            assert forall|i: int| 0 <= i < u.len() implies u[i] != 0u16 by {}
        }
    }

    proof fn lemma_units_prefix_free(a: char, b: char, x: Seq<u16>, y: Seq<u16>) {
        let ua = utf16_units_of(a);
        let ub = utf16_units_of(b);
        vstd::utf8::char_u32_cast(a, a as u32);
        vstd::utf8::char_u32_cast(b, b as u32);
        assert((ua + x)[0] == ua[0]);
        assert((ub + y)[0] == ub[0]);
        if a as u32 >= 0x10000 {
            assert(ub.len() == 2);
            assert((ua + x)[1] == ua[1]);
            assert((ub + y)[1] == ub[1]);
        }
    }
}

impl WideUnit for u16 {
    fn terminator() -> (unit: u16) {
        0
    }

    fn is_nul(&self) -> (b: bool) {
        *self == 0
    }

    fn encode_str(text: &str) -> (r: Result<Vec<u16>, usize>) {
        utf16_c_string(text)
    }

    fn decode_units(units: &[u16]) -> (r: Option<String>) {
        utf16_to_string(units)
    }
}

impl WideCode for u32 {
    open spec fn nul() -> u32 {
        0u32
    }

    open spec fn units_of(c: char) -> Seq<u32> {
        utf32_units_of(c)
    }

    proof fn lemma_units_of(c: char) {
        let u = utf32_units_of(c);
        vstd::utf8::char_u32_cast(c, c as u32);
        vstd::utf8::char_u32_cast('\0', 0u32);
        if c != '\0' {
            assert forall|i: int| 0 <= i < u.len() implies u[i] != 0u32 by {}
        }
    }

    proof fn lemma_units_prefix_free(a: char, b: char, x: Seq<u32>, y: Seq<u32>) {
        vstd::utf8::char_u32_cast(a, a as u32);
        vstd::utf8::char_u32_cast(b, b as u32);
        assert((utf32_units_of(a) + x)[0] == utf32_units_of(a)[0]);
        assert((utf32_units_of(b) + y)[0] == utf32_units_of(b)[0]);
    }
}

impl WideUnit for u32 {
    fn terminator() -> (unit: u32) {
        0
    }

    fn is_nul(&self) -> (b: bool) {
        *self == 0
    }

    fn encode_str(text: &str) -> (r: Result<Vec<u32>, usize>) {
        utf32_c_string(text)
    }

    fn decode_units(units: &[u32]) -> (r: Option<String>) {
        utf32_to_string(units)
    }
}

} // verus!
