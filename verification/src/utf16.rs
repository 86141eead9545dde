//! UTF-16 text held in fixed-size, NUL-terminated buffers (the `WCHAR[N]`
//! fields of GDI records), and its decoding into `String`.

use vstd::prelude::*;

verus! {

pub open spec fn is_high_surrogate(u: u16) -> bool {
    0xD800 <= u && u <= 0xDBFF
}

pub open spec fn is_low_surrogate(u: u16) -> bool {
    0xDC00 <= u && u <= 0xDFFF
}

/// The code point that a high and a low surrogate stand for together.
pub open spec fn surrogate_pair_code(high: u16, low: u16) -> int {
    0x10000 + (high - 0xD800) * 0x400 + (low - 0xDC00)
}

/// UTF-16 decoding: a code unit outside the surrogate range is the code point
/// of the same value, a high surrogate followed by a low one is one code point
/// above U+FFFF, and any other surrogate makes the text invalid (`None`).
pub open spec fn utf16_decode(units: Seq<u16>) -> Option<Seq<char>>
    decreases units.len(),
{
    if units.len() == 0 {
        Some(Seq::empty())
    } else if !is_high_surrogate(units[0]) && !is_low_surrogate(units[0]) {
        match utf16_decode(units.drop_first()) {
            Some(rest) => Some(seq![units[0] as char] + rest),
            None => None,
        }
    } else if is_high_surrogate(units[0]) && units.len() >= 2 && is_low_surrogate(units[1]) {
        match utf16_decode(units.subrange(2, units.len() as int)) {
            Some(rest) => Some(seq![surrogate_pair_code(units[0], units[1]) as char] + rest),
            None => None,
        }
    } else {
        None
    }
}

/// UTF-16 encoding: a code point below U+10000 is one code unit of the same
/// value, any other is a high surrogate followed by a low one.
pub open spec fn utf16_encode(text: Seq<char>) -> Seq<u16>
    decreases text.len(),
{
    if text.len() == 0 {
        Seq::empty()
    } else {
        let c = text[0] as int;
        if c < 0x10000 {
            seq![c as u16] + utf16_encode(text.drop_first())
        } else {
            seq![(0xD800 + (c - 0x10000) / 0x400) as u16, (0xDC00 + (c - 0x10000) % 0x400) as u16]
                + utf16_encode(text.drop_first())
        }
    }
}

/// A character is a Unicode scalar value: at most U+10FFFF and not a
/// surrogate.
pub proof fn lemma_char_is_scalar(c: char)
    ensures
        0 <= c as int <= 0x10FFFF,
        !(0xD800 <= c as int <= 0xDFFF),
{
}

/// Decoding undoes encoding.
pub proof fn lemma_utf16_decode_encode(text: Seq<char>)
    ensures
        utf16_decode(utf16_encode(text)) == Some(text),
    decreases text.len(),
{
    if text.len() > 0 {
        let c = text[0] as int;
        let rest = text.drop_first();
        lemma_utf16_decode_encode(rest);
        let units = utf16_encode(text);
        lemma_char_is_scalar(text[0]);
        if c < 0x10000 {
            assert(units.drop_first() =~= utf16_encode(rest));
            assert(seq![units[0] as char] + rest =~= text);
        } else {
            let d = c - 0x10000;
            assert(0 <= d < 0x100000);
            assert(0 <= d / 0x400 < 0x400 && 0 <= d % 0x400 < 0x400 && (d / 0x400) * 0x400 + d % 0x400
                == d) by (nonlinear_arith)
                requires
                    0 <= d < 0x100000,
            ;
            assert(units.subrange(2, units.len() as int) =~= utf16_encode(rest));
            assert(surrogate_pair_code(units[0], units[1]) == c);
            assert(seq![surrogate_pair_code(units[0], units[1]) as char] + rest =~= text);
        }
    }
}

/// Text without a NUL character encodes to code units without a NUL.
pub proof fn lemma_utf16_encode_nul_free(text: Seq<char>)
    requires
        forall|i: int| 0 <= i < text.len() ==> text[i] != '\0',
    ensures
        forall|i: int| 0 <= i < utf16_encode(text).len() ==> utf16_encode(text)[i] != 0,
    decreases text.len(),
{
    if text.len() > 0 {
        let rest = text.drop_first();
        lemma_utf16_encode_nul_free(rest);
        let c = text[0] as int;
        let units = utf16_encode(text);
        lemma_char_is_scalar(text[0]);
        if c < 0x10000 {
            assert(text[0] != '\0');
            assert forall|i: int| 0 <= i < units.len() implies units[i] != 0 by {
                if i > 0 {
                    assert(units[i] == utf16_encode(rest)[i - 1]);
                }
            }
        } else {
            let d = c - 0x10000;
            assert(0 <= d / 0x400 < 0x400 && 0 <= d % 0x400 < 0x400) by (nonlinear_arith)
                requires
                    0 <= d < 0x100000,
            ;
            assert forall|i: int| 0 <= i < units.len() implies units[i] != 0 by {
                if i > 1 {
                    assert(units[i] == utf16_encode(rest)[i - 2]);
                }
            }
        }
    }
}

/// The number of code units before the first NUL (all of them when there is
/// none).
pub open spec fn nul_terminated_len(units: Seq<u16>) -> nat
    decreases units.len(),
{
    if units.len() == 0 {
        0
    } else if units[0] == 0 {
        0
    } else {
        1 + nul_terminated_len(units.drop_first())
    }
}

/// The text of a NUL-terminated buffer: the code units before the first NUL.
pub open spec fn text_units(units: Seq<u16>) -> Seq<u16> {
    units.take(nul_terminated_len(units) as int)
}

/// The first NUL of `units` is at `i` when no unit before `i` is NUL and
/// `i` is the end or holds a NUL.
pub proof fn lemma_nul_terminated_len(units: Seq<u16>, i: int)
    requires
        0 <= i <= units.len(),
        forall|j: int| 0 <= j < i ==> units[j] != 0,
        i == units.len() || units[i] == 0,
    ensures
        nul_terminated_len(units) == i,
    decreases i,
{
    if i > 0 {
        lemma_nul_terminated_len(units.drop_first(), i - 1);
    }
}

/// The text of a buffer is never longer than the buffer.
pub proof fn lemma_nul_terminated_len_bound(units: Seq<u16>)
    ensures
        nul_terminated_len(units) <= units.len(),
    decreases units.len(),
{
    if units.len() > 0 && units[0] != 0 {
        lemma_nul_terminated_len_bound(units.drop_first());
    }
}

/// `String::from_utf16` (std): decodes the code units, and fails (`Err`,
/// here `None`) on a surrogate that is not part of a high-low pair. The
/// contract states that decoding as `utf16_decode`.
#[verifier::external_body]
fn string_from_utf16(units: &[u16]) -> (r: Option<String>)
    ensures
        r is Some <==> utf16_decode(units@) is Some,
        r matches Some(s) ==> s@ == utf16_decode(units@).unwrap(),
{
    String::from_utf16(units).ok()
}

/// A `WCHAR[N]` buffer holding NUL-terminated UTF-16 text.
#[derive(PartialEq, Eq, Hash)]
pub struct UTF16String<const N: usize>(pub [u16; N]);

impl<const N: usize> UTF16String<N> {
    /// The text: the code units before the first NUL.
    pub open spec fn text(&self) -> Seq<u16> {
        text_units(self.0@)
    }

    /// Whether the text is valid UTF-16.
    pub open spec fn is_valid_text(&self) -> bool {
        utf16_decode(self.text()) is Some
    }

    /// The position of the first NUL, or `N` when there is none.
    fn text_len(&self) -> (k: usize)
        ensures
            k == nul_terminated_len(self.0@),
            k <= N,
    {
        let mut i: usize = 0;
        while i < N
            invariant
                i <= N,
                self.0@.len() == N,
                forall|j: int| 0 <= j < i ==> self.0@[j] != 0,
            ensures
                i <= N,
                forall|j: int| 0 <= j < i ==> self.0@[j] != 0,
                i == N || self.0@[i as int] == 0,
            decreases N - i,
        {
            if self.0[i] == 0 {
                break;
            }
            i = i + 1;
        }
        proof {
            lemma_nul_terminated_len(self.0@, i as int);
        }
        i
    }

    /// Decodes the text, or gives `None` when it is not valid UTF-16.
    pub fn try_to_string(&self) -> (r: Option<String>)
        ensures
            r is Some <==> self.is_valid_text(),
            r matches Some(s) ==> utf16_decode(self.text()) == Some(s@),
    {
        let k = self.text_len();
        let mut units: Vec<u16> = Vec::new();
        let mut i: usize = 0;
        while i < k
            invariant
                i <= k,
                k <= N,
                self.0@.len() == N,
                units@ == self.0@.take(i as int),
            decreases k - i,
        {
            units.push(self.0[i]);
            i = i + 1;
            assert(units@ =~= self.0@.take(i as int));
        }
        string_from_utf16(units.as_slice())
    }

    /// Decodes the text. The text must be valid UTF-16: decoding has no
    /// answer otherwise.
    pub fn to_string(&self) -> (s: String)
        requires
            self.is_valid_text(),
        ensures
            utf16_decode(self.text()) == Some(s@),
    {
        match self.try_to_string() {
            Some(s) => s,
            None => {
                proof {
                    assert(false);
                }
                String::new()
            },
        }
    }
}

/// Text without a NUL character, encoded into the start of a buffer that is
/// longer than the encoding and zero everywhere else, decodes back to the
/// same text: `to_string` gives it back.
pub proof fn lemma_utf16_string_round_trip<const N: usize>(s: UTF16String<N>, text: Seq<char>)
    requires
        forall|i: int| 0 <= i < text.len() ==> text[i] != '\0',
        utf16_encode(text).len() < N,
        forall|i: int| 0 <= i < utf16_encode(text).len() ==> s.0@[i] == utf16_encode(text)[i],
        forall|i: int| utf16_encode(text).len() <= i < N ==> s.0@[i] == 0,
    ensures
        s.text() == utf16_encode(text),
        s.is_valid_text(),
        utf16_decode(s.text()) == Some(text),
{
    let units = utf16_encode(text);
    lemma_utf16_encode_nul_free(text);
    assert(s.0@.len() == N);
    assert forall|j: int| 0 <= j < units.len() implies s.0@[j] != 0 by {
        assert(s.0@[j] == units[j]);
    }
    assert(s.0@[units.len() as int] == 0);
    lemma_nul_terminated_len(s.0@, units.len() as int);
    assert(s.text() =~= units);
    lemma_utf16_decode_encode(text);
}

} // verus!
