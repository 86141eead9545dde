//! GDI character-set codes (`lfCharSet` of a logical font).

use vstd::prelude::*;

verus! {

pub const ANSI_CHARSET: u8 = 0;
pub const DEFAULT_CHARSET: u8 = 1;
pub const SYMBOL_CHARSET: u8 = 2;
pub const MAC_CHARSET: u8 = 77;
pub const SHIFTJIS_CHARSET: u8 = 128;
pub const HANGUL_CHARSET: u8 = 129;
pub const JOHAB_CHARSET: u8 = 130;
pub const GB2312_CHARSET: u8 = 134;
pub const CHINESEBIG5_CHARSET: u8 = 136;
pub const GREEK_CHARSET: u8 = 161;
pub const TURKISH_CHARSET: u8 = 162;
pub const VIETNAMESE_CHARSET: u8 = 163;
pub const HEBREW_CHARSET: u8 = 177;
pub const ARABIC_CHARSET: u8 = 178;
pub const BALTIC_CHARSET: u8 = 186;
pub const RUSSIAN_CHARSET: u8 = 204;
pub const THAI_CHARSET: u8 = 222;
pub const EASTEUROPE_CHARSET: u8 = 238;
pub const OEM_CHARSET: u8 = 255;

/// The character sets a GDI font may declare.
#[derive(Debug, Clone, Copy, PartialEq, Eq, Structural)]
pub enum CharSet {
    ANSI,
    BALTIC,
    CHINESEBIG5,
    DEFAULT,
    EASTEUROPE,
    GB2312,
    GREEK,
    HANGUL,
    MAC,
    OEM,
    RUSSIAN,
    SHIFTJIS,
    SYMBOL,
    TURKISH,
    VIETNAMESE,
    JOHAB,
    ARABIC,
    HEBREW,
    THAI,
}

/// The GDI code of each character set.
pub open spec fn charset_code(c: CharSet) -> u8 {
    match c {
        CharSet::ANSI => ANSI_CHARSET,
        CharSet::BALTIC => BALTIC_CHARSET,
        CharSet::CHINESEBIG5 => CHINESEBIG5_CHARSET,
        CharSet::DEFAULT => DEFAULT_CHARSET,
        CharSet::EASTEUROPE => EASTEUROPE_CHARSET,
        CharSet::GB2312 => GB2312_CHARSET,
        CharSet::GREEK => GREEK_CHARSET,
        CharSet::HANGUL => HANGUL_CHARSET,
        CharSet::MAC => MAC_CHARSET,
        CharSet::OEM => OEM_CHARSET,
        CharSet::RUSSIAN => RUSSIAN_CHARSET,
        CharSet::SHIFTJIS => SHIFTJIS_CHARSET,
        CharSet::SYMBOL => SYMBOL_CHARSET,
        CharSet::TURKISH => TURKISH_CHARSET,
        CharSet::VIETNAMESE => VIETNAMESE_CHARSET,
        CharSet::JOHAB => JOHAB_CHARSET,
        CharSet::ARABIC => ARABIC_CHARSET,
        CharSet::HEBREW => HEBREW_CHARSET,
        CharSet::THAI => THAI_CHARSET,
    }
}

/// The codes of the character sets of `CharSet`.
pub open spec fn is_known_charset(code: u8) -> bool {
    ||| code == ANSI_CHARSET
    ||| code == BALTIC_CHARSET
    ||| code == CHINESEBIG5_CHARSET
    ||| code == DEFAULT_CHARSET
    ||| code == EASTEUROPE_CHARSET
    ||| code == GB2312_CHARSET
    ||| code == GREEK_CHARSET
    ||| code == HANGUL_CHARSET
    ||| code == MAC_CHARSET
    ||| code == OEM_CHARSET
    ||| code == RUSSIAN_CHARSET
    ||| code == SHIFTJIS_CHARSET
    ||| code == SYMBOL_CHARSET
    ||| code == TURKISH_CHARSET
    ||| code == VIETNAMESE_CHARSET
    ||| code == JOHAB_CHARSET
    ||| code == ARABIC_CHARSET
    ||| code == HEBREW_CHARSET
    ||| code == THAI_CHARSET
}

/// A code is known exactly when it is the code of some character set.
pub proof fn lemma_known_charset_iff_some_code(code: u8)
    ensures
        is_known_charset(code) <==> exists|c: CharSet| charset_code(c) == code,
{
    if is_known_charset(code) {
        let c = if code == ANSI_CHARSET {
            CharSet::ANSI
        } else if code == BALTIC_CHARSET {
            CharSet::BALTIC
        } else if code == CHINESEBIG5_CHARSET {
            CharSet::CHINESEBIG5
        } else if code == DEFAULT_CHARSET {
            CharSet::DEFAULT
        } else if code == EASTEUROPE_CHARSET {
            CharSet::EASTEUROPE
        } else if code == GB2312_CHARSET {
            CharSet::GB2312
        } else if code == GREEK_CHARSET {
            CharSet::GREEK
        } else if code == HANGUL_CHARSET {
            CharSet::HANGUL
        } else if code == MAC_CHARSET {
            CharSet::MAC
        } else if code == OEM_CHARSET {
            CharSet::OEM
        } else if code == RUSSIAN_CHARSET {
            CharSet::RUSSIAN
        } else if code == SHIFTJIS_CHARSET {
            CharSet::SHIFTJIS
        } else if code == SYMBOL_CHARSET {
            CharSet::SYMBOL
        } else if code == TURKISH_CHARSET {
            CharSet::TURKISH
        } else if code == VIETNAMESE_CHARSET {
            CharSet::VIETNAMESE
        } else if code == JOHAB_CHARSET {
            CharSet::JOHAB
        } else if code == ARABIC_CHARSET {
            CharSet::ARABIC
        } else if code == HEBREW_CHARSET {
            CharSet::HEBREW
        } else {
            CharSet::THAI
        };
        assert(charset_code(c) == code);
    }
}

/// Distinct character sets have distinct codes, so a code names at most one
/// character set.
pub proof fn lemma_charset_code_injective(a: CharSet, b: CharSet)
    ensures
        charset_code(a) == charset_code(b) ==> a == b,
{
}

/// Whether `code` is the code of one of the character sets of `CharSet`.
pub fn is_charset_code(code: u8) -> (r: bool)
    ensures
        r == is_known_charset(code),
{
    code == ANSI_CHARSET || code == BALTIC_CHARSET || code == CHINESEBIG5_CHARSET
        || code == DEFAULT_CHARSET || code == EASTEUROPE_CHARSET || code == GB2312_CHARSET
        || code == GREEK_CHARSET || code == HANGUL_CHARSET || code == MAC_CHARSET
        || code == OEM_CHARSET || code == RUSSIAN_CHARSET || code == SHIFTJIS_CHARSET
        || code == SYMBOL_CHARSET || code == TURKISH_CHARSET || code == VIETNAMESE_CHARSET
        || code == JOHAB_CHARSET || code == ARABIC_CHARSET || code == HEBREW_CHARSET
        || code == THAI_CHARSET
}

impl CharSet {
    /// The character set whose GDI code is `value`. Only the codes of
    /// `CharSet` are accepted; any other code is refused by the
    /// precondition (the conversion has no answer for it).
    pub fn from(value: u8) -> (c: CharSet)
        requires
            is_known_charset(value),
        ensures
            charset_code(c) == value,
    {
        if value == ANSI_CHARSET {
            CharSet::ANSI
        } else if value == BALTIC_CHARSET {
            CharSet::BALTIC
        } else if value == CHINESEBIG5_CHARSET {
            CharSet::CHINESEBIG5
        } else if value == DEFAULT_CHARSET {
            CharSet::DEFAULT
        } else if value == EASTEUROPE_CHARSET {
            CharSet::EASTEUROPE
        } else if value == GB2312_CHARSET {
            CharSet::GB2312
        } else if value == GREEK_CHARSET {
            CharSet::GREEK
        } else if value == HANGUL_CHARSET {
            CharSet::HANGUL
        } else if value == MAC_CHARSET {
            CharSet::MAC
        } else if value == OEM_CHARSET {
            CharSet::OEM
        } else if value == RUSSIAN_CHARSET {
            CharSet::RUSSIAN
        } else if value == SHIFTJIS_CHARSET {
            CharSet::SHIFTJIS
        } else if value == SYMBOL_CHARSET {
            CharSet::SYMBOL
        } else if value == TURKISH_CHARSET {
            CharSet::TURKISH
        } else if value == VIETNAMESE_CHARSET {
            CharSet::VIETNAMESE
        } else if value == JOHAB_CHARSET {
            CharSet::JOHAB
        } else if value == ARABIC_CHARSET {
            CharSet::ARABIC
        } else if value == HEBREW_CHARSET {
            CharSet::HEBREW
        } else {
            CharSet::THAI
        }
    }
}

} // verus!
