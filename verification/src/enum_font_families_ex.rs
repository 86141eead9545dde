//! The fonts that `EnumFontFamiliesExW` reports: the request it is given and
//! what each report holds.

use vstd::prelude::*;

use crate::logfont::{EnumLogFontExDvW, EnumLogFontExW, LogFontW};

verus! {

/// `FontType` bit of a raster font.
pub const RASTER_FONTTYPE: u32 = 1;

/// `FontType` bit of a device font.
pub const DEVICE_FONTTYPE: u32 = 2;

/// `FontType` bit of a TrueType font.
pub const TRUETYPE_FONTTYPE: u32 = 4;

/// What an enumeration callback returns: nonzero to go on, zero to stop.
pub type EnumFontFamExProcReturn = i32;

/// The values of a `TEXTMETRICW`.
#[derive(Clone, Copy, Debug, PartialEq, Eq)]
pub struct TextMetricW {
    pub tm_height: i32,
    pub tm_ascent: i32,
    pub tm_descent: i32,
    pub tm_internal_leading: i32,
    pub tm_external_leading: i32,
    pub tm_ave_char_width: i32,
    pub tm_max_char_width: i32,
    pub tm_weight: i32,
    pub tm_overhang: i32,
    pub tm_digitized_aspect_x: i32,
    pub tm_digitized_aspect_y: i32,
    pub tm_first_char: u16,
    pub tm_last_char: u16,
    pub tm_default_char: u16,
    pub tm_break_char: u16,
    pub tm_italic: u8,
    pub tm_underlined: u8,
    pub tm_struck_out: u8,
    pub tm_pitch_and_family: u8,
    pub tm_char_set: u8,
}

/// Whether the `FontType` bits hold `flag`.
pub open spec fn has_font_type(fonttype: u32, flag: u32) -> bool {
    fonttype & flag != 0
}

/// `has_font_type` is a bit test, whatever the word and the flag; the
/// raster, device and TrueType flags are bits 0, 1 and 2 of the word, so a
/// word equal to one flag holds that flag and no other.
pub proof fn lemma_font_type_bits(fonttype: u32, flag: u32)
    ensures
        has_font_type(fonttype, flag) <==> (fonttype & flag) != 0,
        has_font_type(fonttype, RASTER_FONTTYPE) <==> fonttype % 2 == 1,
        has_font_type(fonttype, DEVICE_FONTTYPE) <==> (fonttype / 2) % 2 == 1,
        has_font_type(fonttype, TRUETYPE_FONTTYPE) <==> (fonttype / 4) % 2 == 1,
        has_font_type(RASTER_FONTTYPE, RASTER_FONTTYPE),
        !has_font_type(RASTER_FONTTYPE, DEVICE_FONTTYPE),
        !has_font_type(RASTER_FONTTYPE, TRUETYPE_FONTTYPE),
        has_font_type(DEVICE_FONTTYPE, DEVICE_FONTTYPE),
        has_font_type(TRUETYPE_FONTTYPE, TRUETYPE_FONTTYPE),
{
    assert((fonttype & 1u32) != 0 <==> fonttype % 2 == 1) by (bit_vector);
    assert((fonttype & 2u32) != 0 <==> (fonttype / 2) % 2 == 1) by (bit_vector);
    assert((fonttype & 4u32) != 0 <==> (fonttype / 4) % 2 == 1) by (bit_vector);
    assert((1u32 & 1u32) != 0 && (1u32 & 2u32) == 0 && (1u32 & 4u32) == 0) by (bit_vector);
    assert((2u32 & 2u32) != 0 && (4u32 & 4u32) != 0) by (bit_vector);
}

/// One font as the enumeration reports it: the record that describes it
/// (`None` where the report holds none), its metrics, and its `FontType`
/// bits.
pub struct EnumFontFamExProcArgs {
    pub lpelfe: Option<EnumLogFontExDvW>,
    pub lpntme: Option<TextMetricW>,
    pub fonttype: u32,
}

impl EnumFontFamExProcArgs {
    /// The logical font of the report.
    pub fn get_logfont(&self) -> (r: Option<&LogFontW>)
        ensures
            r == match self.lpelfe {
                Some(e) => Some(&e.elf_enum_logfont_ex.elf_log_font),
                None => None::<&LogFontW>,
            },
    {
        match &self.lpelfe {
            Some(e) => Some(&e.elf_enum_logfont_ex.elf_log_font),
            None => None,
        }
    }

    /// The logical font of the report with its full name, style and script.
    pub fn get_enum_logfont_ex(&self) -> (r: Option<&EnumLogFontExW>)
        ensures
            r == match self.lpelfe {
                Some(e) => Some(&e.elf_enum_logfont_ex),
                None => None::<&EnumLogFontExW>,
            },
    {
        match &self.lpelfe {
            Some(e) => Some(&e.elf_enum_logfont_ex),
            None => None,
        }
    }

    /// The whole record of the report, design vector included.
    pub fn get_enum_logfont_ex_dv(&self) -> (r: Option<&EnumLogFontExDvW>)
        ensures
            r == match self.lpelfe {
                Some(e) => Some(&e),
                None => None::<&EnumLogFontExDvW>,
            },
    {
        match &self.lpelfe {
            Some(e) => Some(e),
            None => None,
        }
    }

    pub fn is_device(&self) -> (r: bool)
        ensures
            r == has_font_type(self.fonttype, DEVICE_FONTTYPE),
            r == ((self.fonttype / 2) % 2 == 1),
    {
        proof {
            lemma_font_type_bits(self.fonttype, DEVICE_FONTTYPE);
        }
        (self.fonttype & DEVICE_FONTTYPE) != 0
    }

    pub fn is_raster(&self) -> (r: bool)
        ensures
            r == has_font_type(self.fonttype, RASTER_FONTTYPE),
            r == (self.fonttype % 2 == 1),
    {
        proof {
            lemma_font_type_bits(self.fonttype, RASTER_FONTTYPE);
        }
        (self.fonttype & RASTER_FONTTYPE) != 0
    }

    pub fn is_truetype(&self) -> (r: bool)
        ensures
            r == has_font_type(self.fonttype, TRUETYPE_FONTTYPE),
            r == ((self.fonttype / 4) % 2 == 1),
    {
        proof {
            lemma_font_type_bits(self.fonttype, TRUETYPE_FONTTYPE);
        }
        (self.fonttype & TRUETYPE_FONTTYPE) != 0
    }

    /// An outline font: not a raster font, and a device or TrueType font.
    pub fn is_opentype(&self) -> (r: bool)
        ensures
            r == (!has_font_type(self.fonttype, RASTER_FONTTYPE) && (has_font_type(
                self.fonttype,
                DEVICE_FONTTYPE,
            ) || has_font_type(self.fonttype, TRUETYPE_FONTTYPE))),
            r == (self.fonttype % 2 == 0 && ((self.fonttype / 2) % 2 == 1 || (self.fonttype / 4) % 2
                == 1)),
    {
        if self.is_raster() {
            false
        } else if !self.is_device() && !self.is_truetype() {
            false
        } else {
            true
        }
    }
}

/// The logical font that asks `EnumFontFamiliesExW` for the fonts of one
/// face name (all faces for an empty name) in one character set: those two
/// fields set, every other field zero.
pub fn enum_font_families_ex_logfont(lf_facename: [u16; 32], lf_charset: u8) -> (r: LogFontW)
    ensures
        r == (LogFontW {
            lf_height: 0,
            lf_width: 0,
            lf_escapement: 0,
            lf_orientation: 0,
            lf_weight: 0,
            lf_italic: 0,
            lf_underline: 0,
            lf_strike_out: 0,
            lf_char_set: lf_charset,
            lf_out_precision: 0,
            lf_clip_precision: 0,
            lf_quality: 0,
            lf_pitch_and_family: 0,
            lf_face_name: lf_facename,
        }),
{
    LogFontW {
        lf_height: 0,
        lf_width: 0,
        lf_escapement: 0,
        lf_orientation: 0,
        lf_weight: 0,
        lf_italic: 0,
        lf_underline: 0,
        lf_strike_out: 0,
        lf_char_set: lf_charset,
        lf_out_precision: 0,
        lf_clip_precision: 0,
        lf_quality: 0,
        lf_pitch_and_family: 0,
        lf_face_name: lf_facename,
    }
}

} // verus!
