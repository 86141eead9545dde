//! Logical-font records (`LOGFONTW` and the records that extend it) and the
//! library's summary of a font, `LogFont`.

use vstd::prelude::*;

use crate::utf16::{
    UTF16String, text_units, utf16_decode, nul_terminated_len, lemma_nul_terminated_len_bound,
};

verus! {

/// The number of design axes a design vector can hold (`MM_MAX_NUMAXES`).
pub const MM_MAX_NUMAXES: u32 = 16;

/// The values of a `LOGFONTW`.
#[derive(Clone, Copy, Debug, PartialEq, Eq)]
pub struct LogFontW {
    pub lf_height: i32,
    pub lf_width: i32,
    pub lf_escapement: i32,
    pub lf_orientation: i32,
    pub lf_weight: i32,
    pub lf_italic: u8,
    pub lf_underline: u8,
    pub lf_strike_out: u8,
    pub lf_char_set: u8,
    pub lf_out_precision: u8,
    pub lf_clip_precision: u8,
    pub lf_quality: u8,
    pub lf_pitch_and_family: u8,
    pub lf_face_name: [u16; 32],
}

/// The values of an `ENUMLOGFONTEXW`: a logical font with its full name,
/// style and script.
#[derive(Clone, Copy, Debug, PartialEq, Eq)]
pub struct EnumLogFontExW {
    pub elf_log_font: LogFontW,
    pub elf_full_name: [u16; 64],
    pub elf_style: [u16; 32],
    pub elf_script: [u16; 32],
}

/// The values of a `DESIGNVECTOR`: the coordinates of a font instance on
/// the design axes of a multiple-master font.
#[derive(Clone, Copy, Debug, PartialEq, Eq)]
pub struct DesignVector {
    pub dv_reserved: u32,
    pub dv_num_axes: u32,
    pub dv_values: [i32; 16],
}

/// The values of an `ENUMLOGFONTEXDVW`: an `ENUMLOGFONTEXW` with a design
/// vector.
#[derive(Clone, Copy, Debug, PartialEq, Eq)]
pub struct EnumLogFontExDvW {
    pub elf_enum_logfont_ex: EnumLogFontExW,
    pub elf_design_vector: DesignVector,
}

/// A face name that starts with `'@'`.
pub open spec fn is_vertical_face(logfont: LogFontW) -> bool {
    logfont.lf_face_name@[0] == 0x40
}

/// Whether a logical font is the vertical variant of a face: GDI names
/// those with a leading `'@'`.
pub fn is_vertical(logfont: &LogFontW) -> (r: bool)
    ensures
        r == (logfont.lf_face_name@[0] == '@' as u16),
        r == is_vertical_face(*logfont),
{
    logfont.lf_face_name[0] == '@' as u16
}

/// What the library keeps of a font: its face name, weight and slant, and,
/// where the record holds them, its full name, style and design coordinates.
#[derive(PartialEq, Eq, Hash)]
pub struct LogFont {
    pub lf_face_name: UTF16String<32>,
    pub lf_weight: i32,
    pub lf_italic: bool,
    pub elf_full_name: Option<UTF16String<64>>,
    pub elf_style: Option<UTF16String<32>>,
    pub design_coords: Option<Vec<i32>>,
}

/// The mathematical value of a `LogFont`.
pub ghost struct LogFontView {
    pub face_name: Seq<u16>,
    pub weight: i32,
    pub italic: bool,
    pub full_name: Option<Seq<u16>>,
    pub style: Option<Seq<u16>>,
    pub design_coords: Option<Seq<i32>>,
}

impl View for LogFont {
    type V = LogFontView;

    open spec fn view(&self) -> LogFontView {
        LogFontView {
            face_name: self.lf_face_name.0@,
            weight: self.lf_weight,
            italic: self.lf_italic,
            full_name: match self.elf_full_name {
                Some(n) => Some(n.0@),
                None => None,
            },
            style: match self.elf_style {
                Some(s) => Some(s.0@),
                None => None,
            },
            design_coords: match self.design_coords {
                Some(v) => Some(v@),
                None => None,
            },
        }
    }
}

/// The font that a `LOGFONTW` describes.
pub open spec fn log_font_view(logfont: LogFontW) -> LogFontView {
    LogFontView {
        face_name: logfont.lf_face_name@,
        weight: logfont.lf_weight,
        italic: logfont.lf_italic != 0,
        full_name: None,
        style: None,
        design_coords: None,
    }
}

/// The font that an `ENUMLOGFONTEXW` describes.
pub open spec fn enum_log_font_ex_view(e: EnumLogFontExW) -> LogFontView {
    LogFontView {
        face_name: e.elf_log_font.lf_face_name@,
        weight: e.elf_log_font.lf_weight,
        italic: e.elf_log_font.lf_italic != 0,
        full_name: Some(e.elf_full_name@),
        style: Some(e.elf_style@),
        design_coords: None,
    }
}

/// The font that an `ENUMLOGFONTEXDVW` describes: its design coordinates
/// are the first `dv_num_axes` values of the design vector.
pub open spec fn enum_log_font_ex_dv_view(dv: EnumLogFontExDvW) -> LogFontView {
    let e = dv.elf_enum_logfont_ex;
    let v = dv.elf_design_vector;
    LogFontView {
        face_name: e.elf_log_font.lf_face_name@,
        weight: e.elf_log_font.lf_weight,
        italic: e.elf_log_font.lf_italic != 0,
        full_name: Some(e.elf_full_name@),
        style: Some(e.elf_style@),
        design_coords: Some(v.dv_values@.take(v.dv_num_axes as int)),
    }
}

impl LogFont {
    pub fn new(logfont: &LogFontW) -> (r: Self)
        ensures
            r@ == log_font_view(*logfont),
            r.lf_face_name.0@ == logfont.lf_face_name@,
            r.lf_weight == logfont.lf_weight,
            r.lf_italic == (logfont.lf_italic != 0),
            r.elf_full_name is None,
            r.elf_style is None,
            r.design_coords is None,
    {
        LogFont {
            lf_face_name: UTF16String(logfont.lf_face_name),
            lf_weight: logfont.lf_weight,
            lf_italic: logfont.lf_italic != 0,
            elf_full_name: None,
            elf_style: None,
            design_coords: None,
        }
    }

    pub fn new_from_enum_logfont_ex(enum_logfont_ex: &EnumLogFontExW) -> (r: Self)
        ensures
            r@ == enum_log_font_ex_view(*enum_logfont_ex),
            r.lf_face_name.0@ == enum_logfont_ex.elf_log_font.lf_face_name@,
            r.lf_weight == enum_logfont_ex.elf_log_font.lf_weight,
            r.lf_italic == (enum_logfont_ex.elf_log_font.lf_italic != 0),
            r.elf_full_name matches Some(n) && n.0@ == enum_logfont_ex.elf_full_name@,
            r.elf_style matches Some(st) && st.0@ == enum_logfont_ex.elf_style@,
            r.design_coords is None,
    {
        let logfont = &enum_logfont_ex.elf_log_font;
        LogFont {
            lf_face_name: UTF16String(logfont.lf_face_name),
            lf_weight: logfont.lf_weight,
            lf_italic: logfont.lf_italic != 0,
            elf_full_name: Some(UTF16String(enum_logfont_ex.elf_full_name)),
            elf_style: Some(UTF16String(enum_logfont_ex.elf_style)),
            design_coords: None,
        }
    }

    /// The design vector must hold at most `MM_MAX_NUMAXES` axes: the
    /// coordinates are read from its fixed array of that many values.
    pub fn new_from_enum_logfont_ex_dv(enum_logfont_ex_dv: &EnumLogFontExDvW) -> (r: Self)
        requires
            enum_logfont_ex_dv.elf_design_vector.dv_num_axes <= MM_MAX_NUMAXES,
        ensures
            r@ == enum_log_font_ex_dv_view(*enum_logfont_ex_dv),
            r.lf_face_name.0@ == enum_logfont_ex_dv.elf_enum_logfont_ex.elf_log_font.lf_face_name@,
            r.lf_weight == enum_logfont_ex_dv.elf_enum_logfont_ex.elf_log_font.lf_weight,
            r.lf_italic == (enum_logfont_ex_dv.elf_enum_logfont_ex.elf_log_font.lf_italic != 0),
            r.elf_full_name matches Some(n) && n.0@
                == enum_logfont_ex_dv.elf_enum_logfont_ex.elf_full_name@,
            r.elf_style matches Some(st) && st.0@ == enum_logfont_ex_dv.elf_enum_logfont_ex.elf_style@,
            r.design_coords matches Some(v) && v@.len()
                == enum_logfont_ex_dv.elf_design_vector.dv_num_axes && (forall|i: int|
                0 <= i < v@.len() ==> v@[i] == enum_logfont_ex_dv.elf_design_vector.dv_values[i]),
    {
        let enum_logfont_ex = &enum_logfont_ex_dv.elf_enum_logfont_ex;
        let logfont = &enum_logfont_ex.elf_log_font;
        let design_vec = &enum_logfont_ex_dv.elf_design_vector;
        let num_axes = design_vec.dv_num_axes;
        let mut design_coords: Vec<i32> = Vec::new();
        let mut i: u32 = 0;
        while i < num_axes
            invariant
                i <= num_axes,
                num_axes <= 16,
                design_vec.dv_values@.len() == 16,
                design_coords@ == design_vec.dv_values@.take(i as int),
            decreases num_axes - i,
        {
            design_coords.push(design_vec.dv_values[i as usize]);
            i = i + 1;
            assert(design_coords@ =~= design_vec.dv_values@.take(i as int));
        }
        LogFont {
            lf_face_name: UTF16String(logfont.lf_face_name),
            lf_weight: logfont.lf_weight,
            lf_italic: logfont.lf_italic != 0,
            elf_full_name: Some(UTF16String(enum_logfont_ex.elf_full_name)),
            elf_style: Some(UTF16String(enum_logfont_ex.elf_style)),
            design_coords: Some(design_coords),
        }
    }
}

/// An `ENUMLOGFONTEXW` describes the font of its `LOGFONTW`, with the full
/// name and style added.
pub proof fn lemma_enum_log_font_ex_extends_log_font(e: EnumLogFontExW)
    ensures
        enum_log_font_ex_view(e) == (LogFontView {
            full_name: Some(e.elf_full_name@),
            style: Some(e.elf_style@),
            ..log_font_view(e.elf_log_font)
        }),
{
}

/// An `ENUMLOGFONTEXDVW` describes the font of its `ENUMLOGFONTEXW`, with
/// exactly `dv_num_axes` design coordinates added.
pub proof fn lemma_enum_log_font_ex_dv_extends_enum_log_font_ex(dv: EnumLogFontExDvW)
    requires
        dv.elf_design_vector.dv_num_axes <= MM_MAX_NUMAXES,
    ensures
        enum_log_font_ex_dv_view(dv) == (LogFontView {
            design_coords: Some(dv.elf_design_vector.dv_values@.take(dv.elf_design_vector.dv_num_axes as int)),
            ..enum_log_font_ex_view(dv.elf_enum_logfont_ex)
        }),
        enum_log_font_ex_dv_view(dv).design_coords.unwrap().len() == dv.elf_design_vector.dv_num_axes,
{
}

/// A logical font is vertical exactly when its face name, decoded from
/// UTF-16, begins with `'@'` (for a face name that decodes).
pub proof fn lemma_is_vertical_iff_name_starts_with_at(logfont: LogFontW)
    requires
        utf16_decode(text_units(logfont.lf_face_name@)) is Some,
    ensures
        (logfont.lf_face_name@[0] == '@' as u16) <==> ({
            let name = utf16_decode(text_units(logfont.lf_face_name@)).unwrap();
            name.len() > 0 && name[0] == '@'
        }),
{
    let face = logfont.lf_face_name@;
    let t = text_units(face);
    assert(face.len() == 32);
    lemma_nul_terminated_len_bound(face);
    if face[0] != 0 {
        assert(nul_terminated_len(face) == 1 + nul_terminated_len(face.drop_first()));
        assert(t.len() >= 1);
        assert(t[0] == face[0]);
    } else {
        assert(nul_terminated_len(face) == 0);
        assert(t.len() == 0);
    }
}

/// Each summary keeps the record's face name unit for unit (a vertical
/// face keeps its leading `'@'`), its weight unchanged, and its italic flag
/// as "nonzero"; the extended records add their full name and style as they
/// are, and the design vector its first `dv_num_axes` values, in order.
pub proof fn lemma_summaries_keep_the_record(lf: LogFontW, e: EnumLogFontExW, dv: EnumLogFontExDvW)
    requires
        dv.elf_design_vector.dv_num_axes <= MM_MAX_NUMAXES,
    ensures
        log_font_view(lf).face_name == lf.lf_face_name@,
        log_font_view(lf).weight == lf.lf_weight,
        log_font_view(lf).italic == (lf.lf_italic != 0),
        log_font_view(lf).full_name is None,
        log_font_view(lf).style is None,
        log_font_view(lf).design_coords is None,
        is_vertical_face(lf) ==> log_font_view(lf).face_name[0] == '@' as u16,
        enum_log_font_ex_view(e).face_name == e.elf_log_font.lf_face_name@,
        enum_log_font_ex_view(e).weight == e.elf_log_font.lf_weight,
        enum_log_font_ex_view(e).italic == (e.elf_log_font.lf_italic != 0),
        enum_log_font_ex_view(e).full_name == Some(e.elf_full_name@),
        enum_log_font_ex_view(e).style == Some(e.elf_style@),
        enum_log_font_ex_view(e).design_coords is None,
        enum_log_font_ex_dv_view(dv).face_name == dv.elf_enum_logfont_ex.elf_log_font.lf_face_name@,
        enum_log_font_ex_dv_view(dv).weight == dv.elf_enum_logfont_ex.elf_log_font.lf_weight,
        enum_log_font_ex_dv_view(dv).italic == (dv.elf_enum_logfont_ex.elf_log_font.lf_italic != 0),
        enum_log_font_ex_dv_view(dv).full_name == Some(dv.elf_enum_logfont_ex.elf_full_name@),
        enum_log_font_ex_dv_view(dv).style == Some(dv.elf_enum_logfont_ex.elf_style@),
        enum_log_font_ex_dv_view(dv).design_coords matches Some(c) && c.len()
            == dv.elf_design_vector.dv_num_axes && (forall|i: int|
            0 <= i < c.len() ==> c[i] == dv.elf_design_vector.dv_values[i]),
{
}

} // verus!
