use gdi_rs::logfont::MM_MAX_NUMAXES;
use gdi_rs::{
    enum_font_families_ex_logfont, is_vertical, DesignVector, EnumLogFontExDvW, EnumLogFontExW,
    LogFont, LogFontW, UTF16String,
};
use windows::Win32::Graphics::Gdi;

fn face<const N: usize>(s: &str) -> [u16; N] {
    let mut a = [0u16; N];
    for (i, u) in s.encode_utf16().enumerate() {
        a[i] = u;
    }
    a
}

fn sample_logfont(name: &str, weight: i32, italic: u8) -> LogFontW {
    LogFontW {
        lf_height: -12,
        lf_width: 0,
        lf_escapement: 0,
        lf_orientation: 0,
        lf_weight: weight,
        lf_italic: italic,
        lf_underline: 0,
        lf_strike_out: 0,
        lf_char_set: 128,
        lf_out_precision: 0,
        lf_clip_precision: 0,
        lf_quality: 0,
        lf_pitch_and_family: 0,
        lf_face_name: face(name),
    }
}

fn sample_enum(name: &str) -> EnumLogFontExW {
    EnumLogFontExW {
        elf_log_font: sample_logfont(name, 700, 1),
        elf_full_name: face("Yu Gothic Bold"),
        elf_style: face("Bold"),
        elf_script: face("Japanese"),
    }
}

#[test]
fn is_vertical_looks_at_the_leading_at_sign() {
    assert!(is_vertical(&sample_logfont("@MS Gothic", 400, 0)));
    assert!(!is_vertical(&sample_logfont("MS Gothic", 400, 0)));
    assert!(!is_vertical(&sample_logfont("", 400, 0)));
    assert!(!is_vertical(&sample_logfont("A@", 400, 0)));
}

#[test]
fn is_vertical_agrees_with_the_decoded_name() {
    for name in ["@Yu Gothic", "Yu Gothic", "@", "x", "\u{1F600}"] {
        let lf = sample_logfont(name, 400, 0);
        let decoded = UTF16String(lf.lf_face_name).to_string();
        assert_eq!(is_vertical(&lf), decoded.starts_with('@'));
    }
}

#[test]
fn logfont_new_keeps_name_weight_and_slant() {
    let lf = sample_logfont("Meiryo", 400, 0);
    let f = LogFont::new(&lf);
    assert_eq!(f.lf_face_name.to_string(), "Meiryo");
    assert_eq!(f.lf_weight, 400);
    assert!(!f.lf_italic);
    assert!(f.elf_full_name.is_none());
    assert!(f.elf_style.is_none());
    assert!(f.design_coords.is_none());
    let italic = LogFont::new(&sample_logfont("Meiryo", 400, 255));
    assert!(italic.lf_italic);
}

#[test]
fn logfont_from_enum_logfont_ex_adds_full_name_and_style() {
    let e = sample_enum("Yu Gothic");
    let f = LogFont::new_from_enum_logfont_ex(&e);
    assert_eq!(f.lf_face_name.to_string(), "Yu Gothic");
    assert_eq!(f.lf_weight, 700);
    assert!(f.lf_italic);
    assert_eq!(f.elf_full_name.as_ref().unwrap().to_string(), "Yu Gothic Bold");
    assert_eq!(f.elf_style.as_ref().unwrap().to_string(), "Bold");
    assert!(f.design_coords.is_none());
    let plain = LogFont::new(&e.elf_log_font);
    assert!(plain.lf_face_name == f.lf_face_name);
    assert_eq!(plain.lf_weight, f.lf_weight);
}

#[test]
fn logfont_from_enum_logfont_ex_dv_copies_the_used_axes() {
    let mut values = [0i32; 16];
    for (i, v) in values.iter_mut().enumerate() {
        *v = (i as i32 + 1) * 100;
    }
    let dv = EnumLogFontExDvW {
        elf_enum_logfont_ex: sample_enum("Bahnschrift"),
        elf_design_vector: DesignVector { dv_reserved: 0x0800_8610, dv_num_axes: 2, dv_values: values },
    };
    let f = LogFont::new_from_enum_logfont_ex_dv(&dv);
    assert_eq!(f.design_coords, Some(vec![100, 200]));
    assert!(f == {
        let mut g = LogFont::new_from_enum_logfont_ex(&dv.elf_enum_logfont_ex);
        g.design_coords = Some(vec![100, 200]);
        g
    });

    let none = EnumLogFontExDvW {
        elf_design_vector: DesignVector { dv_reserved: 0, dv_num_axes: 0, dv_values: values },
        ..dv
    };
    assert_eq!(LogFont::new_from_enum_logfont_ex_dv(&none).design_coords, Some(vec![]));

    let all = EnumLogFontExDvW {
        elf_design_vector: DesignVector { dv_reserved: 0, dv_num_axes: MM_MAX_NUMAXES, dv_values: values },
        ..dv
    };
    assert_eq!(LogFont::new_from_enum_logfont_ex_dv(&all).design_coords, Some(values.to_vec()));
}

#[test]
fn max_axes_matches_the_gdi_constant() {
    assert_eq!(MM_MAX_NUMAXES, Gdi::MM_MAX_NUMAXES);
}

#[test]
fn enumeration_logfont_sets_only_face_and_charset() {
    let name = face::<32>("Arial");
    let lf = enum_font_families_ex_logfont(name, 1);
    assert_eq!(lf.lf_face_name, name);
    assert_eq!(lf.lf_char_set, 1);
    let expected = LogFontW { lf_face_name: name, lf_char_set: 1, ..sample_logfont("", 0, 0) };
    let expected = LogFontW { lf_height: 0, ..expected };
    assert_eq!(lf, expected);
    let default_windows = Gdi::LOGFONTW::default();
    assert_eq!(lf.lf_weight, default_windows.lfWeight);
    assert_eq!(lf.lf_out_precision, default_windows.lfOutPrecision.0);
}
