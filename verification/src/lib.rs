//! Font enumeration helpers for the Windows GDI, with their decision logic
//! verified: character-set codes, font-type flags, logical-font records,
//! UTF-16 face names and the `GetFontData` protocol.

pub mod charset;
pub mod enum_font_families_ex;
pub mod get_font_data;
pub mod logfont;
pub mod utf16;

pub use charset::CharSet;
pub use enum_font_families_ex::{
    enum_font_families_ex_logfont, EnumFontFamExProcArgs, EnumFontFamExProcReturn, TextMetricW,
};
pub use get_font_data::{
    get_font_data_on_read, get_font_data_on_size, get_font_file_data_on_collection,
    has_font_data, table_tag, FontDataRequest, FontDataStep, FontFileStep, GDI_ERROR,
};
pub use logfont::{
    is_vertical, DesignVector, EnumLogFontExDvW, EnumLogFontExW, LogFont, LogFontW,
};
pub use utf16::UTF16String;
