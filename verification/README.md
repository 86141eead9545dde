# gdi_rs

Helpers for enumerating Windows GDI fonts and reading their data.

- `src/` is the library, verified with Verus: character-set codes
  (`charset`), the font-type bits and records of an enumeration report and
  the request logical font (`enum_font_families_ex`), logical-font records
  and the `LogFont` summary (`logfont`), NUL-terminated UTF-16 buffers and
  their decoding (`utf16`), and the decisions of the two-call `GetFontData`
  protocol (`get_font_data`).
- `app/` holds what talks to Windows: device contexts, font handles, the
  `EnumFontFamiliesExW` and `GetFontData` calls, and the conversions between
  the `windows` crate's records and the library's.
- `tests/` runs the library on concrete values and compares its constants
  against those of the `windows` crate.
