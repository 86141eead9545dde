//! The two-call protocol of `GetFontData`: ask for the size of a font
//! table, then read it into a buffer of that size.

use vstd::prelude::*;

verus! {

/// What `GetFontData` returns when it fails (`GDI_ERROR`, all bits set).
pub const GDI_ERROR: u32 = 0xFFFF_FFFF;

/// The tag of a font table: its four name bytes read big-endian.
pub open spec fn spec_table_tag(name: Seq<u8>) -> int {
    name[0] * 0x100_0000 + name[1] * 0x1_0000 + name[2] * 0x100 + name[3]
}

/// A table tag is the four name bytes, first byte most significant: each
/// byte, whatever its value (a space included), is read back from its place
/// in the tag, and two names have the same tag only when they are equal.
pub proof fn lemma_table_tag_bytes(name: Seq<u8>)
    requires
        name.len() == 4,
    ensures
        0 <= spec_table_tag(name) <= 0xFFFF_FFFF,
        spec_table_tag(name) / 0x100_0000 == name[0],
        (spec_table_tag(name) / 0x1_0000) % 0x100 == name[1],
        (spec_table_tag(name) / 0x100) % 0x100 == name[2],
        spec_table_tag(name) % 0x100 == name[3],
{
    let (b0, b1, b2, b3) = (name[0] as int, name[1] as int, name[2] as int, name[3] as int);
    assert(spec_table_tag(name) == b0 * 0x100_0000 + b1 * 0x1_0000 + b2 * 0x100 + b3);
    assert({
        let t = b0 * 0x100_0000 + b1 * 0x1_0000 + b2 * 0x100 + b3;
        &&& 0 <= t <= 0xFFFF_FFFF
        &&& t / 0x100_0000 == b0
        &&& (t / 0x1_0000) % 0x100 == b1
        &&& (t / 0x100) % 0x100 == b2
        &&& t % 0x100 == b3
    }) by (nonlinear_arith)
        requires
            0 <= b0 < 0x100,
            0 <= b1 < 0x100,
            0 <= b2 < 0x100,
            0 <= b3 < 0x100,
    ;
}

/// Two names with the same tag are the same name.
pub proof fn lemma_table_tag_injective(a: Seq<u8>, b: Seq<u8>)
    requires
        a.len() == 4,
        b.len() == 4,
        spec_table_tag(a) == spec_table_tag(b),
    ensures
        a == b,
{
    lemma_table_tag_bytes(a);
    lemma_table_tag_bytes(b);
    assert(a =~= b);
}

/// The tag of a font table from its four-byte name (`u32::from_be_bytes`).
pub fn table_tag(name: [u8; 4]) -> (r: u32)
    ensures
        r == spec_table_tag(name@),
        r / 0x100_0000 == name[0],
        (r / 0x1_0000) % 0x100 == name[1],
        (r / 0x100) % 0x100 == name[2],
        r % 0x100 == name[3],
{
    proof {
        lemma_table_tag_bytes(name@);
    }
    (name[0] as u32) * 0x100_0000 + (name[1] as u32) * 0x1_0000 + (name[2] as u32) * 0x100
        + (name[3] as u32)
}

/// Which table `GetFontData` reads, and from which offset in it.
#[derive(Clone, Copy, Debug, PartialEq, Eq, Structural)]
pub struct FontDataRequest {
    pub table: u32,
    pub offset: u32,
}

impl FontDataRequest {
    /// The whole font collection (`'ttcf'`), present only for a font that
    /// belongs to a TrueType collection.
    pub fn collection() -> (r: FontDataRequest)
        ensures
            r.table == spec_table_tag(seq![0x74u8, 0x74u8, 0x63u8, 0x66u8]),
            r.table == 0x7474_6366,
            r.offset == 0,
    {
        FontDataRequest { table: table_tag(['t' as u8, 't' as u8, 'c' as u8, 'f' as u8]), offset: 0 }
    }

    /// The whole font file, from its table directory (table 0).
    pub fn table_directory() -> (r: FontDataRequest)
        ensures
            r.table == 0,
            r.offset == 0,
    {
        FontDataRequest { table: 0, offset: 0 }
    }
}

/// A reported size stands for data when it is neither the error value nor
/// zero.
pub open spec fn reports_data(size: u32) -> bool {
    size != GDI_ERROR && size != 0
}

/// Every reported size other than zero and the error value stands for data.
pub proof fn lemma_reports_data_exactly(size: u32)
    ensures
        reports_data(size) <==> (size != 0xFFFF_FFFFu32 && size != 0),
        GDI_ERROR == 0xFFFF_FFFFu32,
        zeroed(size as nat).len() == size,
        forall|i: int| 0 <= i < size ==> zeroed(size as nat)[i] == 0,
{
}

/// Whether a table has data, from the size that `GetFontData` reports for
/// it when asked with no buffer.
pub fn has_font_data(size: u32) -> (r: bool)
    ensures
        r == reports_data(size),
        r <==> (size != 0xFFFF_FFFFu32 && size != 0),
{
    if size == GDI_ERROR || size == 0 {
        false
    } else {
        true
    }
}

/// What to do once `GetFontData` has reported the size of a table.
pub enum FontDataStep {
    /// Give up: there is no data.
    NoData,
    /// Read the table into this buffer.
    Read(Vec<u8>),
}

/// `size` zero bytes.
pub open spec fn zeroed(size: nat) -> Seq<u8> {
    Seq::new(size, |i: int| 0u8)
}

/// The first decision of `get_font_data`: with a size that stands for data,
/// read into a zeroed buffer of exactly that size; otherwise there is no
/// data.
pub fn get_font_data_on_size(size: u32) -> (r: FontDataStep)
    ensures
        r is Read <==> reports_data(size),
        r matches FontDataStep::Read(buffer) ==> buffer@ == zeroed(size as nat),
        r is Read <==> (size != 0xFFFF_FFFFu32 && size != 0),
        r matches FontDataStep::Read(buffer) ==> buffer@.len() == size && (forall|i: int|
            0 <= i < size ==> buffer@[i] == 0),
{
    if size == GDI_ERROR || size == 0 {
        return FontDataStep::NoData;
    }
    let len = size as usize;
    let mut buffer: Vec<u8> = Vec::new();
    let mut i: usize = 0;
    while i < len
        invariant
            i <= len,
            len == size,
            buffer@ == zeroed(i as nat),
        decreases len - i,
    {
        buffer.push(0u8);
        i = i + 1;
        assert(buffer@ =~= zeroed(i as nat));
    }
    FontDataStep::Read(buffer)
}

/// The second decision of `get_font_data`: the buffer is the data unless
/// the read reported the error value.
pub fn get_font_data_on_read(buffer: Vec<u8>, written: u32) -> (r: Option<Vec<u8>>)
    ensures
        r is Some <==> written != GDI_ERROR,
        r is Some <==> written != 0xFFFF_FFFFu32,
        r matches Some(data) ==> data@ == buffer@,
{
    if written == GDI_ERROR {
        return None;
    }
    Some(buffer)
}

/// What to do once the collection has been asked for, in `get_font_file_data`.
pub enum FontFileStep {
    /// The collection is the font file.
    Done(Vec<u8>),
    /// Ask for this table instead.
    Fetch(FontDataRequest),
}

/// The decision of `get_font_file_data`: the font file is the collection
/// where the font has one, and otherwise what the table directory gives.
pub fn get_font_file_data_on_collection(collection: Option<Vec<u8>>) -> (r: FontFileStep)
    ensures
        collection is None ==> r == FontFileStep::Fetch(
            FontDataRequest { table: 0, offset: 0 },
        ),
        collection matches Some(data) ==> (r matches FontFileStep::Done(file) && file@ == data@),
{
    match collection {
        Some(data) => FontFileStep::Done(data),
        None => FontFileStep::Fetch(FontDataRequest::table_directory()),
    }
}

} // verus!
