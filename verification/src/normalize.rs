//! The type normalizer: every column value becomes text.
//!
//! Each driver column carries a type tag. The policy table below maps
//! every tag to the one typed read the bridge performs on that column —
//! or to no read at all for the tags the bridge does not support. The
//! read's outcome, present text or absent value, is then reduced to a
//! single cell string: the text itself, or the empty string for a SQL
//! NULL, a failed typed read, and every unsupported tag alike.

use vstd::prelude::*;

verus! {

/// The library's model of a driver column-type tag, one variant per tag
/// the wire protocol can declare for a column.
#[derive(Clone, Copy, Debug, PartialEq, Eq, Structural)]
pub enum ColumnKind {
    /// No declared type.
    Null,
    /// A bit or boolean value.
    Bit,
    /// An eight-bit integer.
    Int1,
    /// A sixteen-bit integer.
    Int2,
    /// A thirty-two-bit integer.
    Int4,
    /// A sixty-four-bit integer.
    Int8,
    /// A small datetime value.
    Datetime4,
    /// A thirty-two-bit floating point value.
    Float4,
    /// A sixty-four-bit floating point value.
    Float8,
    /// A money value.
    Money,
    /// A datetime value.
    Datetime,
    /// A thirty-two-bit money value.
    Money4,
    /// A unique identifier.
    Guid,
    /// An integer of variable width.
    Intn,
    /// A bit value of variable width.
    Bitn,
    /// A decimal value.
    Decimaln,
    /// A numeric value.
    Numericn,
    /// A floating point value of variable width.
    Floatn,
    /// A datetime value of variable width.
    Datetimen,
    /// A date value.
    Daten,
    /// A time value.
    Timen,
    /// A high-precision datetime value.
    Datetime2,
    /// A datetime value with an offset.
    DatetimeOffsetn,
    /// A large variable binary value.
    BigVarBin,
    /// A large variable character value.
    BigVarChar,
    /// A binary value.
    BigBinary,
    /// A character value.
    BigChar,
    /// A variable character value in wide encoding.
    NVarchar,
    /// A character value in wide encoding.
    NChar,
    /// An XML value.
    Xml,
    /// A user-defined type.
    Udt,
    /// A text value.
    Text,
    /// An image value.
    Image,
    /// A text value in wide encoding.
    NText,
    /// A variant value.
    SSVariant,
}

/// The one typed read the bridge performs for a column, named by the
/// shape of the value it yields.
#[derive(Clone, Copy, Debug, PartialEq, Eq, Structural)]
pub enum FetchKind {
    /// No read: the tag is unsupported and the cell is always empty.
    Skip,
    /// Read as a boolean.
    Boolean,
    /// Read as an eight-bit integer.
    TinyInt,
    /// Read as a sixteen-bit integer.
    SmallInt,
    /// Read as a thirty-two-bit integer.
    Int,
    /// Read as a sixty-four-bit integer.
    BigInt,
    /// Read as a thirty-two-bit floating point number.
    Real,
    /// Read as a sixty-four-bit floating point number.
    Double,
    /// Read as a datetime value.
    DateTime,
    /// Read as a date value.
    Date,
    /// Read as a time value.
    Time,
    /// Read as a datetime value with an offset.
    DateTimeOffset,
    /// Read as text.
    Chars,
}

/// The policy table: the typed read performed for each column tag. Money,
/// identifier, binary, XML, user-defined and variant tags are never read.
pub open spec fn fetch_kind_of(k: ColumnKind) -> FetchKind {
    match k {
        ColumnKind::Null => FetchKind::Skip,
        ColumnKind::Bit => FetchKind::Boolean,
        ColumnKind::Int1 => FetchKind::TinyInt,
        ColumnKind::Int2 => FetchKind::SmallInt,
        ColumnKind::Int4 => FetchKind::Int,
        ColumnKind::Int8 => FetchKind::BigInt,
        ColumnKind::Datetime4 => FetchKind::DateTime,
        ColumnKind::Float4 => FetchKind::Real,
        ColumnKind::Float8 => FetchKind::Double,
        ColumnKind::Money => FetchKind::Skip,
        ColumnKind::Datetime => FetchKind::DateTime,
        ColumnKind::Money4 => FetchKind::Skip,
        ColumnKind::Guid => FetchKind::Skip,
        ColumnKind::Intn => FetchKind::BigInt,
        ColumnKind::Bitn => FetchKind::BigInt,
        ColumnKind::Decimaln => FetchKind::Double,
        ColumnKind::Numericn => FetchKind::Double,
        ColumnKind::Floatn => FetchKind::Double,
        ColumnKind::Datetimen => FetchKind::DateTime,
        ColumnKind::Daten => FetchKind::Date,
        ColumnKind::Timen => FetchKind::Time,
        ColumnKind::Datetime2 => FetchKind::DateTime,
        ColumnKind::DatetimeOffsetn => FetchKind::DateTimeOffset,
        ColumnKind::BigVarBin => FetchKind::Skip,
        ColumnKind::BigVarChar => FetchKind::Chars,
        ColumnKind::BigBinary => FetchKind::Skip,
        ColumnKind::BigChar => FetchKind::Chars,
        ColumnKind::NVarchar => FetchKind::Chars,
        ColumnKind::NChar => FetchKind::Chars,
        ColumnKind::Xml => FetchKind::Skip,
        ColumnKind::Udt => FetchKind::Skip,
        ColumnKind::Text => FetchKind::Chars,
        ColumnKind::Image => FetchKind::Skip,
        ColumnKind::NText => FetchKind::Chars,
        ColumnKind::SSVariant => FetchKind::Skip,
    }
}

/// The typed read to perform for a column tag, as the policy table says.
pub fn fetch_kind(k: ColumnKind) -> (f: FetchKind)
    ensures
        f == fetch_kind_of(k),
{
    match k {
        ColumnKind::Null => FetchKind::Skip,
        ColumnKind::Bit => FetchKind::Boolean,
        ColumnKind::Int1 => FetchKind::TinyInt,
        ColumnKind::Int2 => FetchKind::SmallInt,
        ColumnKind::Int4 => FetchKind::Int,
        ColumnKind::Int8 => FetchKind::BigInt,
        ColumnKind::Datetime4 => FetchKind::DateTime,
        ColumnKind::Float4 => FetchKind::Real,
        ColumnKind::Float8 => FetchKind::Double,
        ColumnKind::Money => FetchKind::Skip,
        ColumnKind::Datetime => FetchKind::DateTime,
        ColumnKind::Money4 => FetchKind::Skip,
        ColumnKind::Guid => FetchKind::Skip,
        ColumnKind::Intn => FetchKind::BigInt,
        ColumnKind::Bitn => FetchKind::BigInt,
        ColumnKind::Decimaln => FetchKind::Double,
        ColumnKind::Numericn => FetchKind::Double,
        ColumnKind::Floatn => FetchKind::Double,
        ColumnKind::Datetimen => FetchKind::DateTime,
        ColumnKind::Daten => FetchKind::Date,
        ColumnKind::Timen => FetchKind::Time,
        ColumnKind::Datetime2 => FetchKind::DateTime,
        ColumnKind::DatetimeOffsetn => FetchKind::DateTimeOffset,
        ColumnKind::BigVarBin => FetchKind::Skip,
        ColumnKind::BigVarChar => FetchKind::Chars,
        ColumnKind::BigBinary => FetchKind::Skip,
        ColumnKind::BigChar => FetchKind::Chars,
        ColumnKind::NVarchar => FetchKind::Chars,
        ColumnKind::NChar => FetchKind::Chars,
        ColumnKind::Xml => FetchKind::Skip,
        ColumnKind::Udt => FetchKind::Skip,
        ColumnKind::Text => FetchKind::Chars,
        ColumnKind::Image => FetchKind::Skip,
        ColumnKind::NText => FetchKind::Chars,
        ColumnKind::SSVariant => FetchKind::Skip,
    }
}

/// The text view of a typed read's outcome: the text when a value was
/// read, nothing when the value was absent or the read failed.
pub open spec fn opt_text(o: Option<String>) -> Option<Seq<char>> {
    match o {
        Option::Some(s) => Option::Some(s@),
        Option::None => Option::None,
    }
}

/// The cell a read's outcome normalizes to: empty for an unsupported
/// tag and for an absent value, the read's text otherwise.
pub open spec fn cell_text(f: FetchKind, fetched: Option<Seq<char>>) -> Seq<char> {
    if f is Skip {
        Seq::empty()
    } else {
        match fetched {
            Option::Some(t) => t,
            Option::None => Seq::empty(),
        }
    }
}

/// Normalizes one typed read's outcome to its cell string.
pub fn cell_value(f: FetchKind, fetched: &Option<String>) -> (s: String)
    ensures
        s@ == cell_text(f, opt_text(*fetched)),
{
    match f {
        FetchKind::Skip => String::new(),
        _ => match fetched {
            Option::Some(v) => v.clone(),
            Option::None => String::new(),
        },
    }
}

/// Normalizes one row. Position by position, the outcome of the typed
/// read chosen for that column's tag becomes the cell string; columns
/// with unsupported tags are empty whatever was passed for them.
pub fn row_to_vec(kinds: &Vec<ColumnKind>, cells: &Vec<Option<String>>) -> (r: Vec<String>)
    requires
        kinds@.len() == cells@.len(),
    ensures
        r@.len() == kinds@.len(),
        forall|i: int|
            0 <= i < kinds@.len() ==> (#[trigger] r@[i])@ == cell_text(
                fetch_kind_of(kinds@[i]),
                opt_text(cells@[i]),
            ),
{
    let mut r: Vec<String> = Vec::new();
    let n = kinds.len();
    let mut i: usize = 0;
    while i < n
        invariant
            i <= n,
            n == kinds@.len(),
            kinds@.len() == cells@.len(),
            r@.len() == i,
            forall|j: int|
                0 <= j < i ==> (#[trigger] r@[j])@ == cell_text(
                    fetch_kind_of(kinds@[j]),
                    opt_text(cells@[j]),
                ),
        decreases n - i,
    {
        let f = fetch_kind(kinds[i]);
        let s = cell_value(f, &cells[i]);
        r.push(s);
        i = i + 1;
    }
    r
}

/// A SQL NULL in a supported column and a value in an unsupported column
/// normalize to the same cell: the empty string, indistinguishably.
pub proof fn lemma_null_like_unsupported(f: FetchKind, fetched: Option<Seq<char>>)
    ensures
        cell_text(f, Option::None) == Seq::<char>::empty(),
        cell_text(FetchKind::Skip, fetched) == Seq::<char>::empty(),
        cell_text(f, Option::None) == cell_text(FetchKind::Skip, fetched),
{
}

} // verus!
