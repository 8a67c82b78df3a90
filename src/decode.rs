//! The value decoder: from a column's buffers, a type tag and a row to one typed value.
use vstd::prelude::*;
use vstd::utf8::{decode_utf8, valid_utf8};

use crate::bytes::{
    cell_bytes, cell_in_bounds, le_bytes, le_nat, lemma_le_nat_bound, lemma_pow256_facts,
    lemma_signed_round_trip, pow256, read_le, row_is_valid, signed_of, unsigned_of,
    validity_row_is_valid,
};
use crate::decimal::{decimal_from_parts, representable, DecimalValue};
use crate::error::ConversionError;
use crate::hugeint::{hugeint_value, i128_from_hugeint, Hugeint};
use crate::temporal::{
    date_from_days, date_of_epoch_days, interval_from_parts, interval_micros, time_from_micros,
    time_of_micros, timestamp_from_micros, timestamp_of_micros, Interval, MICROS_PER_DAY,
};
use crate::text::utf8_to_string;
use crate::value::{DuckValue, TypeTag};

verus! {

/// One column of a data chunk, as plain values read from the engine's vector.
///
/// Fixed-width cells lie one after another in `data`, little-endian; a list cell is an
/// offset and a length (8 bytes each) into the child column; text and blob cells are the
/// bytes of each row in `texts`.
#[derive(Debug)]
pub struct ColumnVector {
    pub type_tag: TypeTag,
    pub data: Vec<u8>,
    /// One bit per row, least significant first; `None` when every row is valid.
    pub validity: Option<Vec<u64>>,
    pub texts: Vec<Vec<u8>>,
    /// Precision of a decimal column, in decimal digits.
    pub decimal_width: u8,
    /// Scale of a decimal column.
    pub decimal_scale: u8,
    /// Number of elements of each cell of a fixed-size array column.
    pub array_size: u64,
    /// The elements of a list or array column.
    pub child: Option<Box<ColumnVector>>,
}

pub open spec fn validity_view(col: ColumnVector) -> Option<Seq<u64>> {
    match col.validity {
        None => None,
        Some(v) => Some(v@),
    }
}

/// Bytes per stored decimal, by precision.
pub open spec fn decimal_storage(width: u8) -> nat {
    if width <= 4 {
        2
    } else if width <= 9 {
        4
    } else if width <= 18 {
        8
    } else {
        16
    }
}

/// Bytes per cell of a column of fixed-width cells.
pub open spec fn cell_width(col: ColumnVector, t: TypeTag) -> nat {
    match t {
        TypeTag::Boolean | TypeTag::TinyInt | TypeTag::UTinyInt => 1,
        TypeTag::SmallInt | TypeTag::USmallInt => 2,
        TypeTag::Integer | TypeTag::UInteger | TypeTag::Float | TypeTag::Date => 4,
        TypeTag::BigInt | TypeTag::UBigInt | TypeTag::Double | TypeTag::Time
        | TypeTag::Timestamp => 8,
        TypeTag::HugeInt | TypeTag::UHugeInt | TypeTag::Interval | TypeTag::List => 16,
        TypeTag::Decimal => decimal_storage(col.decimal_width),
        _ => 0,
    }
}

/// Whether cell `row` lies in the data buffer.
pub open spec fn fits(col: ColumnVector, row: int, w: nat) -> bool {
    cell_in_bounds(col.data@.len() as int, row, w as int)
}

/// The unsigned value of cell `row`.
pub open spec fn cell_uint(col: ColumnVector, row: int, w: nat) -> nat {
    le_nat(cell_bytes(col.data@, row, w as int))
}

/// The unsigned value of `pw` bytes at `off` inside cell `row`.
pub open spec fn part_uint(col: ColumnVector, row: int, w: nat, off: int, pw: int) -> nat {
    le_nat(col.data@.subrange(row * w + off, row * w + off + pw))
}

/// The signed value of cell `row`.
pub open spec fn cell_int(col: ColumnVector, row: int, w: nat) -> int {
    signed_of(cell_uint(col, row, w), w)
}

/// The 128-bit integer stored in 16-byte cell `row`, in two-limb form.
pub open spec fn wide_int(col: ColumnVector, row: int) -> int {
    hugeint_value(
        Hugeint {
            lower: part_uint(col, row, 16, 0, 8) as u64,
            upper: signed_of(part_uint(col, row, 16, 8, 8), 8) as i64,
        },
    )
}

/// The unscaled integer of decimal cell `row`, stored in as many bytes as its precision needs.
pub open spec fn decimal_mantissa(col: ColumnVector, row: int) -> int {
    let w = decimal_storage(col.decimal_width);
    if w == 16 {
        wide_int(col, row)
    } else {
        cell_int(col, row, w)
    }
}

/// Whether `v` is the decoded value of valid cell `row` of a column of scalars.
pub open spec fn scalar_decodes_to(col: ColumnVector, t: TypeTag, row: int, v: DuckValue) -> bool {
    let w = cell_width(col, t);
    let u = cell_uint(col, row, w);
    let s = cell_int(col, row, w);
    let text = if 0 <= row < col.texts@.len() { col.texts@[row]@ } else { Seq::empty() };
    match t {
        TypeTag::Boolean => fits(col, row, w) && v == DuckValue::Boolean(u != 0),
        TypeTag::TinyInt => fits(col, row, w) && v == DuckValue::TinyInt(s as i8),
        TypeTag::SmallInt => fits(col, row, w) && v == DuckValue::SmallInt(s as i16),
        TypeTag::Integer => fits(col, row, w) && v == DuckValue::Int(s as i32),
        TypeTag::BigInt => fits(col, row, w) && v == DuckValue::BigInt(s as i64),
        TypeTag::UTinyInt => fits(col, row, w) && v == DuckValue::UTinyInt(u as u8),
        TypeTag::USmallInt => fits(col, row, w) && v == DuckValue::USmallInt(u as u16),
        TypeTag::UInteger => fits(col, row, w) && v == DuckValue::UInt(u as u32),
        TypeTag::UBigInt => fits(col, row, w) && v == DuckValue::UBigInt(u as u64),
        TypeTag::Float => fits(col, row, w) && v == DuckValue::Float(u as u32),
        TypeTag::Double => fits(col, row, w) && v == DuckValue::Double(u as u64),
        TypeTag::HugeInt => fits(col, row, w) && v == DuckValue::HugeInt(wide_int(col, row) as i128),
        TypeTag::UHugeInt => fits(col, row, w) && v == DuckValue::UHugeInt(
            (part_uint(col, row, w, 0, 8) + part_uint(col, row, w, 8, 8) * pow256(8)) as u128,
        ),
        TypeTag::Date => fits(col, row, w) && date_of_epoch_days(s) is Some && v
            == DuckValue::Date(date_of_epoch_days(s)->Some_0),
        TypeTag::Time => fits(col, row, w) && 0 <= s < MICROS_PER_DAY && v == DuckValue::Time(
            time_of_micros(s),
        ),
        TypeTag::Timestamp => fits(col, row, w) && timestamp_of_micros(s) is Some && v
            == DuckValue::Timestamp(timestamp_of_micros(s)->Some_0),
        TypeTag::Interval => fits(col, row, w) && v == DuckValue::Interval(
            Interval {
                micros: interval_micros(
                    signed_of(part_uint(col, row, w, 0, 4), 4),
                    signed_of(part_uint(col, row, w, 4, 4), 4),
                    signed_of(part_uint(col, row, w, 8, 8), 8),
                ) as i128,
            },
        ),
        TypeTag::Varchar => 0 <= row < col.texts@.len() && valid_utf8(text) && (v matches DuckValue::Text(
            x,
        ) && x@ == decode_utf8(text)),
        TypeTag::Enum => 0 <= row < col.texts@.len() && valid_utf8(text) && (v matches DuckValue::Enum(
            x,
        ) && x@ == decode_utf8(text)),
        TypeTag::Blob => 0 <= row < col.texts@.len() && (v matches DuckValue::Blob(b) && b@ == text),
        TypeTag::Decimal => fits(col, row, w) && representable(
            decimal_mantissa(col, row),
            col.decimal_scale as int,
        ) && v == DuckValue::Decimal(
            DecimalValue { mantissa: decimal_mantissa(col, row) as i128, scale: col.decimal_scale as u32 },
        ),
        _ => false,
    }
}

/// Whether valid cell `row` of a column of scalars cannot be decoded.
pub open spec fn scalar_fails(col: ColumnVector, t: TypeTag, row: int) -> bool {
    let w = cell_width(col, t);
    let s = cell_int(col, row, w);
    let text = if 0 <= row < col.texts@.len() { col.texts@[row]@ } else { Seq::empty() };
    match t {
        TypeTag::Boolean | TypeTag::TinyInt | TypeTag::SmallInt | TypeTag::Integer
        | TypeTag::BigInt | TypeTag::UTinyInt | TypeTag::USmallInt | TypeTag::UInteger
        | TypeTag::UBigInt | TypeTag::Float | TypeTag::Double | TypeTag::HugeInt
        | TypeTag::UHugeInt | TypeTag::Interval => !fits(col, row, w),
        TypeTag::Date => !fits(col, row, w) || date_of_epoch_days(s) is None,
        TypeTag::Time => !fits(col, row, w) || !(0 <= s < MICROS_PER_DAY),
        TypeTag::Timestamp => !fits(col, row, w) || timestamp_of_micros(s) is None,
        TypeTag::Varchar | TypeTag::Enum => !(0 <= row < col.texts@.len()) || !valid_utf8(text),
        TypeTag::Blob => !(0 <= row < col.texts@.len()),
        TypeTag::Decimal => !fits(col, row, w) || !representable(
            decimal_mantissa(col, row),
            col.decimal_scale as int,
        ),
        _ => true,
    }
}

/// Whether this layer refuses to decode columns of type `t`.
pub open spec fn unsupported(t: TypeTag) -> bool {
    match t {
        TypeTag::Invalid | TypeTag::StructType | TypeTag::MapType | TypeTag::Union
        | TypeTag::Other(_) => true,
        _ => false,
    }
}

/// Offset of the first element of list cell `row` in the child column.
pub open spec fn list_offset(col: ColumnVector, row: int) -> int {
    part_uint(col, row, 16, 0, 8) as int
}

/// Number of elements of list cell `row`.
pub open spec fn list_length(col: ColumnVector, row: int) -> int {
    part_uint(col, row, 16, 8, 8) as int
}

/// Index in the child column of the first element of the nested cell `row`.
pub open spec fn first_element(col: ColumnVector, t: TypeTag, row: int) -> int {
    if t == TypeTag::List {
        list_offset(col, row)
    } else {
        row * col.array_size
    }
}

/// Number of elements of the nested cell `row`.
pub open spec fn element_count(col: ColumnVector, t: TypeTag, row: int) -> int {
    if t == TypeTag::List {
        list_length(col, row)
    } else {
        col.array_size as int
    }
}

/// Index in the child column of element `k` of the nested cell `row`.
pub open spec fn element_index(col: ColumnVector, t: TypeTag, row: int, k: int) -> int {
    first_element(col, t, row) + k
}

/// Whether the nested cell `row` can be located: its descriptor is in the buffer, there is a
/// child column, and its elements are numbered within 64 bits.
pub open spec fn nested_located(col: ColumnVector, t: TypeTag, row: int) -> bool {
    (t == TypeTag::List ==> fits(col, row, 16)) && col.child is Some && first_element(col, t, row)
        + element_count(col, t, row) <= u64::MAX
}

/// The elements of a list or array value; empty for any other value.
pub open spec fn nested_items(v: DuckValue) -> Seq<DuckValue> {
    match v {
        DuckValue::List(items) => items@,
        DuckValue::Array(items) => items@,
        _ => Seq::empty(),
    }
}

/// Whether `e` is the error for a failing scalar cell: `Unsupported` for a type this layer does
/// not decode, `PrecisionLoss` for a decimal that cannot be held, `Invalid` for anything else
/// (missing bytes, bad UTF-8, an impossible date or time).
pub open spec fn scalar_failure_is(col: ColumnVector, t: TypeTag, row: int, e: ConversionError) -> bool {
    if unsupported(t) {
        e is Unsupported
    } else if t == TypeTag::Decimal && fits(col, row, cell_width(col, t)) {
        e is PrecisionLoss
    } else {
        e is Invalid
    }
}

/// Whether `e` is the error for failing cell `row` of `col` read as type `t`: for a nested cell
/// that cannot be located, `Invalid`; for one whose element fails, the error of its first
/// failing element; for a scalar, as `scalar_failure_is` says.
pub open spec fn failure_is(col: ColumnVector, t: TypeTag, row: int, e: ConversionError) -> bool
    decreases col,
{
    if t == TypeTag::List || t == TypeTag::Array {
        if col.child is None || !nested_located(col, t, row) {
            e is Invalid
        } else {
            exists|k: int|
                0 <= k < element_count(col, t, row) && (forall|j: int|
                    0 <= j < k ==> !decode_fails(
                        *(col.child->0),
                        (col.child->0).type_tag,
                        #[trigger] element_index(col, t, row, j),
                    )) && failure_is(
                    *(col.child->0),
                    (col.child->0).type_tag,
                    #[trigger] element_index(col, t, row, k),
                    e,
                )
        }
    } else {
        scalar_failure_is(col, t, row, e)
    }
}

/// Whether `v` is the value of cell `row` of `col` read as type `t`: null where the validity
/// bitmap says so, whatever the type; otherwise a value of the type, and for a list or an
/// array the values of its elements, each read with the child column's own type.
pub open spec fn decodes_to(col: ColumnVector, t: TypeTag, row: int, v: DuckValue) -> bool
    decreases col,
{
    if !row_is_valid(validity_view(col), row) {
        v == DuckValue::Null
    } else if t == TypeTag::List || t == TypeTag::Array {
        &&& col.child is Some
        &&& nested_located(col, t, row)
        &&& (if t == TypeTag::List { v is List } else { v is Array })
        &&& nested_items(v).len() == element_count(col, t, row)
        &&& forall|i: int|
            0 <= i < nested_items(v).len() ==> decodes_to(
                *(col.child->0),
                (col.child->0).type_tag,
                element_index(col, t, row, i),
                #[trigger] nested_items(v)[i],
            )
    } else {
        scalar_decodes_to(col, t, row, v)
    }
}

/// Whether cell `row` of `col` read as type `t` is not null and cannot be decoded: its bytes
/// are missing or malformed, its type is not supported, or one of its elements fails.
pub open spec fn decode_fails(col: ColumnVector, t: TypeTag, row: int) -> bool
    decreases col,
{
    if !row_is_valid(validity_view(col), row) {
        false
    } else if t == TypeTag::List || t == TypeTag::Array {
        ||| col.child is None
        ||| !nested_located(col, t, row)
        ||| exists|k: int|
            0 <= k < element_count(col, t, row) && decode_fails(
                *(col.child->0),
                (col.child->0).type_tag,
                #[trigger] element_index(col, t, row, k),
            )
    } else {
        scalar_fails(col, t, row)
    }
}

fn invalid(msg: &str) -> (r: ConversionError)
    ensures
        r is Invalid,
{
    ConversionError::Invalid(msg.to_owned())
}

/// Start of cell `row` of `w` bytes, if the cell is in the buffer.
fn cell_start(data: &Vec<u8>, row: u64, w: usize) -> (r: Option<usize>)
    requires
        w <= 16,
    ensures
        r is Some <==> cell_in_bounds(data@.len() as int, row as int, w as int),
        r matches Some(s) ==> s == row * w,
{
    proof {
        assert(row as u128 * w as u128 <= 0x1_0000_0000_0000_0000 * 16) by (nonlinear_arith)
            requires row < 0x1_0000_0000_0000_0000int, w <= 16;
    }
    let end: u128 = row as u128 * w as u128 + w as u128;
    if end <= data.len() as u128 {
        Some((row as u128 * w as u128) as usize)
    } else {
        None
    }
}

/// The two's-complement value of `w` bytes.
fn to_signed(u: u64, w: usize) -> (r: i64)
    requires
        w == 1 || w == 2 || w == 4 || w == 8,
        u < pow256(w as nat),
    ensures
        r as int == signed_of(u as nat, w as nat),
{
    proof {
        lemma_pow256_facts();
    }
    if w == 1 {
        if u >= 0x80 { u as i64 - 0x100 } else { u as i64 }
    } else if w == 2 {
        if u >= 0x8000 { u as i64 - 0x1_0000 } else { u as i64 }
    } else if w == 4 {
        if u >= 0x8000_0000 { u as i64 - 0x1_0000_0000 } else { u as i64 }
    } else {
        if u >= 0x8000_0000_0000_0000 {
            (u as i128 - 0x1_0000_0000_0000_0000) as i64
        } else {
            u as i64
        }
    }
}

impl ColumnVector {
    /// Bytes per cell of this column read as type `t`; 0 for types kept outside `data`.
    pub fn cell_size(&self, t: TypeTag) -> (r: usize)
        ensures
            r == cell_width(*self, t),
    {
        width_of(self, t)
    }
}

/// Bytes per cell of `t` in `col`.
fn width_of(col: &ColumnVector, t: TypeTag) -> (r: usize)
    ensures
        r == cell_width(*col, t),
        r <= 16,
{
    match t {
        TypeTag::Boolean | TypeTag::TinyInt | TypeTag::UTinyInt => 1,
        TypeTag::SmallInt | TypeTag::USmallInt => 2,
        TypeTag::Integer | TypeTag::UInteger | TypeTag::Float | TypeTag::Date => 4,
        TypeTag::BigInt | TypeTag::UBigInt | TypeTag::Double | TypeTag::Time
        | TypeTag::Timestamp => 8,
        TypeTag::HugeInt | TypeTag::UHugeInt | TypeTag::Interval | TypeTag::List => 16,
        TypeTag::Decimal => {
            if col.decimal_width <= 4 {
                2
            } else if col.decimal_width <= 9 {
                4
            } else if col.decimal_width <= 18 {
                8
            } else {
                16
            }
        },
        _ => 0,
    }
}

/// Reads `pw` bytes at `off` inside a cell starting at `start`, as an unsigned integer below
/// 256^pw.
fn read_part(data: &Vec<u8>, start: usize, off: usize, pw: usize) -> (r: u64)
    requires
        pw <= 8,
        start + off + pw <= data@.len(),
    ensures
        r as nat == le_nat(data@.subrange(start + off, start + off + pw)),
        (r as nat) < pow256(pw as nat),
{
    let n = data.len();
    assert(start + off <= n);
    let r = read_le(data, start + off, pw);
    proof {
        lemma_le_nat_bound(data@.subrange(start + off, start + off + pw));
    }
    r
}

/// The 128-bit integer of a 16-byte cell at `start`.
fn read_wide(data: &Vec<u8>, start: usize) -> (r: i128)
    requires
        start + 16 <= data@.len(),
    ensures
        r as int == hugeint_value(
            Hugeint {
                lower: le_nat(data@.subrange(start as int, start + 8)) as u64,
                upper: signed_of(le_nat(data@.subrange(start + 8, start + 16)), 8) as i64,
            },
        ),
{
    let lower = read_part(data, start, 0, 8);
    let upper = to_signed(read_part(data, start, 8, 8), 8);
    i128_from_hugeint(Hugeint { lower, upper })
}

fn copy_bytes(b: &Vec<u8>) -> (r: Vec<u8>)
    ensures
        r@ == b@,
{
    let mut r: Vec<u8> = Vec::new();
    let mut i: usize = 0;
    while i < b.len()
        invariant
            i <= b@.len(),
            r@ == b@.subrange(0, i as int),
        decreases b@.len() - i,
    {
        r.push(b[i]);
        i = i + 1;
        assert(r@ =~= b@.subrange(0, i as int));
    }
    assert(r@ =~= b@);
    r
}

/// Decodes valid cell `row` of a column of scalars read as type `t`.
fn decode_scalar(col: &ColumnVector, t: TypeTag, row: u64) -> (r: Result<DuckValue, ConversionError>)
    requires
        t != TypeTag::List && t != TypeTag::Array,
    ensures
        r matches Err(e) ==> scalar_failure_is(*col, t, row as int, e),
        r is Err <==> scalar_fails(*col, t, row as int),
        r matches Ok(v) ==> scalar_decodes_to(*col, t, row as int, v),
        unsupported(t) ==> r matches Err(ConversionError::Unsupported(_)),
{
    match t {
        TypeTag::Varchar | TypeTag::Enum => {
            if row >= col.texts.len() as u64 {
                return Err(invalid("text cell out of range"));
            }
            match utf8_to_string(&col.texts[row as usize]) {
                Some(x) => {
                    if t == TypeTag::Varchar {
                        Ok(DuckValue::Text(x))
                    } else {
                        Ok(DuckValue::Enum(x))
                    }
                },
                None => Err(invalid("invalid UTF-8 in text cell")),
            }
        },
        TypeTag::Blob => {
            if row >= col.texts.len() as u64 {
                return Err(invalid("blob cell out of range"));
            }
            Ok(DuckValue::Blob(copy_bytes(&col.texts[row as usize])))
        },
        TypeTag::Boolean | TypeTag::TinyInt | TypeTag::SmallInt | TypeTag::Integer
        | TypeTag::BigInt | TypeTag::UTinyInt | TypeTag::USmallInt | TypeTag::UInteger
        | TypeTag::UBigInt | TypeTag::Float | TypeTag::Double | TypeTag::HugeInt
        | TypeTag::UHugeInt | TypeTag::Interval | TypeTag::Date | TypeTag::Time
        | TypeTag::Timestamp | TypeTag::Decimal => {
            let w = width_of(col, t);
            let start = match cell_start(&col.data, row, w) {
                Some(s) => s,
                None => {
                    return Err(invalid("cell out of range"));
                },
            };
            proof {
                lemma_pow256_facts();
            }
            if w == 16 {
                let wide = read_wide(&col.data, start);
                match t {
                    TypeTag::HugeInt => Ok(DuckValue::HugeInt(wide)),
                    TypeTag::UHugeInt => {
                        let lo = read_part(&col.data, start, 0, 8);
                        let hi = read_part(&col.data, start, 8, 8);
                        Ok(DuckValue::UHugeInt(lo as u128 + hi as u128 * 0x1_0000_0000_0000_0000))
                    },
                    TypeTag::Interval => {
                        let months = to_signed(read_part(&col.data, start, 0, 4), 4) as i32;
                        let days = to_signed(read_part(&col.data, start, 4, 4), 4) as i32;
                        let micros = to_signed(read_part(&col.data, start, 8, 8), 8);
                        Ok(DuckValue::Interval(interval_from_parts(months, days, micros)))
                    },
                    _ => {
                        match decimal_from_parts(wide, col.decimal_scale as u32) {
                            Ok(d) => Ok(DuckValue::Decimal(d)),
                            Err(e) => Err(e),
                        }
                    },
                }
            } else {
                let u = read_part(&col.data, start, 0, w);
                assert(col.data@.subrange(start + 0, start + 0 + w) == cell_bytes(
                    col.data@,
                    row as int,
                    w as int,
                ));
                match t {
                    TypeTag::Boolean => Ok(DuckValue::Boolean(u != 0)),
                    TypeTag::UTinyInt => Ok(DuckValue::UTinyInt(u as u8)),
                    TypeTag::USmallInt => Ok(DuckValue::USmallInt(u as u16)),
                    TypeTag::UInteger => Ok(DuckValue::UInt(u as u32)),
                    TypeTag::UBigInt => Ok(DuckValue::UBigInt(u)),
                    TypeTag::Float => Ok(DuckValue::Float(u as u32)),
                    TypeTag::Double => Ok(DuckValue::Double(u)),
                    _ => {
                        let s = to_signed(u, w);
                        match t {
                            TypeTag::TinyInt => Ok(DuckValue::TinyInt(s as i8)),
                            TypeTag::SmallInt => Ok(DuckValue::SmallInt(s as i16)),
                            TypeTag::Integer => Ok(DuckValue::Int(s as i32)),
                            TypeTag::BigInt => Ok(DuckValue::BigInt(s)),
                            TypeTag::Date => match date_from_days(s as i32) {
                                Ok(d) => Ok(DuckValue::Date(d)),
                                Err(e) => Err(e),
                            },
                            TypeTag::Time => match time_from_micros(s) {
                                Ok(x) => Ok(DuckValue::Time(x)),
                                Err(e) => Err(e),
                            },
                            TypeTag::Timestamp => match timestamp_from_micros(s) {
                                Ok(x) => Ok(DuckValue::Timestamp(x)),
                                Err(e) => Err(e),
                            },
                            _ => match decimal_from_parts(s as i128, col.decimal_scale as u32) {
                                Ok(d) => Ok(DuckValue::Decimal(d)),
                                Err(e) => Err(e),
                            },
                        }
                    },
                }
            }
        },
        _ => Err(ConversionError::Unsupported("column type is not supported".to_owned())),
    }
}

impl DuckValue {
    /// Decodes cell `row` of `col` read as type `t`.
    ///
    /// The validity bitmap is read first: a null cell is `Null` whatever the type. A list or
    /// an array is decoded element by element with the child column's own type and bitmap.
    /// Map, struct and union columns are refused with `Unsupported`.
    pub fn from_duckdb_vec(col: &ColumnVector, t: TypeTag, row: u64) -> (r: Result<
        DuckValue,
        ConversionError,
    >)
        ensures
            r is Err <==> decode_fails(*col, t, row as int),
            r matches Ok(v) ==> decodes_to(*col, t, row as int, v),
            r matches Err(e) ==> failure_is(*col, t, row as int, e),
            row_is_valid(validity_view(*col), row as int) && unsupported(t) ==> r matches Err(
                ConversionError::Unsupported(_),
            ),
        decreases col,
    {
        if !validity_row_is_valid(&col.validity, row) {
            return Ok(DuckValue::Null);
        }
        if t != TypeTag::List && t != TypeTag::Array {
            return decode_scalar(col, t, row);
        }
        let c: &ColumnVector = match &col.child {
            Some(c) => c,
            None => {
                return Err(invalid("nested column without child vector"));
            },
        };
        let (first, count): (u64, u64) = if t == TypeTag::List {
            let start = match cell_start(&col.data, row, 16) {
                Some(s) => s,
                None => {
                    return Err(invalid("list entry out of range"));
                },
            };
            (read_part(&col.data, start, 0, 8), read_part(&col.data, start, 8, 8))
        } else {
            proof {
                assert(row as u128 * col.array_size as u128 <= 0xFFFF_FFFF_FFFF_FFFFint * 0xFFFF_FFFF_FFFF_FFFFint) by (nonlinear_arith)
                    requires row <= 0xFFFF_FFFF_FFFF_FFFFint, col.array_size <= 0xFFFF_FFFF_FFFF_FFFFint;
            }
            if row as u128 * col.array_size as u128 > u64::MAX as u128 {
                return Err(invalid("array cell out of range"));
            }
            ((row as u128 * col.array_size as u128) as u64, col.array_size)
        };
        proof {
            if t == TypeTag::List {
                assert(first == list_offset(*col, row as int));
                assert(count == list_length(*col, row as int));
            } else {
                assert(row * col.array_size <= u64::MAX);
            }
        }
        if first as u128 + count as u128 > u64::MAX as u128 {
            return Err(invalid("nested cell out of range"));
        }
        let mut items: Vec<DuckValue> = Vec::new();
        let mut i: u64 = 0;
        while i < count
            invariant
                col.child is Some,
                *(col.child->0) == *c,
                row_is_valid(validity_view(*col), row as int),
                t == TypeTag::List || t == TypeTag::Array,
                t == TypeTag::List ==> fits(*col, row as int, 16),
                first == first_element(*col, t, row as int),
                count == element_count(*col, t, row as int),
                first + count <= u64::MAX,
                i <= count,
                items@.len() == i,
                forall|k: int|
                    0 <= k < i ==> decodes_to(
                        *c,
                        c.type_tag,
                        element_index(*col, t, row as int, k),
                        #[trigger] items@[k],
                    ),
                forall|k: int|
                    0 <= k < i ==> !decode_fails(
                        *c,
                        c.type_tag,
                        #[trigger] element_index(*col, t, row as int, k),
                    ),
            decreases count - i,
        {
            proof {
                assert(decreases_to!(*col => col.child));
                assert(decreases_to!(col.child => col.child->0));
            }
            match DuckValue::from_duckdb_vec(c, c.type_tag, first + i) {
                Ok(v) => {
                    proof {
                        assert(element_index(*col, t, row as int, i as int) == first + i);
                    }
                    items.push(v);
                },
                Err(e) => {
                    proof {
                        assert(element_index(*col, t, row as int, i as int) == first + i);
                    }
                    return Err(e);
                },
            }
            i = i + 1;
        }
        if t == TypeTag::List {
            Ok(DuckValue::List(items))
        } else {
            Ok(DuckValue::Array(items))
        }
    }
}

/// A 32-bit integer written into a column as its four little-endian two's-complement bytes is
/// decoded back to itself.
pub proof fn lemma_integer_cell_round_trip(col: ColumnVector, v: i32)
    requires
        col.validity is None,
        col.data@ == le_bytes(unsigned_of(v as int, 4), 4),
    ensures
        decodes_to(col, TypeTag::Integer, 0, DuckValue::Int(v)),
        !decode_fails(col, TypeTag::Integer, 0),
{
    lemma_pow256_facts();
    lemma_signed_round_trip(v as int, 4);
    assert(cell_bytes(col.data@, 0, 4) =~= col.data@);
}

/// A 64-bit integer written into a column as its eight little-endian two's-complement bytes
/// is decoded back to itself.
pub proof fn lemma_bigint_cell_round_trip(col: ColumnVector, v: i64)
    requires
        col.validity is None,
        col.data@ == le_bytes(unsigned_of(v as int, 8), 8),
    ensures
        decodes_to(col, TypeTag::BigInt, 0, DuckValue::BigInt(v)),
        !decode_fails(col, TypeTag::BigInt, 0),
{
    lemma_pow256_facts();
    lemma_signed_round_trip(v as int, 8);
    assert(cell_bytes(col.data@, 0, 8) =~= col.data@);
}

} // verus!
