//! Cells as the driver hands them over, and their conversion to the
//! entries of typed arrays.
//!
//! Every conversion is total: a cell whose form does not fit the target
//! becomes a null entry (`None`), never an error.

use vstd::prelude::*;
use vstd::utf8::{decode_utf8, valid_utf8};

verus! {

/// One cell of a result row.
///
/// Floating-point payloads are carried as IEEE 754 bit patterns
/// (`Float32`: binary32, `Float64`: binary64); this crate moves them
/// around and never computes with them.
///
/// `Date` and `Time` are the two forms in which the binary protocol sends
/// temporal values. No array of this dialect takes a value from them: the
/// text protocol sends dates and times as `Bytes`.
#[derive(Clone, Debug, PartialEq, Eq)]
pub enum CanonicalValue {
    SignedInt(i64),
    UnsignedInt(u64),
    Float32(u32),
    Float64(u64),
    Bytes(Vec<u8>),
    /// Year, month, day, hour, minute, second, microsecond.
    Date(u16, u8, u8, u8, u8, u8, u32),
    /// Whether negative, then days, hours, minutes, seconds, microseconds.
    Time(bool, u32, u8, u8, u8, u32),
    Null,
}

/// What a cell leaves in a `Float64` array when its form is one that can
/// hold a number, in the form in which it arrived.
///
/// `Single` and `Double` hold bit patterns and are values. `Text` holds
/// the text that the server sent, and whether that is a value is open
/// here: it is one if the text is a number, and a null if it is not.
/// Reading the text is left to whoever builds the floating-point array.
#[derive(Clone, Debug, PartialEq, Eq)]
pub enum FloatCell {
    Single(u32),
    Double(u64),
    Text(Vec<u8>),
}

/// Whether `digits` is one or more of the characters `0` to `9`.
pub open spec fn is_digits(digits: Seq<u8>) -> bool {
    &&& digits.len() > 0
    &&& forall|i: int| 0 <= i < digits.len() ==> 0x30 <= #[trigger] digits[i] <= 0x39
}

/// The number that decimal digits spell.
pub open spec fn digits_value(digits: Seq<u8>) -> int
    decreases digits.len(),
{
    if digits.len() == 0 {
        0
    } else {
        10 * digits_value(digits.drop_last()) + (digits.last() - 0x30)
    }
}

/// The integer that a byte string spells in decimal: an optional `+` or
/// `-`, then one or more digits, and nothing else.
pub open spec fn decimal_integer(bytes: Seq<u8>) -> Option<int> {
    if bytes.len() > 0 && bytes[0] == 0x2d {
        if is_digits(bytes.drop_first()) {
            Some(-digits_value(bytes.drop_first()))
        } else {
            None
        }
    } else if bytes.len() > 0 && bytes[0] == 0x2b {
        if is_digits(bytes.drop_first()) {
            Some(digits_value(bytes.drop_first()))
        } else {
            None
        }
    } else if is_digits(bytes) {
        Some(digits_value(bytes))
    } else {
        None
    }
}

/// The 64-bit signed integer that a byte string spells, if it spells an
/// integer and that integer fits.
pub open spec fn signed_of_bytes(bytes: Seq<u8>) -> Option<i64> {
    match decimal_integer(bytes) {
        Some(n) => if i64::MIN <= n <= i64::MAX {
            Some(n as i64)
        } else {
            None
        },
        None => None,
    }
}

/// The 64-bit unsigned integer that a byte string spells, if it spells an
/// integer and that integer fits.
pub open spec fn unsigned_of_bytes(bytes: Seq<u8>) -> Option<u64> {
    match decimal_integer(bytes) {
        Some(n) => if 0 <= n <= u64::MAX {
            Some(n as u64)
        } else {
            None
        },
        None => None,
    }
}

/// Digits alone spell their value, which is not negative, and bytes that
/// begin with anything but a sign or a digit spell no integer.
pub proof fn lemma_decimal_integer(bytes: Seq<u8>)
    ensures
        is_digits(bytes) ==> decimal_integer(bytes) == Some(digits_value(bytes)),
        is_digits(bytes) ==> digits_value(bytes) >= 0,
        bytes.len() == 0 ==> decimal_integer(bytes) is None,
        bytes.len() > 0 && bytes[0] != 0x2d && bytes[0] != 0x2b && !(0x30 <= bytes[0] <= 0x39)
            ==> decimal_integer(bytes) is None,
    decreases bytes.len(),
{
    if is_digits(bytes) {
        let front = bytes.drop_last();
        if front.len() > 0 {
            assert forall|i: int| 0 <= i < front.len() implies 0x30 <= #[trigger] front[i]
                <= 0x39 by {
                assert(front[i] == bytes[i]);
            }
            lemma_decimal_integer(front);
        }
        assert(digits_value(front) >= 0);
        assert(bytes.last() == bytes[bytes.len() - 1]);
    }
}

/// Calls `mysql::from_value_opt::<i64>` on a `Bytes` value, with the
/// driver's error taken as `None`. The contract claims what the driver's
/// source shows: the bytes are read as a decimal integer, with an optional
/// sign before one or more digits, and a reading that does not fit the
/// type is an error like one of bytes that spell no integer.
#[verifier::external_body]
fn driver_signed(bytes: Vec<u8>) -> (r: Option<i64>)
    ensures
        r == signed_of_bytes(bytes@),
{
    mysql::from_value_opt::<i64>(mysql::Value::Bytes(bytes)).ok()
}

/// Calls `mysql::from_value_opt::<u64>` on a `Bytes` value, with the
/// driver's error taken as `None`. The contract claims what the driver's
/// source shows: the bytes are read as a decimal integer, with an optional
/// sign before one or more digits, and a reading that does not fit the
/// type is an error like one of bytes that spell no integer.
#[verifier::external_body]
fn driver_unsigned(bytes: Vec<u8>) -> (r: Option<u64>)
    ensures
        r == unsigned_of_bytes(bytes@),
{
    mysql::from_value_opt::<u64>(mysql::Value::Bytes(bytes)).ok()
}

/// Calls `String::from_utf8`: the bytes become a string exactly when they
/// are well-formed UTF-8, and the string then holds the characters they
/// encode.
#[verifier::external_body]
fn utf8_string(bytes: Vec<u8>) -> (r: Option<String>)
    ensures
        r is Some <==> valid_utf8(bytes@),
        r matches Some(s) ==> s@ == decode_utf8(bytes@),
{
    String::from_utf8(bytes).ok()
}

/// The characters of an optional string.
pub open spec fn text_view(s: Option<String>) -> Option<Seq<char>> {
    match s {
        Some(s) => Some(s@),
        None => None,
    }
}

impl CanonicalValue {
    /// The entry of a text array that this cell becomes: the decoded
    /// characters of well-formed UTF-8 bytes, null for anything else.
    pub open spec fn as_text(self) -> Option<Seq<char>> {
        match self {
            CanonicalValue::Bytes(b) => if valid_utf8(b@) {
                Some(decode_utf8(b@))
            } else {
                None
            },
            _ => None,
        }
    }

    /// The entry of a 64-bit integer array that this cell becomes.
    pub open spec fn as_integer(self) -> Option<i64> {
        match self {
            CanonicalValue::SignedInt(i) => Some(i),
            CanonicalValue::UnsignedInt(u) => if u <= i64::MAX {
                Some(u as i64)
            } else {
                None
            },
            CanonicalValue::Bytes(b) => signed_of_bytes(b@),
            _ => None,
        }
    }

    /// The 32-bit integer that this cell becomes; only signed integers in
    /// range qualify.
    pub open spec fn as_small_integer(self) -> Option<i32> {
        match self {
            CanonicalValue::SignedInt(i) => if i32::MIN <= i <= i32::MAX {
                Some(i as i32)
            } else {
                None
            },
            _ => None,
        }
    }

    /// The unsigned 64-bit integer that this cell becomes.
    pub open spec fn as_unsigned(self) -> Option<u64> {
        match self {
            CanonicalValue::UnsignedInt(u) => Some(u),
            CanonicalValue::SignedInt(i) => if i >= 0 {
                Some(i as u64)
            } else {
                None
            },
            CanonicalValue::Bytes(b) => unsigned_of_bytes(b@),
            _ => None,
        }
    }

    /// The entry of a floating-point array that this cell becomes, as a
    /// view: the form it arrived in and its payload.
    pub open spec fn as_float(self) -> Option<FloatCellView> {
        match self {
            CanonicalValue::Float32(bits) => Some(FloatCellView::Single(bits)),
            CanonicalValue::Float64(bits) => Some(FloatCellView::Double(bits)),
            CanonicalValue::Bytes(b) => Some(FloatCellView::Text(b@)),
            _ => None,
        }
    }
}

/// The mathematical content of a `FloatCell`.
pub ghost enum FloatCellView {
    Single(u32),
    Double(u64),
    Text(Seq<u8>),
}

impl View for FloatCell {
    type V = FloatCellView;

    open spec fn view(&self) -> FloatCellView {
        match *self {
            FloatCell::Single(bits) => FloatCellView::Single(bits),
            FloatCell::Double(bits) => FloatCellView::Double(bits),
            FloatCell::Text(b) => FloatCellView::Text(b@),
        }
    }
}

/// The content of an optional floating-point entry.
pub open spec fn float_view(c: Option<FloatCell>) -> Option<FloatCellView> {
    match c {
        Some(c) => Some(c@),
        None => None,
    }
}

/// Text that arrives as its UTF-8 bytes becomes the same text again.
pub proof fn lemma_text_is_preserved(text: Seq<char>, cell: CanonicalValue)
    requires
        cell matches CanonicalValue::Bytes(b) && b@ == vstd::utf8::encode_utf8(text),
    ensures
        cell.as_text() == Some(text),
{
    vstd::utf8::encode_utf8_valid_utf8(text);
    vstd::utf8::encode_utf8_decode_utf8(text);
}

/// An integer that arrives as an integer becomes the same integer, as
/// long as a 64-bit signed integer can hold it.
pub proof fn lemma_integer_is_preserved(cell: CanonicalValue)
    ensures
        cell matches CanonicalValue::SignedInt(i) ==> cell.as_integer() == Some(i),
        cell matches CanonicalValue::UnsignedInt(u) ==> (cell.as_integer() matches Some(i) && i
            == u) || (cell.as_integer() is None && u > i64::MAX),
{
}

/// Converts a cell to an entry of a text array.
pub fn convert_to_str(unknown_val: &CanonicalValue) -> (r: Option<String>)
    ensures
        text_view(r) == unknown_val.as_text(),
{
    match unknown_val {
        CanonicalValue::Bytes(b) => utf8_string(b.clone()),
        _ => None,
    }
}

/// Converts a cell to an entry of a 64-bit integer array.
pub fn convert_to_i64(unknown_val: &CanonicalValue) -> (r: Option<i64>)
    ensures
        r == unknown_val.as_integer(),
{
    match unknown_val {
        CanonicalValue::SignedInt(i) => Some(*i),
        CanonicalValue::UnsignedInt(u) => if *u <= i64::MAX as u64 {
            Some(*u as i64)
        } else {
            None
        },
        CanonicalValue::Bytes(b) => driver_signed(b.clone()),
        _ => None,
    }
}

/// Converts a cell to a 32-bit integer.
pub fn convert_to_i32(unknown_val: &CanonicalValue) -> (r: Option<i32>)
    ensures
        r == unknown_val.as_small_integer(),
{
    match unknown_val {
        CanonicalValue::SignedInt(i) => if i32::MIN as i64 <= *i && *i <= i32::MAX as i64 {
            Some(*i as i32)
        } else {
            None
        },
        _ => None,
    }
}

/// Converts a cell to an unsigned 64-bit integer.
pub fn convert_to_u64(unknown_val: &CanonicalValue) -> (r: Option<u64>)
    ensures
        r == unknown_val.as_unsigned(),
{
    match unknown_val {
        CanonicalValue::UnsignedInt(u) => Some(*u),
        CanonicalValue::SignedInt(i) => if *i >= 0 {
            Some(*i as u64)
        } else {
            None
        },
        CanonicalValue::Bytes(b) => driver_unsigned(b.clone()),
        _ => None,
    }
}

/// Converts a cell to an entry of a floating-point array.
pub fn convert_to_f64(unknown_val: &CanonicalValue) -> (r: Option<FloatCell>)
    ensures
        float_view(r) == unknown_val.as_float(),
{
    match unknown_val {
        CanonicalValue::Float32(bits) => Some(FloatCell::Single(*bits)),
        CanonicalValue::Float64(bits) => Some(FloatCell::Double(*bits)),
        CanonicalValue::Bytes(b) => Some(FloatCell::Text(b.clone())),
        _ => None,
    }
}

/// Converts every cell of a column to an entry of a text array.
pub fn convert_to_str_arr(values: &[CanonicalValue]) -> (r: Vec<Option<String>>)
    ensures
        r@.len() == values@.len(),
        forall|i: int| 0 <= i < r@.len() ==> text_view(#[trigger] r@[i]) == values@[i].as_text(),
{
    let mut out: Vec<Option<String>> = Vec::new();
    let mut i: usize = 0;
    while i < values.len()
        invariant
            i <= values@.len(),
            out@.len() == i,
            forall|j: int| 0 <= j < i ==> text_view(#[trigger] out@[j]) == values@[j].as_text(),
        decreases values@.len() - i,
    {
        out.push(convert_to_str(&values[i]));
        i += 1;
    }
    out
}

/// Converts every cell of a column to an entry of a 64-bit integer array.
pub fn convert_to_i64_arr(values: &[CanonicalValue]) -> (r: Vec<Option<i64>>)
    ensures
        r@.len() == values@.len(),
        forall|i: int| 0 <= i < r@.len() ==> #[trigger] r@[i] == values@[i].as_integer(),
{
    let mut out: Vec<Option<i64>> = Vec::new();
    let mut i: usize = 0;
    while i < values.len()
        invariant
            i <= values@.len(),
            out@.len() == i,
            forall|j: int| 0 <= j < i ==> #[trigger] out@[j] == values@[j].as_integer(),
        decreases values@.len() - i,
    {
        out.push(convert_to_i64(&values[i]));
        i += 1;
    }
    out
}

/// Converts every cell of a column to a 32-bit integer.
pub fn convert_to_i32_arr(values: &[CanonicalValue]) -> (r: Vec<Option<i32>>)
    ensures
        r@.len() == values@.len(),
        forall|i: int| 0 <= i < r@.len() ==> #[trigger] r@[i] == values@[i].as_small_integer(),
{
    let mut out: Vec<Option<i32>> = Vec::new();
    let mut i: usize = 0;
    while i < values.len()
        invariant
            i <= values@.len(),
            out@.len() == i,
            forall|j: int| 0 <= j < i ==> #[trigger] out@[j] == values@[j].as_small_integer(),
        decreases values@.len() - i,
    {
        out.push(convert_to_i32(&values[i]));
        i += 1;
    }
    out
}

/// Converts every cell of a column to an unsigned 64-bit integer.
pub fn convert_to_u64_arr(values: &[CanonicalValue]) -> (r: Vec<Option<u64>>)
    ensures
        r@.len() == values@.len(),
        forall|i: int| 0 <= i < r@.len() ==> #[trigger] r@[i] == values@[i].as_unsigned(),
{
    let mut out: Vec<Option<u64>> = Vec::new();
    let mut i: usize = 0;
    while i < values.len()
        invariant
            i <= values@.len(),
            out@.len() == i,
            forall|j: int| 0 <= j < i ==> #[trigger] out@[j] == values@[j].as_unsigned(),
        decreases values@.len() - i,
    {
        out.push(convert_to_u64(&values[i]));
        i += 1;
    }
    out
}

/// Converts every cell of a column to an entry of a floating-point array.
pub fn convert_to_f64_arr(values: &[CanonicalValue]) -> (r: Vec<Option<FloatCell>>)
    ensures
        r@.len() == values@.len(),
        forall|i: int| 0 <= i < r@.len() ==> float_view(#[trigger] r@[i]) == values@[i].as_float(),
{
    let mut out: Vec<Option<FloatCell>> = Vec::new();
    let mut i: usize = 0;
    while i < values.len()
        invariant
            i <= values@.len(),
            out@.len() == i,
            forall|j: int| 0 <= j < i ==> float_view(#[trigger] out@[j]) == values@[j].as_float(),
        decreases values@.len() - i,
    {
        out.push(convert_to_f64(&values[i]));
        i += 1;
    }
    out
}

} // verus!
