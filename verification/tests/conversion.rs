use mysql_dialect::logical::{LogicalType, NativeColumnType};
use mysql_dialect::text::{find_char, strip_prefix};
use mysql_dialect::value::{
    convert_to_f64, convert_to_f64_arr, convert_to_i32, convert_to_i32_arr, convert_to_i64,
    convert_to_i64_arr, convert_to_str, convert_to_str_arr, convert_to_u64, convert_to_u64_arr,
    CanonicalValue, FloatCell,
};

fn bytes(text: &str) -> CanonicalValue {
    CanonicalValue::Bytes(text.as_bytes().to_vec())
}

#[test]
fn integer_family_maps_to_integer64() {
    for t in [
        NativeColumnType::MYSQL_TYPE_TINY,
        NativeColumnType::MYSQL_TYPE_SHORT,
        NativeColumnType::MYSQL_TYPE_INT24,
        NativeColumnType::MYSQL_TYPE_LONG,
        NativeColumnType::MYSQL_TYPE_LONGLONG,
    ] {
        assert_eq!(t.logical_type(), LogicalType::Integer64);
    }
}

#[test]
fn numeric_family_maps_to_float64() {
    for t in [
        NativeColumnType::MYSQL_TYPE_DECIMAL,
        NativeColumnType::MYSQL_TYPE_NEWDECIMAL,
        NativeColumnType::MYSQL_TYPE_FLOAT,
        NativeColumnType::MYSQL_TYPE_DOUBLE,
        NativeColumnType::MYSQL_TYPE_YEAR,
    ] {
        assert_eq!(t.logical_type(), LogicalType::Float64);
    }
}

#[test]
fn text_family_maps_to_text() {
    for t in [
        NativeColumnType::MYSQL_TYPE_DATETIME,
        NativeColumnType::MYSQL_TYPE_DATE,
        NativeColumnType::MYSQL_TYPE_BLOB,
        NativeColumnType::MYSQL_TYPE_STRING,
        NativeColumnType::MYSQL_TYPE_VAR_STRING,
        NativeColumnType::MYSQL_TYPE_VARCHAR,
    ] {
        assert_eq!(t.logical_type(), LogicalType::Text);
    }
}

#[test]
fn other_types_fall_back_to_binary() {
    for t in [
        NativeColumnType::MYSQL_TYPE_NULL,
        NativeColumnType::MYSQL_TYPE_TIMESTAMP,
        NativeColumnType::MYSQL_TYPE_TIME,
        NativeColumnType::MYSQL_TYPE_NEWDATE,
        NativeColumnType::MYSQL_TYPE_BIT,
        NativeColumnType::MYSQL_TYPE_TIMESTAMP2,
        NativeColumnType::MYSQL_TYPE_DATETIME2,
        NativeColumnType::MYSQL_TYPE_TIME2,
        NativeColumnType::MYSQL_TYPE_TYPED_ARRAY,
        NativeColumnType::MYSQL_TYPE_VECTOR,
        NativeColumnType::MYSQL_TYPE_UNKNOWN,
        NativeColumnType::MYSQL_TYPE_JSON,
        NativeColumnType::MYSQL_TYPE_ENUM,
        NativeColumnType::MYSQL_TYPE_SET,
        NativeColumnType::MYSQL_TYPE_TINY_BLOB,
        NativeColumnType::MYSQL_TYPE_MEDIUM_BLOB,
        NativeColumnType::MYSQL_TYPE_LONG_BLOB,
        NativeColumnType::MYSQL_TYPE_GEOMETRY,
    ] {
        assert_eq!(t.logical_type(), LogicalType::Binary);
    }
}

#[test]
fn protocol_name_is_the_variant_name() {
    assert_eq!(NativeColumnType::MYSQL_TYPE_LONG.name(), "MYSQL_TYPE_LONG");
    assert_eq!(NativeColumnType::MYSQL_TYPE_VAR_STRING.name(), "MYSQL_TYPE_VAR_STRING");
    assert_eq!(
        format!("{:?}", NativeColumnType::MYSQL_TYPE_NEWDECIMAL),
        NativeColumnType::MYSQL_TYPE_NEWDECIMAL.name()
    );
}

#[test]
fn display_name_drops_the_prefix() {
    assert_eq!(NativeColumnType::MYSQL_TYPE_LONG.display_name(), "LONG");
    assert_eq!(NativeColumnType::MYSQL_TYPE_TINY_BLOB.display_name(), "TINY_BLOB");
    assert_eq!(NativeColumnType::MYSQL_TYPE_TIMESTAMP2.display_name(), "TIMESTAMP2");
}

#[test]
fn strip_prefix_removes_a_leading_prefix() {
    assert_eq!(strip_prefix("MYSQL_TYPE_DATE", "MYSQL_TYPE_"), "DATE");
    assert_eq!(strip_prefix("abc", "abc"), "");
    assert_eq!(strip_prefix("abc", ""), "abc");
    assert_eq!(strip_prefix("äöü", "ä"), "öü");
}

#[test]
fn strip_prefix_keeps_a_name_without_the_prefix() {
    assert_eq!(strip_prefix("DATE", "MYSQL_TYPE_"), "DATE");
    assert_eq!(strip_prefix("DATE_MYSQL_TYPE_", "MYSQL_TYPE_"), "DATE_MYSQL_TYPE_");
    assert_eq!(strip_prefix("MYSQL", "MYSQL_TYPE_"), "MYSQL");
    assert_eq!(strip_prefix("", "MYSQL_TYPE_"), "");
    assert_eq!(strip_prefix("MYSQL_TYPO_X", "MYSQL_TYPE_"), "MYSQL_TYPO_X");
}

#[test]
fn find_char_gives_the_first_position() {
    assert_eq!(find_char("db.tbl", '.'), Some(2));
    assert_eq!(find_char("a.b.c", '.'), Some(1));
    assert_eq!(find_char(".x", '.'), Some(0));
    assert_eq!(find_char("plain", '.'), None);
    assert_eq!(find_char("", '.'), None);
    assert_eq!(find_char("äö.ü", '.'), Some(2));
}

#[test]
fn integer_from_signed_and_unsigned_cells() {
    assert_eq!(convert_to_i64(&CanonicalValue::SignedInt(-42)), Some(-42));
    assert_eq!(convert_to_i64(&CanonicalValue::SignedInt(i64::MIN)), Some(i64::MIN));
    assert_eq!(convert_to_i64(&CanonicalValue::UnsignedInt(42)), Some(42));
    assert_eq!(
        convert_to_i64(&CanonicalValue::UnsignedInt(i64::MAX as u64)),
        Some(i64::MAX)
    );
}

#[test]
fn integer_from_unsigned_cell_out_of_range_is_null() {
    assert_eq!(convert_to_i64(&CanonicalValue::UnsignedInt(i64::MAX as u64 + 1)), None);
    assert_eq!(convert_to_i64(&CanonicalValue::UnsignedInt(u64::MAX)), None);
}

#[test]
fn integer_from_decimal_text() {
    assert_eq!(convert_to_i64(&bytes("123")), Some(123));
    assert_eq!(convert_to_i64(&bytes("-5")), Some(-5));
    assert_eq!(convert_to_i64(&bytes("+7")), Some(7));
    assert_eq!(convert_to_i64(&bytes("007")), Some(7));
    assert_eq!(convert_to_i64(&bytes("9223372036854775807")), Some(i64::MAX));
    assert_eq!(convert_to_i64(&bytes("-9223372036854775808")), Some(i64::MIN));
}

#[test]
fn integer_text_is_an_optional_sign_and_digits() {
    assert_eq!(convert_to_i64(&bytes("-42")), Some(-42));
    assert_eq!(convert_to_i64(&bytes("-0")), Some(0));
    assert_eq!(convert_to_i64(&bytes("+0")), Some(0));
    assert_eq!(convert_to_i64(&bytes("-00000000000000000000000000009")), Some(-9));
    assert_eq!(convert_to_i64(&bytes("00000000000000000000000000009")), Some(9));
    assert_eq!(convert_to_u64(&bytes("-0")), Some(0));
    assert_eq!(convert_to_u64(&bytes("-000")), Some(0));
    assert_eq!(convert_to_u64(&bytes("+18446744073709551615")), Some(u64::MAX));
    assert_eq!(convert_to_u64(&bytes("9223372036854775808")), Some(9223372036854775808));
    for text in ["+", "-", "+-5", "--5", "-+5", "5-", "5+", "0x10", "1_000", "1e3", "1 ", "٣", "1\n"] {
        assert_eq!(convert_to_i64(&bytes(text)), None);
        assert_eq!(convert_to_u64(&bytes(text)), None);
    }
    assert_eq!(convert_to_i64(&bytes("-9223372036854775809")), None);
    assert_eq!(convert_to_u64(&bytes("-1")), None);
    assert_eq!(convert_to_i64(&CanonicalValue::Bytes(vec![0x31, 0x00])), None);
    assert_eq!(convert_to_i64(&CanonicalValue::Bytes(vec![0x2f])), None);
    assert_eq!(convert_to_i64(&CanonicalValue::Bytes(vec![0x3a])), None);
    assert_eq!(convert_to_i64(&CanonicalValue::Bytes(vec![0x30])), Some(0));
    assert_eq!(convert_to_i64(&CanonicalValue::Bytes(vec![0x39])), Some(9));
}

#[test]
fn integer_from_text_that_is_no_integer_is_null() {
    assert_eq!(convert_to_i64(&bytes("")), None);
    assert_eq!(convert_to_i64(&bytes("abc")), None);
    assert_eq!(convert_to_i64(&bytes(" 42")), None);
    assert_eq!(convert_to_i64(&bytes("4.2")), None);
    assert_eq!(convert_to_i64(&bytes("-")), None);
    assert_eq!(convert_to_i64(&bytes("9223372036854775808")), None);
    assert_eq!(convert_to_i64(&CanonicalValue::Bytes(vec![0xff, 0x31])), None);
}

fn a_date() -> CanonicalValue {
    CanonicalValue::Date(2024, 2, 29, 23, 59, 58, 999_999)
}

fn a_time() -> CanonicalValue {
    CanonicalValue::Time(true, 1, 2, 3, 4, 5)
}

#[test]
fn temporal_forms_are_null_everywhere() {
    for v in [a_date(), a_time()].iter() {
        assert_eq!(convert_to_i64(v), None);
        assert_eq!(convert_to_i32(v), None);
        assert_eq!(convert_to_u64(v), None);
        assert_eq!(convert_to_f64(v), None);
        assert_eq!(convert_to_str(v), None);
    }
}

#[test]
fn integer_from_foreign_forms_is_null() {
    assert_eq!(convert_to_i64(&CanonicalValue::Null), None);
    assert_eq!(convert_to_i64(&CanonicalValue::Float32(1.0f32.to_bits())), None);
    assert_eq!(convert_to_i64(&CanonicalValue::Float64(1.0f64.to_bits())), None);
}

#[test]
fn small_integer_takes_signed_cells_in_range_only() {
    assert_eq!(convert_to_i32(&CanonicalValue::SignedInt(17)), Some(17));
    assert_eq!(convert_to_i32(&CanonicalValue::SignedInt(i32::MIN as i64)), Some(i32::MIN));
    assert_eq!(convert_to_i32(&CanonicalValue::SignedInt(i32::MAX as i64)), Some(i32::MAX));
    assert_eq!(convert_to_i32(&CanonicalValue::SignedInt(i32::MAX as i64 + 1)), None);
    assert_eq!(convert_to_i32(&CanonicalValue::SignedInt(i32::MIN as i64 - 1)), None);
    assert_eq!(convert_to_i32(&CanonicalValue::UnsignedInt(17)), None);
    assert_eq!(convert_to_i32(&bytes("17")), None);
    assert_eq!(convert_to_i32(&CanonicalValue::Null), None);
}

#[test]
fn unsigned_from_cells() {
    assert_eq!(convert_to_u64(&CanonicalValue::UnsignedInt(u64::MAX)), Some(u64::MAX));
    assert_eq!(convert_to_u64(&CanonicalValue::SignedInt(9)), Some(9));
    assert_eq!(convert_to_u64(&CanonicalValue::SignedInt(0)), Some(0));
    assert_eq!(convert_to_u64(&CanonicalValue::SignedInt(-1)), None);
    assert_eq!(convert_to_u64(&bytes("18446744073709551615")), Some(u64::MAX));
    assert_eq!(convert_to_u64(&bytes("18446744073709551616")), None);
    assert_eq!(convert_to_u64(&bytes("-1")), None);
    assert_eq!(convert_to_u64(&bytes("x")), None);
    assert_eq!(convert_to_u64(&CanonicalValue::Null), None);
    assert_eq!(convert_to_u64(&CanonicalValue::Float64(0)), None);
}

#[test]
fn text_from_well_formed_bytes() {
    assert_eq!(convert_to_str(&bytes("hello")), Some("hello".to_string()));
    assert_eq!(convert_to_str(&bytes("")), Some(String::new()));
    assert_eq!(convert_to_str(&bytes("grüße 你好")), Some("grüße 你好".to_string()));
    assert_eq!(convert_to_str(&bytes("42")), Some("42".to_string()));
}

#[test]
fn text_from_malformed_bytes_is_null() {
    assert_eq!(convert_to_str(&CanonicalValue::Bytes(vec![0xff])), None);
    assert_eq!(convert_to_str(&CanonicalValue::Bytes(vec![0x61, 0xc3])), None);
    assert_eq!(convert_to_str(&CanonicalValue::Bytes(vec![0xed, 0xa0, 0x80])), None);
}

#[test]
fn text_from_foreign_forms_is_null() {
    assert_eq!(convert_to_str(&CanonicalValue::SignedInt(1)), None);
    assert_eq!(convert_to_str(&CanonicalValue::UnsignedInt(1)), None);
    assert_eq!(convert_to_str(&CanonicalValue::Float32(0)), None);
    assert_eq!(convert_to_str(&CanonicalValue::Float64(0)), None);
    assert_eq!(convert_to_str(&CanonicalValue::Null), None);
}

#[test]
fn float_cell_keeps_the_form_it_arrived_in() {
    let single = 1.5f32.to_bits();
    let double = (-2.25f64).to_bits();
    assert_eq!(convert_to_f64(&CanonicalValue::Float32(single)), Some(FloatCell::Single(single)));
    assert_eq!(convert_to_f64(&CanonicalValue::Float64(double)), Some(FloatCell::Double(double)));
    assert_eq!(convert_to_f64(&bytes("3.14")), Some(FloatCell::Text(b"3.14".to_vec())));
}

#[test]
fn float_from_foreign_forms_is_null() {
    assert_eq!(convert_to_f64(&CanonicalValue::SignedInt(1)), None);
    assert_eq!(convert_to_f64(&CanonicalValue::UnsignedInt(1)), None);
    assert_eq!(convert_to_f64(&CanonicalValue::Null), None);
}

#[test]
fn arrays_convert_cell_by_cell() {
    let cells = vec![
        CanonicalValue::SignedInt(1),
        CanonicalValue::Null,
        bytes("3"),
        CanonicalValue::UnsignedInt(4),
        bytes("x"),
        CanonicalValue::Float32(0),
    ];
    assert_eq!(convert_to_i64_arr(&cells), vec![Some(1), None, Some(3), Some(4), None, None]);
    assert_eq!(convert_to_u64_arr(&cells), vec![Some(1), None, Some(3), Some(4), None, None]);
    assert_eq!(convert_to_i32_arr(&cells), vec![Some(1), None, None, None, None, None]);
    assert_eq!(
        convert_to_str_arr(&cells),
        vec![None, None, Some("3".to_string()), None, Some("x".to_string()), None]
    );
    assert_eq!(
        convert_to_f64_arr(&cells),
        vec![
            None,
            None,
            Some(FloatCell::Text(b"3".to_vec())),
            None,
            Some(FloatCell::Text(b"x".to_vec())),
            Some(FloatCell::Single(0)),
        ]
    );
}

#[test]
fn arrays_of_no_cells_are_empty() {
    let cells: Vec<CanonicalValue> = Vec::new();
    assert!(convert_to_i64_arr(&cells).is_empty());
    assert!(convert_to_i32_arr(&cells).is_empty());
    assert!(convert_to_u64_arr(&cells).is_empty());
    assert!(convert_to_str_arr(&cells).is_empty());
    assert!(convert_to_f64_arr(&cells).is_empty());
}

#[test]
fn expected_forms_never_become_null_and_foreign_forms_always_do() {
    let expected_integer =
        [CanonicalValue::SignedInt(0), CanonicalValue::UnsignedInt(0), bytes("0")];
    for v in expected_integer.iter() {
        assert!(convert_to_i64(v).is_some());
    }
    let foreign_to_integer =
        [CanonicalValue::Float32(0), CanonicalValue::Float64(0), CanonicalValue::Null];
    for v in foreign_to_integer.iter() {
        assert!(convert_to_i64(v).is_none());
    }
    for v in [CanonicalValue::Float32(0), CanonicalValue::Float64(0)].iter() {
        assert!(convert_to_f64(v).is_some());
    }
    let foreign_to_float =
        [CanonicalValue::SignedInt(0), CanonicalValue::UnsignedInt(0), CanonicalValue::Null];
    for v in foreign_to_float.iter() {
        assert!(convert_to_f64(v).is_none());
    }
    assert!(convert_to_str(&bytes("ok")).is_some());
    let foreign_to_text = [
        CanonicalValue::SignedInt(0),
        CanonicalValue::UnsignedInt(0),
        CanonicalValue::Float32(0),
        CanonicalValue::Float64(0),
        CanonicalValue::Null,
    ];
    for v in foreign_to_text.iter() {
        assert!(convert_to_str(v).is_none());
    }
}
