use parquet_console::stats::utf8_or_unknown_string;
use parquet_console::{
    BinaryStatistics, BooleanStatistics, ColumnChunk, ColumnChunkMetaDataExt, FixedLenStatistics,
    FloatLiteral, HumanFriendlyStats, NativeType, PhysicalType, PhysicalTypeExt,
    PrimitiveStatistics, Statistics,
};

fn chunk(physical_type: PhysicalType, raw_statistics: Option<Statistics>) -> ColumnChunk {
    ColumnChunk { path_in_schema: vec!["c".to_string()], physical_type, raw_statistics }
}

fn absent() -> HumanFriendlyStats {
    HumanFriendlyStats { min: None, max: None, null_count: None, distinct_values: None }
}

fn text(s: &str) -> Option<String> {
    Some(s.to_string())
}

fn float(s: String) -> FloatLiteral {
    FloatLiteral { text: s }
}

fn all_types() -> Vec<PhysicalType> {
    vec![
        PhysicalType::Boolean,
        PhysicalType::Int32,
        PhysicalType::Int64,
        PhysicalType::Int96,
        PhysicalType::Float,
        PhysicalType::Double,
        PhysicalType::ByteArray,
        PhysicalType::FixedLenByteArray(4),
    ]
}

fn all_statistics() -> Vec<Statistics> {
    vec![
        Statistics::Boolean(BooleanStatistics {
            null_count: Some(1),
            distinct_count: Some(2),
            max_value: Some(true),
            min_value: Some(false),
        }),
        Statistics::Int32(PrimitiveStatistics {
            null_count: Some(3),
            distinct_count: Some(4),
            max_value: Some(42),
            min_value: Some(-5),
        }),
        Statistics::Int64(PrimitiveStatistics {
            null_count: Some(5),
            distinct_count: Some(6),
            max_value: Some(9_000_000_000),
            min_value: Some(-9_000_000_000),
        }),
        Statistics::Int96(PrimitiveStatistics {
            null_count: Some(7),
            distinct_count: Some(8),
            max_value: Some([1, 2, 3]),
            min_value: Some([0, 0, 0]),
        }),
        Statistics::Float(PrimitiveStatistics {
            null_count: Some(9),
            distinct_count: Some(10),
            max_value: Some(float(format!("{:?}", 2.5f32))),
            min_value: Some(float(format!("{:?}", -1.0f32))),
        }),
        Statistics::Double(PrimitiveStatistics {
            null_count: Some(11),
            distinct_count: Some(12),
            max_value: Some(float(format!("{:?}", 1e300f64))),
            min_value: Some(float(format!("{:?}", 0.1f64))),
        }),
        Statistics::ByteArray(BinaryStatistics {
            null_count: Some(13),
            distinct_count: Some(14),
            max_value: Some(b"pear".to_vec()),
            min_value: Some(b"apple".to_vec()),
        }),
        Statistics::FixedLenByteArray(FixedLenStatistics {
            null_count: Some(15),
            distinct_count: Some(16),
            max_value: Some(b"zzzz".to_vec()),
            min_value: Some(b"aaaa".to_vec()),
        }),
    ]
}

#[test]
fn int32_statistics_are_shown_as_decimal_literals() {
    let stats = Statistics::Int32(PrimitiveStatistics {
        null_count: Some(3),
        distinct_count: None,
        max_value: Some(42),
        min_value: Some(-5),
    });
    let shown = (&chunk(PhysicalType::Int32, Some(stats))).stats();
    assert_eq!(
        shown,
        HumanFriendlyStats {
            min: text("-5"),
            max: text("42"),
            null_count: Some(3),
            distinct_values: None,
        }
    );
}

#[test]
fn a_chunk_without_statistics_projects_to_nothing_for_every_type() {
    for physical_type in all_types() {
        assert_eq!((&chunk(physical_type, None)).stats(), absent());
    }
}

#[test]
fn matching_statistics_project_for_every_type() {
    let expected = vec![
        HumanFriendlyStats {
            min: text("false"),
            max: text("true"),
            null_count: Some(1),
            distinct_values: None,
        },
        HumanFriendlyStats {
            min: text("-5"),
            max: text("42"),
            null_count: Some(3),
            distinct_values: None,
        },
        HumanFriendlyStats {
            min: text("-9000000000"),
            max: text("9000000000"),
            null_count: Some(5),
            distinct_values: None,
        },
        absent(),
        HumanFriendlyStats {
            min: text("-1.0"),
            max: text("2.5"),
            null_count: Some(9),
            distinct_values: None,
        },
        HumanFriendlyStats {
            min: text("0.1"),
            max: text("1e300"),
            null_count: Some(11),
            distinct_values: None,
        },
        HumanFriendlyStats {
            min: text("apple"),
            max: text("pear"),
            null_count: Some(13),
            distinct_values: Some(14),
        },
        HumanFriendlyStats {
            min: text("aaaa"),
            max: text("zzzz"),
            null_count: Some(15),
            distinct_values: Some(16),
        },
    ];
    let types = all_types();
    let statistics = all_statistics();
    for i in 0..types.len() {
        let shown = (&chunk(types[i], Some(statistics[i].clone()))).stats();
        assert_eq!(shown, expected[i]);
    }
}

#[test]
fn int96_projects_to_nothing_whatever_is_stored() {
    for statistics in all_statistics() {
        assert_eq!((&chunk(PhysicalType::Int96, Some(statistics))).stats(), absent());
    }
    assert_eq!((&chunk(PhysicalType::Int96, None)).stats(), absent());
}

#[test]
fn statistics_of_another_type_project_to_nothing() {
    let types = all_types();
    let statistics = all_statistics();
    for t in 0..types.len() {
        for s in 0..statistics.len() {
            if t != s {
                let shown = (&chunk(types[t], Some(statistics[s].clone()))).stats();
                assert_eq!(shown, absent());
            }
        }
    }
}

#[test]
fn the_length_of_fixed_byte_strings_does_not_matter_for_the_projection() {
    let statistics = Statistics::FixedLenByteArray(FixedLenStatistics {
        null_count: None,
        distinct_count: Some(2),
        max_value: Some(b"ab".to_vec()),
        min_value: None,
    });
    for len in [0usize, 2, 16] {
        let shown = (&chunk(PhysicalType::FixedLenByteArray(len), Some(statistics.clone()))).stats();
        assert_eq!(
            shown,
            HumanFriendlyStats {
                min: None,
                max: text("ab"),
                null_count: None,
                distinct_values: Some(2),
            }
        );
    }
}

#[test]
fn bytes_that_are_not_utf8_are_shown_as_unk() {
    let invalid: Vec<Vec<u8>> = vec![
        vec![0xff],
        vec![0xc0, 0x80],
        vec![b'a', 0x80],
        vec![0xed, 0xa0, 0x80],
        vec![0xe2, 0x82],
        vec![0xf4, 0x90, 0x80, 0x80],
    ];
    for bytes in invalid {
        assert_eq!(utf8_or_unknown_string(&bytes), "UNK");
        let statistics = BinaryStatistics {
            null_count: Some(0),
            distinct_count: None,
            max_value: Some(bytes.clone()),
            min_value: Some(b"ok".to_vec()),
        };
        let shown = HumanFriendlyStats::from(&statistics);
        assert_eq!(shown.max, text("UNK"));
        assert_eq!(shown.min, text("ok"));
        let fixed = FixedLenStatistics {
            null_count: Some(0),
            distinct_count: None,
            max_value: None,
            min_value: Some(bytes),
        };
        let shown = HumanFriendlyStats::from(&fixed);
        assert_eq!(shown.min, text("UNK"));
        assert_eq!(shown.max, None);
    }
}

#[test]
fn bytes_that_are_utf8_are_shown_as_their_text() {
    assert_eq!(utf8_or_unknown_string(&Vec::new()), "");
    assert_eq!(utf8_or_unknown_string(&b"plain".to_vec()), "plain");
    assert_eq!(utf8_or_unknown_string(&"h\u{e9}llo".as_bytes().to_vec()), "h\u{e9}llo");
    assert_eq!(utf8_or_unknown_string(&"\u{20ac}\u{1f600}".as_bytes().to_vec()), "\u{20ac}\u{1f600}");
    assert_eq!(utf8_or_unknown_string(&vec![0x55, 0x4e, 0x4b]), "UNK");
    assert_eq!(utf8_or_unknown_string(&vec![0x00]), "\u{0}");
}

#[test]
fn boolean_statistics_never_carry_a_distinct_count() {
    let statistics = BooleanStatistics {
        null_count: Some(4),
        distinct_count: Some(2),
        max_value: Some(false),
        min_value: None,
    };
    assert_eq!(
        HumanFriendlyStats::from(&statistics),
        HumanFriendlyStats {
            min: None,
            max: text("false"),
            null_count: Some(4),
            distinct_values: None,
        }
    );
}

#[test]
fn primitive_statistics_never_carry_a_distinct_count() {
    let statistics: PrimitiveStatistics<i64> = PrimitiveStatistics {
        null_count: None,
        distinct_count: Some(77),
        max_value: Some(i64::MAX),
        min_value: Some(i64::MIN),
    };
    assert_eq!(
        HumanFriendlyStats::from(&statistics),
        HumanFriendlyStats {
            min: text("-9223372036854775808"),
            max: text("9223372036854775807"),
            null_count: None,
            distinct_values: None,
        }
    );
    let statistics: PrimitiveStatistics<i32> = PrimitiveStatistics {
        null_count: Some(0),
        distinct_count: Some(1),
        max_value: Some(i32::MAX),
        min_value: Some(i32::MIN),
    };
    assert_eq!(
        HumanFriendlyStats::from(&statistics),
        HumanFriendlyStats {
            min: text("-2147483648"),
            max: text("2147483647"),
            null_count: Some(0),
            distinct_values: None,
        }
    );
}

#[test]
fn float_literals_are_shown_as_they_are() {
    let statistics = PrimitiveStatistics {
        null_count: Some(2),
        distinct_count: None,
        max_value: Some(float(format!("{:?}", f64::INFINITY))),
        min_value: Some(float(format!("{:?}", f64::NAN))),
    };
    let shown = HumanFriendlyStats::from(&statistics);
    assert_eq!(shown.max, text("inf"));
    assert_eq!(shown.min, text("NaN"));
    assert_eq!(shown.null_count, Some(2));
    assert_eq!(shown.distinct_values, None);
}

#[test]
fn literals_of_numbers_agree_with_debug_formatting() {
    for v in [0i32, 1, -1, 9, 10, 99, 100, -100, 12345, i32::MIN, i32::MAX] {
        assert_eq!(v.debug_string(), format!("{:?}", v));
    }
    for v in [0i64, 7, -7, 1_000_000_007, -4_294_967_296, i64::MIN, i64::MAX] {
        assert_eq!(v.debug_string(), format!("{:?}", v));
    }
    assert_eq!(float("3.25".to_string()).debug_string(), "3.25");
}

#[test]
fn the_default_record_is_all_absent() {
    assert_eq!(HumanFriendlyStats::default(), absent());
}

#[test]
fn physical_types_have_names_in_capitals() {
    assert_eq!(PhysicalType::Boolean.human_readable(), "BOOLEAN");
    assert_eq!(PhysicalType::Int32.human_readable(), "INT32");
    assert_eq!(PhysicalType::Int64.human_readable(), "INT64");
    assert_eq!(PhysicalType::Int96.human_readable(), "INT96");
    assert_eq!(PhysicalType::Float.human_readable(), "FLOAT");
    assert_eq!(PhysicalType::Double.human_readable(), "DOUBLE");
    assert_eq!(PhysicalType::ByteArray.human_readable(), "BYTEARRAY");
    assert_eq!(PhysicalType::FixedLenByteArray(0).human_readable(), "FIXED_LEN_BYTEARRAY");
    assert_eq!(PhysicalType::FixedLenByteArray(16).human_readable(), "FIXED_LEN_BYTEARRAY");
}
