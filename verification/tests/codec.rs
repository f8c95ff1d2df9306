use byteorder::{LittleEndian, WriteBytesExt};
use sysctl::consts::{CTLFLAG_RD, CTLFLAG_RW, CTLFLAG_WR};
use sysctl::unix::funcs::{decode, encode, parse_descriptor, payload};
use sysctl::unix::op::parse_value;
use sysctl::{temperature, CtlInfo, CtlType, CtlValue, SysctlError};

fn info(ctl_type: CtlType, fmt: &str, flags: u32) -> CtlInfo {
    CtlInfo {
        ctl_type,
        fmt: fmt.into(),
        flags,
    }
}

#[test]
fn ctl_struct_type() {
    let info = CtlInfo {
        ctl_type: CtlType::Int,
        fmt: "S,TYPE".into(),
        flags: 0,
    };

    assert_eq!(info.struct_type(), Some("TYPE".into()));

    let info = CtlInfo {
        ctl_type: CtlType::Int,
        fmt: "I".into(),
        flags: 0,
    };
    assert_eq!(info.struct_type(), None);
}

#[test]
fn ctl_temperature_ik() {
    let info = CtlInfo {
        ctl_type: CtlType::Int,
        fmt: "IK".into(),
        flags: 0,
    };
    let mut val = vec![];
    // Default value (IK) in deciKelvin integer
    val.write_i32::<LittleEndian>(3330)
        .expect("Error parsing value to byte array");

    let t = temperature(&info, &val).unwrap();
    if let CtlValue::Temperature(tt) = t {
        let kelvin = tt.kelvin() as f32 / 1e12;
        let celsius = tt.celsius() as f32 / 1e12;
        let fahrenheit = tt.fahrenheit() as f32 / 1e12;
        assert!(kelvin - 333.0 < 0.1);
        assert!(celsius - 59.85 < 0.1);
        assert!(fahrenheit - 139.73 < 0.1);
        assert!(333.0 - kelvin < 0.1);
        assert!(59.85 - celsius < 0.1);
        assert!(139.73 - fahrenheit < 0.1);
    } else {
        assert!(false);
    }
}

#[test]
fn ctl_temperature_ik3() {
    let info = CtlInfo {
        ctl_type: CtlType::Int,
        fmt: "IK3".into(),
        flags: 0,
    };
    let mut val = vec![];
    // Set value in milliKelvin
    val.write_i32::<LittleEndian>(333000)
        .expect("Error parsing value to byte array");

    let t = temperature(&info, &val).unwrap();
    if let CtlValue::Temperature(tt) = t {
        let kelvin = tt.kelvin() as f32 / 1e12;
        assert!(kelvin - 333.0 < 0.1);
        assert!(333.0 - kelvin < 0.1);
    } else {
        assert!(false);
    }
}

#[test]
fn temperature_is_exact_in_every_scale() {
    let val = 3330i32.to_le_bytes().to_vec();
    let t = match temperature(&info(CtlType::Int, "IK", 0), &val).unwrap() {
        CtlValue::Temperature(t) => t,
        other => panic!("no temperature: {:?}", other),
    };
    assert_eq!(t.kelvin(), 333_000_000_000_000);
    assert_eq!(t.celsius(), 59_850_000_000_000);
    assert_eq!(t.fahrenheit(), 139_730_000_000_000);

    let val = 333000i32.to_le_bytes().to_vec();
    let t3 = match temperature(&info(CtlType::Int, "IK3", 0), &val).unwrap() {
        CtlValue::Temperature(t) => t,
        other => panic!("no temperature: {:?}", other),
    };
    assert_eq!(t3.kelvin(), 333_000_000_000_000);
    assert_eq!(t3, t);
}

#[test]
fn temperature_precision_follows_the_format_hint() {
    let val = 5i32.to_le_bytes().to_vec();
    let kelvin = |fmt: &str| match temperature(&info(CtlType::Int, fmt, 0), &val).unwrap() {
        CtlValue::Temperature(t) => t.kelvin(),
        other => panic!("no temperature: {:?}", other),
    };
    assert_eq!(kelvin("IK0"), 5_000_000_000_000);
    assert_eq!(kelvin("IK"), 500_000_000_000);
    assert_eq!(kelvin("IK1"), 500_000_000_000);
    assert_eq!(kelvin("IK9"), 5_000);
    // what is no digit leaves the default
    assert_eq!(kelvin("IKx"), 500_000_000_000);
    assert_eq!(kelvin("IK+"), 500_000_000_000);
    assert_eq!(kelvin("IK25"), 50_000_000_000);
}

#[test]
fn temperature_reads_the_number_of_the_type() {
    let kelvin = |ctl_type: CtlType, val: Vec<u8>| match temperature(&info(ctl_type, "IK0", 0), &val)
    {
        Ok(CtlValue::Temperature(t)) => t.kelvin(),
        other => panic!("no temperature: {:?}", other),
    };
    let unit = 1_000_000_000_000i128;
    assert_eq!(kelvin(CtlType::Int, (-7i32).to_le_bytes().to_vec()), -7 * unit);
    assert_eq!(kelvin(CtlType::S32, (-7i32).to_le_bytes().to_vec()), -7 * unit);
    assert_eq!(kelvin(CtlType::Uint, 0xffff_fff9u32.to_le_bytes().to_vec()), 0xffff_fff9 * unit);
    assert_eq!(kelvin(CtlType::U32, 9u32.to_le_bytes().to_vec()), 9 * unit);
    assert_eq!(kelvin(CtlType::Long, (-9i64).to_le_bytes().to_vec()), -9 * unit);
    assert_eq!(kelvin(CtlType::Ulong, u64::MAX.to_le_bytes().to_vec()), u64::MAX as i128 * unit);
    assert_eq!(kelvin(CtlType::U64, 12u64.to_le_bytes().to_vec()), 12 * unit);
    assert_eq!(kelvin(CtlType::S64, 12u64.to_le_bytes().to_vec()), 12 * unit);
    assert_eq!(kelvin(CtlType::U8, vec![200]), 200 * unit);
    assert_eq!(kelvin(CtlType::S8, vec![200]), -56 * unit);
    assert_eq!(kelvin(CtlType::U16, 40000u16.to_le_bytes().to_vec()), 40000 * unit);
    assert_eq!(kelvin(CtlType::S16, 40000u16.to_le_bytes().to_vec()), (40000 - 65536) * unit);
}

#[test]
fn temperature_of_what_is_no_number_is_unknown() {
    for ctl_type in [
        CtlType::Nil,
        CtlType::Node,
        CtlType::String,
        CtlType::Struct,
        CtlType::Temperature,
    ] {
        let res = temperature(&info(ctl_type, "IK", 0), &vec![1, 2, 3, 4]);
        assert_eq!(res, Err(SysctlError::UnknownType));
    }
}

#[test]
fn temperature_as_text() {
    let text = |raw: i32, fmt: &str| {
        let val = raw.to_le_bytes().to_vec();
        temperature(&info(CtlType::Int, fmt, 0), &val)
            .unwrap()
            .to_string()
    };
    assert_eq!(text(3330, "IK"), "333");
    assert_eq!(text(3335, "IK"), "333.5");
    assert_eq!(text(333005, "IK3"), "333.005");
    assert_eq!(text(-5, "IK"), "-0.5");
    assert_eq!(text(0, "IK"), "0");
    assert_eq!(text(1, "IK9"), "0.000000001");
    assert_eq!(text(120, "IK2"), "1.2");
}

#[test]
fn decode_reads_numbers_least_significant_byte_first() {
    let rd = CTLFLAG_RD;
    let bytes8 = vec![0x01, 0x02, 0x03, 0x04, 0x05, 0x06, 0x07, 0x88];
    assert_eq!(
        decode(&info(CtlType::Int, "I", rd), bytes8.clone()),
        Ok(CtlValue::Int(0x04030201))
    );
    assert_eq!(
        decode(&info(CtlType::S32, "I", rd), vec![0xff, 0xff, 0xff, 0xff]),
        Ok(CtlValue::S32(-1))
    );
    assert_eq!(
        decode(&info(CtlType::Uint, "IU", rd), vec![0xff, 0xff, 0xff, 0xff]),
        Ok(CtlValue::Uint(u32::MAX))
    );
    assert_eq!(
        decode(&info(CtlType::U32, "IU", rd), bytes8.clone()),
        Ok(CtlValue::U32(0x04030201))
    );
    assert_eq!(
        decode(&info(CtlType::Long, "L", rd), bytes8.clone()),
        Ok(CtlValue::Long(0x8807060504030201u64 as i64))
    );
    assert_eq!(
        decode(&info(CtlType::Ulong, "LU", rd), bytes8.clone()),
        Ok(CtlValue::Ulong(0x8807060504030201))
    );
    assert_eq!(
        decode(&info(CtlType::U64, "QU", rd), bytes8.clone()),
        Ok(CtlValue::U64(0x8807060504030201))
    );
    assert_eq!(
        decode(&info(CtlType::S64, "Q", rd), bytes8.clone()),
        Ok(CtlValue::S64(0x8807060504030201))
    );
    assert_eq!(
        decode(&info(CtlType::U8, "CU", rd), vec![0x80]),
        Ok(CtlValue::U8(0x80))
    );
    assert_eq!(
        decode(&info(CtlType::S8, "C", rd), vec![0x80]),
        Ok(CtlValue::S8(-128))
    );
    assert_eq!(
        decode(&info(CtlType::U16, "SU", rd), vec![0x34, 0x92]),
        Ok(CtlValue::U16(0x9234))
    );
    assert_eq!(
        decode(&info(CtlType::S16, "S", rd), vec![0x34, 0x92]),
        Ok(CtlValue::S16(0x9234u16 as i16))
    );
}

#[test]
fn decode_pads_a_short_payload_with_zero_bytes() {
    let rd = CTLFLAG_RD;
    assert_eq!(
        decode(&info(CtlType::Int, "I", rd), vec![]),
        Ok(CtlValue::Int(0))
    );
    assert_eq!(
        decode(&info(CtlType::Int, "I", rd), vec![0x2a]),
        Ok(CtlValue::Int(42))
    );
    assert_eq!(
        decode(&info(CtlType::Int, "I", rd), vec![0xff, 0xff]),
        Ok(CtlValue::Int(0xffff))
    );
    assert_eq!(
        decode(&info(CtlType::Uint, "IU", rd), vec![0x01, 0x02, 0x03]),
        Ok(CtlValue::Uint(0x030201))
    );
    assert_eq!(
        decode(&info(CtlType::Long, "L", rd), vec![0xff, 0xff, 0xff, 0xff]),
        Ok(CtlValue::Long(0xffff_ffff))
    );
    assert_eq!(
        decode(&info(CtlType::U64, "QU", rd), vec![7]),
        Ok(CtlValue::U64(7))
    );
    assert_eq!(
        decode(&info(CtlType::U16, "SU", rd), vec![9]),
        Ok(CtlValue::U16(9))
    );
    assert_eq!(
        decode(&info(CtlType::S16, "S", rd), vec![0xff]),
        Ok(CtlValue::S16(255))
    );
    assert_eq!(
        decode(&info(CtlType::U8, "CU", rd), vec![]),
        Ok(CtlValue::U8(0))
    );
    assert_eq!(
        decode(&info(CtlType::S8, "C", rd), vec![]),
        Ok(CtlValue::S8(0))
    );
}

#[test]
fn decode_text_drops_the_last_byte() {
    let rd = CTLFLAG_RD;
    assert_eq!(
        decode(&info(CtlType::String, "A", rd), b"FreeBSD\0".to_vec()),
        Ok(CtlValue::String("FreeBSD".into()))
    );
    assert_eq!(
        decode(&info(CtlType::String, "A", rd), vec![]),
        Ok(CtlValue::String("".into()))
    );
    assert_eq!(
        decode(&info(CtlType::String, "A", rd), vec![0]),
        Ok(CtlValue::String("".into()))
    );
    assert_eq!(
        decode(&info(CtlType::String, "A", rd), "gr\u{fc}n\0".as_bytes().to_vec()),
        Ok(CtlValue::String("gr\u{fc}n".into()))
    );
}

#[test]
fn decode_text_that_is_no_utf8_fails() {
    let rd = CTLFLAG_RD;
    assert_eq!(
        decode(&info(CtlType::String, "A", rd), vec![b'a', b'b', 0xff, b'c', 0]),
        Err(SysctlError::Utf8Error { valid_up_to: 2 })
    );
    // a character that is cut off
    assert_eq!(
        decode(&info(CtlType::String, "A", rd), vec![b'a', 0xe2, 0x82, 0]),
        Err(SysctlError::Utf8Error { valid_up_to: 1 })
    );
}

#[test]
fn decode_hands_opaque_payloads_on_as_they_are() {
    let rd = CTLFLAG_RD;
    assert_eq!(
        decode(&info(CtlType::Struct, "S,clockinfo", rd), vec![1, 2, 3]),
        Ok(CtlValue::Struct(vec![1, 2, 3]))
    );
    assert_eq!(
        decode(&info(CtlType::Node, "N", rd), vec![4, 5]),
        Ok(CtlValue::Node(vec![4, 5]))
    );
}

#[test]
fn decode_of_a_type_without_values_is_unknown() {
    let rd = CTLFLAG_RD;
    assert_eq!(
        decode(&info(CtlType::Nil, "", rd), vec![1, 2, 3, 4]),
        Err(SysctlError::UnknownType)
    );
    assert_eq!(
        decode(&info(CtlType::Temperature, "", rd), vec![1, 2, 3, 4]),
        Err(SysctlError::UnknownType)
    );
}

#[test]
fn decode_needs_the_read_bit() {
    for flags in [0, CTLFLAG_WR, 0x7fff_ffff] {
        for ctl_type in [CtlType::Int, CtlType::String, CtlType::Struct, CtlType::Nil] {
            assert_eq!(
                decode(&info(ctl_type, "IK", flags), vec![1, 2, 3, 4]),
                Err(SysctlError::NoReadAccess)
            );
        }
    }
}

#[test]
fn decode_follows_the_temperature_hint_before_the_type() {
    let t = decode(&info(CtlType::Int, "IK", CTLFLAG_RD), 2731i32.to_le_bytes().to_vec()).unwrap();
    match t {
        CtlValue::Temperature(t) => assert_eq!(t.celsius(), -50_000_000_000),
        other => panic!("no temperature: {:?}", other),
    }
    assert_eq!(
        decode(&info(CtlType::Struct, "IK", CTLFLAG_RD), vec![1, 2, 3, 4]),
        Err(SysctlError::UnknownType)
    );
}

#[test]
fn encode_writes_int_and_text() {
    assert_eq!(
        encode(&info(CtlType::Int, "I", CTLFLAG_RW), &CtlValue::Int(0x0a0b0c0d)),
        Ok(vec![0x0d, 0x0c, 0x0b, 0x0a])
    );
    assert_eq!(
        encode(&info(CtlType::Int, "I", CTLFLAG_WR), &CtlValue::Int(-2)),
        Ok(vec![0xfe, 0xff, 0xff, 0xff])
    );
    assert_eq!(
        encode(
            &info(CtlType::String, "A", CTLFLAG_RW),
            &CtlValue::String("host".into())
        ),
        Ok(b"host".to_vec())
    );
    assert_eq!(
        encode(&info(CtlType::String, "A", CTLFLAG_RW), &CtlValue::String("".into())),
        Ok(vec![])
    );
}

#[test]
fn encode_needs_the_write_bit() {
    assert_eq!(
        encode(&info(CtlType::Int, "I", CTLFLAG_RD), &CtlValue::Int(1)),
        Err(SysctlError::NoWriteAccess)
    );
    assert_eq!(
        encode(&info(CtlType::Int, "I", 0), &CtlValue::String("x".into())),
        Err(SysctlError::NoWriteAccess)
    );
}

#[test]
fn encode_refuses_a_value_of_another_type() {
    assert_eq!(
        encode(&info(CtlType::Int, "I", CTLFLAG_RW), &CtlValue::String("1".into())),
        Err(SysctlError::TypeMismatch {
            given: CtlType::String,
            expected: CtlType::Int
        })
    );
    assert_eq!(
        encode(&info(CtlType::S32, "I", CTLFLAG_RW), &CtlValue::Int(1)),
        Err(SysctlError::TypeMismatch {
            given: CtlType::Int,
            expected: CtlType::S32
        })
    );
}

#[test]
fn encode_of_the_other_types_is_missing() {
    let values = vec![
        CtlValue::Nil,
        CtlValue::Node(vec![1]),
        CtlValue::S64(1),
        CtlValue::Struct(vec![1]),
        CtlValue::Uint(1),
        CtlValue::Long(1),
        CtlValue::Ulong(1),
        CtlValue::U64(1),
        CtlValue::U8(1),
        CtlValue::U16(1),
        CtlValue::S8(1),
        CtlValue::S16(1),
        CtlValue::S32(1),
        CtlValue::U32(1),
    ];
    for value in values {
        let descriptor = info(value.ctl_type(), "", CTLFLAG_RW);
        assert_eq!(
            encode(&descriptor, &value),
            Err(SysctlError::MissingImplementation)
        );
    }
}

#[test]
fn an_int_comes_back_from_its_payload() {
    let descriptor = info(CtlType::Int, "I", CTLFLAG_RW);
    for v in [0, 1, -1, 3330, i32::MAX, i32::MIN, 0x01020304, -0x01020304] {
        let bytes = encode(&descriptor, &CtlValue::Int(v)).unwrap();
        assert_eq!(bytes.len(), 4);
        assert_eq!(decode(&descriptor, bytes), Ok(CtlValue::Int(v)));
    }
}

#[test]
fn text_comes_back_once_the_kernel_has_closed_it() {
    let descriptor = info(CtlType::String, "A", CTLFLAG_RW);
    for text in ["", "a", "kern.hostname", "gr\u{fc}n \u{1f600}"] {
        let mut bytes = encode(&descriptor, &CtlValue::String(text.into())).unwrap();
        bytes.push(0);
        assert_eq!(decode(&descriptor, bytes), Ok(CtlValue::String(text.into())));
    }
}

#[test]
fn payload_is_given_for_the_right_size_only() {
    assert_eq!(payload(CtlValue::Struct(vec![1, 2, 3, 4]), 4), Ok(vec![1, 2, 3, 4]));
    assert_eq!(payload(CtlValue::Node(vec![1, 2]), 2), Ok(vec![1, 2]));
    assert_eq!(payload(CtlValue::Struct(vec![]), 0), Ok(vec![]));
    assert_eq!(
        payload(CtlValue::Struct(vec![1, 2, 3, 4]), 5),
        Err(SysctlError::ExtractionError)
    );
    assert_eq!(
        payload(CtlValue::Struct(vec![1, 2, 3, 4]), 3),
        Err(SysctlError::ExtractionError)
    );
    assert_eq!(
        payload(CtlValue::Node(vec![1]), 0),
        Err(SysctlError::ExtractionError)
    );
    assert_eq!(payload(CtlValue::Int(1), 4), Err(SysctlError::ExtractionError));
    assert_eq!(
        payload(CtlValue::String("abcd".into()), 4),
        Err(SysctlError::ExtractionError)
    );
}

#[test]
fn values_as_text() {
    assert_eq!(CtlValue::Nil.to_string(), "[None]");
    assert_eq!(CtlValue::Node(vec![1]).to_string(), "[Node]");
    assert_eq!(CtlValue::Struct(vec![1]).to_string(), "[Opaque Struct]");
    assert_eq!(CtlValue::String("text".into()).to_string(), "text");
    assert_eq!(CtlValue::Int(-12).to_string(), "-12");
    assert_eq!(CtlValue::Int(i32::MIN).to_string(), "-2147483648");
    assert_eq!(CtlValue::S32(0).to_string(), "0");
    assert_eq!(CtlValue::Uint(u32::MAX).to_string(), "4294967295");
    assert_eq!(CtlValue::U32(10).to_string(), "10");
    assert_eq!(CtlValue::Long(i64::MIN).to_string(), "-9223372036854775808");
    assert_eq!(CtlValue::Ulong(u64::MAX).to_string(), "18446744073709551615");
    assert_eq!(CtlValue::U64(100).to_string(), "100");
    assert_eq!(CtlValue::S64(7).to_string(), "7");
    assert_eq!(CtlValue::U8(255).to_string(), "255");
    assert_eq!(CtlValue::S8(-128).to_string(), "-128");
    assert_eq!(CtlValue::U16(65535).to_string(), "65535");
    assert_eq!(CtlValue::S16(-32768).to_string(), "-32768");
}

#[test]
fn every_value_knows_its_type() {
    assert_eq!(CtlValue::Nil.ctl_type(), CtlType::Nil);
    assert_eq!(CtlValue::Node(vec![]).ctl_type(), CtlType::Node);
    assert_eq!(CtlValue::Int(0).ctl_type(), CtlType::Int);
    assert_eq!(CtlValue::String("".into()).ctl_type(), CtlType::String);
    assert_eq!(CtlValue::S64(0).ctl_type(), CtlType::S64);
    assert_eq!(CtlValue::Struct(vec![]).ctl_type(), CtlType::Struct);
    assert_eq!(CtlValue::Uint(0).ctl_type(), CtlType::Uint);
    assert_eq!(CtlValue::Long(0).ctl_type(), CtlType::Long);
    assert_eq!(CtlValue::Ulong(0).ctl_type(), CtlType::Ulong);
    assert_eq!(CtlValue::U64(0).ctl_type(), CtlType::U64);
    assert_eq!(CtlValue::U8(0).ctl_type(), CtlType::U8);
    assert_eq!(CtlValue::U16(0).ctl_type(), CtlType::U16);
    assert_eq!(CtlValue::S8(0).ctl_type(), CtlType::S8);
    assert_eq!(CtlValue::S16(0).ctl_type(), CtlType::S16);
    assert_eq!(CtlValue::S32(0).ctl_type(), CtlType::S32);
    assert_eq!(CtlValue::U32(0).ctl_type(), CtlType::U32);
}

#[test]
fn types_by_number_and_width() {
    let all = [
        (0, CtlType::Nil, 0),
        (1, CtlType::Node, 0),
        (2, CtlType::Int, 4),
        (3, CtlType::String, 0),
        (4, CtlType::S64, 8),
        (5, CtlType::Struct, 0),
        (6, CtlType::Uint, 4),
        (7, CtlType::Long, 8),
        (8, CtlType::Ulong, 8),
        (9, CtlType::U64, 8),
        (10, CtlType::U8, 1),
        (11, CtlType::U16, 2),
        (12, CtlType::S8, 1),
        (13, CtlType::S16, 2),
        (14, CtlType::S32, 4),
        (15, CtlType::U32, 4),
        (16, CtlType::Temperature, 0),
    ];
    for (number, ctl_type, width) in all {
        assert_eq!(CtlType::from_u32(number), ctl_type);
        assert_eq!(ctl_type.min_type_size(), width);
        if number < 16 {
            assert_eq!(CtlType::from_kind(0xc004_0000 | number), ctl_type);
        }
    }
}

#[test]
fn text_is_parsed_by_the_type_of_the_control() {
    assert_eq!(
        parse_value(CtlType::String, "any text".into()),
        Ok(CtlValue::String("any text".into()))
    );
    assert_eq!(parse_value(CtlType::Int, "42".into()), Ok(CtlValue::Int(42)));
    assert_eq!(parse_value(CtlType::Int, "-42".into()), Ok(CtlValue::Int(-42)));
    assert_eq!(parse_value(CtlType::Int, "+42".into()), Ok(CtlValue::Int(42)));
    assert_eq!(parse_value(CtlType::Int, "007".into()), Ok(CtlValue::Int(7)));
    assert_eq!(
        parse_value(CtlType::Int, "2147483647".into()),
        Ok(CtlValue::Int(i32::MAX))
    );
    assert_eq!(
        parse_value(CtlType::Int, "-2147483648".into()),
        Ok(CtlValue::Int(i32::MIN))
    );
    for bad in ["", "+", "-", " 1", "1 ", "1.0", "0x10", "2147483648", "-2147483649", "1_000"] {
        assert_eq!(
            parse_value(CtlType::Int, bad.into()),
            Err(SysctlError::ParseError)
        );
    }
    for ctl_type in [CtlType::Uint, CtlType::Long, CtlType::Struct, CtlType::Node, CtlType::Nil] {
        assert_eq!(
            parse_value(ctl_type, "1".into()),
            Err(SysctlError::MissingImplementation)
        );
    }
}

#[test]
fn descriptor_from_its_buffer() {
    let mut buf = (CTLFLAG_RW | 2).to_le_bytes().to_vec();
    buf.extend_from_slice(b"I\0");
    let descriptor = parse_descriptor(&buf).unwrap();
    assert_eq!(descriptor.ctl_type, CtlType::Int);
    assert_eq!(descriptor.fmt, "I");
    assert_eq!(descriptor.flags, CTLFLAG_RW | 2);
    assert!(descriptor.is_readable());
    assert!(descriptor.is_writable());
    assert!(!descriptor.is_temperature());
    assert_eq!(descriptor.flags().bits(), CTLFLAG_RW);

    let mut buf = (CTLFLAG_RD | 5).to_le_bytes().to_vec();
    buf.extend_from_slice(b"S,clockinfo\0");
    let descriptor = parse_descriptor(&buf).unwrap();
    assert_eq!(descriptor.ctl_type, CtlType::Struct);
    assert_eq!(descriptor.struct_type(), Some("clockinfo".into()));
    assert!(!descriptor.is_writable());
}

#[test]
fn descriptor_needs_text_that_ends_in_its_only_nul() {
    let kind = (CTLFLAG_RD | 3).to_le_bytes().to_vec();
    let with = |text: &[u8]| {
        let mut buf = kind.clone();
        buf.extend_from_slice(text);
        parse_descriptor(&buf)
    };
    assert_eq!(with(b"\0").map(|d| d.fmt), Ok("".into()));
    assert_eq!(
        with(b"A"),
        Err(SysctlError::InvalidCStr { interior_nul: None })
    );
    assert_eq!(
        with(b""),
        Err(SysctlError::InvalidCStr { interior_nul: None })
    );
    assert_eq!(
        with(b"A\0B\0"),
        Err(SysctlError::InvalidCStr {
            interior_nul: Some(1)
        })
    );
    assert_eq!(
        with(b"\0\0"),
        Err(SysctlError::InvalidCStr {
            interior_nul: Some(0)
        })
    );
    assert_eq!(
        with(&[b'A', 0xc3, 0]),
        Err(SysctlError::Utf8Error { valid_up_to: 1 })
    );
    assert_eq!(
        parse_descriptor(&vec![1, 0]),
        Err(SysctlError::InvalidCStr { interior_nul: None })
    );
}

#[test]
fn flags_keep_the_bits_that_have_a_name() {
    let flags = info(CtlType::Int, "I", 0xffff_ffff).flags();
    assert_eq!(flags.bits(), 0xfeff_f000);
    assert!(flags.contains(sysctl::CtlFlags::from_bits_truncate(CTLFLAG_RD)));
    let flags = info(CtlType::Int, "I", CTLFLAG_RD | 2).flags();
    assert_eq!(flags.bits(), CTLFLAG_RD);
    assert!(!flags.contains(sysctl::CtlFlags::from_bits_truncate(CTLFLAG_WR)));
    assert!(!flags.contains(sysctl::CtlFlags::from_bits_truncate(CTLFLAG_RW)));
}
