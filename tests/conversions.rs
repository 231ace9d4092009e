use pylong::{ErrKind, LongWidth, NativeInt, PyErr, PyLong, PyObject, PyValue, Python};

fn extract<T: NativeInt>(py: &mut Python, ob: &PyObject) -> Result<T, PyErr> {
    T::extract(py, ob)
}

fn kind<T>(r: Result<T, PyErr>) -> ErrKind {
    match r {
        Ok(_) => panic!("expected an error"),
        Err(e) => e.kind,
    }
}

fn both_widths() -> Vec<Python> {
    vec![Python::new(LongWidth::Bits64), Python::new(LongWidth::Bits32)]
}

#[test]
fn test_u32_max() {
    let mut py = Python::new(LongWidth::Bits64);
    let v = u32::MAX;
    let obj = v.to_object(&mut py);
    assert_eq!(v, extract::<u32>(&mut py, &obj).unwrap());
    assert_eq!(v as u64, extract::<u64>(&mut py, &obj).unwrap());
    assert!(extract::<i32>(&mut py, &obj).is_err());
}

#[test]
fn test_i64_max() {
    let mut py = Python::new(LongWidth::Bits64);
    let v = i64::MAX;
    let obj = v.to_object(&mut py);
    assert_eq!(v, extract::<i64>(&mut py, &obj).unwrap());
    assert_eq!(v as u64, extract::<u64>(&mut py, &obj).unwrap());
    assert!(extract::<u32>(&mut py, &obj).is_err());
}

#[test]
fn test_i64_min() {
    let mut py = Python::new(LongWidth::Bits64);
    let v = i64::MIN;
    let obj = v.to_object(&mut py);
    assert_eq!(v, extract::<i64>(&mut py, &obj).unwrap());
    assert!(extract::<i32>(&mut py, &obj).is_err());
    assert!(extract::<u64>(&mut py, &obj).is_err());
}

#[test]
fn test_u64_max() {
    let mut py = Python::new(LongWidth::Bits64);
    let v = u64::MAX;
    let obj = v.to_object(&mut py);
    assert_eq!(v, extract::<u64>(&mut py, &obj).unwrap());
    assert!(extract::<i64>(&mut py, &obj).is_err());
}

#[test]
fn u32_max_with_32_bit_long() {
    let mut py = Python::new(LongWidth::Bits32);
    let v = u32::MAX;
    let obj = v.to_object(&mut py);
    assert_eq!(v, extract::<u32>(&mut py, &obj).unwrap());
    assert_eq!(v as u64, extract::<u64>(&mut py, &obj).unwrap());
    assert_eq!(kind(extract::<i32>(&mut py, &obj)), ErrKind::Overflow);
}

#[test]
fn i64_extremes_with_32_bit_long() {
    let mut py = Python::new(LongWidth::Bits32);
    let max = i64::MAX.to_object(&mut py);
    assert_eq!(i64::MAX, extract::<i64>(&mut py, &max).unwrap());
    assert_eq!(i64::MAX as u64, extract::<u64>(&mut py, &max).unwrap());
    assert_eq!(kind(extract::<u32>(&mut py, &max)), ErrKind::Overflow);
    let min = i64::MIN.to_object(&mut py);
    assert_eq!(i64::MIN, extract::<i64>(&mut py, &min).unwrap());
    assert_eq!(kind(extract::<i32>(&mut py, &min)), ErrKind::Overflow);
    assert_eq!(kind(extract::<u64>(&mut py, &min)), ErrKind::Overflow);
    assert_eq!(extract::<isize>(&mut py, &max).is_err(), isize::BITS < 64);
}

#[test]
fn u64_max_with_32_bit_long() {
    let mut py = Python::new(LongWidth::Bits32);
    let obj = u64::MAX.into_object(&mut py);
    assert_eq!(u64::MAX, extract::<u64>(&mut py, &obj).unwrap());
    assert_eq!(kind(extract::<i64>(&mut py, &obj)), ErrKind::Overflow);
    assert_eq!(kind(extract::<u32>(&mut py, &obj)), ErrKind::Overflow);
}

#[test]
fn round_trip_of_123_for_every_type() {
    for mut py in both_widths() {
        let o = 123i8.to_object(&mut py);
        assert_eq!(extract::<i8>(&mut py, &o).unwrap(), 123i8);
        let o = 123u8.to_object(&mut py);
        assert_eq!(extract::<u8>(&mut py, &o).unwrap(), 123u8);
        let o = 123i16.to_object(&mut py);
        assert_eq!(extract::<i16>(&mut py, &o).unwrap(), 123i16);
        let o = 123u16.to_object(&mut py);
        assert_eq!(extract::<u16>(&mut py, &o).unwrap(), 123u16);
        let o = 123i32.to_object(&mut py);
        assert_eq!(extract::<i32>(&mut py, &o).unwrap(), 123i32);
        let o = 123u32.to_object(&mut py);
        assert_eq!(extract::<u32>(&mut py, &o).unwrap(), 123u32);
        let o = 123i64.to_object(&mut py);
        assert_eq!(extract::<i64>(&mut py, &o).unwrap(), 123i64);
        let o = 123u64.to_object(&mut py);
        assert_eq!(extract::<u64>(&mut py, &o).unwrap(), 123u64);
        let o = 123isize.to_object(&mut py);
        assert_eq!(extract::<isize>(&mut py, &o).unwrap(), 123isize);
        let o = 123usize.to_object(&mut py);
        assert_eq!(extract::<usize>(&mut py, &o).unwrap(), 123usize);
    }
}

#[test]
fn round_trip_of_extremes() {
    for mut py in both_widths() {
        for v in [i8::MIN, -1, 0, i8::MAX] {
            let o = v.to_object(&mut py);
            assert_eq!(extract::<i8>(&mut py, &o).unwrap(), v);
        }
        for v in [i32::MIN, -1, 0, i32::MAX] {
            let o = v.to_object(&mut py);
            assert_eq!(extract::<i32>(&mut py, &o).unwrap(), v);
        }
        for v in [i64::MIN, -1, 0, i64::MAX] {
            let o = v.into_object(&mut py);
            assert_eq!(extract::<i64>(&mut py, &o).unwrap(), v);
        }
        for v in [isize::MIN, -1, 0, isize::MAX] {
            let o = v.to_object(&mut py);
            assert_eq!(extract::<isize>(&mut py, &o).unwrap(), v);
        }
        for v in [0, 1, usize::MAX] {
            let o = v.to_object(&mut py);
            assert_eq!(extract::<usize>(&mut py, &o).unwrap(), v);
        }
    }
}

#[test]
fn minus_one_is_a_value_not_an_error() {
    for mut py in both_widths() {
        let o = (-1i32).to_object(&mut py);
        assert_eq!(extract::<i32>(&mut py, &o).unwrap(), -1);
        assert_eq!(extract::<i64>(&mut py, &o).unwrap(), -1);
        assert_eq!(extract::<isize>(&mut py, &o).unwrap(), -1);
        assert_eq!(kind(extract::<u8>(&mut py, &o)), ErrKind::Overflow);
        assert_eq!(kind(extract::<usize>(&mut py, &o)), ErrKind::Overflow);
    }
}

#[test]
fn widening_keeps_the_value() {
    for mut py in both_widths() {
        let o = u8::MAX.to_object(&mut py);
        assert_eq!(extract::<u16>(&mut py, &o).unwrap(), 255u16);
        assert_eq!(extract::<i16>(&mut py, &o).unwrap(), 255i16);
        assert_eq!(extract::<u64>(&mut py, &o).unwrap(), 255u64);
        let o = i16::MIN.to_object(&mut py);
        assert_eq!(extract::<i32>(&mut py, &o).unwrap(), -32768i32);
        assert_eq!(extract::<i64>(&mut py, &o).unwrap(), -32768i64);
        let o = u32::MAX.to_object(&mut py);
        assert_eq!(extract::<i64>(&mut py, &o).unwrap(), 4294967295i64);
        assert_eq!(extract::<usize>(&mut py, &o).unwrap() as u64, 4294967295u64);
    }
}

#[test]
fn narrowing_out_of_range_overflows() {
    for mut py in both_widths() {
        let o = 300u16.to_object(&mut py);
        assert_eq!(kind(extract::<u8>(&mut py, &o)), ErrKind::Overflow);
        assert_eq!(kind(extract::<i8>(&mut py, &o)), ErrKind::Overflow);
        assert_eq!(extract::<i16>(&mut py, &o).unwrap(), 300);
        let o = 40000u16.to_object(&mut py);
        assert_eq!(kind(extract::<i16>(&mut py, &o)), ErrKind::Overflow);
        let o = 70000i32.to_object(&mut py);
        assert_eq!(kind(extract::<u16>(&mut py, &o)), ErrKind::Overflow);
        let o = (u32::MAX as u64 + 1).to_object(&mut py);
        assert_eq!(kind(extract::<u32>(&mut py, &o)), ErrKind::Overflow);
        assert_eq!(kind(extract::<i32>(&mut py, &o)), ErrKind::Overflow);
        let o = (i32::MIN as i64 - 1).to_object(&mut py);
        assert_eq!(kind(extract::<i32>(&mut py, &o)), ErrKind::Overflow);
    }
}

#[test]
fn values_beyond_every_native_type_overflow() {
    for mut py in both_widths() {
        let big = py.new_object(PyValue::Int(1i128 << 70));
        assert_eq!(kind(extract::<u64>(&mut py, &big)), ErrKind::Overflow);
        assert_eq!(kind(extract::<i64>(&mut py, &big)), ErrKind::Overflow);
        assert_eq!(kind(extract::<usize>(&mut py, &big)), ErrKind::Overflow);
        assert_eq!(kind(extract::<u32>(&mut py, &big)), ErrKind::Overflow);
        assert_eq!(kind(extract::<i8>(&mut py, &big)), ErrKind::Overflow);
        let small = py.new_object(PyValue::Int(-(1i128 << 70)));
        assert_eq!(kind(extract::<i64>(&mut py, &small)), ErrKind::Overflow);
        assert_eq!(kind(extract::<isize>(&mut py, &small)), ErrKind::Overflow);
        assert_eq!(kind(extract::<u64>(&mut py, &small)), ErrKind::Overflow);
        let just_over = py.new_object(PyValue::Int(u64::MAX as i128 + 1));
        assert_eq!(kind(extract::<u64>(&mut py, &just_over)), ErrKind::Overflow);
    }
}

#[test]
fn objects_that_are_not_numbers_give_type_error() {
    for mut py in both_widths() {
        let o = py.new_object(PyValue::Opaque);
        assert_eq!(kind(extract::<i8>(&mut py, &o)), ErrKind::Type);
        assert_eq!(kind(extract::<u32>(&mut py, &o)), ErrKind::Type);
        assert_eq!(kind(extract::<i64>(&mut py, &o)), ErrKind::Type);
        assert_eq!(kind(extract::<u64>(&mut py, &o)), ErrKind::Type);
        assert_eq!(kind(extract::<isize>(&mut py, &o)), ErrKind::Type);
        assert_eq!(kind(extract::<usize>(&mut py, &o)), ErrKind::Type);
        let ok = 5u8.to_object(&mut py);
        assert_eq!(extract::<u8>(&mut py, &ok).unwrap(), 5);
    }
}

#[test]
fn numbers_that_convert_to_int_are_accepted() {
    for mut py in both_widths() {
        let o = py.new_object(PyValue::Index(u64::MAX as i128));
        assert_eq!(extract::<u64>(&mut py, &o).unwrap(), u64::MAX);
        assert_eq!(kind(extract::<i64>(&mut py, &o)), ErrKind::Overflow);
        let o = py.new_object(PyValue::Index(-7));
        assert_eq!(extract::<i64>(&mut py, &o).unwrap(), -7);
        assert_eq!(extract::<i8>(&mut py, &o).unwrap(), -7);
        assert_eq!(kind(extract::<u64>(&mut py, &o)), ErrKind::Overflow);
        assert_eq!(kind(extract::<u32>(&mut py, &o)), ErrKind::Overflow);
        let o = py.new_object(PyValue::Index(4000));
        assert_eq!(extract::<u32>(&mut py, &o).unwrap(), 4000);
        assert_eq!(extract::<usize>(&mut py, &o).unwrap(), 4000);
    }
}

#[test]
fn all_bits_set_extracts_for_every_unsigned_width() {
    for mut py in both_widths() {
        let o = u8::MAX.to_object(&mut py);
        assert_eq!(extract::<u8>(&mut py, &o).unwrap(), u8::MAX);
        let o = u16::MAX.to_object(&mut py);
        assert_eq!(extract::<u16>(&mut py, &o).unwrap(), u16::MAX);
        let o = u32::MAX.to_object(&mut py);
        assert_eq!(extract::<u32>(&mut py, &o).unwrap(), u32::MAX);
        let o = u64::MAX.to_object(&mut py);
        assert_eq!(extract::<u64>(&mut py, &o).unwrap(), u64::MAX);
        let o = usize::MAX.to_object(&mut py);
        assert_eq!(extract::<usize>(&mut py, &o).unwrap(), usize::MAX);
    }
}

#[test]
fn unsigned_only_values_fail_as_signed_of_same_width() {
    for mut py in both_widths() {
        let o = 200u8.to_object(&mut py);
        assert_eq!(kind(extract::<i8>(&mut py, &o)), ErrKind::Overflow);
        assert_eq!(extract::<u8>(&mut py, &o).unwrap(), 200);
        assert_eq!(extract::<u32>(&mut py, &o).unwrap(), 200);
        let o = (1u64 << 63).to_object(&mut py);
        assert_eq!(kind(extract::<i64>(&mut py, &o)), ErrKind::Overflow);
        assert_eq!(extract::<u64>(&mut py, &o).unwrap(), 1u64 << 63);
        let o = (1u32 << 31).to_object(&mut py);
        assert_eq!(kind(extract::<i32>(&mut py, &o)), ErrKind::Overflow);
        assert_eq!(extract::<u32>(&mut py, &o).unwrap(), 1u32 << 31);
        assert_eq!(extract::<u64>(&mut py, &o).unwrap(), 1u64 << 31);
    }
}

#[test]
fn conversion_leaves_no_error_pending() {
    let mut py = Python::new(LongWidth::Bits64);
    let o = py.new_object(PyValue::Opaque);
    assert!(extract::<i32>(&mut py, &o).is_err());
    assert!(!py.err_occurred());
    let o = (-1i64).to_object(&mut py);
    assert_eq!(extract::<i64>(&mut py, &o).unwrap(), -1);
    assert!(!py.err_occurred());
}

#[test]
fn to_object_stores_an_int() {
    let mut py = Python::new(LongWidth::Bits32);
    let o = u64::MAX.to_object(&mut py);
    assert_eq!(py.get(&o), PyValue::Int(u64::MAX as i128));
    let o = i8::MIN.to_object(&mut py);
    assert_eq!(py.get(&o), PyValue::Int(-128));
    let o = 77usize.into_object(&mut py);
    assert_eq!(py.get(&o), PyValue::Int(77));
}

#[test]
fn py_long_accepts_only_int_objects() {
    let mut py = Python::new(LongWidth::Bits64);
    let i = 9u8.to_object(&mut py);
    let n = py.new_object(PyValue::Index(9));
    let x = py.new_object(PyValue::Opaque);
    let l = PyLong::try_from_object(&py, &i).unwrap();
    assert_eq!(py.get(&l.as_object()), PyValue::Int(9));
    assert!(PyLong::try_from_object(&py, &n).is_none());
    assert!(PyLong::try_from_object(&py, &x).is_none());
}

#[test]
fn primitives_report_failure_values_and_errors() {
    let mut py = Python::new(LongWidth::Bits32);
    let big = (1i64 << 40).to_object(&mut py);
    assert_eq!(py.long_as_long(&big), -1);
    assert!(py.err_occurred());
    assert_eq!(py.err_fetch().kind, ErrKind::Overflow);
    assert_eq!(py.long_as_long_long(&big), 1i64 << 40);
    let idx = py.new_object(PyValue::Index(3));
    assert_eq!(py.long_as_unsigned_long_long(&idx), u64::MAX);
    assert_eq!(py.err_fetch().kind, ErrKind::Type);
    assert_eq!(py.err_fetch().kind, ErrKind::System);
    let conv = py.number_long(&idx).unwrap();
    assert_eq!(py.get(&conv), PyValue::Int(3));
    assert!(PyErr::overflow().is_overflow());
}
