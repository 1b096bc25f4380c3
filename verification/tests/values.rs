use host_binding::values::RawWasmValue;
use host_binding::values::ValType;
use host_binding::values::WasmVal;

#[test]
fn round_trip_i32() {
    let raw = RawWasmValue::from_i32(-123456789);
    assert_eq!(raw.to_i32(), -123456789);
    assert_eq!(WasmVal::from(raw), WasmVal::I32(-123456789));
}

#[test]
fn round_trip_i64() {
    let raw = RawWasmValue::from_i64(-9_007_199_254_740_993_i64);
    assert_eq!(raw.to_i64(), -9_007_199_254_740_993_i64);
    assert_eq!(WasmVal::from(raw), WasmVal::I64(-9_007_199_254_740_993_i64));
}

#[test]
fn round_trip_f32() {
    let bits = 1.5_f32.to_bits();
    let raw = RawWasmValue::from_f32_bits(bits);
    assert_eq!(raw.to_f32_bits(), bits);
    assert_eq!(WasmVal::from(raw), WasmVal::F32(bits));
    assert_eq!(f32::from_bits(bits), 1.5_f32);
}

#[test]
fn round_trip_f64() {
    let bits = (-2.25_f64).to_bits();
    let raw = RawWasmValue::from_f64_bits(bits);
    assert_eq!(raw.to_f64_bits(), bits);
    assert_eq!(WasmVal::from(raw), WasmVal::F64(bits));
    assert_eq!(f64::from_bits(bits), -2.25_f64);
}

#[test]
fn round_trip_v128() {
    let v = -(1_i128 << 100) + 77;
    let raw = RawWasmValue::from_v128(v);
    assert_eq!(raw.to_v128(), v);
    assert_eq!(WasmVal::from(raw), WasmVal::V128(v));
}

#[test]
fn tagged_to_raw_and_back_is_identity() {
    let vals = vec![
        WasmVal::I32(i32::MIN),
        WasmVal::I64(i64::MAX),
        WasmVal::F32(f32::NAN.to_bits()),
        WasmVal::F64(0.0_f64.to_bits()),
        WasmVal::V128(i128::MIN),
        WasmVal::NoneVal,
    ];
    for v in vals {
        assert_eq!(WasmVal::from(v.as_raw()), v);
    }
}

#[test]
fn unknown_kind_converts_to_none() {
    let func_ref = RawWasmValue { ty: ValType::FuncRef, bits: 3 };
    assert_eq!(WasmVal::from(func_ref), WasmVal::NoneVal);
    let extern_ref = RawWasmValue::null_extern_ref();
    assert_eq!(WasmVal::from(extern_ref), WasmVal::NoneVal);
    let extern_ref_payload = RawWasmValue { ty: ValType::ExternRef, bits: u128::MAX };
    assert_eq!(WasmVal::from(extern_ref_payload), WasmVal::NoneVal);
}

#[test]
fn equality_is_reflexive_per_kind() {
    let vals = [
        WasmVal::I32(7),
        WasmVal::I64(-7),
        WasmVal::F32(2.0_f32.to_bits()),
        WasmVal::F64(3.5_f64.to_bits()),
        WasmVal::V128(42),
        WasmVal::NoneVal,
    ];
    for v in vals {
        assert_eq!(v, v);
    }
}

#[test]
fn equality_is_false_across_kinds() {
    let vals = [
        WasmVal::I32(1),
        WasmVal::I64(1),
        WasmVal::F32(1),
        WasmVal::F64(1),
        WasmVal::V128(1),
        WasmVal::NoneVal,
    ];
    for (i, a) in vals.iter().enumerate() {
        for (j, b) in vals.iter().enumerate() {
            if i != j {
                assert_ne!(a, b);
            }
        }
    }
}

#[test]
fn equality_compares_payloads_within_a_kind() {
    assert_ne!(WasmVal::I32(1), WasmVal::I32(2));
    assert_eq!(WasmVal::I64(5), WasmVal::I64(5));
    assert_ne!(WasmVal::V128(0), WasmVal::V128(1));
    assert_ne!(
        WasmVal::F64(1.0_f64.to_bits()),
        WasmVal::F64(2.0_f64.to_bits())
    );
}
