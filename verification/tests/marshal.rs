use lv8::abi::marshal_arg;
use lv8::abi::marshal_args;
use lv8::abi::narrow;
use lv8::abi::truncate_to_i32;
use lv8::abi::ArgWidth;
use lv8::abi::GuestArg;

#[test]
fn truncation_keeps_low_bits() {
    assert_eq!(truncate_to_i32(0), 0);
    assert_eq!(truncate_to_i32(7), 7);
    assert_eq!(truncate_to_i32(-1), -1);
    assert_eq!(truncate_to_i32(4294967301), 5);
    assert_eq!(truncate_to_i32(2147483648), -2147483648);
    assert_eq!(truncate_to_i32(-4294967296), 0);
}

#[test]
fn narrow_respects_declared_width() {
    // a value beyond the 32-bit range survives in a 64-bit slot
    assert_eq!(narrow(1099511627776, ArgWidth::W64), 1099511627776);
    // and loses its high bits in a 32-bit slot
    assert_eq!(narrow(1099511627776 + 9, ArgWidth::W32), 9);
    assert_eq!(narrow(-1, ArgWidth::W32), -1);
}

#[test]
fn both_representations_marshal_alike() {
    let w = ArgWidth::W64;
    assert_eq!(marshal_arg(&GuestArg::Number(42), w), Some(42));
    assert_eq!(marshal_arg(&GuestArg::BigInt(42), w), Some(42));
    assert_eq!(
        marshal_arg(&GuestArg::BigInt(-9000000000), w),
        Some(-9000000000)
    );
    assert_eq!(marshal_arg(&GuestArg::NonInteger, w), None);
}

#[test]
fn marshal_args_checks_arity() {
    let args = vec![GuestArg::Number(1), GuestArg::Number(2)];
    let widths = vec![ArgWidth::W32];
    assert_eq!(marshal_args(&args, &widths), None);
    let widths = vec![ArgWidth::W32, ArgWidth::W32, ArgWidth::W32];
    assert_eq!(marshal_args(&args, &widths), None);
}

#[test]
fn marshal_args_narrows_each_slot() {
    let args = vec![
        GuestArg::Number(3),
        GuestArg::BigInt(4294967301),
        GuestArg::BigInt(4294967301),
    ];
    let widths = vec![ArgWidth::W32, ArgWidth::W32, ArgWidth::W64];
    assert_eq!(
        marshal_args(&args, &widths),
        Some(vec![3, 5, 4294967301])
    );
}

#[test]
fn marshal_args_rejects_non_integer() {
    let args = vec![GuestArg::Number(3), GuestArg::NonInteger];
    let widths = vec![ArgWidth::W32, ArgWidth::W32];
    assert_eq!(marshal_args(&args, &widths), None);
}
