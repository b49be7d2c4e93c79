//! The numeric guest calling convention.
//!
//! A guest call hands the host a fixed-arity sequence of numeric values. The
//! engine represents each one either as a machine-native integer or, for
//! magnitudes beyond that representation's safe range, as an
//! arbitrary-precision integer already wrapped to 64-bit two's complement.
//! Before a syscall implementation is invoked, every value must be narrowed
//! to the exact signed width (32 or 64 bits) that the syscall declares.

use vstd::prelude::*;

verus! {

/// The WASI status code for success.
pub const ERRNO_SUCCESS: i32 = 0;

/// The WASI errno returned to the guest when an argument cannot be
/// interpreted as the declared integer width.
pub const ERRNO_INVAL: i32 = 28;

/// The WASI errno returned to the guest when a syscall faults on a guest
/// pointer, for example one that lies outside the current linear memory.
pub const ERRNO_FAULT: i32 = 21;

/// The declared width of one trampoline argument.
#[derive(Clone, Copy, Debug, PartialEq, Eq, Structural)]
pub enum ArgWidth {
    W32,
    W64,
}

/// One raw argument of a guest call, as the engine hands it over.
#[derive(Clone, Copy, Debug, PartialEq, Eq, Structural)]
pub enum GuestArg {
    /// A machine-native numeric value, read through the engine's integer
    /// coercion.
    Number(i64),
    /// An arbitrary-precision value, wrapped by the engine to 64-bit two's
    /// complement.
    BigInt(i64),
    /// A value the engine could not coerce to an integer at all.
    NonInteger,
}

/// The exact 64-bit value carried by a raw argument, if it carries one.
pub open spec fn guest_arg_value(a: GuestArg) -> Option<i64> {
    match a {
        GuestArg::Number(v) => Some(v),
        GuestArg::BigInt(v) => Some(v),
        GuestArg::NonInteger => None,
    }
}

/// A 64-bit value narrowed to a declared argument width. Narrowing to 32
/// bits keeps the low bits and reinterprets them as a signed value; a
/// 64-bit slot passes the value through unchanged.
pub open spec fn narrow_to_width(v: i64, w: ArgWidth) -> i64 {
    match w {
        ArgWidth::W32 => v as i32 as i64,
        ArgWidth::W64 => v,
    }
}

/// What marshaling one raw argument at one declared width yields:
/// `None` is a marshal failure.
pub open spec fn marshal_arg_spec(a: GuestArg, w: ArgWidth) -> Option<i64> {
    match guest_arg_value(a) {
        Some(v) => Some(narrow_to_width(v, w)),
        None => None,
    }
}

/// What marshaling a whole argument list yields: the declared widths must
/// match the call's arity one to one, and every argument must carry an
/// integer; otherwise the call is rejected before any syscall runs.
pub open spec fn marshal_args_spec(args: Seq<GuestArg>, widths: Seq<ArgWidth>) -> Option<
    Seq<i64>,
>
    decreases args.len(),
{
    if args.len() != widths.len() {
        None
    } else if args.len() == 0 {
        Some(Seq::empty())
    } else {
        match (marshal_arg_spec(args[0], widths[0]), marshal_args_spec(
            args.drop_first(),
            widths.drop_first(),
        )) {
            (Some(v), Some(rest)) => Some(seq![v] + rest),
            _ => None,
        }
    }
}

/// Successful marshaling yields exactly one value per declared slot, and
/// each slot is its raw argument narrowed to its declared width.
pub proof fn lemma_marshal_args_values(args: Seq<GuestArg>, widths: Seq<ArgWidth>)
    ensures
        marshal_args_spec(args, widths) matches Some(vals) ==> {
            &&& vals.len() == args.len()
            &&& args.len() == widths.len()
            &&& forall|i: int|
                0 <= i < args.len() ==> Some(#[trigger] vals[i]) == marshal_arg_spec(
                    args[i],
                    widths[i],
                )
        },
    decreases args.len(),
{
    if args.len() == widths.len() && args.len() != 0 {
        lemma_marshal_args_values(args.drop_first(), widths.drop_first());
        match (marshal_arg_spec(args[0], widths[0]), marshal_args_spec(
            args.drop_first(),
            widths.drop_first(),
        )) {
            (Some(v), Some(rest)) => {
                assert forall|i: int| 0 <= i < args.len() implies Some(
                    #[trigger] (seq![v] + rest)[i],
                ) == marshal_arg_spec(args[i], widths[i]) by {
                    if i > 0 {
                        assert((seq![v] + rest)[i] == rest[i - 1]);
                        assert(args.drop_first()[i - 1] == args[i]);
                        assert(widths.drop_first()[i - 1] == widths[i]);
                    }
                }
            },
            _ => {},
        }
    }
}

/// Truncation to the signed 32-bit range, as both the 32-bit argument slots
/// and the process exit-code protocol require: the result is congruent to
/// the input modulo 2^32 and lies in the signed 32-bit range, which pins it
/// uniquely.
pub proof fn lemma_truncate_congruent(v: i64)
    ensures
        -0x8000_0000 <= v as i32 <= 0x7fff_ffff,
        ((v as i32) - v) % 0x1_0000_0000 == 0,
{
    assert(((v as i32) as i64 - v) % 0x1_0000_0000 == 0 && -0x8000_0000 <= (
    v as i32) as i64 <= 0x7fff_ffff) by (bit_vector);
    assert((v as i32) as i64 - v == (v as i32) - v);
}

/// Truncates a value to the signed 32-bit range, keeping the low 32 bits.
pub fn truncate_to_i32(v: i64) -> (r: i32)
    ensures
        r == v as i32,
{
    #[verifier::truncate]
    (v as i32)
}

/// Narrows a 64-bit value to the given declared width.
pub fn narrow(v: i64, w: ArgWidth) -> (r: i64)
    ensures
        r == narrow_to_width(v, w),
{
    match w {
        ArgWidth::W32 => truncate_to_i32(v) as i64,
        ArgWidth::W64 => v,
    }
}

/// Marshals one raw argument at one declared width.
pub fn marshal_arg(a: &GuestArg, w: ArgWidth) -> (r: Option<i64>)
    ensures
        r == marshal_arg_spec(*a, w),
{
    match a {
        GuestArg::Number(v) => Some(narrow(*v, w)),
        GuestArg::BigInt(v) => Some(narrow(*v, w)),
        GuestArg::NonInteger => None,
    }
}

/// Marshals a whole argument list against the declared widths; `None`
/// rejects the call (wrong arity, or a non-integer argument).
pub fn marshal_args(args: &Vec<GuestArg>, widths: &Vec<ArgWidth>) -> (r: Option<Vec<i64>>)
    ensures
        match r {
            Some(vals) => marshal_args_spec(args@, widths@) == Some(vals@),
            None => marshal_args_spec(args@, widths@) is None,
        },
{
    if args.len() != widths.len() {
        return None;
    }
    let mut vals: Vec<i64> = Vec::new();
    let n = args.len();
    proof {
        assert(args@.skip(0) =~= args@);
        assert(widths@.skip(0) =~= widths@);
        match marshal_args_spec(args@, widths@) {
            Some(rest) => {
                assert(Seq::<i64>::empty() + rest =~= rest);
            },
            None => {},
        }
    }
    for i in 0..n
        invariant
            n == args.len() == widths.len(),
            vals.len() == i,
            marshal_args_spec(args@.skip(i as int), widths@.skip(i as int)) matches Some(rest)
                ==> marshal_args_spec(args@, widths@) == Some(vals@ + rest),
            marshal_args_spec(args@.skip(i as int), widths@.skip(i as int)) is None
                ==> marshal_args_spec(args@, widths@) is None,
    {
        proof {
            assert(args@.skip(i as int).len() == widths@.skip(i as int).len());
            assert(args@.skip(i as int)[0] == args@[i as int]);
            assert(widths@.skip(i as int)[0] == widths@[i as int]);
            assert(args@.skip(i as int).drop_first() =~= args@.skip(i + 1));
            assert(widths@.skip(i as int).drop_first() =~= widths@.skip(i + 1));
        }
        let ghost prev = vals@;
        match marshal_arg(&args[i], widths[i]) {
            Some(v) => {
                vals.push(v);
                proof {
                    match marshal_args_spec(args@.skip(i + 1), widths@.skip(i + 1)) {
                        Some(rest) => {
                            assert(marshal_args_spec(
                                args@.skip(i as int),
                                widths@.skip(i as int),
                            ) == Some(seq![v] + rest));
                            assert(prev + (seq![v] + rest) =~= vals@ + rest);
                        },
                        None => {
                            assert(marshal_args_spec(
                                args@.skip(i as int),
                                widths@.skip(i as int),
                            ) is None);
                        },
                    }
                }
            },
            None => {
                proof {
                    assert(marshal_args_spec(args@.skip(i as int), widths@.skip(i as int))
                        is None);
                }
                return None;
            },
        }
    }
    proof {
        assert(args@.skip(n as int) =~= Seq::<GuestArg>::empty());
        assert(widths@.skip(n as int) =~= Seq::<ArgWidth>::empty());
        assert(marshal_args_spec(args@.skip(n as int), widths@.skip(n as int)) == Some(
            Seq::<i64>::empty(),
        ));
        assert(vals@ + Seq::<i64>::empty() =~= vals@);
    }
    Some(vals)
}

} // verus!
