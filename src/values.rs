use vstd::prelude::*;

use crate::drivers::spec_driver::InterpreterError;

verus! {

/// A request that a harness sends across the boundary.
#[derive(Debug, Clone, PartialEq)]
pub enum SgxWasmAction {
    Invoke { module: Option<String>, field: String, args: Vec<BoundaryValue> },
    Get { module: Option<String>, field: String },
    LoadModule { name: Option<String>, module: Vec<u8> },
    TryLoad { module: Vec<u8> },
    Register { name: Option<String>, as_name: String },
}

/// A value as it crosses the boundary: floats travel as their bit patterns.
#[derive(Debug, Clone, Copy, PartialEq, Eq, Structural)]
pub enum BoundaryValue {
    I32(i32),
    I64(i64),
    F32(u32),
    F64(u64),
    V128(u128),
}

/// A value of the interpreter. Floats are held by their IEEE 754 bit
/// patterns, which keeps NaN payloads and the sign of zero.
#[derive(Debug, Clone, Copy, PartialEq, Eq, Structural)]
pub enum NativeValue {
    I32(i32),
    I64(i64),
    F32(u32),
    F64(u64),
}

pub open spec fn to_boundary(v: NativeValue) -> BoundaryValue {
    match v {
        NativeValue::I32(x) => BoundaryValue::I32(x),
        NativeValue::I64(x) => BoundaryValue::I64(x),
        NativeValue::F32(b) => BoundaryValue::F32(b),
        NativeValue::F64(b) => BoundaryValue::F64(b),
    }
}

/// The native value a boundary value stands for; a 128-bit vector has none.
pub open spec fn to_native(v: BoundaryValue) -> Option<NativeValue> {
    match v {
        BoundaryValue::I32(x) => Some(NativeValue::I32(x)),
        BoundaryValue::I64(x) => Some(NativeValue::I64(x)),
        BoundaryValue::F32(b) => Some(NativeValue::F32(b)),
        BoundaryValue::F64(b) => Some(NativeValue::F64(b)),
        BoundaryValue::V128(_) => None,
    }
}

pub fn runtime_value_to_boundary_value(rv: NativeValue) -> (r: BoundaryValue)
    ensures
        r == to_boundary(rv),
{
    match rv {
        NativeValue::I32(x) => BoundaryValue::I32(x),
        NativeValue::I64(x) => BoundaryValue::I64(x),
        NativeValue::F32(b) => BoundaryValue::F32(b),
        NativeValue::F64(b) => BoundaryValue::F64(b),
    }
}

/// Converts a boundary value back; `None` exactly for a 128-bit vector,
/// which the interpreter does not support.
pub fn boundary_value_to_runtime_value(bv: BoundaryValue) -> (r: Option<NativeValue>)
    ensures
        r == to_native(bv),
        r is None <==> bv is V128,
{
    match bv {
        BoundaryValue::I32(x) => Some(NativeValue::I32(x)),
        BoundaryValue::I64(x) => Some(NativeValue::I64(x)),
        BoundaryValue::F32(b) => Some(NativeValue::F32(b)),
        BoundaryValue::F64(b) => Some(NativeValue::F64(b)),
        BoundaryValue::V128(_) => None,
    }
}

/// Converts the result of a call; an error passes through as it is.
pub fn result_covert(res: Result<Option<NativeValue>, InterpreterError>) -> (r: Result<
    Option<BoundaryValue>,
    InterpreterError,
>)
    ensures
        match res {
            Ok(None) => r == Ok::<Option<BoundaryValue>, InterpreterError>(None),
            Ok(Some(v)) => r == Ok::<Option<BoundaryValue>, InterpreterError>(Some(to_boundary(v))),
            Err(e) => r == Err::<Option<BoundaryValue>, InterpreterError>(e),
        },
{
    match res {
        Ok(None) => Ok(None),
        Ok(Some(rv)) => Ok(Some(runtime_value_to_boundary_value(rv))),
        Err(x) => Err(x),
    }
}

/// Every native value comes back unchanged, bit for bit, from the boundary.
pub proof fn lemma_round_trip(v: NativeValue)
    ensures
        to_native(to_boundary(v)) == Some(v),
{
}

/// Every boundary value that has a native counterpart is the image of it.
pub proof fn lemma_boundary_round_trip(b: BoundaryValue)
    requires
        !(b is V128),
    ensures
        to_native(b) is Some,
        to_boundary(to_native(b)->Some_0) == b,
{
}

} // verus!
