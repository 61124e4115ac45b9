//! A host bridge that lets a test harness drive a WebAssembly interpreter:
//! the `spectest` host module, a registry of named module instances, and
//! values marshalled in a form that is safe to serialise.

pub mod drivers;
pub mod values;

pub use drivers::spec_driver::{Error, InterpreterError, Registry, SpecDriver, SpecModule};
pub use values::{
    boundary_value_to_runtime_value, result_covert, runtime_value_to_boundary_value,
    BoundaryValue, NativeValue, SgxWasmAction,
};
