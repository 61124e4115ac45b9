use vstd::prelude::*;
use vstd::string::*;

use crate::values::NativeValue;
use wasmi::memory_units::Pages;
use wasmi::Error as WasmiError;
use wasmi::nan_preserving_float::{F32, F64};
use wasmi::{
    FuncInstance, FuncRef, GlobalDescriptor, GlobalInstance, GlobalRef, MemoryDescriptor,
    MemoryInstance, MemoryRef, ModuleImportResolver, ModuleRef, RuntimeValue, Signature,
    TableDescriptor, TableInstance, TableRef, Trap,
};

verus! {

#[verifier::external_type_specification]
#[verifier::external_body]
pub struct ExModuleRef(wasmi::ModuleRef);

#[verifier::external_type_specification]
#[verifier::external_body]
pub struct ExFuncRef(wasmi::FuncRef);

#[verifier::external_type_specification]
#[verifier::external_body]
pub struct ExGlobalRef(wasmi::GlobalRef);

#[verifier::external_type_specification]
#[verifier::external_body]
pub struct ExMemoryRef(wasmi::MemoryRef);

#[verifier::external_type_specification]
#[verifier::external_body]
pub struct ExTableRef(wasmi::TableRef);

#[verifier::external_type_specification]
#[verifier::external_body]
pub struct ExSignature(wasmi::Signature);

#[verifier::external_type_specification]
#[verifier::external_body]
pub struct ExGlobalDescriptor(wasmi::GlobalDescriptor);

#[verifier::external_type_specification]
#[verifier::external_body]
pub struct ExMemoryDescriptor(wasmi::MemoryDescriptor);

#[verifier::external_type_specification]
#[verifier::external_body]
pub struct ExTableDescriptor(wasmi::TableDescriptor);

#[verifier::external_type_specification]
#[verifier::external_body]
pub struct ExWasmiError(WasmiError);

#[verifier::external_type_specification]
#[verifier::external_body]
pub struct ExTrap(wasmi::Trap);

/// A module reference shares one instance: its clone is the same reference.
pub assume_specification[ <wasmi::ModuleRef as Clone>::clone ](m: &wasmi::ModuleRef) -> (r:
    wasmi::ModuleRef)
    ensures
        r == *m,
;

/// A global reference shares one cell: its clone is the same reference.
pub assume_specification[ <wasmi::GlobalRef as Clone>::clone ](g: &wasmi::GlobalRef) -> (r:
    wasmi::GlobalRef)
    ensures
        r == *g,
;

/// A memory reference shares one memory: its clone is the same reference.
pub assume_specification[ <wasmi::MemoryRef as Clone>::clone ](m: &wasmi::MemoryRef) -> (r:
    wasmi::MemoryRef)
    ensures
        r == *m,
;

/// A table reference shares one table: its clone is the same reference.
pub assume_specification[ <wasmi::TableRef as Clone>::clone ](t: &wasmi::TableRef) -> (r:
    wasmi::TableRef)
    ensures
        r == *t,
;

/// An error met while resolving or running a module.
#[derive(Debug)]
pub enum InterpreterError {
    /// Raised by this library: an import that cannot be linked.
    Instantiation(String),
    /// Raised by the interpreter itself.
    Wasmi(WasmiError),
}

/// The four kinds of failure that a harness sees.
#[derive(Debug)]
pub enum Error {
    Load(String),
    Start(Trap),
    /// The test script could not be read; holds the parser's message.
    Script(String),
    Interpreter(InterpreterError),
}

impl From<InterpreterError> for Error {
    fn from(e: InterpreterError) -> (r: Error)
        ensures
            r == Error::Interpreter(e),
    {
        Error::Interpreter(e)
    }
}

impl vstd::std_specs::convert::FromSpecImpl<InterpreterError> for Error {
    open spec fn obeys_from_spec() -> bool {
        true
    }

    open spec fn from_spec(e: InterpreterError) -> Error {
        Error::Interpreter(e)
    }
}

/// The one host function that the `spectest` module offers.
pub const PRINT_FUNC_INDEX: usize = 0;

/// Initial size, in elements, of the host table.
pub const TABLE_INITIAL: u32 = 10;

/// Size, in elements, that the host table may grow to.
pub const TABLE_MAXIMUM: u32 = 20;

/// Initial size, in 64 KiB pages, of the host memory.
pub const MEMORY_INITIAL_PAGES: usize = 1;

/// Size, in 64 KiB pages, that the host memory may grow to.
pub const MEMORY_MAXIMUM_PAGES: usize = 2;

/// The most pages that a linear memory can have.
pub const MEMORY_PAGE_LIMIT: usize = 65536;

/// The value 666 of each host global: as an integer and as the bit
/// patterns of a 32-bit and a 64-bit float.
pub const GLOBAL_I32_VALUE: i32 = 666;

pub const GLOBAL_F32_BITS: u32 = 0x4426_8000;

pub const GLOBAL_F64_BITS: u64 = 0x4084_d000_0000_0000;

/// The initial and maximum size, in elements, that a table was made with.
pub uninterp spec fn table_limits(t: TableRef) -> (u32, Option<u32>);

/// The initial and maximum size, in pages, that a memory was made with.
pub uninterp spec fn memory_limits(m: MemoryRef) -> (usize, Option<usize>);

/// The value that a global was made with, and whether it is mutable.
pub uninterp spec fn global_init(g: GlobalRef) -> (NativeValue, bool);

/// Whether a function signature has a result.
pub uninterp spec fn sig_returns_value(sig: Signature) -> bool;

/// The signature that a function was made with.
pub uninterp spec fn func_signature(f: FuncRef) -> Signature;

/// The function that a module exports under a name, if any.
pub uninterp spec fn export_func_of(m: ModuleRef, f: Seq<char>) -> Option<FuncRef>;

/// The global that a module exports under a name, if any.
pub uninterp spec fn export_global_of(m: ModuleRef, f: Seq<char>) -> Option<GlobalRef>;

/// The memory that a module exports under a name, if any.
pub uninterp spec fn export_memory_of(m: ModuleRef, f: Seq<char>) -> Option<MemoryRef>;

/// The table that a module exports under a name, if any.
pub uninterp spec fn export_table_of(m: ModuleRef, f: Seq<char>) -> Option<TableRef>;

/// The host function index that a function dispatches to, if it is a host function.
pub uninterp spec fn host_index_of(f: FuncRef) -> Option<usize>;

/// Relies on wasmi's TableInstance::alloc, which fails only where the
/// initial size exceeds the maximum, and keeps the limits it was given.
#[verifier::external_body]
fn alloc_table(initial: u32, maximum: u32) -> (r: Result<TableRef, WasmiError>)
    ensures
        initial <= maximum ==> r is Ok,
        r is Ok ==> table_limits(r->Ok_0) == (initial, Some(maximum)),
{
    TableInstance::alloc(initial, Some(maximum))
}

/// Relies on wasmi's MemoryInstance::alloc, built with its `vec_memory`
/// feature: it fails only where the initial size exceeds the maximum or the
/// maximum exceeds 65536 pages, and keeps the limits it was given.
#[verifier::external_body]
fn alloc_memory(initial_pages: usize, maximum_pages: usize) -> (r: Result<MemoryRef, WasmiError>)
    ensures
        initial_pages <= maximum_pages && maximum_pages <= MEMORY_PAGE_LIMIT ==> r is Ok,
        r is Ok ==> memory_limits(r->Ok_0) == (initial_pages, Some(maximum_pages)),
{
    MemoryInstance::alloc(Pages(initial_pages), Some(Pages(maximum_pages)))
}

/// Relies on wasmi's GlobalInstance::alloc: a 32-bit integer cell.
#[verifier::external_body]
fn alloc_global_i32(value: i32, mutable: bool) -> (r: GlobalRef)
    ensures
        global_init(r) == (NativeValue::I32(value), mutable),
{
    GlobalInstance::alloc(RuntimeValue::I32(value), mutable)
}

/// Relies on wasmi's GlobalInstance::alloc: a 32-bit float cell, given by
/// its bit pattern, which wasmi's F32 keeps as it is.
#[verifier::external_body]
fn alloc_global_f32(bits: u32, mutable: bool) -> (r: GlobalRef)
    ensures
        global_init(r) == (NativeValue::F32(bits), mutable),
{
    GlobalInstance::alloc(RuntimeValue::F32(F32::from_bits(bits)), mutable)
}

/// Relies on wasmi's GlobalInstance::alloc: a 64-bit float cell, given by
/// its bit pattern, which wasmi's F64 keeps as it is.
#[verifier::external_body]
fn alloc_global_f64(bits: u64, mutable: bool) -> (r: GlobalRef)
    ensures
        global_init(r) == (NativeValue::F64(bits), mutable),
{
    GlobalInstance::alloc(RuntimeValue::F64(F64::from_bits(bits)), mutable)
}

/// Relies on wasmi's Signature::return_type: whether the function returns a value.
#[verifier::external_body]
fn signature_returns_value(sig: &Signature) -> (r: bool)
    ensures
        r == sig_returns_value(*sig),
{
    sig.return_type().is_some()
}

/// Relies on wasmi's FuncInstance::alloc_host: a host function of the given
/// signature, dispatched to `index`.
#[verifier::external_body]
fn alloc_host_func(sig: &Signature, index: usize) -> (r: FuncRef)
    ensures
        host_index_of(r) == Some(index),
        func_signature(r) == *sig,
{
    FuncInstance::alloc_host(sig.clone(), index)
}

/// Relies on wasmi's ModuleImportResolver for ModuleRef: the module's
/// exported function of that name.
#[verifier::external_body]
fn module_export_func(m: &ModuleRef, field_name: &str, sig: &Signature) -> (r: Result<FuncRef, WasmiError>)
    ensures
        r is Ok <==> export_func_of(*m, field_name@) is Some,
        r is Ok ==> r->Ok_0 == export_func_of(*m, field_name@)->Some_0,
{
    m.resolve_func(field_name, sig)
}

/// Relies on wasmi's ModuleImportResolver for ModuleRef: the module's
/// exported global of that name.
#[verifier::external_body]
fn module_export_global(
    m: &ModuleRef,
    field_name: &str,
    desc: &GlobalDescriptor,
) -> (r: Result<GlobalRef, WasmiError>)
    ensures
        r is Ok <==> export_global_of(*m, field_name@) is Some,
        r is Ok ==> r->Ok_0 == export_global_of(*m, field_name@)->Some_0,
{
    m.resolve_global(field_name, desc)
}

/// Relies on wasmi's ModuleImportResolver for ModuleRef: the module's
/// exported memory of that name.
#[verifier::external_body]
fn module_export_memory(
    m: &ModuleRef,
    field_name: &str,
    desc: &MemoryDescriptor,
) -> (r: Result<MemoryRef, WasmiError>)
    ensures
        r is Ok <==> export_memory_of(*m, field_name@) is Some,
        r is Ok ==> r->Ok_0 == export_memory_of(*m, field_name@)->Some_0,
{
    m.resolve_memory(field_name, desc)
}

/// Relies on wasmi's ModuleImportResolver for ModuleRef: the module's
/// exported table of that name.
#[verifier::external_body]
fn module_export_table(
    m: &ModuleRef,
    field_name: &str,
    desc: &TableDescriptor,
) -> (r: Result<TableRef, WasmiError>)
    ensures
        r is Ok <==> export_table_of(*m, field_name@) is Some,
        r is Ok ==> r->Ok_0 == export_table_of(*m, field_name@)->Some_0,
{
    m.resolve_table(field_name, desc)
}

/// `r` is an instantiation error that carries `msg`.
pub open spec fn is_instantiation_error<T>(r: Result<T, InterpreterError>, msg: Seq<char>) -> bool {
    match r {
        Err(InterpreterError::Instantiation(s)) => s@ == msg,
        _ => false,
    }
}

/// `r` is `x` when `found` is `Some(x)`, else an instantiation error with `msg`.
pub open spec fn host_outcome<T>(r: Result<T, InterpreterError>, found: Option<T>, msg: Seq<char>) -> bool {
    match found {
        Some(x) => r == Ok::<T, InterpreterError>(x),
        None => is_instantiation_error(r, msg),
    }
}

pub open spec fn is_host_name(m: Seq<char>) -> bool {
    m == "spectest"@
}

pub open spec fn is_print_name(f: Seq<char>) -> bool {
    f == "print"@ || f == "print_i32"@ || f == "print_i32_f32"@ || f == "print_f64_f64"@ || f
        == "print_f32"@ || f == "print_f64"@
}

pub open spec fn unknown_func_message(f: Seq<char>) -> Seq<char> {
    "Unknown host func import "@ + f
}

pub open spec fn unit_return_message() -> Seq<char> {
    "Function `print_` have unit return type"@
}

pub open spec fn unknown_global_message(f: Seq<char>) -> Seq<char> {
    "Unknown host global import "@ + f
}

pub open spec fn unknown_memory_message(f: Seq<char>) -> Seq<char> {
    "Unknown host memory import "@ + f
}

pub open spec fn unknown_table_message(f: Seq<char>) -> Seq<char> {
    "Unknown host table import "@ + f
}

fn str_eq(a: &str, b: &str) -> (r: bool)
    ensures
        r == (a@ == b@),
{
    String::from_str(a) == String::from_str(b)
}

/// The host function index for an import of `field_name` whose signature
/// returns a value or not: every print function is the one at
/// `PRINT_FUNC_INDEX`, and none of them may return a value.
pub fn host_func_index(field_name: &str, returns_value: bool) -> (r: Result<usize, String>)
    ensures
        is_print_name(field_name@) && !returns_value ==> r == Ok::<usize, String>(PRINT_FUNC_INDEX),
        !is_print_name(field_name@) ==> r is Err && r->Err_0@ == unknown_func_message(field_name@),
        is_print_name(field_name@) && returns_value ==> r is Err && r->Err_0@ == unit_return_message(),
{
    let known = str_eq(field_name, "print") || str_eq(field_name, "print_i32") || str_eq(
        field_name,
        "print_i32_f32",
    ) || str_eq(field_name, "print_f64_f64") || str_eq(field_name, "print_f32") || str_eq(
        field_name,
        "print_f64",
    );
    if !known {
        return Err(String::from_str("Unknown host func import ").concat(field_name));
    }
    if returns_value {
        return Err(String::from_str("Function `print_` have unit return type"));
    }
    Ok(PRINT_FUNC_INDEX)
}

/// The `spectest` host module: one table, one memory and three immutable
/// globals, each shared by every module that imports it.
pub struct SpecModule {
    table: TableRef,
    memory: MemoryRef,
    global_i32: GlobalRef,
    global_f32: GlobalRef,
    global_f64: GlobalRef,
}

impl SpecModule {
    pub closed spec fn table_ref(&self) -> TableRef {
        self.table
    }

    pub closed spec fn memory_ref(&self) -> MemoryRef {
        self.memory
    }

    pub closed spec fn global_i32_ref(&self) -> GlobalRef {
        self.global_i32
    }

    pub closed spec fn global_f32_ref(&self) -> GlobalRef {
        self.global_f32
    }

    pub closed spec fn global_f64_ref(&self) -> GlobalRef {
        self.global_f64
    }

    pub open spec fn global_named(&self, f: Seq<char>) -> Option<GlobalRef> {
        if f == "global_i32"@ {
            Some(self.global_i32_ref())
        } else if f == "global_f32"@ {
            Some(self.global_f32_ref())
        } else if f == "global_f64"@ {
            Some(self.global_f64_ref())
        } else {
            None
        }
    }

    pub open spec fn memory_named(&self, f: Seq<char>) -> Option<MemoryRef> {
        if f == "memory"@ {
            Some(self.memory_ref())
        } else {
            None
        }
    }

    pub open spec fn table_named(&self, f: Seq<char>) -> Option<TableRef> {
        if f == "table"@ {
            Some(self.table_ref())
        } else {
            None
        }
    }

    /// The state a host module starts in: a table of 10 elements that may
    /// grow to 20, a memory of one page that may grow to two, and three
    /// immutable globals that hold 666.
    pub open spec fn is_fresh(&self) -> bool {
        &&& table_limits(self.table_ref()) == (TABLE_INITIAL, Some(TABLE_MAXIMUM))
        &&& memory_limits(self.memory_ref()) == (MEMORY_INITIAL_PAGES, Some(MEMORY_MAXIMUM_PAGES))
        &&& global_init(self.global_i32_ref()) == (NativeValue::I32(GLOBAL_I32_VALUE), false)
        &&& global_init(self.global_f32_ref()) == (NativeValue::F32(GLOBAL_F32_BITS), false)
        &&& global_init(self.global_f64_ref()) == (NativeValue::F64(GLOBAL_F64_BITS), false)
    }

    /// Allocates the host table, memory and globals; their limits are
    /// valid, so neither allocation fails.
    pub fn new() -> (r: SpecModule)
        ensures
            r.is_fresh(),
    {
        let table = alloc_table(TABLE_INITIAL, TABLE_MAXIMUM).unwrap();
        let memory = alloc_memory(MEMORY_INITIAL_PAGES, MEMORY_MAXIMUM_PAGES).unwrap();
        SpecModule {
            table,
            memory,
            global_i32: alloc_global_i32(GLOBAL_I32_VALUE, false),
            global_f32: alloc_global_f32(GLOBAL_F32_BITS, false),
            global_f64: alloc_global_f64(GLOBAL_F64_BITS, false),
        }
    }

    /// Runs host function `index`: printing yields no value. An index that
    /// resolution never hands out is a fault of the caller.
    pub fn invoke_index(&mut self, index: usize) -> (r: Option<NativeValue>)
        requires
            index == PRINT_FUNC_INDEX,
        ensures
            r is None,
            *final(self) == *old(self),
    {
        None
    }

    /// Resolves a print function: unknown names and signatures that return
    /// a value are refused.
    pub fn resolve_func(&self, field_name: &str, func_type: &Signature) -> (r: Result<
        FuncRef,
        InterpreterError,
    >)
        ensures
            !is_print_name(field_name@) ==> is_instantiation_error(
                r,
                unknown_func_message(field_name@),
            ),
            is_print_name(field_name@) && !sig_returns_value(*func_type) ==> r is Ok && host_index_of(
                r->Ok_0,
            ) == Some(PRINT_FUNC_INDEX) && func_signature(r->Ok_0) == *func_type,
            is_print_name(field_name@) && sig_returns_value(*func_type) ==> is_instantiation_error(
                r,
                unit_return_message(),
            ),
    {
        let returns_value = signature_returns_value(func_type);
        match host_func_index(field_name, returns_value) {
            Ok(index) => Ok(alloc_host_func(func_type, index)),
            Err(msg) => Err(InterpreterError::Instantiation(msg)),
        }
    }

    pub fn resolve_global(&self, field_name: &str, _global_type: &GlobalDescriptor) -> (r: Result<
        GlobalRef,
        InterpreterError,
    >)
        ensures
            host_outcome(r, self.global_named(field_name@), unknown_global_message(field_name@)),
    {
        if str_eq(field_name, "global_i32") {
            Ok(self.global_i32.clone())
        } else if str_eq(field_name, "global_f32") {
            Ok(self.global_f32.clone())
        } else if str_eq(field_name, "global_f64") {
            Ok(self.global_f64.clone())
        } else {
            Err(
                InterpreterError::Instantiation(
                    String::from_str("Unknown host global import ").concat(field_name),
                ),
            )
        }
    }

    pub fn resolve_memory(&self, field_name: &str, _memory_type: &MemoryDescriptor) -> (r: Result<
        MemoryRef,
        InterpreterError,
    >)
        ensures
            host_outcome(r, self.memory_named(field_name@), unknown_memory_message(field_name@)),
    {
        if str_eq(field_name, "memory") {
            return Ok(self.memory.clone());
        }
        Err(
            InterpreterError::Instantiation(
                String::from_str("Unknown host memory import ").concat(field_name),
            ),
        )
    }

    pub fn resolve_table(&self, field_name: &str, _table_type: &TableDescriptor) -> (r: Result<
        TableRef,
        InterpreterError,
    >)
        ensures
            host_outcome(r, self.table_named(field_name@), unknown_table_message(field_name@)),
    {
        if str_eq(field_name, "table") {
            return Ok(self.table.clone());
        }
        Err(
            InterpreterError::Instantiation(
                String::from_str("Unknown host table import ").concat(field_name),
            ),
        )
    }
}

/// What a driver's module registry holds: modules by name, and the module
/// that was loaded last.
pub struct Registry {
    pub modules: Map<Seq<char>, ModuleRef>,
    pub last: Option<ModuleRef>,
}

pub open spec fn not_registered_message(name: Seq<char>) -> Seq<char> {
    "Module not registered "@ + name
}

pub open spec fn no_modules_message() -> Seq<char> {
    "No modules registered"@
}

pub open spec fn no_such_module_message() -> Seq<char> {
    "No such modules registered"@
}

/// `r` is the success or the instantiation error that `s` describes.
pub open spec fn outcome_matches<T>(r: Result<T, InterpreterError>, s: Result<T, Seq<char>>) -> bool {
    match s {
        Ok(x) => r == Ok::<T, InterpreterError>(x),
        Err(msg) => is_instantiation_error(r, msg),
    }
}

impl Registry {
    pub open spec fn empty() -> Registry {
        Registry { modules: Map::empty(), last: None }
    }

    /// Loading a module makes it the last one, and names it if a name is given.
    pub open spec fn add(self, name: Option<Seq<char>>, m: ModuleRef) -> Registry {
        Registry {
            modules: match name {
                Some(n) => self.modules.insert(n, m),
                None => self.modules,
            },
            last: Some(m),
        }
    }

    pub open spec fn lookup(self, name: Seq<char>) -> Result<ModuleRef, Seq<char>> {
        if self.modules.contains_key(name) {
            Ok(self.modules[name])
        } else {
            Err(not_registered_message(name))
        }
    }

    pub open spec fn lookup_or_last(self, name: Option<Seq<char>>) -> Result<ModuleRef, Seq<char>> {
        match name {
            Some(n) => self.lookup(n),
            None => match self.last {
                Some(m) => Ok(m),
                None => Err(no_modules_message()),
            },
        }
    }

    /// Registering gives the module that `name` finds a second name.
    pub open spec fn register(self, name: Option<Seq<char>>, as_name: Seq<char>) -> Result<
        Registry,
        Seq<char>,
    > {
        match self.lookup_or_last(name) {
            Ok(m) => Ok(self.add(Some(as_name), m)),
            Err(_) => Err(no_such_module_message()),
        }
    }
}

/// Storing the entry for `k` at position `p`, in place of the entry for `k`
/// or after every other entry, keeps the names matched by the map.
proof fn lemma_entries_after_store(
    before: Seq<(String, ModuleRef)>,
    after: Seq<(String, ModuleRef)>,
    named: Map<Seq<char>, ModuleRef>,
    k: Seq<char>,
    m: ModuleRef,
    p: int,
)
    requires
        forall|kk: Seq<char>|
            named.contains_key(kk) <==> exists|j: int|
                0 <= j < before.len() && #[trigger] before[j].0@ == kk,
        0 <= p < after.len(),
        after[p].0@ == k,
        after[p].1 == m,
        after.len() == before.len() || (after.len() == before.len() + 1 && p == before.len()),
        forall|j: int| 0 <= j < before.len() && j != p ==> after[j] == before[j],
        p < before.len() ==> before[p].0@ == k,
        p == before.len() ==> !named.contains_key(k),
    ensures
        forall|kk: Seq<char>|
            #[trigger] named.insert(k, m).contains_key(kk) <==> exists|j: int|
                0 <= j < after.len() && #[trigger] after[j].0@ == kk,
{
    assert forall|kk: Seq<char>|
        #[trigger] named.insert(k, m).contains_key(kk) <==> exists|j: int|
            0 <= j < after.len() && #[trigger] after[j].0@ == kk by {
        if kk == k {
            assert(after[p].0@ == kk);
        } else if named.contains_key(kk) {
            let j = choose|j: int| 0 <= j < before.len() && #[trigger] before[j].0@ == kk;
            assert(after[j].0@ == kk);
        } else {
            assert forall|j: int| 0 <= j < after.len() implies #[trigger] after[j].0@ != kk by {
                if j != p {
                    assert(before[j].0@ != kk);
                }
            }
        }
    }
}

/// Holds the modules that a test script loaded and resolves imports
/// between them and the `spectest` host module.
pub struct SpecDriver {
    spec_module: SpecModule,
    instances: Vec<(String, ModuleRef)>,
    last_module: Option<ModuleRef>,
    named: Ghost<Map<Seq<char>, ModuleRef>>,
}

impl View for SpecDriver {
    type V = Registry;

    closed spec fn view(&self) -> Registry {
        Registry { modules: self.named@, last: self.last_module }
    }
}

impl SpecDriver {
    /// Each name stands once in `instances`, and `named` is what they map.
    pub closed spec fn wf(&self) -> bool {
        &&& (forall|i: int, j: int|
            0 <= i < j < self.instances@.len() ==> self.instances@[i].0@ != self.instances@[j].0@)
        &&& (forall|k: Seq<char>|
            self.named@.contains_key(k) <==> exists|i: int|
                0 <= i < self.instances@.len() && #[trigger] self.instances@[i].0@ == k)
        &&& (forall|i: int|
            0 <= i < self.instances@.len() ==> self.named@[#[trigger] self.instances@[i].0@]
                == self.instances@[i].1)
    }

    pub closed spec fn host(&self) -> SpecModule {
        self.spec_module
    }

    pub fn new() -> (r: SpecDriver)
        ensures
            r.wf(),
            r@ == Registry::empty(),
            r.host().is_fresh(),
    {
        SpecDriver {
            spec_module: SpecModule::new(),
            instances: Vec::new(),
            last_module: None,
            named: Ghost(Map::empty()),
        }
    }

    pub fn externals(&mut self) -> (r: &mut SpecModule)
    {
        &mut self.spec_module
    }

    /// The position of `name` in `instances`, if it stands there.
    fn position(&self, name: &str) -> (r: Option<usize>)
        requires
            self.wf(),
        ensures
            match r {
                Some(i) => i < self.instances@.len() && self.instances@[i as int].0@ == name@,
                None => !self.named@.contains_key(name@),
            },
    {
        let key = String::from_str(name);
        let mut i: usize = 0;
        while i < self.instances.len()
            invariant
                self.wf(),
                key@ == name@,
                i <= self.instances@.len(),
                forall|j: int| 0 <= j < i ==> self.instances@[j].0@ != name@,
            decreases self.instances@.len() - i,
        {
            if self.instances[i].0 == key {
                return Some(i);
            }
            i = i + 1;
        }
        None
    }

    pub fn add_module(&mut self, name: Option<String>, module: ModuleRef)
        requires
            old(self).wf(),
        ensures
            final(self).wf(),
            final(self)@ == old(self)@.add(name.deep_view(), module),
            final(self).host() == old(self).host(),
    {
        self.last_module = Some(module.clone());
        if let Some(name) = name {
            let ghost k = name@;
            let ghost before = self.instances@;
            let ghost named_before = self.named@;
            let ghost p: int;
            match self.position(name.as_str()) {
                Some(i) => {
                    self.instances[i] = (name, module);
                    proof {
                        p = i as int;
                    }
                },
                None => {
                    self.instances.push((name, module));
                    proof {
                        p = before.len() as int;
                    }
                },
            }
            self.named = Ghost(named_before.insert(k, module));
            proof {
                lemma_entries_after_store(before, self.instances@, named_before, k, module, p);
            }
        }
    }

    pub fn module(&self, name: &str) -> (r: Result<ModuleRef, InterpreterError>)
        requires
            self.wf(),
        ensures
            outcome_matches(r, self@.lookup(name@)),
    {
        match self.position(name) {
            Some(i) => Ok(self.instances[i].1.clone()),
            None => Err(
                InterpreterError::Instantiation(
                    String::from_str("Module not registered ").concat(name),
                ),
            ),
        }
    }

    pub fn module_or_last(&self, name: Option<&str>) -> (r: Result<ModuleRef, InterpreterError>)
        requires
            self.wf(),
        ensures
            outcome_matches(r, self@.lookup_or_last(name.deep_view())),
    {
        match name {
            Some(name) => self.module(name),
            None => match &self.last_module {
                Some(m) => Ok(m.clone()),
                None => Err(InterpreterError::Instantiation(String::from_str("No modules registered"))),
            },
        }
    }

    pub fn register(&mut self, name: &Option<String>, as_name: String) -> (r: Result<(), InterpreterError>)
        requires
            old(self).wf(),
        ensures
            final(self).wf(),
            final(self).host() == old(self).host(),
            match old(self)@.register(name.deep_view(), as_name@) {
                Ok(reg) => r is Ok && final(self)@ == reg,
                Err(msg) => is_instantiation_error(r, msg) && final(self)@ == old(self)@,
            },
    {
        let source = match name {
            Some(n) => Some(n.as_str()),
            None => None,
        };
        let module = match self.module_or_last(source) {
            Ok(module) => module,
            Err(_) => {
                return Err(InterpreterError::Instantiation(String::from_str("No such modules registered")));
            },
        };
        self.add_module(Some(as_name), module);
        Ok(())
    }

    /// Imports from `spectest` go to the host module; the rest to the
    /// registered module of that name.
    fn is_host_module(module_name: &str) -> (r: bool)
        ensures
            r == is_host_name(module_name@),
    {
        str_eq(module_name, "spectest")
    }

    pub fn resolve_func(&self, module_name: &str, field_name: &str, func_type: &Signature) -> (r: Result<
        FuncRef,
        InterpreterError,
    >)
        requires
            self.wf(),
        ensures
            is_host_name(module_name@) && !is_print_name(field_name@) ==> is_instantiation_error(
                r,
                unknown_func_message(field_name@),
            ),
            is_host_name(module_name@) && is_print_name(field_name@) && !sig_returns_value(*func_type)
                ==> r is Ok && host_index_of(r->Ok_0) == Some(PRINT_FUNC_INDEX) && func_signature(
                r->Ok_0,
            ) == *func_type,
            is_host_name(module_name@) && is_print_name(field_name@) && sig_returns_value(*func_type)
                ==> is_instantiation_error(r, unit_return_message()),
            !is_host_name(module_name@) && !self@.modules.contains_key(module_name@)
                ==> is_instantiation_error(r, not_registered_message(module_name@)),
            !is_host_name(module_name@) && self@.modules.contains_key(module_name@) ==> match export_func_of(
                self@.modules[module_name@],
                field_name@,
            ) {
                Some(x) => r == Ok::<FuncRef, InterpreterError>(x),
                None => r is Err && r->Err_0 is Wasmi,
            },
    {
        if Self::is_host_module(module_name) {
            self.spec_module.resolve_func(field_name, func_type)
        } else {
            match self.module(module_name) {
                Ok(m) => match module_export_func(&m, field_name, func_type) {
                    Ok(x) => Ok(x),
                    Err(e) => Err(InterpreterError::Wasmi(e)),
                },
                Err(e) => Err(e),
            }
        }
    }

    pub fn resolve_global(&self, module_name: &str, field_name: &str, global_type: &GlobalDescriptor) -> (r: Result<
        GlobalRef,
        InterpreterError,
    >)
        requires
            self.wf(),
        ensures
            is_host_name(module_name@) ==> host_outcome(
                r,
                self.host().global_named(field_name@),
                unknown_global_message(field_name@),
            ),
            !is_host_name(module_name@) && !self@.modules.contains_key(module_name@)
                ==> is_instantiation_error(r, not_registered_message(module_name@)),
            !is_host_name(module_name@) && self@.modules.contains_key(module_name@) ==> match export_global_of(
                self@.modules[module_name@],
                field_name@,
            ) {
                Some(x) => r == Ok::<GlobalRef, InterpreterError>(x),
                None => r is Err && r->Err_0 is Wasmi,
            },
    {
        if Self::is_host_module(module_name) {
            self.spec_module.resolve_global(field_name, global_type)
        } else {
            match self.module(module_name) {
                Ok(m) => match module_export_global(&m, field_name, global_type) {
                    Ok(x) => Ok(x),
                    Err(e) => Err(InterpreterError::Wasmi(e)),
                },
                Err(e) => Err(e),
            }
        }
    }

    pub fn resolve_memory(&self, module_name: &str, field_name: &str, memory_type: &MemoryDescriptor) -> (r: Result<
        MemoryRef,
        InterpreterError,
    >)
        requires
            self.wf(),
        ensures
            is_host_name(module_name@) ==> host_outcome(
                r,
                self.host().memory_named(field_name@),
                unknown_memory_message(field_name@),
            ),
            !is_host_name(module_name@) && !self@.modules.contains_key(module_name@)
                ==> is_instantiation_error(r, not_registered_message(module_name@)),
            !is_host_name(module_name@) && self@.modules.contains_key(module_name@) ==> match export_memory_of(
                self@.modules[module_name@],
                field_name@,
            ) {
                Some(x) => r == Ok::<MemoryRef, InterpreterError>(x),
                None => r is Err && r->Err_0 is Wasmi,
            },
    {
        if Self::is_host_module(module_name) {
            self.spec_module.resolve_memory(field_name, memory_type)
        } else {
            match self.module(module_name) {
                Ok(m) => match module_export_memory(&m, field_name, memory_type) {
                    Ok(x) => Ok(x),
                    Err(e) => Err(InterpreterError::Wasmi(e)),
                },
                Err(e) => Err(e),
            }
        }
    }

    pub fn resolve_table(&self, module_name: &str, field_name: &str, table_type: &TableDescriptor) -> (r: Result<
        TableRef,
        InterpreterError,
    >)
        requires
            self.wf(),
        ensures
            is_host_name(module_name@) ==> host_outcome(
                r,
                self.host().table_named(field_name@),
                unknown_table_message(field_name@),
            ),
            !is_host_name(module_name@) && !self@.modules.contains_key(module_name@)
                ==> is_instantiation_error(r, not_registered_message(module_name@)),
            !is_host_name(module_name@) && self@.modules.contains_key(module_name@) ==> match export_table_of(
                self@.modules[module_name@],
                field_name@,
            ) {
                Some(x) => r == Ok::<TableRef, InterpreterError>(x),
                None => r is Err && r->Err_0 is Wasmi,
            },
    {
        if Self::is_host_module(module_name) {
            self.spec_module.resolve_table(field_name, table_type)
        } else {
            match self.module(module_name) {
                Ok(m) => match module_export_table(&m, field_name, table_type) {
                    Ok(x) => Ok(x),
                    Err(e) => Err(InterpreterError::Wasmi(e)),
                },
                Err(e) => Err(e),
            }
        }
    }
}

/// Registering a loaded module under an alias makes both names find it.
pub proof fn lemma_alias_shares_module(reg: Registry, name: Seq<char>, h: ModuleRef, alias: Seq<char>)
    ensures
        ({
            let loaded = reg.add(Some(name), h);
            &&& loaded.register(Some(name), alias) is Ok
            &&& loaded.register(Some(name), alias)->Ok_0.lookup(alias) == Ok::<ModuleRef, Seq<char>>(h)
            &&& loaded.register(Some(name), alias)->Ok_0.lookup(name) == Ok::<ModuleRef, Seq<char>>(h)
        }),
{
}

/// Without a name, lookup finds the module that was loaded last.
pub proof fn lemma_last_loaded(reg: Registry, h1: ModuleRef, h2: ModuleRef)
    ensures
        reg.add(None, h1).add(None, h2).lookup_or_last(None) == Ok::<ModuleRef, Seq<char>>(h2),
{
}

/// A registry with nothing loaded has no last module.
pub proof fn lemma_empty_registry()
    ensures
        Registry::empty().lookup_or_last(None) == Err::<ModuleRef, Seq<char>>(no_modules_message()),
{
}

} // verus!
