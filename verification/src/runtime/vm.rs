//! A WebAssembly module together with the machine that runs it. A
//! function that the module exports is called by its name, with 64-bit
//! integers as arguments.

use vstd::prelude::*;
use vstd::string::StringExecFns;
use wasmtime::{Engine, Func, Instance, Module, Store, Val};
use wasmtime_wasi::p1::WasiP1Ctx;
use crate::dataplane::wasm_host::{engine_new, instantiate, linker_add_wasi, linker_new, module_new, store_new};

verus! {

#[verifier::external_type_specification]
#[verifier::external_body]
pub struct ExFunc(Func);

/// `Instance::get_func`: the function that the instance exports under
/// the name; `None` where nothing is exported under it, or something
/// that is no function. The store owns the instance. Nothing is claimed
/// of the result.
#[verifier::external_body]
fn lookup_func(instance: &Instance, store: &mut Store<WasiP1Ctx>, name: &str) -> Option<Func> {
    instance.get_func(store, name)
}

/// `Func::call` with 64-bit integers as arguments and with `room` as
/// the place for the results. Each result comes back as `Val::i64` reads
/// it: the number where it is a 64-bit integer, `None` where it is of
/// another type. An error is handed on as its text. The store owns the
/// function. Claimed: on success there are as many results as `room` has
/// places, since the call writes into that place and nowhere else.
#[verifier::external_body]
fn call_func(func: &Func, store: &mut Store<WasiP1Ctx>, args: &[i64], room: &[i64]) -> (r: Result<
    Vec<Option<i64>>,
    String,
>)
    ensures
        r is Ok ==> r->Ok_0@.len() == room@.len(),
{
    let params: Vec<Val> = args.iter().map(|v| Val::I64(*v)).collect();
    let mut results: Vec<Val> = room.iter().map(|v| Val::I64(*v)).collect();
    match func.call(store, &params, &mut results) {
        Ok(_) => Ok(results.iter().map(|v| v.i64()).collect()),
        Err(e) => Err(e.to_string()),
    }
}

/// `Module::exports`: the names of what the module exports, in the
/// module's order. Nothing is claimed of the result.
#[verifier::external_body]
fn export_names(module: &Module) -> Vec<String> {
    module.exports().map(|e| e.name().to_string()).collect()
}

/// What came of calling a function of a module by name.
#[derive(Debug, Clone)]
pub enum CallOutcome {
    /// The module exports no function of that name.
    Missing,
    /// The function returned these values; `None` stands for a value
    /// that is no 64-bit integer.
    Returned(Vec<Option<i64>>),
    /// The module could not be set up or the call failed; the text says
    /// how.
    Failed(String),
}

/// The message for a name under which the module exports no function.
pub open spec fn missing_function_message(name: Seq<char>) -> Seq<char> {
    "Function "@ + name + " not found"@
}

/// The returned values as numbers: a value that is no 64-bit integer
/// counts as zero.
pub open spec fn numbers_of(values: Seq<Option<i64>>) -> Seq<i64> {
    values.map_values(
        |v: Option<i64>|
            match v {
                Some(i) => i,
                None => 0i64,
            },
    )
}

/// What `execute` returns for an outcome of the call.
pub open spec fn spec_call_result(name: Seq<char>, outcome: CallOutcome) -> Result<Seq<i64>, Seq<char>> {
    match outcome {
        CallOutcome::Missing => Err(missing_function_message(name)),
        CallOutcome::Returned(values) => Ok(numbers_of(values@)),
        CallOutcome::Failed(text) => Err(text@),
    }
}

/// What `execute` returns for an outcome of the call: the numbers that
/// the function returned, or the message of what went wrong.
pub fn call_result(function_name: &str, outcome: CallOutcome) -> (r: Result<Vec<i64>, String>)
    ensures
        match spec_call_result(function_name@, outcome) {
            Ok(numbers) => r is Ok && r->Ok_0@ == numbers,
            Err(text) => r is Err && r->Err_0@ == text,
        },
{
    match outcome {
        CallOutcome::Missing => {
            let mut msg = String::from_str("Function ");
            msg.append(function_name);
            msg.append(" not found");
            Err(msg)
        },
        CallOutcome::Returned(values) => {
            let mut numbers: Vec<i64> = Vec::new();
            let mut i: usize = 0;
            while i < values.len()
                invariant
                    i <= values.len(),
                    numbers@ == numbers_of(values@.take(i as int)),
                decreases values.len() - i,
            {
                let n: i64 = match values[i] {
                    Some(v) => v,
                    None => 0,
                };
                numbers.push(n);
                i = i + 1;
                assert(numbers@ =~= numbers_of(values@.take(i as int)));
            }
            assert(values@.take(values@.len() as int) =~= values@);
            Ok(numbers)
        },
        CallOutcome::Failed(text) => Err(text),
    }
}

/// A compiled module and the machine that runs it.
pub struct VM {
    engine: Engine,
    module: Module,
}

impl VM {
    /// Compiles the bytes on a machine of their own; bytes that are
    /// refused give an error with the reason.
    pub fn from_bytes(wasm: &[u8]) -> (r: Result<VM, String>) {
        let engine = match engine_new() {
            Ok(engine) => engine,
            Err(e) => {
                return Err(e);
            },
        };
        match module_new(&engine, wasm) {
            Ok(module) => Ok(VM { engine, module }),
            Err(e) => Err(e),
        }
    }

    /// Makes a fresh instance of the module, with the WASI functions at
    /// hand, and calls the function of that name with the arguments and
    /// with room for one result.
    pub fn call(&self, function_name: &str, args: &[i64]) -> (outcome: CallOutcome)
        ensures
            outcome is Returned ==> outcome->Returned_0@.len() == 1,
    {
        let mut linker = linker_new(&self.engine);
        match linker_add_wasi(&mut linker) {
            Ok(_) => {},
            Err(e) => {
                return CallOutcome::Failed(e);
            },
        }
        let mut store = store_new(&self.engine);
        let instance: Instance = match instantiate(&linker, &mut store, &self.module) {
            Ok(instance) => instance,
            Err(e) => {
                return CallOutcome::Failed(e);
            },
        };
        let func = match lookup_func(&instance, &mut store, function_name) {
            Some(func) => func,
            None => {
                return CallOutcome::Missing;
            },
        };
        let room: [i64; 1] = [0];
        match call_func(&func, &mut store, args, &room) {
            Ok(values) => CallOutcome::Returned(values),
            Err(e) => CallOutcome::Failed(e),
        }
    }

    /// Runs the function of that name on a fresh instance of the module
    /// and returns its one result as a number, zero where the result is
    /// no 64-bit integer. A name under which no function is exported, a
    /// module that cannot be set up and a call that fails are errors.
    pub fn execute(&self, function_name: &str, args: &[i64]) -> (r: Result<Vec<i64>, String>)
        ensures
            r is Ok ==> r->Ok_0@.len() == 1,
    {
        let outcome = self.call(function_name, args);
        call_result(function_name, outcome)
    }

    /// The names of what the module exports, in the module's order.
    pub fn get_exports(&self) -> (names: Vec<String>) {
        export_names(&self.module)
    }
}

} // verus!
