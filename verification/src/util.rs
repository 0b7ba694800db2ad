//! The whole pipeline in one call.
//!
//! The stages are handed in as functions, so that another front end or
//! another back end can take the place of one without a change to the driver.
//! What the driver returns is stated over what those functions may return.
use vstd::prelude::*;
use crate::driver::run;
use crate::error::{CompileError, DriverError, IoError, ParseError};
use crate::source::SourceUnit;

verus! {

/// `result` is what a run of the three stages can end with: the pair that the
/// compile stage gave for a syntax tree that the parse stage gave for a unit
/// that the loader gave; or the error that one stage gave, every stage before
/// it having succeeded.
pub open spec fn may_return<R, Addr, D, A, M, S, L, P, C>(
    source: R,
    address: Addr,
    dependencies: D,
    load: L,
    parse: P,
    compile: C,
    result: Result<(M, S), DriverError>,
) -> bool where
    L: FnOnce(R) -> Result<SourceUnit, IoError>,
    P: FnOnce(SourceUnit) -> Result<A, ParseError>,
    C: FnOnce(Addr, A, D) -> Result<(M, S), CompileError>,
 {
    match result {
        Ok(pair) => exists|unit: SourceUnit, ast: A|
            #![trigger call_ensures(parse, (unit,), Ok(ast))]
            call_ensures(load, (source,), Ok(unit)) && call_ensures(parse, (unit,), Ok(ast))
                && call_ensures(compile, (address, ast, dependencies), Ok(pair)),
        Err(DriverError::Io(e)) => call_ensures(load, (source,), Err(e)),
        Err(DriverError::Parse(e)) => exists|unit: SourceUnit|
            #![trigger call_ensures(load, (source,), Ok(unit))]
            call_ensures(load, (source,), Ok(unit)) && call_ensures(parse, (unit,), Err(e)),
        Err(DriverError::Compile(e)) => exists|unit: SourceUnit, ast: A|
            #![trigger call_ensures(parse, (unit,), Ok(ast))]
            call_ensures(load, (source,), Ok(unit)) && call_ensures(parse, (unit,), Ok(ast))
                && call_ensures(compile, (address, ast, dependencies), Err(e)),
    }
}

/// Compiles one module: loads the source that `source` refers to, parses it,
/// and compiles the syntax tree under `address` against `dependencies`.
///
/// Each stage runs at most once and only after the one before it has
/// succeeded. The first failure is returned as it came, under the variant of
/// its stage, and nothing of a compiled module or a source map with it.
pub fn do_compile_module<R, Addr, D, A, M, S, L, P, C>(
    source: R,
    address: Addr,
    dependencies: D,
    load: L,
    parse: P,
    compile: C,
) -> (result: Result<(M, S), DriverError>) where
    L: FnOnce(R) -> Result<SourceUnit, IoError>,
    P: FnOnce(SourceUnit) -> Result<A, ParseError>,
    C: FnOnce(Addr, A, D) -> Result<(M, S), CompileError>,

    requires
        call_requires(load, (source,)),
        forall|unit: SourceUnit|
            call_ensures(load, (source,), Ok(unit)) ==> call_requires(parse, (unit,)),
        forall|unit: SourceUnit, ast: A|
            call_ensures(load, (source,), Ok(unit)) && call_ensures(parse, (unit,), Ok(ast))
                ==> call_requires(compile, (address, ast, dependencies)),
    ensures
        may_return(source, address, dependencies, load, parse, compile, result),
{
    match load(source) {
        Err(e) => Err(DriverError::Io(e)),
        Ok(unit) => match parse(unit) {
            Err(e) => Err(DriverError::Parse(e)),
            Ok(ast) => match compile(address, ast, dependencies) {
                Err(e) => Err(DriverError::Compile(e)),
                Ok(pair) => Ok(pair),
            },
        },
    }
}

/// Where each stage can return one thing only, the driver returns what the
/// state machine returns on those three results.
pub proof fn lemma_driver_returns_run<R, Addr, D, A, M, S, L, P, C>(
    source: R,
    address: Addr,
    dependencies: D,
    load: L,
    parse: P,
    compile: C,
    loaded: Result<SourceUnit, IoError>,
    parsed: Result<A, ParseError>,
    compiled: Result<(M, S), CompileError>,
    result: Result<(M, S), DriverError>,
) where
    L: FnOnce(R) -> Result<SourceUnit, IoError>,
    P: FnOnce(SourceUnit) -> Result<A, ParseError>,
    C: FnOnce(Addr, A, D) -> Result<(M, S), CompileError>,

    requires
        may_return(source, address, dependencies, load, parse, compile, result),
        forall|o: Result<SourceUnit, IoError>| call_ensures(load, (source,), o) ==> o == loaded,
        forall|unit: SourceUnit, o: Result<A, ParseError>|
            loaded == Ok::<SourceUnit, IoError>(unit) && #[trigger] call_ensures(parse, (unit,), o)
                ==> o == parsed,
        forall|ast: A, o: Result<(M, S), CompileError>|
            parsed == Ok::<A, ParseError>(ast) && #[trigger] call_ensures(
                compile,
                (address, ast, dependencies),
                o,
            ) ==> o == compiled,
    ensures
        result == run(loaded, parsed, compiled),
{
}

/// Compiling the same source under the same address against the same
/// dependencies twice gives the same result, as long as each stage, given the
/// same arguments, returns the same.
pub proof fn lemma_deterministic<R, Addr, D, A, M, S, L, P, C>(
    source: R,
    address: Addr,
    dependencies: D,
    load: L,
    parse: P,
    compile: C,
    first: Result<(M, S), DriverError>,
    second: Result<(M, S), DriverError>,
) where
    L: FnOnce(R) -> Result<SourceUnit, IoError>,
    P: FnOnce(SourceUnit) -> Result<A, ParseError>,
    C: FnOnce(Addr, A, D) -> Result<(M, S), CompileError>,

    requires
        forall|a: Result<SourceUnit, IoError>, b: Result<SourceUnit, IoError>|
            call_ensures(load, (source,), a) && call_ensures(load, (source,), b) ==> a == b,
        forall|unit: SourceUnit, a: Result<A, ParseError>, b: Result<A, ParseError>|
            call_ensures(parse, (unit,), a) && call_ensures(parse, (unit,), b) ==> a == b,
        forall|ast: A, a: Result<(M, S), CompileError>, b: Result<(M, S), CompileError>|
            call_ensures(compile, (address, ast, dependencies), a) && call_ensures(
                compile,
                (address, ast, dependencies),
                b,
            ) ==> a == b,
        may_return(source, address, dependencies, load, parse, compile, first),
        may_return(source, address, dependencies, load, parse, compile, second),
    ensures
        first == second,
{
}

/// A pair that the driver returns is a pair that the compile stage returned
/// for the given address and dependencies, unchanged: whatever that stage
/// promises of what it produces holds of what the driver hands out.
pub proof fn lemma_success_is_of_the_compile_stage<R, Addr, D, A, M, S, L, P, C>(
    source: R,
    address: Addr,
    dependencies: D,
    load: L,
    parse: P,
    compile: C,
    pair: (M, S),
    promise: spec_fn(Addr, D, (M, S)) -> bool,
) where
    L: FnOnce(R) -> Result<SourceUnit, IoError>,
    P: FnOnce(SourceUnit) -> Result<A, ParseError>,
    C: FnOnce(Addr, A, D) -> Result<(M, S), CompileError>,

    requires
        may_return(source, address, dependencies, load, parse, compile, Ok(pair)),
        forall|ast: A, produced: (M, S)| #[trigger]
            call_ensures(compile, (address, ast, dependencies), Ok(produced)) ==> promise(
                address,
                dependencies,
                produced,
            ),
    ensures
        promise(address, dependencies, pair),
{
}

} // verus!
