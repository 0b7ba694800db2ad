//! The driver as a state machine.
//!
//! A compilation starts in `State::Idle` and awaits the result of one stage
//! at a time. Each result is an `Event`; `step` answers it with the next state
//! and with what is to be done next: run the following stage on the value that
//! the last one produced, or return. The first stage that fails ends the run.
use vstd::prelude::*;
use crate::error::{CompileError, DriverError, IoError, ParseError, Stage};
use crate::source::SourceUnit;

verus! {

/// How far a compilation has come.
#[derive(Clone, Copy, Debug, PartialEq, Eq, Structural)]
pub enum State {
    /// Nothing has been done yet.
    Idle,
    /// The source has been read.
    Loaded,
    /// The text has been parsed.
    Parsed,
    /// The module has been compiled: the run has succeeded.
    Compiled,
    /// A stage has failed: the run has ended without a result.
    Failed,
}

/// The result of one stage, over an abstract syntax tree `A`, a compiled
/// module `M` and a source map `S`.
#[derive(Debug, PartialEq, Eq)]
pub enum Event<A, M, S> {
    Loaded(Result<SourceUnit, IoError>),
    Parsed(Result<A, ParseError>),
    Compiled(Result<(M, S), CompileError>),
}

/// What the driver asks for after an event. Each value is handed on to the one
/// that consumes it; the driver keeps none.
#[derive(Debug, PartialEq, Eq)]
pub enum Action<A, M, S> {
    /// Parse this source unit.
    Parse(SourceUnit),
    /// Compile this syntax tree.
    Compile(A),
    /// The run is over: hand this to the caller.
    Return(Result<(M, S), DriverError>),
}

impl State {
    /// The stage whose result a state waits for; none in a terminal state.
    pub open spec fn spec_awaits(self) -> Option<Stage> {
        match self {
            State::Idle => Some(Stage::Load),
            State::Loaded => Some(Stage::Parse),
            State::Parsed => Some(Stage::Compile),
            State::Compiled => None,
            State::Failed => None,
        }
    }

    /// A run ends in `Compiled` or in `Failed`.
    pub open spec fn spec_is_terminal(self) -> bool {
        self == State::Compiled || self == State::Failed
    }

    /// The state in which every compilation starts.
    pub fn new() -> (result: State)
        ensures
            result == State::Idle,
    {
        State::Idle
    }

    /// The stage that is to run next, if any.
    pub fn awaits(self) -> (result: Option<Stage>)
        ensures
            result == self.spec_awaits(),
    {
        match self {
            State::Idle => Some(Stage::Load),
            State::Loaded => Some(Stage::Parse),
            State::Parsed => Some(Stage::Compile),
            State::Compiled => None,
            State::Failed => None,
        }
    }

    /// Whether the run is over.
    pub fn is_terminal(self) -> (result: bool)
        ensures
            result == self.spec_is_terminal(),
            result == (self.spec_awaits() is None),
    {
        match self {
            State::Compiled => true,
            State::Failed => true,
            _ => false,
        }
    }
}

impl<A, M, S> Event<A, M, S> {
    /// The stage that produced an event.
    pub open spec fn spec_stage(&self) -> Stage {
        match *self {
            Event::Loaded(_) => Stage::Load,
            Event::Parsed(_) => Stage::Parse,
            Event::Compiled(_) => Stage::Compile,
        }
    }

    /// Whether the stage succeeded.
    pub open spec fn spec_is_success(&self) -> bool {
        match *self {
            Event::Loaded(r) => r is Ok,
            Event::Parsed(r) => r is Ok,
            Event::Compiled(r) => r is Ok,
        }
    }

    /// The stage that produced the event.
    pub fn stage(&self) -> (result: Stage)
        ensures
            result == self.spec_stage(),
    {
        match self {
            Event::Loaded(_) => Stage::Load,
            Event::Parsed(_) => Stage::Parse,
            Event::Compiled(_) => Stage::Compile,
        }
    }

    /// Whether the stage succeeded.
    pub fn is_success(&self) -> (result: bool)
        ensures
            result == self.spec_is_success(),
    {
        match self {
            Event::Loaded(r) => r.is_ok(),
            Event::Parsed(r) => r.is_ok(),
            Event::Compiled(r) => r.is_ok(),
        }
    }
}

/// The transition relation, as a function: the state and the action that
/// follow `event` in `state`, or `None` where `state` does not wait for an
/// event of that stage.
pub open spec fn spec_step<A, M, S>(state: State, event: Event<A, M, S>) -> Option<
    (State, Action<A, M, S>),
> {
    match (state, event) {
        (State::Idle, Event::Loaded(Ok(unit))) => Some((State::Loaded, Action::Parse(unit))),
        (State::Idle, Event::Loaded(Err(e))) => Some(
            (State::Failed, Action::Return(Err(DriverError::Io(e)))),
        ),
        (State::Loaded, Event::Parsed(Ok(ast))) => Some((State::Parsed, Action::Compile(ast))),
        (State::Loaded, Event::Parsed(Err(e))) => Some(
            (State::Failed, Action::Return(Err(DriverError::Parse(e)))),
        ),
        (State::Parsed, Event::Compiled(Ok(pair))) => Some(
            (State::Compiled, Action::Return(Ok(pair))),
        ),
        (State::Parsed, Event::Compiled(Err(e))) => Some(
            (State::Failed, Action::Return(Err(DriverError::Compile(e)))),
        ),
        _ => None,
    }
}

/// Answers the result of one stage: the next state, and what is to be done
/// next. An event that the state does not wait for is refused with `None`.
pub fn step<A, M, S>(state: State, event: Event<A, M, S>) -> (result: Option<
    (State, Action<A, M, S>),
>)
    ensures
        result == spec_step(state, event),
        result is Some <==> state.spec_awaits() == Some(event.spec_stage()),
{
    match state {
        State::Idle => match event {
            Event::Loaded(Ok(unit)) => Some((State::Loaded, Action::Parse(unit))),
            Event::Loaded(Err(e)) => Some((State::Failed, Action::Return(Err(DriverError::Io(e))))),
            _ => None,
        },
        State::Loaded => match event {
            Event::Parsed(Ok(ast)) => Some((State::Parsed, Action::Compile(ast))),
            Event::Parsed(Err(e)) => Some(
                (State::Failed, Action::Return(Err(DriverError::Parse(e)))),
            ),
            _ => None,
        },
        State::Parsed => match event {
            Event::Compiled(Ok(pair)) => Some((State::Compiled, Action::Return(Ok(pair)))),
            Event::Compiled(Err(e)) => Some(
                (State::Failed, Action::Return(Err(DriverError::Compile(e)))),
            ),
            _ => None,
        },
        _ => None,
    }
}

/// What a whole run returns, given what each stage returns: the error of the
/// first stage that failed, or the pair that the compile stage produced. The
/// result of a stage that is never reached plays no part.
pub open spec fn run<A, M, S>(
    loaded: Result<SourceUnit, IoError>,
    parsed: Result<A, ParseError>,
    compiled: Result<(M, S), CompileError>,
) -> Result<(M, S), DriverError> {
    match loaded {
        Err(e) => Err(DriverError::Io(e)),
        Ok(_) => match parsed {
            Err(e) => Err(DriverError::Parse(e)),
            Ok(_) => match compiled {
                Err(e) => Err(DriverError::Compile(e)),
                Ok(pair) => Ok(pair),
            },
        },
    }
}

/// A stage that fails ends the run at once, in `Failed`, with that stage's
/// error and with no compiled module and no source map; a stage that succeeds
/// never leads to `Failed`.
pub proof fn lemma_failure_is_final<A, M, S>(state: State, event: Event<A, M, S>)
    requires
        spec_step(state, event) is Some,
    ensures
        ({
            let (next, action) = spec_step(state, event)->0;
            &&& !event.spec_is_success() <==> next == State::Failed
            &&& next == State::Failed ==> (action matches Action::Return(Err(e))
                && e.spec_stage() == event.spec_stage())
            &&& action matches Action::Return(Ok(_)) ==> next == State::Compiled
            &&& next == State::Compiled <==> (event matches Event::Compiled(Ok(pair))
                && action == Action::<A, M, S>::Return(Ok(pair)))
            &&& action is Return <==> next.spec_is_terminal()
        }),
{
}

/// A terminal state accepts no further event: nothing is retried, and
/// nothing runs after a failure.
pub proof fn lemma_terminal_accepts_nothing<A, M, S>(state: State, event: Event<A, M, S>)
    requires
        state.spec_is_terminal(),
    ensures
        spec_step(state, event) is None,
{
}

/// The states are passed in one order: every step leads from a state to the
/// one that follows it, or to `Failed`.
pub proof fn lemma_states_in_order<A, M, S>(state: State, event: Event<A, M, S>)
    requires
        spec_step(state, event) is Some,
    ensures
        ({
            let (next, _) = spec_step(state, event)->0;
            next == State::Failed || (state, next) == (State::Idle, State::Loaded) || (state, next)
                == (State::Loaded, State::Parsed) || (state, next) == (
                State::Parsed,
                State::Compiled,
            )
        }),
{
}

/// Feeding the machine, from `Idle`, the results of the stages for as long as
/// it asks for another, ends with the action `Return(run(..))`.
pub proof fn lemma_machine_returns_run<A, M, S>(
    loaded: Result<SourceUnit, IoError>,
    parsed: Result<A, ParseError>,
    compiled: Result<(M, S), CompileError>,
)
    ensures
        ({
            let first = spec_step::<A, M, S>(State::Idle, Event::Loaded(loaded));
            let second = spec_step::<A, M, S>(State::Loaded, Event::Parsed(parsed));
            let third = spec_step::<A, M, S>(State::Parsed, Event::Compiled(compiled));
            let expected = Action::<A, M, S>::Return(run(loaded, parsed, compiled));
            &&& first matches Some((state1, action1))
            &&& second matches Some((state2, action2))
            &&& third matches Some((_, action3))
            &&& if state1 == State::Failed {
                action1 == expected
            } else if state2 == State::Failed {
                state1 == State::Loaded && action2 == expected
            } else {
                state1 == State::Loaded && state2 == State::Parsed && action3 == expected
            }
        }),
{
}

/// The run succeeds exactly when every stage does, and then returns the very
/// pair that the compile stage produced; otherwise it returns the error of
/// the first stage that failed, attributed to that stage.
pub proof fn lemma_run_all_or_nothing<A, M, S>(
    loaded: Result<SourceUnit, IoError>,
    parsed: Result<A, ParseError>,
    compiled: Result<(M, S), CompileError>,
)
    ensures
        run(loaded, parsed, compiled) is Ok <==> loaded is Ok && parsed is Ok && compiled is Ok,
        run(loaded, parsed, compiled) matches Ok(pair) ==> compiled == Ok::<
            (M, S),
            CompileError,
        >(pair),
        loaded matches Err(e) ==> run(loaded, parsed, compiled) == Err::<(M, S), DriverError>(
            DriverError::Io(e),
        ),
        parsed matches Err(e) ==> (loaded is Ok ==> run(loaded, parsed, compiled) == Err::<
            (M, S),
            DriverError,
        >(DriverError::Parse(e))),
        compiled matches Err(e) ==> (loaded is Ok && parsed is Ok ==> run(
            loaded,
            parsed,
            compiled,
        ) == Err::<(M, S), DriverError>(DriverError::Compile(e))),
{
}

} // verus!
