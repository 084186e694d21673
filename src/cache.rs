//! The compilation cache: decides on every change of the pattern whether the
//! previous compile outcome still stands or the pattern is compiled again.
use vstd::prelude::*;
use crate::matcher::{compile, pattern_matches, search, CompileFailure, Matcher};

verus! {

/// Why a pattern was rejected.
pub enum Rejection {
    /// The pattern is malformed; the engine's message. Determined by the
    /// pattern text alone.
    SyntaxError { message: String },
    /// The pattern exceeds the engine's resource budget (its size limit in
    /// bytes). Depends on the budget as well, so never reused.
    TooComplex { size_limit: usize },
}

/// The outcome of compiling one pattern.
pub enum CompiledResult {
    /// A matcher, bound to the exact text it was compiled from.
    Compiled(Matcher),
    /// A rejection, with the text that was rejected.
    Rejected(Rejection, String),
}

/// The engine reported a failure kind that the cache does not account for.
/// Callers must treat it as fatal.
pub struct UnrecognizedFailure;

/// What a reconcile step returns: the current outcome and whether the
/// pattern was compiled anew.
pub type Reconciled = Result<(CompiledResult, bool), UnrecognizedFailure>;

/// The text that `result` was produced from.
pub open spec fn source_of(result: CompiledResult) -> Seq<char> {
    match result {
        CompiledResult::Compiled(m) => m.source(),
        CompiledResult::Rejected(_, text) => text@,
    }
}

/// Whether `result` is a rejection for exceeding the resource budget.
pub open spec fn is_too_complex(result: CompiledResult) -> bool {
    result matches CompiledResult::Rejected(Rejection::TooComplex { .. }, _)
}

/// Whether `previous` may stand for `input` without compiling again: a
/// matcher or a syntax error produced from exactly `input`.
pub open spec fn reusable(previous: Option<CompiledResult>, input: Seq<char>) -> bool {
    match previous {
        Some(CompiledResult::Compiled(m)) => m.source() == input,
        Some(CompiledResult::Rejected(Rejection::SyntaxError { .. }, text)) => text@ == input,
        _ => false,
    }
}

/// How a compile outcome for `input` is recorded: a matcher as is, a
/// syntax failure or a size failure as a rejection of `input`, anything
/// else as an unrecognized failure.
pub open spec fn classified(
    input: Seq<char>,
    outcome: Result<Matcher, CompileFailure>,
    r: Result<CompiledResult, UnrecognizedFailure>,
) -> bool {
    match outcome {
        Ok(m) => r == Ok::<CompiledResult, UnrecognizedFailure>(CompiledResult::Compiled(m)),
        Err(CompileFailure::Syntax(msg)) => r matches Ok(
            CompiledResult::Rejected(Rejection::SyntaxError { message }, text),
        ) && message == msg && text@ == input,
        Err(CompileFailure::TooBig(limit)) => r matches Ok(
            CompiledResult::Rejected(Rejection::TooComplex { size_limit }, text),
        ) && size_limit == limit && text@ == input,
        Err(CompileFailure::Unrecognized) => r is Err,
    }
}

/// The outcome of a reconcile step without its recompiled flag.
pub open spec fn outcome_of(r: Reconciled) -> Result<CompiledResult, UnrecognizedFailure> {
    match r {
        Ok((result, _)) => Ok(result),
        Err(e) => Err(e),
    }
}

/// What reconciling `input` against `previous` may return: `previous`
/// itself, unchanged and not recompiled, when it is reusable; otherwise the
/// record of some engine outcome of compiling exactly `input`, marked
/// recompiled.
pub open spec fn reconcile_post(
    input: Seq<char>,
    previous: Option<CompiledResult>,
    r: Reconciled,
) -> bool {
    if reusable(previous, input) {
        r == Ok::<(CompiledResult, bool), UnrecognizedFailure>((previous->Some_0, false))
    } else {
        &&& r matches Ok((result, recompiled)) ==> recompiled && source_of(result) == input
        &&& exists|outcome: Result<Matcher, CompileFailure>|
            (outcome matches Ok(m) ==> m.source() == input)
                && #[trigger] classified(input, outcome, outcome_of(r))
    }
}

/// Records the engine's outcome of compiling `input`.
pub fn classify(input: &str, outcome: Result<Matcher, CompileFailure>) -> (r: Result<
    CompiledResult,
    UnrecognizedFailure,
>)
    requires
        outcome matches Ok(m) ==> m.source() == input@,
    ensures
        classified(input@, outcome, r),
        r matches Ok(result) ==> source_of(result) == input@,
{
    match outcome {
        Ok(m) => Ok(CompiledResult::Compiled(m)),
        Err(CompileFailure::Syntax(message)) => Ok(
            CompiledResult::Rejected(Rejection::SyntaxError { message }, input.to_owned()),
        ),
        Err(CompileFailure::TooBig(size_limit)) => Ok(
            CompiledResult::Rejected(Rejection::TooComplex { size_limit }, input.to_owned()),
        ),
        Err(CompileFailure::Unrecognized) => Err(UnrecognizedFailure),
    }
}

/// Whether `previous` may stand for `input` without compiling again.
pub fn is_reusable(previous: &Option<CompiledResult>, input: &str) -> (r: bool)
    ensures
        r == reusable(*previous, input@),
{
    match previous {
        Some(CompiledResult::Compiled(m)) => m.as_str().to_owned() == input.to_owned(),
        Some(CompiledResult::Rejected(Rejection::SyntaxError { .. }, text)) => *text
            == input.to_owned(),
        _ => false,
    }
}

/// Returns the outcome for `input`: `previous` itself when it is a matcher
/// or a syntax error for exactly `input`, else the outcome of compiling
/// `input` now.
pub fn reconcile(input: &str, previous: Option<CompiledResult>) -> (r: Reconciled)
    ensures
        reconcile_post(input@, previous, r),
{
    if is_reusable(&previous, input) {
        Ok((previous.unwrap(), false))
    } else {
        let outcome = compile(input.to_owned());
        let ghost engine = outcome;
        let r = match classify(input, outcome) {
            Ok(result) => Ok((result, true)),
            Err(e) => Err(e),
        };
        assert(classified(input@, engine, outcome_of(r)));
        r
    }
}

/// Whether `result` matches somewhere in `text`: a matcher by the engine's
/// search, a rejection never.
pub open spec fn result_matches(result: CompiledResult, text: Seq<char>) -> bool {
    match result {
        CompiledResult::Compiled(m) => pattern_matches(m.source(), text),
        CompiledResult::Rejected(..) => false,
    }
}

/// Whether the compiled pattern matches somewhere in `text`; a rejected
/// pattern matches nothing.
pub fn is_match(result: &CompiledResult, text: &str) -> (r: bool)
    ensures
        r == result_matches(*result, text@),
        result is Rejected ==> !r,
{
    match result {
        CompiledResult::Compiled(m) => search(m, text),
        CompiledResult::Rejected(..) => false,
    }
}

/// Holds the latest compile outcome across changes of the pattern.
pub struct CacheCell {
    /// The outcome for the pattern last seen, if any.
    pub current: Option<CompiledResult>,
    /// Whether the last update compiled the pattern anew.
    pub recompiled: bool,
}

/// The reconcile result that a cell after an update stands for.
pub open spec fn cell_outcome(cell: CacheCell, r: Result<(), UnrecognizedFailure>) -> Reconciled {
    match r {
        Ok(_) => Ok((cell.current->Some_0, cell.recompiled)),
        Err(e) => Err(e),
    }
}

impl CacheCell {
    /// An empty cell: nothing compiled yet.
    pub fn new() -> (c: CacheCell)
        ensures
            c.current is None,
            !c.recompiled,
    {
        CacheCell { current: None, recompiled: false }
    }

    /// Brings the cell up to date with `input`, reconciling it against the
    /// outcome held so far. On an unrecognized failure the cell is left empty.
    pub fn update(&mut self, input: &str) -> (r: Result<(), UnrecognizedFailure>)
        ensures
            reconcile_post(input@, old(self).current, cell_outcome(*final(self), r)),
            r is Ok <==> final(self).current is Some,
    {
        let previous = self.current.take();
        match reconcile(input, previous) {
            Ok((result, recompiled)) => {
                self.current = Some(result);
                self.recompiled = recompiled;
                Ok(())
            },
            Err(e) => {
                self.recompiled = true;
                Err(e)
            },
        }
    }

    /// Whether the held outcome matches somewhere in `text`; an empty cell
    /// matches nothing.
    pub fn is_match(&self, text: &str) -> (r: bool)
        ensures
            r == match self.current {
                Some(result) => result_matches(result, text@),
                None => false,
            },
    {
        match &self.current {
            Some(result) => is_match(result, text),
            None => false,
        }
    }
}

/// Reconciling a pattern against the outcome of compiling that same pattern
/// returns that outcome unchanged and does not compile again, unless the
/// outcome was a rejection for exceeding the resource budget.
pub proof fn lemma_reconcile_twice_reuses(s: Seq<char>, first: Reconciled, second: Reconciled)
    requires
        reconcile_post(s, None, first),
        first is Ok,
        !is_too_complex(first->Ok_0.0),
        reconcile_post(s, Some(first->Ok_0.0), second),
    ensures
        first->Ok_0.1,
        second == Ok::<(CompiledResult, bool), UnrecognizedFailure>((first->Ok_0.0, false)),
{
    assert(reusable(Some(first->Ok_0.0), s));
}

/// A rejection for exceeding the resource budget is never reused: reconciling
/// the same pattern against it compiles again.
pub proof fn lemma_too_complex_recompiles(
    s: Seq<char>,
    previous: Option<CompiledResult>,
    first: Reconciled,
    second: Reconciled,
)
    requires
        reconcile_post(s, previous, first),
        first is Ok,
        is_too_complex(first->Ok_0.0),
        reconcile_post(s, Some(first->Ok_0.0), second),
    ensures
        !reusable(Some(first->Ok_0.0), s),
        second matches Ok((_, recompiled)) ==> recompiled,
{
}

} // verus!
