//! A trait for easier expression (and consumption) of features, toggles,
//! checkboxes, settings, options, or any other *bivalent* pair.
//!
//! Conditions typically come in pairs (`{Allow, Deny}`, `{Yes, No}`,
//! `{With, Without}`). Use `impl Condition` anywhere you might take a boolean
//! value, then pass any type that implements the trait: the built-in
//! implementations cover `Option`, `Result` and `bool`, and the [`codegen`]
//! module derives the trait for any two-variant enum.

use vstd::prelude::*;

pub mod codegen;
pub mod prelude;

verus! {

/// A bivalent value: one that is always in exactly one of two states, each
/// equivalent to a boolean.
pub trait Condition: Sized {
    /// The boolean state this value is equivalent to: `true` for the
    /// true-equivalent state, `false` for the false-equivalent one. Because
    /// this is a total function into `bool`, every value of an implementing
    /// type is equivalent to exactly one of the two states.
    spec fn truthy(&self) -> bool;

    /// Checks if the condition is in the same equivalent state as the given
    /// boolean. Everything else regarding a condition can be implemented in
    /// these terms.
    fn is(&self, value: bool) -> (r: bool)
        ensures
            r == (value == self.truthy()),
    ;

    /// Alias function for `self.is(false)`.
    fn is_false(&self) -> (r: bool)
        ensures
            r == (false == self.truthy()),
    {
        self.is(false)
    }

    /// Alias function for `self.is(true)`.
    fn is_true(&self) -> (r: bool)
        ensures
            r == (true == self.truthy()),
    {
        self.is(true)
    }

    /// Returns `Some(())` if `self.is_true()`, otherwise returns `None`.
    #[must_use]
    fn option(&self) -> (r: Option<()>)
        ensures
            r is Some <==> self.truthy(),
    {
        if self.is(true) {
            Some(())
        } else {
            None
        }
    }

    /// Returns `Ok(())` if `self.is_true()`, otherwise returns `Err(())`.
    #[must_use]
    fn result(&self) -> (r: Result<(), ()>)
        ensures
            r is Ok <==> self.truthy(),
    {
        match self.option() {
            Some(u) => Ok(u),
            None => Err(()),
        }
    }
}

impl Condition for bool {
    open spec fn truthy(&self) -> bool {
        *self
    }

    #[inline]
    fn is(&self, value: bool) -> (r: bool) {
        *self == value
    }
}

impl<T> Condition for Option<T> {
    open spec fn truthy(&self) -> bool {
        *self is Some
    }

    #[inline]
    fn is(&self, value: bool) -> (r: bool) {
        self.is_some().is(value)
    }
}

impl<T, E> Condition for Result<T, E> {
    open spec fn truthy(&self) -> bool {
        *self is Ok
    }

    #[inline]
    fn is(&self, value: bool) -> (r: bool) {
        self.is_ok().is(value)
    }
}

/// The canonical two-variant condition: `No` is declared first and so is
/// bound to the false state, `Yes` second and so to the true state. Its
/// implementation is written out in exactly the shape the code generator in
/// [`codegen`] renders for any two-variant enum.
#[derive(Clone, Copy, Debug, PartialEq, Eq, Structural)]
pub enum Answer {
    No,
    Yes,
}

impl Condition for Answer {
    open spec fn truthy(&self) -> bool {
        *self is Yes
    }

    #[inline]
    fn is(&self, value: bool) -> (r: bool) {
        match self {
            Self::No => value == false,
            Self::Yes => value == true,
        }
    }
}

/// Bivalence: a condition value is equivalent to exactly one of the two
/// boolean states — never both, never neither. Equivalence to a boolean
/// `value` is what `is(value)` returns, `value == truthy()`.
pub proof fn lemma_bivalence<C: Condition>(v: &C)
    ensures
        (true == v.truthy()) != (false == v.truthy()),
{
}

/// Generated-implementation correctness: in the shape the code generator
/// emits, the first declared variant is equivalent to `false` and the second
/// to `true`; for [`Answer`], `No.is(false)` and `Yes.is(true)` answer `true`
/// while `No.is(true)` and `Yes.is(false)` answer `false`.
pub proof fn lemma_answer_binding()
    ensures
        !Answer::No.truthy(),
        Answer::Yes.truthy(),
{
}

/// Optional-value mapping: an absent value is equivalent to `false`, and a
/// present value — whatever its payload — is equivalent to `true`.
pub proof fn lemma_option_mapping<T>(v: &Option<T>)
    ensures
        v is None ==> (false == v.truthy()),
        v is Some ==> (true == v.truthy()),
{
}

/// Result-type mapping: a failure outcome is equivalent to `false`, and a
/// success outcome is equivalent to `true`; the payload on either side plays
/// no part in the equivalence.
pub proof fn lemma_result_mapping<T, E>(v: &Result<T, E>)
    ensures
        v is Err ==> (false == v.truthy()),
        v is Ok ==> (true == v.truthy()),
{
}

/// Convenience-alias equivalence: `is_true` answers exactly as `is(true)`
/// does, and `is_false` exactly as `is(false)`. All three contracts pin the
/// answer to the value's equivalence with the boolean in question, stated
/// here once over the value's state.
pub proof fn lemma_alias_equivalence<C: Condition>(v: &C)
    ensures
        (true == v.truthy()) == v.truthy(),
        (false == v.truthy()) == !v.truthy(),
{
}

/// Optional-conversion round trip: `option` yields the present-empty wrapper
/// exactly when `is(true)` answers `true`, and the absent wrapper exactly
/// when `is(false)` answers `true`; by bivalence the two cases are exclusive
/// and exhaustive.
pub proof fn lemma_option_round_trip<C: Condition>(v: &C)
    ensures
        v.truthy() == (true == v.truthy()),
        !v.truthy() == (false == v.truthy()),
{
}

/// Result-conversion round trip: `result` yields the success-empty wrapper
/// exactly when `is(true)` answers `true`, and the failure-empty wrapper
/// exactly when `is(false)` answers `true`; by bivalence the two cases are
/// exclusive and exhaustive.
pub proof fn lemma_result_round_trip<C: Condition>(v: &C)
    ensures
        v.truthy() == (true == v.truthy()),
        !v.truthy() == (false == v.truthy()),
{
}

} // verus!
