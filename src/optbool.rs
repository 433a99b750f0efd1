//! `OptionBool`: a one-byte replacement for `Option<bool>`.
use std::cmp::Ordering;
use std::ops::{Deref, Index, RangeFull};
use vstd::prelude::*;
use vstd::std_specs::cmp::PartialOrdSpec;
use vstd::std_specs::convert::FromSpec;
use crate::int_cmp;

verus! {

/// A space-efficient `Option<bool>` with the order `SomeTrue > SomeFalse > Absent`.
///
/// The variants are declared from smallest to largest, so that the derived `Ord`
/// agrees with `partial_cmp`.
#[derive(Clone, Copy, PartialEq, Eq, Structural, Ord, Hash, Debug)]
pub enum OptionBool {
    /// No value (`None`).
    Absent,
    /// `Some(false)`.
    SomeFalse,
    /// `Some(true)`.
    SomeTrue,
}

impl View for OptionBool {
    type V = Option<bool>;

    open spec fn view(&self) -> Option<bool> {
        match *self {
            OptionBool::SomeTrue => Option::Some(true),
            OptionBool::SomeFalse => Option::Some(false),
            OptionBool::Absent => Option::None,
        }
    }
}

/// The three-state value that stands for `o`.
pub open spec fn option_bool_of(o: Option<bool>) -> OptionBool {
    match o {
        Option::Some(true) => OptionBool::SomeTrue,
        Option::Some(false) => OptionBool::SomeFalse,
        Option::None => OptionBool::Absent,
    }
}

/// Position of a state in the order `Absent < SomeFalse < SomeTrue`.
pub open spec fn rank(o: OptionBool) -> int {
    match o {
        OptionBool::Absent => 0,
        OptionBool::SomeFalse => 1,
        OptionBool::SomeTrue => 2,
    }
}

/// The slice of zero or one values held by `o`.
pub open spec fn bool_contents(o: Option<bool>) -> Seq<bool> {
    match o {
        Option::Some(b) => seq![b],
        Option::None => seq![],
    }
}

/// `Some(true) > Some(false) > None`
impl PartialOrd for OptionBool {
    fn partial_cmp(&self, other: &OptionBool) -> (r: Option<Ordering>) {
        match (self, other) {
            (OptionBool::SomeTrue, OptionBool::SomeTrue)
            | (OptionBool::SomeFalse, OptionBool::SomeFalse)
            | (OptionBool::Absent, OptionBool::Absent) => Option::Some(Ordering::Equal),
            (OptionBool::SomeTrue, OptionBool::SomeFalse)
            | (OptionBool::SomeTrue, OptionBool::Absent)
            | (OptionBool::SomeFalse, OptionBool::Absent) => Option::Some(Ordering::Greater),
            _ => Option::Some(Ordering::Less),
        }
    }
}

impl vstd::std_specs::cmp::PartialOrdSpecImpl for OptionBool {
    open spec fn obeys_partial_cmp_spec() -> bool {
        true
    }

    open spec fn partial_cmp_spec(&self, other: &OptionBool) -> Option<Ordering> {
        Option::Some(int_cmp(rank(*self), rank(*other)))
    }
}

/// A reference compares equal to a value of the same state.
impl<'a> PartialEq<OptionBool> for &'a OptionBool {
    fn eq(&self, other: &OptionBool) -> (r: bool) {
        match (**self, *other) {
            (OptionBool::SomeTrue, OptionBool::SomeTrue)
            | (OptionBool::SomeFalse, OptionBool::SomeFalse)
            | (OptionBool::Absent, OptionBool::Absent) => true,
            _ => false,
        }
    }
}

impl<'a> vstd::std_specs::cmp::PartialEqSpecImpl<OptionBool> for &'a OptionBool {
    open spec fn obeys_eq_spec() -> bool {
        true
    }

    open spec fn eq_spec(&self, other: &OptionBool) -> bool {
        **self == *other
    }
}

/// An `OptionBool` reads as the `Option<bool>` it stands for.
impl Deref for OptionBool {
    type Target = Option<bool>;

    fn deref(&self) -> (r: &Option<bool>)
        ensures
            *r == self@,
    {
        match *self {
            OptionBool::SomeTrue => &Option::Some(true),
            OptionBool::SomeFalse => &Option::Some(false),
            OptionBool::Absent => &Option::None,
        }
    }
}

/// Relies on `std::ops::RangeFull`, the fieldless struct that `..` builds; it is
/// only passed along, never looked into.
#[verifier::external_type_specification]
#[verifier::external_body]
pub struct ExRangeFull(RangeFull);

/// `o[..]` is the slice of zero or one contained values.
impl Index<RangeFull> for OptionBool {
    type Output = [bool];

    fn index(&self, _full: RangeFull) -> (r: &[bool])
        ensures
            r@ == bool_contents(self@),
    {
        self.as_slice()
    }
}

impl vstd::std_specs::core::IndexSpecImpl<RangeFull> for OptionBool {
    open spec fn index_req(&self, index: &RangeFull) -> bool {
        true
    }
}

impl OptionBool {
    /// `SomeTrue` for `true`, `SomeFalse` for `false`.
    pub fn some(b: bool) -> (r: Self)
        ensures
            r@ == Option::Some(b),
    {
        if b {
            OptionBool::SomeTrue
        } else {
            OptionBool::SomeFalse
        }
    }

    /// The absent value.
    pub fn none() -> (r: Self)
        ensures
            r == OptionBool::Absent,
            r@ == Option::<bool>::None,
    {
        OptionBool::Absent
    }

    /// Whether a value is held.
    pub fn is_some(&self) -> (r: bool)
        ensures
            r == self@ is Some,
    {
        if let OptionBool::Absent = *self {
            false
        } else {
            true
        }
    }

    /// Whether no value is held.
    pub fn is_none(&self) -> (r: bool)
        ensures
            r == self@ is None,
    {
        if let OptionBool::Absent = *self {
            true
        } else {
            false
        }
    }

    /// The contained bool; an absent value is a caller's error (it panics with `msg`).
    pub fn expect(&self, msg: &str) -> (r: bool)
        requires
            self@ is Some,
        ensures
            r == self@->0,
    {
        match *self {
            OptionBool::SomeTrue => true,
            OptionBool::SomeFalse => false,
            // Ruled out by `requires`; unverified callers still get the panic.
            OptionBool::Absent => Option::<bool>::None.expect(msg),
        }
    }

    /// The contained bool; an absent value is a caller's error.
    pub fn unwrap(&self) -> (r: bool)
        requires
            self@ is Some,
        ensures
            r == self@->0,
    {
        self.expect("unwrap called on None")
    }

    /// The contained bool, or `def` when absent.
    pub fn unwrap_or(&self, def: bool) -> (r: bool)
        ensures
            r == match self@ {
                Option::Some(b) => b,
                Option::None => def,
            },
    {
        match *self {
            OptionBool::SomeTrue => true,
            OptionBool::SomeFalse => false,
            OptionBool::Absent => def,
        }
    }

    /// The contained bool, or what `f` computes when absent; `f` is called only then.
    pub fn unwrap_or_else<F>(self, f: F) -> (r: bool) where F: FnOnce() -> bool
        requires
            self@ is None ==> f.requires(()),
        ensures
            match self@ {
                Option::Some(b) => r == b,
                Option::None => f.ensures((), r),
            },
    {
        match self {
            OptionBool::SomeTrue => true,
            OptionBool::SomeFalse => false,
            OptionBool::Absent => f(),
        }
    }

    /// Applies `f` to the contained bool, giving an `Option<U>`.
    pub fn map<U, F>(self, f: F) -> (r: Option<U>) where F: FnOnce(bool) -> U
        requires
            self@ is Some ==> f.requires((self@->0,)),
        ensures
            match self@ {
                Option::Some(b) => r is Some && f.ensures((b,), r->0),
                Option::None => r is None,
            },
    {
        match self {
            OptionBool::SomeTrue => Option::Some(f(true)),
            OptionBool::SomeFalse => Option::Some(f(false)),
            OptionBool::Absent => Option::None,
        }
    }

    /// Applies `f` to the contained bool, staying an `OptionBool`.
    pub fn map_bool<F>(self, f: F) -> (r: OptionBool) where F: FnOnce(bool) -> bool
        requires
            self@ is Some ==> f.requires((self@->0,)),
        ensures
            match self@ {
                Option::Some(b) => r@ is Some && f.ensures((b,), r@->0),
                Option::None => r == OptionBool::Absent,
            },
    {
        match self {
            OptionBool::SomeTrue => if f(true) {
                OptionBool::SomeTrue
            } else {
                OptionBool::SomeFalse
            },
            OptionBool::SomeFalse => if f(false) {
                OptionBool::SomeTrue
            } else {
                OptionBool::SomeFalse
            },
            OptionBool::Absent => OptionBool::Absent,
        }
    }

    /// `f` of the contained bool, or `default` when absent.
    pub fn map_or<U, F>(self, default: U, f: F) -> (r: U) where F: FnOnce(bool) -> U
        requires
            self@ is Some ==> f.requires((self@->0,)),
        ensures
            match self@ {
                Option::Some(b) => f.ensures((b,), r),
                Option::None => r == default,
            },
    {
        match self {
            OptionBool::SomeTrue => f(true),
            OptionBool::SomeFalse => f(false),
            OptionBool::Absent => default,
        }
    }

    /// `f` of the contained bool, or what `default` computes when absent.
    pub fn map_or_else<U, D, F>(self, default: D, f: F) -> (r: U) where
        D: FnOnce() -> U,
        F: FnOnce(bool) -> U,
        requires
            self@ is Some ==> f.requires((self@->0,)),
            self@ is None ==> default.requires(()),
        ensures
            match self@ {
                Option::Some(b) => f.ensures((b,), r),
                Option::None => default.ensures((), r),
            },
    {
        match self {
            OptionBool::SomeTrue => f(true),
            OptionBool::SomeFalse => f(false),
            OptionBool::Absent => default(),
        }
    }

    /// `Ok` of the contained bool, or `Err(err)` when absent.
    pub fn ok_or<E>(self, err: E) -> (r: Result<bool, E>)
        ensures
            r == match self@ {
                Option::Some(b) => Result::<bool, E>::Ok(b),
                Option::None => Result::<bool, E>::Err(err),
            },
    {
        match self {
            OptionBool::SomeTrue => Ok(true),
            OptionBool::SomeFalse => Ok(false),
            OptionBool::Absent => Err(err),
        }
    }

    /// `Ok` of the contained bool, or `Err` of what `err` computes when absent.
    pub fn ok_or_else<E, F>(self, err: F) -> (r: Result<bool, E>) where F: FnOnce() -> E
        requires
            self@ is None ==> err.requires(()),
        ensures
            match self@ {
                Option::Some(b) => r == Result::<bool, E>::Ok(b),
                Option::None => r is Err && err.ensures((), r->Err_0),
            },
    {
        match self {
            OptionBool::SomeTrue => Ok(true),
            OptionBool::SomeFalse => Ok(false),
            OptionBool::Absent => Err(err()),
        }
    }

    /// `None` when absent, else `optb`: the held bool itself is discarded.
    pub fn and<U>(self, optb: Option<U>) -> (r: Option<U>)
        ensures
            r == if self@ is Some {
                optb
            } else {
                Option::<U>::None
            },
    {
        match self {
            OptionBool::SomeTrue | OptionBool::SomeFalse => optb,
            OptionBool::Absent => Option::None,
        }
    }

    /// `Absent` when absent, else `optb`: the held bool itself is discarded.
    pub fn and_bool(self, optb: OptionBool) -> (r: OptionBool)
        ensures
            r == if self@ is Some {
                optb
            } else {
                OptionBool::Absent
            },
    {
        match self {
            OptionBool::Absent => OptionBool::Absent,
            _ => optb,
        }
    }

    /// `None` when absent, else `f` of the held bool; `f` is called only then.
    pub fn and_then<U, F>(self, f: F) -> (r: Option<U>) where F: FnOnce(bool) -> Option<U>
        requires
            self@ is Some ==> f.requires((self@->0,)),
        ensures
            match self@ {
                Option::Some(b) => f.ensures((b,), r),
                Option::None => r is None,
            },
    {
        match self {
            OptionBool::SomeTrue => f(true),
            OptionBool::SomeFalse => f(false),
            OptionBool::Absent => Option::None,
        }
    }

    /// `Absent` when absent, else `f` of the held bool; `f` is called only then.
    pub fn and_then_bool<F>(self, f: F) -> (r: OptionBool) where F: FnOnce(bool) -> OptionBool
        requires
            self@ is Some ==> f.requires((self@->0,)),
        ensures
            match self@ {
                Option::Some(b) => f.ensures((b,), r),
                Option::None => r == OptionBool::Absent,
            },
    {
        match self {
            OptionBool::SomeTrue => f(true),
            OptionBool::SomeFalse => f(false),
            OptionBool::Absent => OptionBool::Absent,
        }
    }

    /// The held value as an `Option<bool>`, or `optb` when absent.
    pub fn or(self, optb: Option<bool>) -> (r: Option<bool>)
        ensures
            r == if self@ is Some {
                self@
            } else {
                optb
            },
    {
        match self {
            OptionBool::SomeTrue => Option::Some(true),
            OptionBool::SomeFalse => Option::Some(false),
            OptionBool::Absent => optb,
        }
    }

    /// `self` when a value is held, else `optb`.
    pub fn or_bool(self, optb: OptionBool) -> (r: OptionBool)
        ensures
            r == if self@ is Some {
                self
            } else {
                optb
            },
    {
        match self {
            OptionBool::Absent => optb,
            x => x,
        }
    }

    /// The held value as an `Option<bool>`, or what `f` computes when absent.
    pub fn or_else<F>(self, f: F) -> (r: Option<bool>) where F: FnOnce() -> Option<bool>
        requires
            self@ is None ==> f.requires(()),
        ensures
            match self@ {
                Option::Some(b) => r == Option::Some(b),
                Option::None => f.ensures((), r),
            },
    {
        match self {
            OptionBool::SomeTrue => Option::Some(true),
            OptionBool::SomeFalse => Option::Some(false),
            OptionBool::Absent => f(),
        }
    }

    /// `self` when a value is held, else what `f` computes.
    pub fn or_else_bool<F>(self, f: F) -> (r: OptionBool) where F: FnOnce() -> OptionBool
        requires
            self@ is None ==> f.requires(()),
        ensures
            match self@ {
                Option::Some(_) => r == self,
                Option::None => f.ensures((), r),
            },
    {
        match self {
            OptionBool::Absent => f(),
            x => x,
        }
    }

    /// An iterator over the zero or one contained values.
    pub fn iter(&self) -> (r: std::slice::Iter<'static, bool>)
        ensures
            vstd::std_specs::slice::into_iter_elts(r) == bool_contents(self@),
    {
        let s = self.as_slice();
        let r = s.iter();
        proof {
            broadcast use vstd::std_specs::slice::axiom_spec_slice_iter;
        }
        r
    }

    /// The slice of zero or one contained values.
    pub fn as_slice(self) -> (r: &'static [bool])
        ensures
            r@ == bool_contents(self@),
    {
        match self {
            OptionBool::SomeTrue => &[true],
            OptionBool::SomeFalse => &[false],
            OptionBool::Absent => &[],
        }
    }

    /// Takes the value out as an `Option<bool>`, leaving `Absent` behind.
    pub fn take(&mut self) -> (r: Option<bool>)
        ensures
            r == old(self)@,
            *final(self) == OptionBool::Absent,
    {
        let prev = self.take_bool();
        Option::<bool>::from(prev)
    }

    /// Takes the value out, leaving `Absent` behind.
    pub fn take_bool(&mut self) -> (r: OptionBool)
        ensures
            r == *old(self),
            *final(self) == OptionBool::Absent,
    {
        let prev = *self;
        *self = OptionBool::Absent;
        prev
    }

    /// A consuming iterator over the zero or one contained values.
    pub fn into_iter(self) -> (r: IterBool)
        ensures
            r@ == self@,
    {
        IterBool { o: self }
    }
}

/// Iterates over an `OptionBool`, yielding its value at most once.
pub struct IterBool {
    o: OptionBool,
}

impl View for IterBool {
    type V = Option<bool>;

    /// The value not yet yielded.
    closed spec fn view(&self) -> Option<bool> {
        self.o@
    }
}

impl IterBool {
    /// The value not yet yielded, if any; afterwards the iterator is exhausted.
    pub fn next(&mut self) -> (r: Option<bool>)
        ensures
            r == old(self)@,
            final(self)@ is None,
    {
        self.o.take()
    }
}

/// `OptionBool` defaults to `Absent`.
impl Default for OptionBool {
    fn default() -> (r: OptionBool)
        ensures
            r == OptionBool::Absent,
    {
        OptionBool::Absent
    }
}

impl From<OptionBool> for Option<bool> {
    fn from(o: OptionBool) -> (r: Option<bool>) {
        match o {
            OptionBool::SomeTrue => Option::Some(true),
            OptionBool::SomeFalse => Option::Some(false),
            OptionBool::Absent => Option::None,
        }
    }
}

impl vstd::std_specs::convert::FromSpecImpl<OptionBool> for Option<bool> {
    open spec fn obeys_from_spec() -> bool {
        true
    }

    open spec fn from_spec(o: OptionBool) -> Option<bool> {
        o@
    }
}

impl<'a> From<&'a OptionBool> for Option<bool> {
    fn from(o: &'a OptionBool) -> (r: Option<bool>) {
        match *o {
            OptionBool::SomeTrue => Option::Some(true),
            OptionBool::SomeFalse => Option::Some(false),
            OptionBool::Absent => Option::None,
        }
    }
}

impl<'a> vstd::std_specs::convert::FromSpecImpl<&'a OptionBool> for Option<bool> {
    open spec fn obeys_from_spec() -> bool {
        true
    }

    open spec fn from_spec(o: &'a OptionBool) -> Option<bool> {
        (*o)@
    }
}

impl From<Option<bool>> for OptionBool {
    fn from(o: Option<bool>) -> (r: OptionBool) {
        match o {
            Option::Some(true) => OptionBool::SomeTrue,
            Option::Some(false) => OptionBool::SomeFalse,
            Option::None => OptionBool::Absent,
        }
    }
}

impl vstd::std_specs::convert::FromSpecImpl<Option<bool>> for OptionBool {
    open spec fn obeys_from_spec() -> bool {
        true
    }

    open spec fn from_spec(o: Option<bool>) -> OptionBool {
        option_bool_of(o)
    }
}

impl<'a> From<&'a Option<bool>> for OptionBool {
    fn from(o: &'a Option<bool>) -> (r: OptionBool) {
        match *o {
            Option::Some(true) => OptionBool::SomeTrue,
            Option::Some(false) => OptionBool::SomeFalse,
            Option::None => OptionBool::Absent,
        }
    }
}

impl<'a> vstd::std_specs::convert::FromSpecImpl<&'a Option<bool>> for OptionBool {
    open spec fn obeys_from_spec() -> bool {
        true
    }

    open spec fn from_spec(o: &'a Option<bool>) -> OptionBool {
        option_bool_of(*o)
    }
}

/// Converting any `OptionBool` to `Option<bool>` and back gives the same state.
pub proof fn lemma_round_trip(o: OptionBool)
    ensures
        <OptionBool as FromSpec<Option<bool>>>::from_spec(
            <Option<bool> as FromSpec<OptionBool>>::from_spec(o),
        ) == o,
{
}

/// Converting any `Option<bool>` to `OptionBool` and back gives the same option.
pub proof fn lemma_option_round_trip(o: Option<bool>)
    ensures
        <Option<bool> as FromSpec<OptionBool>>::from_spec(
            <OptionBool as FromSpec<Option<bool>>>::from_spec(o),
        ) == o,
{
}

/// `SomeTrue > SomeFalse > Absent`: a state is greater than another exactly when
/// it stands higher in that chain, equal only to itself, and less exactly when
/// the other is greater.
pub proof fn lemma_order(a: OptionBool, b: OptionBool)
    ensures
        a.partial_cmp_spec(&b) == Option::Some(Ordering::Greater) <==> (a == OptionBool::SomeTrue
            && b != OptionBool::SomeTrue) || (a == OptionBool::SomeFalse && b == OptionBool::Absent),
        a.partial_cmp_spec(&b) == Option::Some(Ordering::Equal) <==> a == b,
        a.partial_cmp_spec(&b) == Option::Some(Ordering::Less) <==> b.partial_cmp_spec(&a)
            == Option::Some(Ordering::Greater),
        a.partial_cmp_spec(&b) is Some,
{
}

} // verus!
