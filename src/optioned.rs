//! `Optioned<T>`: an `Option<T>` in the space of `T`, with one value of `T`
//! reserved for "none".
use std::cmp::Ordering;
use vstd::prelude::*;
use vstd::std_specs::cmp::{PartialEqSpec, PartialOrdSpec};
use vstd::std_specs::convert::FromSpec;
use crate::noned::{present, Noned, OptEq, OptOrd};

verus! {

/// Relies on `std::slice::from_ref`: a slice of length one over the referenced value.
pub assume_specification<T>[ core::slice::from_ref::<T> ](s: &T) -> (r: &[T])
    ensures
        r@ == seq![*s],
;

/// An `Option<T>`-like value that takes only as much space as the enclosed value,
/// at the cost of reserving one value of `T` for "none" (see `Noned`).
#[derive(Clone, Copy, Hash, Debug)]
pub struct Optioned<T: Noned + Copy> {
    value: T,
}

impl<T: Noned + Copy> View for Optioned<T> {
    type V = Option<T>;

    open spec fn view(&self) -> Option<T> {
        present(self.raw())
    }
}

/// The `Optioned` that stores `v` as its raw value.
pub closed spec fn wrapped<T: Noned + Copy>(v: T) -> Optioned<T> {
    Optioned { value: v }
}

/// The `Optioned` that stands for `o`.
pub closed spec fn optioned_of<T: Noned + Copy>(o: Option<T>) -> Optioned<T> {
    match o {
        Option::Some(v) => wrapped(v),
        Option::None => wrapped(T::spec_none()),
    }
}

/// The slice of zero or one values that `o` stands for.
pub open spec fn contents<T>(o: Option<T>) -> Seq<T> {
    match o {
        Option::Some(v) => seq![v],
        Option::None => seq![],
    }
}

impl<T: Noned + Copy> Optioned<T> {
    /// The stored raw value, reserved or not.
    pub closed spec fn raw(&self) -> T {
        self.value
    }

    /// Creates an `Optioned<T>` that holds `t`; `t` must not be the reserved value
    /// (it panics if it is).
    pub fn some(t: T) -> (r: Self)
        requires
            !t.spec_is_none(),
        ensures
            r.raw() == t,
            r@ == Option::Some(t),
    {
        if t.is_none() {
            // Ruled out by `requires`; unverified callers still get the panic.
            let _ = Option::<T>::None.expect("Optioned::some called with the none value");
        }
        Optioned::<T> { value: t }
    }

    /// Creates an `Optioned<T>` that holds no value.
    pub fn none() -> (r: Self)
        ensures
            r.raw() == T::spec_none(),
            r@ is None,
    {
        proof {
            T::lemma_sentinel(T::spec_none());
        }
        Optioned::<T> { value: T::get_none() }
    }

    /// The value as an `Option<T>`.
    fn as_option(&self) -> (r: Option<T>)
        ensures
            r == self@,
    {
        if self.value.is_none() {
            Option::None
        } else {
            Option::Some(self.value)
        }
    }

    /// Returns `true` if this `Optioned` holds no value, `false` otherwise.
    pub fn is_none(&self) -> (r: bool)
        ensures
            r == self@ is None,
    {
        self.value.is_none()
    }

    /// Returns `true` if this `Optioned` holds a value, `false` otherwise.
    pub fn is_some(&self) -> (r: bool)
        ensures
            r == self@ is Some,
    {
        !self.value.is_none()
    }

    /// The held value; holding none is a caller's error (it panics with `msg`).
    pub fn expect(&self, msg: &str) -> (r: T)
        requires
            self@ is Some,
        ensures
            r == self@->0,
    {
        if self.is_none() {
            // Ruled out by `requires`; unverified callers still get the panic.
            let _ = Option::<T>::None.expect(msg);
        }
        self.value
    }

    /// The held value; holding none is a caller's error.
    pub fn unwrap(&self) -> (r: T)
        requires
            self@ is Some,
        ensures
            r == self@->0,
    {
        self.expect("unwrap called on None")
    }

    /// The raw value, which is the reserved value when none is held.
    pub fn unpack(&self) -> (r: T)
        ensures
            r == self.raw(),
    {
        self.value
    }

    /// The held value, or `def` when none is held.
    pub fn unwrap_or(&self, def: T) -> (r: T)
        ensures
            r == match self@ {
                Option::Some(v) => v,
                Option::None => def,
            },
    {
        if self.is_none() {
            def
        } else {
            self.value
        }
    }

    /// The held value, or what `f` computes when none is held; `f` is called only then.
    pub fn unwrap_or_else<F>(self, f: F) -> (r: T) where F: FnOnce() -> T
        requires
            self@ is None ==> f.requires(()),
        ensures
            match self@ {
                Option::Some(v) => r == v,
                Option::None => f.ensures((), r),
            },
    {
        if self.is_none() {
            f()
        } else {
            self.value
        }
    }

    /// Applies `f` to the held value, giving an `Option<U>`.
    pub fn map<U, F>(self, f: F) -> (r: Option<U>) where F: FnOnce(T) -> U
        requires
            self@ is Some ==> f.requires((self@->0,)),
        ensures
            match self@ {
                Option::Some(v) => r is Some && f.ensures((v,), r->0),
                Option::None => r is None,
            },
    {
        if self.is_none() {
            Option::None
        } else {
            Option::Some(f(self.value))
        }
    }

    /// Applies `f` to the held value, giving an `Optioned<U>`; `f` must not return
    /// the reserved value of `U` (as with `some`).
    pub fn map_t<U, F>(self, f: F) -> (r: Optioned<U>) where
        F: FnOnce(T) -> U,
        U: Noned + Copy,
        requires
            self@ is Some ==> f.requires((self@->0,)),
            self@ is Some ==> forall|u: U| f.ensures((self@->0,), u) ==> !u.spec_is_none(),
        ensures
            match self@ {
                Option::Some(v) => r@ is Some && f.ensures((v,), r@->0),
                Option::None => r.raw() == U::spec_none(),
            },
    {
        if self.is_none() {
            none()
        } else {
            some(f(self.value))
        }
    }

    /// `f` of the held value, or `default` when none is held.
    pub fn map_or<U, F>(self, default: U, f: F) -> (r: U) where F: FnOnce(T) -> U
        requires
            self@ is Some ==> f.requires((self@->0,)),
        ensures
            match self@ {
                Option::Some(v) => f.ensures((v,), r),
                Option::None => r == default,
            },
    {
        if self.is_none() {
            default
        } else {
            f(self.value)
        }
    }

    /// `f` of the held value, or what `default` computes when none is held.
    pub fn map_or_else<U, D, F>(self, default: D, f: F) -> (r: U) where
        D: FnOnce() -> U,
        F: FnOnce(T) -> U,
        requires
            self@ is Some ==> f.requires((self@->0,)),
            self@ is None ==> default.requires(()),
        ensures
            match self@ {
                Option::Some(v) => f.ensures((v,), r),
                Option::None => default.ensures((), r),
            },
    {
        if self.is_none() {
            default()
        } else {
            f(self.value)
        }
    }

    /// This `Optioned` if it holds a value, otherwise `other`.
    pub fn or(self, other: Optioned<T>) -> (r: Optioned<T>)
        ensures
            r == if self@ is Some {
                self
            } else {
                other
            },
    {
        if self.is_some() {
            self
        } else {
            other
        }
    }

    /// This `Optioned` if it holds a value, otherwise what `f` computes.
    pub fn or_else<F>(self, f: F) -> (r: Optioned<T>) where F: FnOnce() -> Optioned<T>
        requires
            self@ is None ==> f.requires(()),
        ensures
            match self@ {
                Option::Some(_) => r == self,
                Option::None => f.ensures((), r),
            },
    {
        if self.is_some() {
            self
        } else {
            f()
        }
    }

    /// None of `U` if this holds none, else `other`: the held value itself is discarded.
    pub fn and<U>(self, other: Optioned<U>) -> (r: Optioned<U>) where U: Noned + Copy
        ensures
            self@ is Some ==> r == other,
            self@ is None ==> r.raw() == U::spec_none(),
    {
        if self.is_some() {
            other
        } else {
            none::<U>()
        }
    }

    /// None of `U` if this holds none, else `f` of the held value; `f` is called only then.
    pub fn and_then<F, U>(self, f: F) -> (r: Optioned<U>) where
        F: FnOnce(T) -> Optioned<U>,
        U: Noned + Copy,
        requires
            self@ is Some ==> f.requires((self@->0,)),
        ensures
            match self@ {
                Option::Some(v) => f.ensures((v,), r),
                Option::None => r.raw() == U::spec_none(),
            },
    {
        if self.is_some() {
            f(self.value)
        } else {
            none()
        }
    }

    /// Takes the value out as an `Option<T>`, leaving none behind.
    pub fn take(&mut self) -> (r: Option<T>)
        ensures
            r == old(self)@,
            final(self).raw() == T::spec_none(),
            final(self)@ is None,
    {
        let prev = *self;
        *self = Self::none();
        prev.as_option()
    }

    /// The slice of zero or one held values.
    pub fn as_slice(&self) -> (r: &[T])
        ensures
            r@ == contents(self@),
    {
        if self.is_some() {
            core::slice::from_ref(&self.value)
        } else {
            &[]
        }
    }

    /// An iterator over the zero or one held values; it works on a copy, so this
    /// `Optioned` is left as it is.
    pub fn iter(&self) -> (r: OptionedIter<T>)
        ensures
            r@ == self@,
    {
        OptionedIter { o: *self }
    }
}

/// Creates an `Optioned<T>` that holds `value`; `value` must not be the reserved
/// value (it panics if it is).
pub fn some<T: Noned + Copy>(value: T) -> (r: Optioned<T>)
    requires
        !value.spec_is_none(),
    ensures
        r.raw() == value,
        r@ == Option::Some(value),
{
    Optioned::<T>::some(value)
}

/// Creates an `Optioned<T>` that holds no value.
pub fn none<T: Noned + Copy>() -> (r: Optioned<T>)
    ensures
        r.raw() == T::spec_none(),
        r@ is None,
{
    Optioned::<T>::none()
}

/// Wraps `v` as the raw value of an `Optioned<T>`, whether it is reserved or not.
pub fn wrap<T: Noned + Copy>(v: T) -> (r: Optioned<T>)
    ensures
        r.raw() == v,
        r@ == present(v),
{
    Optioned { value: v }
}

/// Iterates over an `Optioned<T>`, yielding its value at most once.
#[derive(Clone, Copy)]
pub struct OptionedIter<T: Noned + Copy> {
    o: Optioned<T>,
}

impl<T: Noned + Copy> View for OptionedIter<T> {
    type V = Option<T>;

    /// The value not yet yielded.
    closed spec fn view(&self) -> Option<T> {
        self.o@
    }
}

impl<T: Noned + Copy> OptionedIter<T> {
    /// The value not yet yielded, if any; afterwards the iterator is exhausted.
    pub fn next(&mut self) -> (r: Option<T>)
        ensures
            r == old(self)@,
            final(self)@ is None,
    {
        self.o.take()
    }
}

/// Two `Optioned` are equal when they stand for the same option: two nones are
/// equal whatever the reserved value's own equality says.
impl<T: OptEq + Noned + Copy> PartialEq for Optioned<T> {
    fn eq(&self, other: &Self) -> (r: bool) {
        proof {
            T::lemma_opt_eq(self.value, other.value);
        }
        self.value.opt_eq(&other.value)
    }
}

impl<T: OptEq + Noned + Copy> vstd::std_specs::cmp::PartialEqSpecImpl for Optioned<T> {
    open spec fn obeys_eq_spec() -> bool {
        true
    }

    open spec fn eq_spec(&self, other: &Self) -> bool {
        self@ == other@
    }
}

impl<T: OptEq + Noned + Copy> Eq for Optioned<T> {

}

/// None orders below every value; values order as `T` orders them.
impl<T: PartialEq + OptEq + OptOrd + Noned + Copy> PartialOrd for Optioned<T> {
    fn partial_cmp(&self, other: &Self) -> (r: Option<Ordering>) {
        Option::Some(self.value.opt_cmp(&other.value))
    }
}

impl<T: PartialEq + OptEq + OptOrd + Noned + Copy> vstd::std_specs::cmp::PartialOrdSpecImpl for Optioned<T> {
    open spec fn obeys_partial_cmp_spec() -> bool {
        true
    }

    open spec fn partial_cmp_spec(&self, other: &Self) -> Option<Ordering> {
        Option::Some(self.raw().spec_opt_cmp(&other.raw()))
    }
}

/// `Optioned<T>` defaults to none.
impl<T: Noned + Copy> Default for Optioned<T> {
    fn default() -> (r: Optioned<T>)
        ensures
            r.raw() == T::spec_none(),
            r@ is None,
    {
        none()
    }
}

/// `Some(v)` becomes an `Optioned` that holds `v`, `None` one that holds none.
/// `Some` of the reserved value stands for none, as with `wrap`.
impl<'a, T: Noned + Copy> From<&'a Option<T>> for Optioned<T> {
    fn from(o: &'a Option<T>) -> (r: Optioned<T>)
        ensures
            r.raw() == match *o {
                Option::Some(v) => v,
                Option::None => T::spec_none(),
            },
            (*o is None ==> r@ is None),
    {
        match *o {
            Option::Some(v) => wrap(v),
            Option::None => none(),
        }
    }
}

impl<'a, T: Noned + Copy> vstd::std_specs::convert::FromSpecImpl<&'a Option<T>> for Optioned<T> {
    open spec fn obeys_from_spec() -> bool {
        true
    }

    open spec fn from_spec(o: &'a Option<T>) -> Optioned<T> {
        optioned_of(*o)
    }
}

/// `Some(v)` becomes an `Optioned` that holds `v`, `None` one that holds none.
/// `Some` of the reserved value stands for none, as with `wrap`.
impl<T: Noned + Copy> From<Option<T>> for Optioned<T> {
    fn from(o: Option<T>) -> (r: Optioned<T>)
        ensures
            r.raw() == match o {
                Option::Some(v) => v,
                Option::None => T::spec_none(),
            },
            (o is None ==> r@ is None),
    {
        match o {
            Option::Some(v) => wrap(v),
            Option::None => none(),
        }
    }
}

impl<T: Noned + Copy> vstd::std_specs::convert::FromSpecImpl<Option<T>> for Optioned<T> {
    open spec fn obeys_from_spec() -> bool {
        true
    }

    open spec fn from_spec(o: Option<T>) -> Optioned<T> {
        optioned_of(o)
    }
}

/// The option that an `Optioned` stands for.
impl<T: Noned + Copy> From<Optioned<T>> for Option<T> {
    fn from(o: Optioned<T>) -> (r: Option<T>)
        ensures
            r == o@,
    {
        o.as_option()
    }
}

impl<T: Noned + Copy> vstd::std_specs::convert::FromSpecImpl<Optioned<T>> for Option<T> {
    open spec fn obeys_from_spec() -> bool {
        true
    }

    open spec fn from_spec(o: Optioned<T>) -> Option<T> {
        o@
    }
}

/// A raw value becomes the `Optioned` that stores it, as with `wrap`.
impl<T: Noned + Copy> From<T> for Optioned<T> {
    fn from(v: T) -> (r: Optioned<T>)
        ensures
            r.raw() == v,
            r@ == present(v),
    {
        wrap(v)
    }
}

impl<T: Noned + Copy> vstd::std_specs::convert::FromSpecImpl<T> for Optioned<T> {
    open spec fn obeys_from_spec() -> bool {
        true
    }

    open spec fn from_spec(v: T) -> Optioned<T> {
        wrapped(v)
    }
}

/// Converting any `Optioned` to `Option<T>` and back gives the same `Optioned`:
/// `some(v)` comes back as `some(v)`, and `none()` as `none()`.
pub proof fn lemma_round_trip<T: Noned + Copy>(x: Optioned<T>)
    ensures
        <Optioned<T> as FromSpec<Option<T>>>::from_spec(
            <Option<T> as FromSpec<Optioned<T>>>::from_spec(x),
        ) == x,
{
    T::lemma_sentinel(x.value);
}

/// Converting an `Option<T>` that does not hold the reserved value to `Optioned`
/// and back gives the same option.
pub proof fn lemma_option_round_trip<T: Noned + Copy>(o: Option<T>)
    requires
        o is Some ==> !o->0.spec_is_none(),
    ensures
        <Option<T> as FromSpec<Optioned<T>>>::from_spec(
            <Optioned<T> as FromSpec<Option<T>>>::from_spec(o),
        ) == o,
{
    T::lemma_sentinel(T::spec_none());
}

/// None orders below every `Optioned` that holds a value, and two nones compare
/// equal, both by `partial_cmp` and by `==`.
pub proof fn lemma_none_orders_first<T: PartialEq + OptEq + OptOrd + Copy>(
    a: Optioned<T>,
    b: Optioned<T>,
)
    requires
        a@ is None,
    ensures
        b@ is Some ==> a.partial_cmp_spec(&b) == Option::Some(Ordering::Less),
        b@ is Some ==> b.partial_cmp_spec(&a) == Option::Some(Ordering::Greater),
        b@ is None ==> a.partial_cmp_spec(&b) == Option::Some(Ordering::Equal),
        b@ is None ==> a.eq_spec(&b),
{
    T::lemma_opt_cmp(a.value, b.value);
    T::lemma_opt_cmp(b.value, a.value);
}

} // verus!
