//! The capability traits that let a scalar type serve in `Optioned`, and their
//! implementations for the integer types and `char`.
//!
//! Unsigned integers reserve their maximum, signed integers their minimum, and
//! `char` the null code point.
use std::cmp::Ordering;
use vstd::prelude::*;
use crate::{int_cmp, reversed};
use vstd::std_specs::cmp::OrdSpec;

verus! {

/// What the raw value `v` stands for: `None` for the reserved value, else `Some(v)`.
pub open spec fn present<T: Noned>(v: T) -> Option<T> {
    if v.spec_is_none() {
        Option::None
    } else {
        Option::Some(v)
    }
}

/// Orders two raw values with the reserved value below every other; `values`
/// orders two values of which neither is reserved.
pub open spec fn none_first(a_none: bool, b_none: bool, values: Ordering) -> Ordering {
    if a_none {
        if b_none {
            Ordering::Equal
        } else {
            Ordering::Less
        }
    } else if b_none {
        Ordering::Greater
    } else {
        values
    }
}

/// A type with one reserved value that stands for "no value", which lets
/// `Optioned<Self>` take no more space than `Self`.
pub trait Noned: Sized {
    /// Whether `self` is the reserved value.
    spec fn spec_is_none(&self) -> bool;

    /// The reserved value.
    spec fn spec_none() -> Self;

    /// The reserved value tests as none, and no other value does.
    proof fn lemma_sentinel(v: Self)
        ensures
            Self::spec_none().spec_is_none(),
            v.spec_is_none() ==> v == Self::spec_none(),
    ;

    /// Returns `true` if `self` is the reserved value, `false` otherwise.
    fn is_none(&self) -> (r: bool)
        ensures
            r == self.spec_is_none(),
    ;

    /// Returns the reserved value.
    fn get_none() -> (r: Self)
        ensures
            r == Self::spec_none(),
    ;
}

/// Equality of raw values as `Optioned` sees it.
pub trait OptEq: Noned {
    /// Whether the two raw values stand for the same option.
    spec fn spec_opt_eq(&self, other: &Self) -> bool;

    /// Two raw values are equal exactly when they stand for the same option.
    proof fn lemma_opt_eq(a: Self, b: Self)
        ensures
            a.spec_opt_eq(&b) <==> present(a) == present(b),
    ;

    /// Is the other raw value equal to this one?
    fn opt_eq(&self, other: &Self) -> (r: bool)
        ensures
            r == self.spec_opt_eq(other),
    ;
}

/// Ordering of raw values as `Optioned` sees it: the reserved value first.
pub trait OptOrd: Noned {
    /// How the two raw values compare.
    spec fn spec_opt_cmp(&self, other: &Self) -> Ordering;

    /// The reserved value orders below every other and equal to itself;
    /// comparisons are antisymmetric, and equal exactly on equal options.
    proof fn lemma_opt_cmp(a: Self, b: Self)
        ensures
            a.spec_is_none() && b.spec_is_none() ==> a.spec_opt_cmp(&b) == Ordering::Equal,
            a.spec_is_none() && !b.spec_is_none() ==> a.spec_opt_cmp(&b) == Ordering::Less,
            !a.spec_is_none() && b.spec_is_none() ==> a.spec_opt_cmp(&b) == Ordering::Greater,
            a.spec_opt_cmp(&b) == Ordering::Equal <==> present(a) == present(b),
            b.spec_opt_cmp(&a) == reversed(a.spec_opt_cmp(&b)),
    ;

    /// Compares this raw value with another.
    fn opt_cmp(&self, other: &Self) -> (r: Ordering)
        ensures
            r == self.spec_opt_cmp(other),
    ;
}

/// Of every kind: the reserved value tests as none, and every other value tests
/// as some.
pub proof fn lemma_sentinel_exclusive<T: Noned>(v: T)
    ensures
        T::spec_none().spec_is_none(),
        v.spec_is_none() <==> v == T::spec_none(),
{
    T::lemma_sentinel(v);
    T::lemma_sentinel(T::spec_none());
}

/// Compares two raw values of a totally ordered type, the reserved value first.
fn cmp_none_first<T: Ord + Copy + Noned>(a: &T, b: &T) -> (r: Ordering)
    requires
        T::obeys_cmp_spec(),
    ensures
        r == none_first(a.spec_is_none(), b.spec_is_none(), a.cmp_spec(b)),
{
    if a.is_none() {
        if b.is_none() {
            Ordering::Equal
        } else {
            Ordering::Less
        }
    } else if b.is_none() {
        Ordering::Greater
    } else {
        a.cmp(b)
    }
}

impl Noned for u8 {
    open spec fn spec_is_none(&self) -> bool {
        *self == u8::MAX
    }

    open spec fn spec_none() -> u8 {
        u8::MAX
    }

    proof fn lemma_sentinel(v: u8) {
    }

    fn is_none(&self) -> bool {
        *self == u8::MAX
    }

    fn get_none() -> u8 {
        u8::MAX
    }
}

impl Noned for u16 {
    open spec fn spec_is_none(&self) -> bool {
        *self == u16::MAX
    }

    open spec fn spec_none() -> u16 {
        u16::MAX
    }

    proof fn lemma_sentinel(v: u16) {
    }

    fn is_none(&self) -> bool {
        *self == u16::MAX
    }

    fn get_none() -> u16 {
        u16::MAX
    }
}

impl Noned for u32 {
    open spec fn spec_is_none(&self) -> bool {
        *self == u32::MAX
    }

    open spec fn spec_none() -> u32 {
        u32::MAX
    }

    proof fn lemma_sentinel(v: u32) {
    }

    fn is_none(&self) -> bool {
        *self == u32::MAX
    }

    fn get_none() -> u32 {
        u32::MAX
    }
}

impl Noned for u64 {
    open spec fn spec_is_none(&self) -> bool {
        *self == u64::MAX
    }

    open spec fn spec_none() -> u64 {
        u64::MAX
    }

    proof fn lemma_sentinel(v: u64) {
    }

    fn is_none(&self) -> bool {
        *self == u64::MAX
    }

    fn get_none() -> u64 {
        u64::MAX
    }
}

impl Noned for usize {
    open spec fn spec_is_none(&self) -> bool {
        *self == usize::MAX
    }

    open spec fn spec_none() -> usize {
        usize::MAX
    }

    proof fn lemma_sentinel(v: usize) {
    }

    fn is_none(&self) -> bool {
        *self == usize::MAX
    }

    fn get_none() -> usize {
        usize::MAX
    }
}

impl Noned for i8 {
    open spec fn spec_is_none(&self) -> bool {
        *self == i8::MIN
    }

    open spec fn spec_none() -> i8 {
        i8::MIN
    }

    proof fn lemma_sentinel(v: i8) {
    }

    fn is_none(&self) -> bool {
        *self == i8::MIN
    }

    fn get_none() -> i8 {
        i8::MIN
    }
}

impl Noned for i16 {
    open spec fn spec_is_none(&self) -> bool {
        *self == i16::MIN
    }

    open spec fn spec_none() -> i16 {
        i16::MIN
    }

    proof fn lemma_sentinel(v: i16) {
    }

    fn is_none(&self) -> bool {
        *self == i16::MIN
    }

    fn get_none() -> i16 {
        i16::MIN
    }
}

impl Noned for i32 {
    open spec fn spec_is_none(&self) -> bool {
        *self == i32::MIN
    }

    open spec fn spec_none() -> i32 {
        i32::MIN
    }

    proof fn lemma_sentinel(v: i32) {
    }

    fn is_none(&self) -> bool {
        *self == i32::MIN
    }

    fn get_none() -> i32 {
        i32::MIN
    }
}

impl Noned for i64 {
    open spec fn spec_is_none(&self) -> bool {
        *self == i64::MIN
    }

    open spec fn spec_none() -> i64 {
        i64::MIN
    }

    proof fn lemma_sentinel(v: i64) {
    }

    fn is_none(&self) -> bool {
        *self == i64::MIN
    }

    fn get_none() -> i64 {
        i64::MIN
    }
}

impl Noned for isize {
    open spec fn spec_is_none(&self) -> bool {
        *self == isize::MIN
    }

    open spec fn spec_none() -> isize {
        isize::MIN
    }

    proof fn lemma_sentinel(v: isize) {
    }

    fn is_none(&self) -> bool {
        *self == isize::MIN
    }

    fn get_none() -> isize {
        isize::MIN
    }
}

impl Noned for char {
    open spec fn spec_is_none(&self) -> bool {
        *self == '\0'
    }

    open spec fn spec_none() -> char {
        '\0'
    }

    proof fn lemma_sentinel(v: char) {
    }

    fn is_none(&self) -> bool {
        *self == '\0'
    }

    fn get_none() -> char {
        '\0'
    }
}

impl OptEq for u8 {
    open spec fn spec_opt_eq(&self, other: &u8) -> bool {
        *self == *other
    }

    proof fn lemma_opt_eq(a: u8, b: u8) {
    }

    fn opt_eq(&self, other: &u8) -> bool {
        *self == *other
    }
}

impl OptEq for u16 {
    open spec fn spec_opt_eq(&self, other: &u16) -> bool {
        *self == *other
    }

    proof fn lemma_opt_eq(a: u16, b: u16) {
    }

    fn opt_eq(&self, other: &u16) -> bool {
        *self == *other
    }
}

impl OptEq for u32 {
    open spec fn spec_opt_eq(&self, other: &u32) -> bool {
        *self == *other
    }

    proof fn lemma_opt_eq(a: u32, b: u32) {
    }

    fn opt_eq(&self, other: &u32) -> bool {
        *self == *other
    }
}

impl OptEq for u64 {
    open spec fn spec_opt_eq(&self, other: &u64) -> bool {
        *self == *other
    }

    proof fn lemma_opt_eq(a: u64, b: u64) {
    }

    fn opt_eq(&self, other: &u64) -> bool {
        *self == *other
    }
}

impl OptEq for usize {
    open spec fn spec_opt_eq(&self, other: &usize) -> bool {
        *self == *other
    }

    proof fn lemma_opt_eq(a: usize, b: usize) {
    }

    fn opt_eq(&self, other: &usize) -> bool {
        *self == *other
    }
}

impl OptEq for i8 {
    open spec fn spec_opt_eq(&self, other: &i8) -> bool {
        *self == *other
    }

    proof fn lemma_opt_eq(a: i8, b: i8) {
    }

    fn opt_eq(&self, other: &i8) -> bool {
        *self == *other
    }
}

impl OptEq for i16 {
    open spec fn spec_opt_eq(&self, other: &i16) -> bool {
        *self == *other
    }

    proof fn lemma_opt_eq(a: i16, b: i16) {
    }

    fn opt_eq(&self, other: &i16) -> bool {
        *self == *other
    }
}

impl OptEq for i32 {
    open spec fn spec_opt_eq(&self, other: &i32) -> bool {
        *self == *other
    }

    proof fn lemma_opt_eq(a: i32, b: i32) {
    }

    fn opt_eq(&self, other: &i32) -> bool {
        *self == *other
    }
}

impl OptEq for i64 {
    open spec fn spec_opt_eq(&self, other: &i64) -> bool {
        *self == *other
    }

    proof fn lemma_opt_eq(a: i64, b: i64) {
    }

    fn opt_eq(&self, other: &i64) -> bool {
        *self == *other
    }
}

impl OptEq for isize {
    open spec fn spec_opt_eq(&self, other: &isize) -> bool {
        *self == *other
    }

    proof fn lemma_opt_eq(a: isize, b: isize) {
    }

    fn opt_eq(&self, other: &isize) -> bool {
        *self == *other
    }
}

impl OptEq for char {
    open spec fn spec_opt_eq(&self, other: &char) -> bool {
        *self == *other
    }

    proof fn lemma_opt_eq(a: char, b: char) {
    }

    fn opt_eq(&self, other: &char) -> bool {
        *self == *other
    }
}

impl OptOrd for u8 {
    open spec fn spec_opt_cmp(&self, other: &u8) -> Ordering {
        none_first(self.spec_is_none(), other.spec_is_none(), int_cmp(*self as int, *other as int))
    }

    proof fn lemma_opt_cmp(a: u8, b: u8) {
    }

    fn opt_cmp(&self, other: &u8) -> Ordering {
        cmp_none_first(self, other)
    }
}

impl OptOrd for u16 {
    open spec fn spec_opt_cmp(&self, other: &u16) -> Ordering {
        none_first(self.spec_is_none(), other.spec_is_none(), int_cmp(*self as int, *other as int))
    }

    proof fn lemma_opt_cmp(a: u16, b: u16) {
    }

    fn opt_cmp(&self, other: &u16) -> Ordering {
        cmp_none_first(self, other)
    }
}

impl OptOrd for u32 {
    open spec fn spec_opt_cmp(&self, other: &u32) -> Ordering {
        none_first(self.spec_is_none(), other.spec_is_none(), int_cmp(*self as int, *other as int))
    }

    proof fn lemma_opt_cmp(a: u32, b: u32) {
    }

    fn opt_cmp(&self, other: &u32) -> Ordering {
        cmp_none_first(self, other)
    }
}

impl OptOrd for u64 {
    open spec fn spec_opt_cmp(&self, other: &u64) -> Ordering {
        none_first(self.spec_is_none(), other.spec_is_none(), int_cmp(*self as int, *other as int))
    }

    proof fn lemma_opt_cmp(a: u64, b: u64) {
    }

    fn opt_cmp(&self, other: &u64) -> Ordering {
        cmp_none_first(self, other)
    }
}

impl OptOrd for usize {
    open spec fn spec_opt_cmp(&self, other: &usize) -> Ordering {
        none_first(self.spec_is_none(), other.spec_is_none(), int_cmp(*self as int, *other as int))
    }

    proof fn lemma_opt_cmp(a: usize, b: usize) {
    }

    fn opt_cmp(&self, other: &usize) -> Ordering {
        cmp_none_first(self, other)
    }
}

impl OptOrd for i8 {
    /// The reserved minimum is already the smallest value.
    open spec fn spec_opt_cmp(&self, other: &i8) -> Ordering {
        int_cmp(*self as int, *other as int)
    }

    proof fn lemma_opt_cmp(a: i8, b: i8) {
    }

    fn opt_cmp(&self, other: &i8) -> Ordering {
        self.cmp(other)
    }
}

impl OptOrd for i16 {
    /// The reserved minimum is already the smallest value.
    open spec fn spec_opt_cmp(&self, other: &i16) -> Ordering {
        int_cmp(*self as int, *other as int)
    }

    proof fn lemma_opt_cmp(a: i16, b: i16) {
    }

    fn opt_cmp(&self, other: &i16) -> Ordering {
        self.cmp(other)
    }
}

impl OptOrd for i32 {
    /// The reserved minimum is already the smallest value.
    open spec fn spec_opt_cmp(&self, other: &i32) -> Ordering {
        int_cmp(*self as int, *other as int)
    }

    proof fn lemma_opt_cmp(a: i32, b: i32) {
    }

    fn opt_cmp(&self, other: &i32) -> Ordering {
        self.cmp(other)
    }
}

impl OptOrd for i64 {
    /// The reserved minimum is already the smallest value.
    open spec fn spec_opt_cmp(&self, other: &i64) -> Ordering {
        int_cmp(*self as int, *other as int)
    }

    proof fn lemma_opt_cmp(a: i64, b: i64) {
    }

    fn opt_cmp(&self, other: &i64) -> Ordering {
        self.cmp(other)
    }
}

impl OptOrd for isize {
    /// The reserved minimum is already the smallest value.
    open spec fn spec_opt_cmp(&self, other: &isize) -> Ordering {
        int_cmp(*self as int, *other as int)
    }

    proof fn lemma_opt_cmp(a: isize, b: isize) {
    }

    fn opt_cmp(&self, other: &isize) -> Ordering {
        self.cmp(other)
    }
}

impl OptOrd for char {
    open spec fn spec_opt_cmp(&self, other: &char) -> Ordering {
        none_first(self.spec_is_none(), other.spec_is_none(), int_cmp(*self as int, *other as int))
    }

    proof fn lemma_opt_cmp(a: char, b: char) {
    }

    fn opt_cmp(&self, other: &char) -> Ordering {
        if self.is_none() {
            if other.is_none() {
                Ordering::Equal
            } else {
                Ordering::Less
            }
        } else if other.is_none() {
            Ordering::Greater
        } else if *self < *other {
            Ordering::Less
        } else if *self == *other {
            Ordering::Equal
        } else {
            Ordering::Greater
        }
    }
}

} // verus!
