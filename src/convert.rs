//! Conversion of Rust's native integers to and from the interpreter's `int`
//! objects.
//!
//! Each native type reaches the interpreter by one of three adapters, chosen by
//! the width of the interpreter's native `long`:
//! - the direct adapter goes through `PyLong_FromLong` / `PyLong_AsLong`, for
//!   types whose every value fits a `long`;
//! - the widening adapter converts through a larger native type and narrows
//!   the result with an overflow check;
//! - the 64-bit adapter goes through the `long long` and `unsigned long long`
//!   primitives.
//! Whatever the adapter, the contract of each conversion is the same: a value
//! comes back exactly, or the conversion fails with `OverflowError` (out of
//! range) or `TypeError` (not a number).
use vstd::prelude::*;
use vstd::std_specs::cmp::PartialEqSpec;
use vstd::arithmetic::power2::{pow2, lemma2_to64, lemma2_to64_rest, lemma_pow2_pos, lemma_pow2_strictly_increases};
use vstd::layout::{unsigned_int_max_values, signed_int_min_max_values};
use crate::cast;
use crate::runtime::{
    ErrKind, LongWidth, PyErr, PyObject, PyValue, Python, int_object, long_max, long_min,
    numeric_value,
};

verus! {

/// Smallest value of an integer type of `bits` bits.
pub open spec fn range_min(bits: nat, signed: bool) -> int {
    if signed {
        -(pow2((bits - 1) as nat) as int)
    } else {
        0
    }
}

/// Largest value of an integer type of `bits` bits.
pub open spec fn range_max(bits: nat, signed: bool) -> int {
    if signed {
        pow2((bits - 1) as nat) - 1
    } else {
        pow2(bits) - 1
    }
}

/// A Rust integer type that converts to and from the interpreter's `int`.
pub trait NativeInt: Sized {
    /// The integer that a value stands for.
    spec fn int_value(&self) -> int;

    spec fn min_value() -> int;

    spec fn max_value() -> int;

    /// Width in bits.
    spec fn bits() -> nat;

    spec fn signed() -> bool;

    proof fn lemma_range()
        ensures
            Self::bits() > 0,
            Self::min_value() == range_min(Self::bits(), Self::signed()),
            Self::max_value() == range_max(Self::bits(), Self::signed()),
            i64::MIN <= Self::min_value(),
            Self::max_value() <= u64::MAX,
    ;

    proof fn lemma_int_value(&self)
        ensures
            Self::min_value() <= self.int_value() <= Self::max_value(),
    ;

    proof fn lemma_int_value_injective(&self, other: &Self)
        ensures
            self.int_value() == other.int_value() ==> *self == *other,
    ;

    /// A new `int` object that holds the value. This never fails.
    fn to_object(&self, py: &mut Python) -> (r: PyObject)
        ensures
            final(py).heap() == old(py).heap().push(int_object(self.int_value())),
            final(py).pending() == old(py).pending(),
            final(py).long_width() == old(py).long_width(),
            r.id() == old(py).heap().len(),
    ;

    /// As `to_object`, taking the value.
    fn into_object(self, py: &mut Python) -> (r: PyObject)
        ensures
            final(py).heap() == old(py).heap().push(int_object(self.int_value())),
            final(py).pending() == old(py).pending(),
            final(py).long_width() == old(py).long_width(),
            r.id() == old(py).heap().len(),
    ;

    /// The value of an object as this type. An `int`, or a number that
    /// converts to one, gives its value where it lies in the type's range and
    /// `OverflowError` where it does not; any other object gives `TypeError`.
    /// Objects may be added to the heap on the way; none is changed.
    fn extract(py: &mut Python, ob: &PyObject) -> (r: Result<Self, PyErr>)
        requires
            old(py).has(*ob),
            old(py).pending() is None,
        ensures
            final(py).extends(old(py)),
            final(py).pending() is None,
            match numeric_value(old(py).value_of(*ob)) {
                Some(n) => if Self::min_value() <= n <= Self::max_value() {
                    r matches Ok(x) && x.int_value() == n
                } else {
                    r matches Err(e) && e.kind == ErrKind::Overflow
                },
                None => r matches Err(e) && e.kind == ErrKind::Type,
            },
    ;
}

/// What extracting an object holding `v` as `T` gives: the value, or the kind
/// of the error.
pub open spec fn extract_outcome<T: NativeInt>(v: PyValue) -> Result<int, ErrKind> {
    match numeric_value(v) {
        Some(n) => if T::min_value() <= n <= T::max_value() {
            Ok(n)
        } else {
            Err(ErrKind::Overflow)
        },
        None => Err(ErrKind::Type),
    }
}

/// A conversion's result seen as an integer or an error kind.
pub open spec fn outcome<T: NativeInt>(r: Result<T, PyErr>) -> Result<int, ErrKind> {
    match r {
        Ok(x) => Ok(x.int_value()),
        Err(e) => Err(e.kind),
    }
}

/// A value converted to an object and extracted back as the same type comes
/// back unchanged.
pub proof fn lemma_round_trip<T: NativeInt>(v: T, r: Result<T, PyErr>)
    requires
        outcome(r) == extract_outcome::<T>(int_object(v.int_value())),
    ensures
        r == Ok::<T, PyErr>(v),
{
    T::lemma_range();
    v.lemma_int_value();
    if let Ok(x) = r {
        x.lemma_int_value_injective(&v);
    }
}

/// A value converted to an object and extracted as a type whose range holds
/// the whole range of its own type comes back with the same value.
pub proof fn lemma_widening_round_trip<T: NativeInt, U: NativeInt>(v: T, r: Result<U, PyErr>)
    requires
        U::min_value() <= T::min_value(),
        T::max_value() <= U::max_value(),
        outcome(r) == extract_outcome::<U>(int_object(v.int_value())),
    ensures
        r matches Ok(x) && x.int_value() == v.int_value(),
{
    T::lemma_range();
    v.lemma_int_value();
}

/// An object whose value lies outside a type's range fails to extract as
/// that type, with `OverflowError`: the value is never wrapped, truncated or
/// clamped.
pub proof fn lemma_out_of_range_overflows<T: NativeInt>(v: PyValue, r: Result<T, PyErr>)
    requires
        numeric_value(v) matches Some(n) && (n < T::min_value() || T::max_value() < n),
        outcome(r) == extract_outcome::<T>(v),
    ensures
        r matches Err(e) && e.kind == ErrKind::Overflow,
{
}

/// The largest value of an unsigned type, all of whose bits are set as in the
/// failure value of the unsigned primitives, extracts as that value.
pub proof fn lemma_all_bits_set_extracts<T: NativeInt>(r: Result<T, PyErr>)
    requires
        !T::signed(),
        outcome(r) == extract_outcome::<T>(int_object(T::max_value())),
    ensures
        T::max_value() == pow2(T::bits()) - 1,
        r matches Ok(x) && x.int_value() == T::max_value(),
{
    T::lemma_range();
    lemma_pow2_pos(T::bits());
}

/// A value that fits the unsigned range of a width but not the signed one
/// fails to extract as a signed type of that width, with `OverflowError`, and
/// extracts as an unsigned type of that width or wider.
pub proof fn lemma_unsigned_only_value<S: NativeInt, U: NativeInt>(
    n: int,
    rs: Result<S, PyErr>,
    ru: Result<U, PyErr>,
)
    requires
        S::signed(),
        !U::signed(),
        S::bits() <= U::bits(),
        S::max_value() < n <= range_max(S::bits(), false),
        outcome(rs) == extract_outcome::<S>(int_object(n)),
        outcome(ru) == extract_outcome::<U>(int_object(n)),
    ensures
        rs matches Err(e) && e.kind == ErrKind::Overflow,
        ru matches Ok(x) && x.int_value() == n,
{
    S::lemma_range();
    U::lemma_range();
    if S::bits() < U::bits() {
        lemma_pow2_strictly_increases(S::bits(), U::bits());
    }
}

/// Handle of an `int` object.
pub struct PyLong(PyObject);

impl PyLong {
    pub closed spec fn object(&self) -> PyObject {
        self.0
    }

    /// The object as an `int`, where it is one.
    pub fn try_from_object(py: &Python, ob: &PyObject) -> (r: Option<PyLong>)
        requires
            py.has(*ob),
        ensures
            r is Some <==> py.value_of(*ob) is Int,
            r matches Some(l) ==> l.object() == *ob,
    {
        if py.long_check(ob) {
            Some(PyLong(*ob))
        } else {
            None
        }
    }

    pub fn as_object(&self) -> (r: PyObject)
        ensures
            r == self.object(),
    {
        self.0
    }
}

/// Checks a primitive's result that equals its failure value: it is a
/// failure only where the interpreter has an error pending, and then that
/// error is taken out and returned.
fn err_if_invalid_value<T: PartialEq>(py: &mut Python, invalid_value: T, actual_value: T) -> (r:
    Result<T, PyErr>)
    requires
        T::obeys_eq_spec(),
    ensures
        final(py).heap() == old(py).heap(),
        final(py).long_width() == old(py).long_width(),
        final(py).pending() is None || final(py).pending() == old(py).pending(),
        if actual_value.eq_spec(&invalid_value) && old(py).pending() is Some {
            r == Err::<T, PyErr>(old(py).pending().unwrap()) && final(py).pending() is None
        } else {
            r == Ok::<T, PyErr>(actual_value) && final(py).pending() == old(py).pending()
        },
{
    if actual_value == invalid_value && py.err_occurred() {
        Err(py.err_fetch())
    } else {
        Ok(actual_value)
    }
}

/// `OverflowError` where a narrowing found the value out of range.
fn overflow_if_none<T>(v: Option<T>) -> (r: Result<T, PyErr>)
    ensures
        match v {
            Some(x) => r == Ok::<T, PyErr>(x),
            None => r == Err::<T, PyErr>(PyErr { kind: ErrKind::Overflow }),
        },
{
    match v {
        Some(x) => Ok(x),
        None => Err(PyErr::overflow()),
    }
}

/// The value of an object as a native `long`, by `PyLong_AsLong`.
fn extract_c_long(py: &mut Python, ob: &PyObject) -> (r: Result<i64, PyErr>)
    requires
        old(py).has(*ob),
        old(py).pending() is None,
    ensures
        final(py).heap() == old(py).heap(),
        final(py).long_width() == old(py).long_width(),
        final(py).pending() is None,
        match numeric_value(old(py).value_of(*ob)) {
            Some(n) => if long_min(old(py).long_width()) <= n <= long_max(old(py).long_width()) {
                r == Ok::<i64, PyErr>(n as i64)
            } else {
                r == Err::<i64, PyErr>(PyErr { kind: ErrKind::Overflow })
            },
            None => r == Err::<i64, PyErr>(PyErr { kind: ErrKind::Type }),
        },
{
    let val = py.long_as_long(ob);
    if val == -1 && py.err_occurred() {
        return Err(py.err_fetch());
    }
    Ok(val)
}

/// The value of an object as a native `long long`: an `int` is read directly,
/// another object is first converted by `PyNumber_Long`.
fn extract_long_long(py: &mut Python, ob: &PyObject) -> (r: Result<i64, PyErr>)
    requires
        old(py).has(*ob),
        old(py).pending() is None,
    ensures
        final(py).extends(old(py)),
        final(py).pending() is None,
        match numeric_value(old(py).value_of(*ob)) {
            Some(n) => if i64::MIN <= n <= i64::MAX {
                r == Ok::<i64, PyErr>(n as i64)
            } else {
                r == Err::<i64, PyErr>(PyErr { kind: ErrKind::Overflow })
            },
            None => r == Err::<i64, PyErr>(PyErr { kind: ErrKind::Type }),
        },
{
    if py.long_check(ob) {
        let v = py.long_as_long_long(ob);
        err_if_invalid_value(py, -1i64, v)
    } else {
        match py.number_long(ob) {
            None => Err(py.err_fetch()),
            Some(num) => {
                let v = py.long_as_long_long(&num);
                err_if_invalid_value(py, -1i64, v)
            },
        }
    }
}

/// The value of an object as a native `unsigned long long`: an `int` is read
/// directly, another object is first converted by `PyNumber_Long`.
fn extract_unsigned_long_long(py: &mut Python, ob: &PyObject) -> (r: Result<u64, PyErr>)
    requires
        old(py).has(*ob),
        old(py).pending() is None,
    ensures
        final(py).extends(old(py)),
        final(py).pending() is None,
        match numeric_value(old(py).value_of(*ob)) {
            Some(n) => if 0 <= n <= u64::MAX {
                r == Ok::<u64, PyErr>(n as u64)
            } else {
                r == Err::<u64, PyErr>(PyErr { kind: ErrKind::Overflow })
            },
            None => r == Err::<u64, PyErr>(PyErr { kind: ErrKind::Type }),
        },
{
    if py.long_check(ob) {
        let v = py.long_as_unsigned_long_long(ob);
        err_if_invalid_value(py, u64::MAX, v)
    } else {
        match py.number_long(ob) {
            None => Err(py.err_fetch()),
            Some(num) => {
                let v = py.long_as_unsigned_long_long(&num);
                err_if_invalid_value(py, u64::MAX, v)
            },
        }
    }
}

impl NativeInt for u8 {
    open spec fn int_value(&self) -> int {
        *self as int
    }

    open spec fn min_value() -> int {
        0
    }

    open spec fn max_value() -> int {
        u8::MAX as int
    }

    open spec fn bits() -> nat {
        8
    }

    open spec fn signed() -> bool {
        false
    }

    proof fn lemma_range() {
        lemma2_to64();
    }

    proof fn lemma_int_value(&self) {
    }

    proof fn lemma_int_value_injective(&self, other: &Self) {
    }

    fn to_object(&self, py: &mut Python) -> (r: PyObject) {
        py.long_from_long(*self as i64)
    }

    fn into_object(self, py: &mut Python) -> (r: PyObject) {
        py.long_from_long(self as i64)
    }

    fn extract(py: &mut Python, ob: &PyObject) -> (r: Result<u8, PyErr>) {
        match extract_c_long(py, ob) {
            Ok(v) => overflow_if_none(cast::i64_to_u8(v)),
            Err(e) => Err(e),
        }
    }
}

impl NativeInt for i8 {
    open spec fn int_value(&self) -> int {
        *self as int
    }

    open spec fn min_value() -> int {
        i8::MIN as int
    }

    open spec fn max_value() -> int {
        i8::MAX as int
    }

    open spec fn bits() -> nat {
        8
    }

    open spec fn signed() -> bool {
        true
    }

    proof fn lemma_range() {
        lemma2_to64();
    }

    proof fn lemma_int_value(&self) {
    }

    proof fn lemma_int_value_injective(&self, other: &Self) {
    }

    fn to_object(&self, py: &mut Python) -> (r: PyObject) {
        py.long_from_long(*self as i64)
    }

    fn into_object(self, py: &mut Python) -> (r: PyObject) {
        py.long_from_long(self as i64)
    }

    fn extract(py: &mut Python, ob: &PyObject) -> (r: Result<i8, PyErr>) {
        match extract_c_long(py, ob) {
            Ok(v) => overflow_if_none(cast::i64_to_i8(v)),
            Err(e) => Err(e),
        }
    }
}

impl NativeInt for i16 {
    open spec fn int_value(&self) -> int {
        *self as int
    }

    open spec fn min_value() -> int {
        i16::MIN as int
    }

    open spec fn max_value() -> int {
        i16::MAX as int
    }

    open spec fn bits() -> nat {
        16
    }

    open spec fn signed() -> bool {
        true
    }

    proof fn lemma_range() {
        lemma2_to64();
    }

    proof fn lemma_int_value(&self) {
    }

    proof fn lemma_int_value_injective(&self, other: &Self) {
    }

    fn to_object(&self, py: &mut Python) -> (r: PyObject) {
        py.long_from_long(*self as i64)
    }

    fn into_object(self, py: &mut Python) -> (r: PyObject) {
        py.long_from_long(self as i64)
    }

    fn extract(py: &mut Python, ob: &PyObject) -> (r: Result<i16, PyErr>) {
        match extract_c_long(py, ob) {
            Ok(v) => overflow_if_none(cast::i64_to_i16(v)),
            Err(e) => Err(e),
        }
    }
}

impl NativeInt for u16 {
    open spec fn int_value(&self) -> int {
        *self as int
    }

    open spec fn min_value() -> int {
        0
    }

    open spec fn max_value() -> int {
        u16::MAX as int
    }

    open spec fn bits() -> nat {
        16
    }

    open spec fn signed() -> bool {
        false
    }

    proof fn lemma_range() {
        lemma2_to64();
    }

    proof fn lemma_int_value(&self) {
    }

    proof fn lemma_int_value_injective(&self, other: &Self) {
    }

    fn to_object(&self, py: &mut Python) -> (r: PyObject) {
        py.long_from_long(*self as i64)
    }

    fn into_object(self, py: &mut Python) -> (r: PyObject) {
        py.long_from_long(self as i64)
    }

    fn extract(py: &mut Python, ob: &PyObject) -> (r: Result<u16, PyErr>) {
        match extract_c_long(py, ob) {
            Ok(v) => overflow_if_none(cast::i64_to_u16(v)),
            Err(e) => Err(e),
        }
    }
}

impl NativeInt for i32 {
    open spec fn int_value(&self) -> int {
        *self as int
    }

    open spec fn min_value() -> int {
        i32::MIN as int
    }

    open spec fn max_value() -> int {
        i32::MAX as int
    }

    open spec fn bits() -> nat {
        32
    }

    open spec fn signed() -> bool {
        true
    }

    proof fn lemma_range() {
        lemma2_to64();
    }

    proof fn lemma_int_value(&self) {
    }

    proof fn lemma_int_value_injective(&self, other: &Self) {
    }

    fn to_object(&self, py: &mut Python) -> (r: PyObject) {
        py.long_from_long(*self as i64)
    }

    fn into_object(self, py: &mut Python) -> (r: PyObject) {
        py.long_from_long(self as i64)
    }

    fn extract(py: &mut Python, ob: &PyObject) -> (r: Result<i32, PyErr>) {
        match extract_c_long(py, ob) {
            Ok(v) => overflow_if_none(cast::i64_to_i32(v)),
            Err(e) => Err(e),
        }
    }
}

impl NativeInt for u32 {
    open spec fn int_value(&self) -> int {
        *self as int
    }

    open spec fn min_value() -> int {
        0
    }

    open spec fn max_value() -> int {
        u32::MAX as int
    }

    open spec fn bits() -> nat {
        32
    }

    open spec fn signed() -> bool {
        false
    }

    proof fn lemma_range() {
        lemma2_to64();
    }

    proof fn lemma_int_value(&self) {
    }

    proof fn lemma_int_value_injective(&self, other: &Self) {
    }

    fn to_object(&self, py: &mut Python) -> (r: PyObject) {
        match py.native_long_width() {
            LongWidth::Bits64 => py.long_from_long(*self as i64),
            LongWidth::Bits32 => (*self as u64).into_object(py),
        }
    }

    fn into_object(self, py: &mut Python) -> (r: PyObject) {
        match py.native_long_width() {
            LongWidth::Bits64 => py.long_from_long(self as i64),
            LongWidth::Bits32 => (self as u64).into_object(py),
        }
    }

    fn extract(py: &mut Python, ob: &PyObject) -> (r: Result<u32, PyErr>) {
        match py.native_long_width() {
            LongWidth::Bits64 => match extract_c_long(py, ob) {
                Ok(v) => overflow_if_none(cast::i64_to_u32(v)),
                Err(e) => Err(e),
            },
            LongWidth::Bits32 => match u64::extract(py, ob) {
                Ok(v) => overflow_if_none(cast::u64_to_u32(v)),
                Err(e) => Err(e),
            },
        }
    }
}

impl NativeInt for i64 {
    open spec fn int_value(&self) -> int {
        *self as int
    }

    open spec fn min_value() -> int {
        i64::MIN as int
    }

    open spec fn max_value() -> int {
        i64::MAX as int
    }

    open spec fn bits() -> nat {
        64
    }

    open spec fn signed() -> bool {
        true
    }

    proof fn lemma_range() {
        lemma2_to64();
        lemma2_to64_rest();
    }

    proof fn lemma_int_value(&self) {
    }

    proof fn lemma_int_value_injective(&self, other: &Self) {
    }

    fn to_object(&self, py: &mut Python) -> (r: PyObject) {
        match py.native_long_width() {
            LongWidth::Bits64 => py.long_from_long(*self),
            LongWidth::Bits32 => py.long_from_long_long(*self),
        }
    }

    fn into_object(self, py: &mut Python) -> (r: PyObject) {
        match py.native_long_width() {
            LongWidth::Bits64 => py.long_from_long(self),
            LongWidth::Bits32 => py.long_from_long_long(self),
        }
    }

    fn extract(py: &mut Python, ob: &PyObject) -> (r: Result<i64, PyErr>) {
        match py.native_long_width() {
            LongWidth::Bits64 => match extract_c_long(py, ob) {
                Ok(v) => overflow_if_none(cast::i64_to_i64(v)),
                Err(e) => Err(e),
            },
            LongWidth::Bits32 => extract_long_long(py, ob),
        }
    }
}

impl NativeInt for isize {
    open spec fn int_value(&self) -> int {
        *self as int
    }

    open spec fn min_value() -> int {
        isize::MIN as int
    }

    open spec fn max_value() -> int {
        isize::MAX as int
    }

    open spec fn bits() -> nat {
        isize::BITS as nat
    }

    open spec fn signed() -> bool {
        true
    }

    proof fn lemma_range() {
        lemma2_to64();
        signed_int_min_max_values();
    }

    proof fn lemma_int_value(&self) {
    }

    proof fn lemma_int_value_injective(&self, other: &Self) {
    }

    fn to_object(&self, py: &mut Python) -> (r: PyObject) {
        match py.native_long_width() {
            LongWidth::Bits64 => py.long_from_long(*self as i64),
            LongWidth::Bits32 => (*self as i64).into_object(py),
        }
    }

    fn into_object(self, py: &mut Python) -> (r: PyObject) {
        match py.native_long_width() {
            LongWidth::Bits64 => py.long_from_long(self as i64),
            LongWidth::Bits32 => (self as i64).into_object(py),
        }
    }

    fn extract(py: &mut Python, ob: &PyObject) -> (r: Result<isize, PyErr>) {
        match py.native_long_width() {
            LongWidth::Bits64 => match extract_c_long(py, ob) {
                Ok(v) => overflow_if_none(cast::i64_to_isize(v)),
                Err(e) => Err(e),
            },
            LongWidth::Bits32 => match i64::extract(py, ob) {
                Ok(v) => overflow_if_none(cast::i64_to_isize(v)),
                Err(e) => Err(e),
            },
        }
    }
}

impl NativeInt for usize {
    open spec fn int_value(&self) -> int {
        *self as int
    }

    open spec fn min_value() -> int {
        0
    }

    open spec fn max_value() -> int {
        usize::MAX as int
    }

    open spec fn bits() -> nat {
        usize::BITS as nat
    }

    open spec fn signed() -> bool {
        false
    }

    proof fn lemma_range() {
        lemma2_to64();
        unsigned_int_max_values();
    }

    proof fn lemma_int_value(&self) {
    }

    proof fn lemma_int_value_injective(&self, other: &Self) {
    }

    fn to_object(&self, py: &mut Python) -> (r: PyObject) {
        (*self as u64).into_object(py)
    }

    fn into_object(self, py: &mut Python) -> (r: PyObject) {
        (self as u64).into_object(py)
    }

    fn extract(py: &mut Python, ob: &PyObject) -> (r: Result<usize, PyErr>) {
        match u64::extract(py, ob) {
            Ok(v) => overflow_if_none(cast::u64_to_usize(v)),
            Err(e) => Err(e),
        }
    }
}

impl NativeInt for u64 {
    open spec fn int_value(&self) -> int {
        *self as int
    }

    open spec fn min_value() -> int {
        0
    }

    open spec fn max_value() -> int {
        u64::MAX as int
    }

    open spec fn bits() -> nat {
        64
    }

    open spec fn signed() -> bool {
        false
    }

    proof fn lemma_range() {
        lemma2_to64();
    }

    proof fn lemma_int_value(&self) {
    }

    proof fn lemma_int_value_injective(&self, other: &Self) {
    }

    fn to_object(&self, py: &mut Python) -> (r: PyObject) {
        py.long_from_unsigned_long_long(*self)
    }

    fn into_object(self, py: &mut Python) -> (r: PyObject) {
        py.long_from_unsigned_long_long(self)
    }

    fn extract(py: &mut Python, ob: &PyObject) -> (r: Result<u64, PyErr>) {
        extract_unsigned_long_long(py, ob)
    }
}

} // verus!
