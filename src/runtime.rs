//! A model of the embedded interpreter: its heap of objects, its per-thread
//! pending-error slot, and the integer primitives of its C interface.
//!
//! Every conversion borrows the `Python` value mutably: holding it stands for
//! holding the interpreter's global lock.
use vstd::prelude::*;

verus! {

/// Width of the interpreter's native `long` on the platform it was built for.
#[derive(PartialEq, Eq, Structural, Clone, Copy, Debug)]
pub enum LongWidth {
    /// 32-bit targets, and Windows whatever the pointer width.
    Bits32,
    /// 64-bit targets other than Windows.
    Bits64,
}

/// Smallest value of a native `long` of the given width.
pub open spec fn long_min(w: LongWidth) -> int {
    match w {
        LongWidth::Bits32 => i32::MIN as int,
        LongWidth::Bits64 => i64::MIN as int,
    }
}

/// Largest value of a native `long` of the given width.
pub open spec fn long_max(w: LongWidth) -> int {
    match w {
        LongWidth::Bits32 => i32::MAX as int,
        LongWidth::Bits64 => i64::MAX as int,
    }
}

/// What an object on the interpreter's heap holds, as far as integer
/// conversion can see.
#[derive(PartialEq, Eq, Structural, Clone, Copy, Debug)]
pub enum PyValue {
    /// An `int` object.
    Int(i128),
    /// An object of another type that converts to `int` (it has `__index__`).
    Index(i128),
    /// An object that is not a number.
    Opaque,
}

/// The integer an object stands for, if it stands for one.
pub open spec fn numeric_value(v: PyValue) -> Option<int> {
    match v {
        PyValue::Int(n) => Some(n as int),
        PyValue::Index(n) => Some(n as int),
        PyValue::Opaque => None,
    }
}

/// The `int` object that holds `n`.
pub open spec fn int_object(n: int) -> PyValue {
    PyValue::Int(n as i128)
}

/// The exception types that integer conversion raises.
#[derive(PartialEq, Eq, Structural, Clone, Copy, Debug)]
pub enum ErrKind {
    /// `OverflowError`: the value does not fit the requested type.
    Overflow,
    /// `TypeError`: the object is not an integer and does not convert to one.
    Type,
    /// `SystemError`: an error was fetched while none was pending.
    System,
}

/// An exception taken out of the interpreter.
#[derive(PartialEq, Eq, Structural, Clone, Copy, Debug)]
pub struct PyErr {
    pub kind: ErrKind,
}

impl PyErr {
    /// A fresh `OverflowError`.
    pub fn overflow() -> (r: PyErr)
        ensures
            r.kind == ErrKind::Overflow,
    {
        PyErr { kind: ErrKind::Overflow }
    }

    pub fn is_overflow(&self) -> (r: bool)
        ensures
            r == (self.kind == ErrKind::Overflow),
    {
        match self.kind {
            ErrKind::Overflow => true,
            _ => false,
        }
    }
}

/// A handle to an object on the interpreter's heap.
#[derive(Clone, Copy, Debug)]
pub struct PyObject {
    index: usize,
}

impl PyObject {
    /// The slot of the heap that the handle refers to.
    pub closed spec fn id(&self) -> nat {
        self.index as nat
    }
}

/// The interpreter's state.
pub struct Python {
    objects: Vec<PyValue>,
    pending: Option<PyErr>,
    long: LongWidth,
}

impl Python {
    /// The objects on the heap, by slot.
    pub closed spec fn heap(&self) -> Seq<PyValue> {
        self.objects@
    }

    /// The per-thread pending error.
    pub closed spec fn pending(&self) -> Option<PyErr> {
        self.pending
    }

    /// The width of the native `long`.
    pub closed spec fn long_width(&self) -> LongWidth {
        self.long
    }

    /// The handle refers to an object of this heap.
    pub open spec fn has(&self, ob: PyObject) -> bool {
        ob.id() < self.heap().len()
    }

    pub open spec fn value_of(&self, ob: PyObject) -> PyValue {
        self.heap()[ob.id() as int]
    }

    /// `self` is `old` with objects possibly added: the objects of `old` are
    /// kept, and so is the platform.
    pub open spec fn extends(&self, old: &Python) -> bool {
        &&& old.heap().len() <= self.heap().len()
        &&& self.heap().subrange(0, old.heap().len() as int) =~= old.heap()
        &&& self.long_width() == old.long_width()
    }

    /// An interpreter with an empty heap and no pending error.
    pub fn new(long: LongWidth) -> (r: Python)
        ensures
            r.heap() == Seq::<PyValue>::empty(),
            r.pending() is None,
            r.long_width() == long,
    {
        Python { objects: Vec::new(), pending: None, long }
    }

    pub fn native_long_width(&self) -> (r: LongWidth)
        ensures
            r == self.long_width(),
    {
        self.long
    }

    /// Places an object on the heap and returns a handle to it.
    pub fn new_object(&mut self, v: PyValue) -> (r: PyObject)
        ensures
            final(self).heap() == old(self).heap().push(v),
            final(self).pending() == old(self).pending(),
            final(self).long_width() == old(self).long_width(),
            r.id() == old(self).heap().len(),
    {
        let index = self.objects.len();
        self.objects.push(v);
        PyObject { index }
    }

    /// What the object behind a handle holds.
    pub fn get(&self, ob: &PyObject) -> (r: PyValue)
        requires
            self.has(*ob),
        ensures
            r == self.value_of(*ob),
    {
        self.objects[ob.index]
    }

    fn set_error(&mut self, kind: ErrKind)
        ensures
            final(self).heap() == old(self).heap(),
            final(self).pending() == Some(PyErr { kind }),
            final(self).long_width() == old(self).long_width(),
    {
        self.pending = Some(PyErr { kind });
    }

    /// `PyLong_FromLong`: a new `int` object holding a native `long`.
    pub fn long_from_long(&mut self, v: i64) -> (r: PyObject)
        requires
            long_min(old(self).long_width()) <= v <= long_max(old(self).long_width()),
        ensures
            final(self).heap() == old(self).heap().push(int_object(v as int)),
            final(self).pending() == old(self).pending(),
            final(self).long_width() == old(self).long_width(),
            r.id() == old(self).heap().len(),
    {
        self.new_object(PyValue::Int(v as i128))
    }

    /// `PyLong_FromLongLong`: a new `int` object holding a native `long long`.
    pub fn long_from_long_long(&mut self, v: i64) -> (r: PyObject)
        ensures
            final(self).heap() == old(self).heap().push(int_object(v as int)),
            final(self).pending() == old(self).pending(),
            final(self).long_width() == old(self).long_width(),
            r.id() == old(self).heap().len(),
    {
        self.new_object(PyValue::Int(v as i128))
    }

    /// `PyLong_FromUnsignedLongLong`: a new `int` object holding a native
    /// `unsigned long long`.
    pub fn long_from_unsigned_long_long(&mut self, v: u64) -> (r: PyObject)
        ensures
            final(self).heap() == old(self).heap().push(int_object(v as int)),
            final(self).pending() == old(self).pending(),
            final(self).long_width() == old(self).long_width(),
            r.id() == old(self).heap().len(),
    {
        self.new_object(PyValue::Int(v as i128))
    }

    /// `PyLong_Check`: the object is an `int`.
    pub fn long_check(&self, ob: &PyObject) -> (r: bool)
        requires
            self.has(*ob),
        ensures
            r == (self.value_of(*ob) is Int),
    {
        match self.objects[ob.index] {
            PyValue::Int(_) => true,
            _ => false,
        }
    }

    /// `PyLong_AsLong`: the value as a native `long`. On failure it returns
    /// -1 and leaves an error pending: `TypeError` for an object that is not a
    /// number, `OverflowError` for a value out of range.
    pub fn long_as_long(&mut self, ob: &PyObject) -> (r: i64)
        requires
            old(self).has(*ob),
        ensures
            final(self).heap() == old(self).heap(),
            final(self).long_width() == old(self).long_width(),
            ({
                let w = old(self).long_width();
                match numeric_value(old(self).value_of(*ob)) {
                    Some(n) => if long_min(w) <= n <= long_max(w) {
                        r == n && final(self).pending() == old(self).pending()
                    } else {
                        r == -1 && final(self).pending() == Some(PyErr { kind: ErrKind::Overflow })
                    },
                    None => r == -1 && final(self).pending() == Some(PyErr { kind: ErrKind::Type }),
                }
            }),
    {
        let (lo, hi): (i128, i128) = match self.long {
            LongWidth::Bits32 => (i32::MIN as i128, i32::MAX as i128),
            LongWidth::Bits64 => (i64::MIN as i128, i64::MAX as i128),
        };
        match self.objects[ob.index] {
            PyValue::Int(n) | PyValue::Index(n) => {
                if lo <= n && n <= hi {
                    n as i64
                } else {
                    self.set_error(ErrKind::Overflow);
                    -1
                }
            },
            PyValue::Opaque => {
                self.set_error(ErrKind::Type);
                -1
            },
        }
    }

    /// `PyLong_AsLongLong`: the value as a native `long long`, with the
    /// failures of `PyLong_AsLong`.
    pub fn long_as_long_long(&mut self, ob: &PyObject) -> (r: i64)
        requires
            old(self).has(*ob),
        ensures
            final(self).heap() == old(self).heap(),
            final(self).long_width() == old(self).long_width(),
            match numeric_value(old(self).value_of(*ob)) {
                Some(n) => if i64::MIN <= n <= i64::MAX {
                    r == n && final(self).pending() == old(self).pending()
                } else {
                    r == -1 && final(self).pending() == Some(PyErr { kind: ErrKind::Overflow })
                },
                None => r == -1 && final(self).pending() == Some(PyErr { kind: ErrKind::Type }),
            },
    {
        match self.objects[ob.index] {
            PyValue::Int(n) | PyValue::Index(n) => {
                if i64::MIN as i128 <= n && n <= i64::MAX as i128 {
                    n as i64
                } else {
                    self.set_error(ErrKind::Overflow);
                    -1
                }
            },
            PyValue::Opaque => {
                self.set_error(ErrKind::Type);
                -1
            },
        }
    }

    /// `PyLong_AsUnsignedLongLong`: the value of an `int` object as a native
    /// `unsigned long long`. On failure it returns all bits set and leaves an
    /// error pending: `TypeError` for an object that is not an `int` (no
    /// conversion is tried), `OverflowError` for a value out of range.
    pub fn long_as_unsigned_long_long(&mut self, ob: &PyObject) -> (r: u64)
        requires
            old(self).has(*ob),
        ensures
            final(self).heap() == old(self).heap(),
            final(self).long_width() == old(self).long_width(),
            match old(self).value_of(*ob) {
                PyValue::Int(n) => if 0 <= n <= u64::MAX {
                    r == n && final(self).pending() == old(self).pending()
                } else {
                    r == u64::MAX && final(self).pending() == Some(PyErr { kind: ErrKind::Overflow })
                },
                _ => r == u64::MAX && final(self).pending() == Some(PyErr { kind: ErrKind::Type }),
            },
    {
        match self.objects[ob.index] {
            PyValue::Int(n) => {
                if 0 <= n && n <= u64::MAX as i128 {
                    n as u64
                } else {
                    self.set_error(ErrKind::Overflow);
                    u64::MAX
                }
            },
            _ => {
                self.set_error(ErrKind::Type);
                u64::MAX
            },
        }
    }

    /// `PyNumber_Long`: an `int` object for a number. An `int` is returned as
    /// it is; another number is converted into a new object. For an object
    /// that is not a number it leaves `TypeError` pending and returns `None`.
    pub fn number_long(&mut self, ob: &PyObject) -> (r: Option<PyObject>)
        requires
            old(self).has(*ob),
        ensures
            final(self).extends(old(self)),
            match old(self).value_of(*ob) {
                PyValue::Int(_) => r == Some(*ob) && final(self).heap() == old(self).heap()
                    && final(self).pending() == old(self).pending(),
                PyValue::Index(n) => r matches Some(o) && final(self).has(o)
                    && final(self).value_of(o) == PyValue::Int(n)
                    && final(self).pending() == old(self).pending(),
                PyValue::Opaque => r is None && final(self).heap() == old(self).heap()
                    && final(self).pending() == Some(PyErr { kind: ErrKind::Type }),
            },
    {
        match self.objects[ob.index] {
            PyValue::Int(_) => Some(*ob),
            PyValue::Index(n) => {
                Some(self.new_object(PyValue::Int(n)))
            },
            PyValue::Opaque => {
                self.set_error(ErrKind::Type);
                None
            },
        }
    }

    /// `PyErr_Occurred`: an error is pending.
    pub fn err_occurred(&self) -> (r: bool)
        ensures
            r == (self.pending() is Some),
    {
        self.pending.is_some()
    }

    /// `PyErr_Fetch`: takes the pending error out, leaving none. Where none
    /// was pending, the result is a `SystemError`.
    pub fn err_fetch(&mut self) -> (r: PyErr)
        ensures
            final(self).heap() == old(self).heap(),
            final(self).long_width() == old(self).long_width(),
            final(self).pending() is None,
            r == (match old(self).pending() {
                Some(e) => e,
                None => PyErr { kind: ErrKind::System },
            }),
    {
        match self.pending.take() {
            Some(e) => e,
            None => PyErr { kind: ErrKind::System },
        }
    }
}

} // verus!
