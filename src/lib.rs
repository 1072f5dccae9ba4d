//! Cheap-to-clone values and immutable containers built on them.
//!
//! The marker trait [`ImplicitClone`] tags types whose clone is a constant-time copy of a handle
//! and yields the same logical value. The containers of [`unsync`] and [`sync`] hold their data
//! either in static memory, in a reference-counted buffer, or inline, and read the same whatever
//! the storage.
use vstd::prelude::*;

pub mod array;
pub mod atomic_array;
pub mod atomic_map;
pub mod atomic_string;
pub mod map;
pub mod string;
pub mod sync;
pub mod unsync;

verus! {

/// A type whose duplication is cheap and yields a value equal to the original.
///
/// Implementors state that duplicating a value copies a handle (or a few machine words) and
/// never the data behind it, so holders may duplicate it implicitly and liberally. For a type
/// that also implements `Clone`, `implicit_clone` is expected to be that clone.
pub trait ImplicitClone: Sized {
    /// Duplicates the value; the copy is the same logical value.
    fn implicit_clone(&self) -> (r: Self)
        ensures
            r == *self,
    ;
}

impl ImplicitClone for u8 {
    fn implicit_clone(&self) -> (r: Self) {
        *self
    }
}

impl ImplicitClone for u16 {
    fn implicit_clone(&self) -> (r: Self) {
        *self
    }
}

impl ImplicitClone for u32 {
    fn implicit_clone(&self) -> (r: Self) {
        *self
    }
}

impl ImplicitClone for u64 {
    fn implicit_clone(&self) -> (r: Self) {
        *self
    }
}

impl ImplicitClone for u128 {
    fn implicit_clone(&self) -> (r: Self) {
        *self
    }
}

impl ImplicitClone for i8 {
    fn implicit_clone(&self) -> (r: Self) {
        *self
    }
}

impl ImplicitClone for i16 {
    fn implicit_clone(&self) -> (r: Self) {
        *self
    }
}

impl ImplicitClone for i32 {
    fn implicit_clone(&self) -> (r: Self) {
        *self
    }
}

impl ImplicitClone for i64 {
    fn implicit_clone(&self) -> (r: Self) {
        *self
    }
}

impl ImplicitClone for i128 {
    fn implicit_clone(&self) -> (r: Self) {
        *self
    }
}

impl ImplicitClone for bool {
    fn implicit_clone(&self) -> (r: Self) {
        *self
    }
}

impl ImplicitClone for usize {
    fn implicit_clone(&self) -> (r: Self) {
        *self
    }
}

impl ImplicitClone for isize {
    fn implicit_clone(&self) -> (r: Self) {
        *self
    }
}

impl ImplicitClone for char {
    fn implicit_clone(&self) -> (r: Self) {
        *self
    }
}

impl ImplicitClone for () {
    fn implicit_clone(&self) -> (r: Self) {
        *self
    }
}

impl<'a, T: ?Sized> ImplicitClone for &'a T {
    fn implicit_clone(&self) -> (r: Self) {
        *self
    }
}

impl<T: ImplicitClone> ImplicitClone for Option<T> {
    fn implicit_clone(&self) -> (r: Self) {
        match self {
            Some(x) => Some(x.implicit_clone()),
            None => None,
        }
    }
}

impl<T: ImplicitClone + Copy, const N: usize> ImplicitClone for [T; N] {
    fn implicit_clone(&self) -> (r: Self) {
        *self
    }
}

impl<T: ?Sized> ImplicitClone for std::rc::Rc<T> {
    fn implicit_clone(&self) -> (r: Self) {
        crate::array::rc_clone(self)
    }
}

impl<T1: ImplicitClone> ImplicitClone for (T1,) {
    fn implicit_clone(&self) -> (r: Self) {
        (self.0.implicit_clone(),)
    }
}

impl<T1: ImplicitClone, T2: ImplicitClone> ImplicitClone for (T1, T2) {
    fn implicit_clone(&self) -> (r: Self) {
        (self.0.implicit_clone(), self.1.implicit_clone())
    }
}

impl<T1: ImplicitClone, T2: ImplicitClone, T3: ImplicitClone> ImplicitClone for (T1, T2, T3) {
    fn implicit_clone(&self) -> (r: Self) {
        (self.0.implicit_clone(), self.1.implicit_clone(), self.2.implicit_clone())
    }
}

impl<
    T1: ImplicitClone,
    T2: ImplicitClone,
    T3: ImplicitClone,
    T4: ImplicitClone,
> ImplicitClone for (T1, T2, T3, T4) {
    fn implicit_clone(&self) -> (r: Self) {
        (self.0.implicit_clone(), self.1.implicit_clone(), self.2.implicit_clone(), self.3.implicit_clone())
    }
}

impl<
    T1: ImplicitClone,
    T2: ImplicitClone,
    T3: ImplicitClone,
    T4: ImplicitClone,
    T5: ImplicitClone,
> ImplicitClone for (T1, T2, T3, T4, T5) {
    fn implicit_clone(&self) -> (r: Self) {
        (self.0.implicit_clone(), self.1.implicit_clone(), self.2.implicit_clone(), self.3.implicit_clone(), self.4.implicit_clone())
    }
}

impl<
    T1: ImplicitClone,
    T2: ImplicitClone,
    T3: ImplicitClone,
    T4: ImplicitClone,
    T5: ImplicitClone,
    T6: ImplicitClone,
> ImplicitClone for (T1, T2, T3, T4, T5, T6) {
    fn implicit_clone(&self) -> (r: Self) {
        (self.0.implicit_clone(), self.1.implicit_clone(), self.2.implicit_clone(), self.3.implicit_clone(), self.4.implicit_clone(), self.5.implicit_clone())
    }
}

impl<
    T1: ImplicitClone,
    T2: ImplicitClone,
    T3: ImplicitClone,
    T4: ImplicitClone,
    T5: ImplicitClone,
    T6: ImplicitClone,
    T7: ImplicitClone,
> ImplicitClone for (T1, T2, T3, T4, T5, T6, T7) {
    fn implicit_clone(&self) -> (r: Self) {
        (self.0.implicit_clone(), self.1.implicit_clone(), self.2.implicit_clone(), self.3.implicit_clone(), self.4.implicit_clone(), self.5.implicit_clone(), self.6.implicit_clone())
    }
}

impl<
    T1: ImplicitClone,
    T2: ImplicitClone,
    T3: ImplicitClone,
    T4: ImplicitClone,
    T5: ImplicitClone,
    T6: ImplicitClone,
    T7: ImplicitClone,
    T8: ImplicitClone,
> ImplicitClone for (T1, T2, T3, T4, T5, T6, T7, T8) {
    fn implicit_clone(&self) -> (r: Self) {
        (self.0.implicit_clone(), self.1.implicit_clone(), self.2.implicit_clone(), self.3.implicit_clone(), self.4.implicit_clone(), self.5.implicit_clone(), self.6.implicit_clone(), self.7.implicit_clone())
    }
}

impl<
    T1: ImplicitClone,
    T2: ImplicitClone,
    T3: ImplicitClone,
    T4: ImplicitClone,
    T5: ImplicitClone,
    T6: ImplicitClone,
    T7: ImplicitClone,
    T8: ImplicitClone,
    T9: ImplicitClone,
> ImplicitClone for (T1, T2, T3, T4, T5, T6, T7, T8, T9) {
    fn implicit_clone(&self) -> (r: Self) {
        (self.0.implicit_clone(), self.1.implicit_clone(), self.2.implicit_clone(), self.3.implicit_clone(), self.4.implicit_clone(), self.5.implicit_clone(), self.6.implicit_clone(), self.7.implicit_clone(), self.8.implicit_clone())
    }
}

impl<
    T1: ImplicitClone,
    T2: ImplicitClone,
    T3: ImplicitClone,
    T4: ImplicitClone,
    T5: ImplicitClone,
    T6: ImplicitClone,
    T7: ImplicitClone,
    T8: ImplicitClone,
    T9: ImplicitClone,
    T10: ImplicitClone,
> ImplicitClone for (T1, T2, T3, T4, T5, T6, T7, T8, T9, T10) {
    fn implicit_clone(&self) -> (r: Self) {
        (self.0.implicit_clone(), self.1.implicit_clone(), self.2.implicit_clone(), self.3.implicit_clone(), self.4.implicit_clone(), self.5.implicit_clone(), self.6.implicit_clone(), self.7.implicit_clone(), self.8.implicit_clone(), self.9.implicit_clone())
    }
}

impl<
    T1: ImplicitClone,
    T2: ImplicitClone,
    T3: ImplicitClone,
    T4: ImplicitClone,
    T5: ImplicitClone,
    T6: ImplicitClone,
    T7: ImplicitClone,
    T8: ImplicitClone,
    T9: ImplicitClone,
    T10: ImplicitClone,
    T11: ImplicitClone,
> ImplicitClone for (T1, T2, T3, T4, T5, T6, T7, T8, T9, T10, T11) {
    fn implicit_clone(&self) -> (r: Self) {
        (self.0.implicit_clone(), self.1.implicit_clone(), self.2.implicit_clone(), self.3.implicit_clone(), self.4.implicit_clone(), self.5.implicit_clone(), self.6.implicit_clone(), self.7.implicit_clone(), self.8.implicit_clone(), self.9.implicit_clone(), self.10.implicit_clone())
    }
}

impl<
    T1: ImplicitClone,
    T2: ImplicitClone,
    T3: ImplicitClone,
    T4: ImplicitClone,
    T5: ImplicitClone,
    T6: ImplicitClone,
    T7: ImplicitClone,
    T8: ImplicitClone,
    T9: ImplicitClone,
    T10: ImplicitClone,
    T11: ImplicitClone,
    T12: ImplicitClone,
> ImplicitClone for (T1, T2, T3, T4, T5, T6, T7, T8, T9, T10, T11, T12) {
    fn implicit_clone(&self) -> (r: Self) {
        (self.0.implicit_clone(), self.1.implicit_clone(), self.2.implicit_clone(), self.3.implicit_clone(), self.4.implicit_clone(), self.5.implicit_clone(), self.6.implicit_clone(), self.7.implicit_clone(), self.8.implicit_clone(), self.9.implicit_clone(), self.10.implicit_clone(), self.11.implicit_clone())
    }
}

} // verus!
