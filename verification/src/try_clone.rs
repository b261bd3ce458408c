//! Cloning that may fail.

use vstd::prelude::*;
use crate::memory::Error;

verus! {

/// The elements of a vector as a boxed slice.
///
/// Trusted: calls `Vec::into_boxed_slice` of the standard library, which
/// converts the vector into a boxed slice of the same elements.
#[verifier::external_body]
fn into_boxed_slice<T>(v: Vec<T>) -> (b: Box<[T]>)
    ensures
        b@ == v@,
{
    v.into_boxed_slice()
}

/// A clone that reports a failed allocation instead of aborting.
///
/// A successful clone has the same deep view as its source.
pub trait TryClone: Sized + DeepView {
    /// Clones the value.
    fn try_clone(&self) -> (r: Result<Self, Error>)
        ensures
            r matches Ok(c) ==> c.deep_view() == self.deep_view(),
    ;

    /// Replaces the value by a clone of `source`. Where cloning fails the
    /// value is left as it was.
    fn try_clone_from(&mut self, source: &Self) -> (r: Result<(), Error>)
        ensures
            r is Ok ==> final(self).deep_view() == source.deep_view(),
            r is Err ==> *final(self) == *old(self),
    {
        let outcome = source.try_clone();
        assigned(self, outcome)
    }
}

/// Marks the types whose clone is a plain copy.
pub trait TryCopy: TryClone {

}

impl<T: ?Sized + DeepView> TryClone for &T {
    fn try_clone(&self) -> (r: Result<Self, Error>)
        ensures
            r == Ok::<Self, Error>(*self),
    {
        Ok(*self)
    }
}

impl TryClone for usize {
    fn try_clone(&self) -> (r: Result<Self, Error>)
        ensures
            r == Ok::<Self, Error>(*self),
    {
        Ok(*self)
    }
}

impl TryCopy for usize {

}

impl TryClone for isize {
    fn try_clone(&self) -> (r: Result<Self, Error>)
        ensures
            r == Ok::<Self, Error>(*self),
    {
        Ok(*self)
    }
}

impl TryCopy for isize {

}

impl TryClone for u8 {
    fn try_clone(&self) -> (r: Result<Self, Error>)
        ensures
            r == Ok::<Self, Error>(*self),
    {
        Ok(*self)
    }
}

impl TryCopy for u8 {

}

impl TryClone for u16 {
    fn try_clone(&self) -> (r: Result<Self, Error>)
        ensures
            r == Ok::<Self, Error>(*self),
    {
        Ok(*self)
    }
}

impl TryCopy for u16 {

}

impl TryClone for u32 {
    fn try_clone(&self) -> (r: Result<Self, Error>)
        ensures
            r == Ok::<Self, Error>(*self),
    {
        Ok(*self)
    }
}

impl TryCopy for u32 {

}

impl TryClone for u64 {
    fn try_clone(&self) -> (r: Result<Self, Error>)
        ensures
            r == Ok::<Self, Error>(*self),
    {
        Ok(*self)
    }
}

impl TryCopy for u64 {

}

impl TryClone for u128 {
    fn try_clone(&self) -> (r: Result<Self, Error>)
        ensures
            r == Ok::<Self, Error>(*self),
    {
        Ok(*self)
    }
}

impl TryCopy for u128 {

}

impl TryClone for i8 {
    fn try_clone(&self) -> (r: Result<Self, Error>)
        ensures
            r == Ok::<Self, Error>(*self),
    {
        Ok(*self)
    }
}

impl TryCopy for i8 {

}

impl TryClone for i16 {
    fn try_clone(&self) -> (r: Result<Self, Error>)
        ensures
            r == Ok::<Self, Error>(*self),
    {
        Ok(*self)
    }
}

impl TryCopy for i16 {

}

impl TryClone for i32 {
    fn try_clone(&self) -> (r: Result<Self, Error>)
        ensures
            r == Ok::<Self, Error>(*self),
    {
        Ok(*self)
    }
}

impl TryCopy for i32 {

}

impl TryClone for i64 {
    fn try_clone(&self) -> (r: Result<Self, Error>)
        ensures
            r == Ok::<Self, Error>(*self),
    {
        Ok(*self)
    }
}

impl TryCopy for i64 {

}

impl TryClone for i128 {
    fn try_clone(&self) -> (r: Result<Self, Error>)
        ensures
            r == Ok::<Self, Error>(*self),
    {
        Ok(*self)
    }
}

impl TryCopy for i128 {

}

impl<A: TryClone, B: TryClone> TryClone for (A, B) {
    fn try_clone(&self) -> (r: Result<Self, Error>)
    {
        match self.0.try_clone() {
            Ok(a) => {
                let outcome = self.1.try_clone();
                paired(a, outcome)
            },
            Err(e) => Err(e),
        }
    }
}

impl<T: TryClone> TryClone for Box<T> {
    fn try_clone(&self) -> (r: Result<Self, Error>)
    {
        let outcome = (**self).try_clone();
        boxed(outcome)
    }
}

impl<T: TryClone> TryClone for Box<[T]> {
    /// Clones the elements one after the other and stops at the first
    /// that fails. An empty slice has nothing that could fail.
    fn try_clone(&self) -> (r: Result<Self, Error>)
        ensures
            self@.len() == 0 ==> r is Ok,
    {
        let mut out: Vec<T> = Vec::with_capacity(self.len());
        let mut i: usize = 0;
        while i < self.len()
            invariant
                i <= self.len(),
                out.len() == i,
                forall|j: int| 0 <= j < i ==> out@[j].deep_view() == self@[j].deep_view(),
            decreases self.len() - i,
        {
            let outcome = self[i].try_clone();
            match pushed(&mut out, outcome) {
                Ok(()) => {},
                Err(e) => {
                    return Err(e);
                },
            }
            i += 1;
        }
        let boxed = into_boxed_slice(out);
        assert(boxed.deep_view() =~= self.deep_view());
        Ok(boxed)
    }
}

impl TryClone for String {
    fn try_clone(&self) -> (r: Result<Self, Error>)
        ensures
            r matches Ok(c) && c@ == self@,
    {
        Ok(self.clone())
    }
}

impl<T: TryClone> TryClone for Vec<T> {
    /// Clones the elements one after the other and stops at the first
    /// that fails. An empty vector has nothing that could fail.
    fn try_clone(&self) -> (r: Result<Self, Error>)
        ensures
            self@.len() == 0 ==> r is Ok,
    {
        let mut out: Vec<T> = Vec::with_capacity(self.len());
        let mut i: usize = 0;
        while i < self.len()
            invariant
                i <= self.len(),
                out.len() == i,
                forall|j: int| 0 <= j < i ==> out@[j].deep_view() == self@[j].deep_view(),
            decreases self.len() - i,
        {
            let outcome = self[i].try_clone();
            match pushed(&mut out, outcome) {
                Ok(()) => {},
                Err(e) => {
                    return Err(e);
                },
            }
            i += 1;
        }
        assert(out.deep_view() =~= self.deep_view());
        Ok(out)
    }
}

/// Replaces a value by the clone that was made for it. Where making the
/// clone failed, the value is left as it was and the failure is handed on.
pub fn assigned<T>(target: &mut T, outcome: Result<T, Error>) -> (r: Result<(), Error>)
    ensures
        match outcome {
            Ok(c) => r is Ok && *final(target) == c,
            Err(e) => r == Err::<(), Error>(e) && *final(target) == *old(target),
        },
{
    match outcome {
        Ok(c) => {
            *target = c;
            Ok(())
        },
        Err(e) => Err(e),
    }
}

/// The clone of a pair, given the clone of its first part and what cloning
/// its second part came to.
pub fn paired<A, B>(first: A, outcome: Result<B, Error>) -> (r: Result<(A, B), Error>)
    ensures
        r == match outcome {
            Ok(second) => Ok::<(A, B), Error>((first, second)),
            Err(e) => Err::<(A, B), Error>(e),
        },
{
    match outcome {
        Ok(second) => Ok((first, second)),
        Err(e) => Err(e),
    }
}

/// The clone of a box, given what cloning its content came to.
pub fn boxed<T>(outcome: Result<T, Error>) -> (r: Result<Box<T>, Error>)
    ensures
        r == match outcome {
            Ok(c) => Ok::<Box<T>, Error>(Box::new(c)),
            Err(e) => Err::<Box<T>, Error>(e),
        },
{
    match outcome {
        Ok(c) => Ok(Box::new(c)),
        Err(e) => Err(e),
    }
}

/// Adds the clone of an element to the clones made so far. Where making
/// the clone failed, nothing is added and the failure is handed on.
pub fn pushed<T>(out: &mut Vec<T>, outcome: Result<T, Error>) -> (r: Result<(), Error>)
    ensures
        match outcome {
            Ok(c) => r is Ok && final(out)@ == old(out)@.push(c),
            Err(e) => r == Err::<(), Error>(e) && final(out)@ == old(out)@,
        },
{
    match outcome {
        Ok(c) => {
            out.push(c);
            Ok(())
        },
        Err(e) => Err(e),
    }
}

} // verus!
