//! Conversions of whole sequences, element by element.
//!
//! A sequence converts as its elements do: the outcome has the length of the
//! input, and its element at each position is an outcome of the same
//! conversion of the input's element at that position. An owned sequence is
//! consumed; a borrowed one is read, and its elements are copied out.
use vstd::prelude::*;
use crate::conversion::Conversion;

verus! {

/// `out` holds, position by position, outcomes of `f` on the elements of
/// `input`.
pub open spec fn mapped<T, F: Fn(T) -> T>(f: F, input: Seq<T>, out: Seq<T>) -> bool {
    &&& out.len() == input.len()
    &&& forall|i: int| 0 <= i < input.len() ==> call_ensures(f, (input[i],), #[trigger] out[i])
}

/// Applies `f` to every element of `input`, in order.
pub fn map_owned<T, F: Fn(T) -> T>(input: Vec<T>, f: F) -> (out: Vec<T>)
    requires
        forall|x: T| call_requires(f, (x,)),
    ensures
        mapped(f, input@, out@),
{
    let mut out: Vec<T> = Vec::with_capacity(input.len());
    for x in it: input
        invariant
            forall|x: T| call_requires(f, (x,)),
            out.len() == it.index(),
            forall|i: int| 0 <= i < out.len() ==> call_ensures(f, (it.seq()[i],), #[trigger] out[i]),
    {
        out.push(f(x));
    }
    out
}

/// Applies `f` to a copy of every element of `input`, in order.
pub fn map_borrowed<T: Copy, F: Fn(T) -> T>(input: &[T], f: F) -> (out: Vec<T>)
    requires
        forall|x: T| call_requires(f, (x,)),
    ensures
        mapped(f, input@, out@),
{
    let mut out: Vec<T> = Vec::with_capacity(input.len());
    for k in 0..input.len()
        invariant
            forall|x: T| call_requires(f, (x,)),
            out.len() == k,
            forall|i: int| 0 <= i < out.len() ==> call_ensures(f, (input@[i],), #[trigger] out[i]),
    {
        out.push(f(input[k]));
    }
    out
}

/// An owned sequence converts element by element, and is consumed.
impl<T: Conversion<T>> Conversion<Vec<T>> for Vec<T> {
    open spec fn from_degree_ensures(self, r: Vec<T>) -> bool {
        &&& r.len() == self.len()
        &&& forall|i: int| 0 <= i < self.len() ==> (#[trigger] self[i]).from_degree_ensures(r[i])
    }

    open spec fn from_arcmin_ensures(self, r: Vec<T>) -> bool {
        &&& r.len() == self.len()
        &&& forall|i: int| 0 <= i < self.len() ==> (#[trigger] self[i]).from_arcmin_ensures(r[i])
    }

    open spec fn from_arcsec_ensures(self, r: Vec<T>) -> bool {
        &&& r.len() == self.len()
        &&& forall|i: int| 0 <= i < self.len() ==> (#[trigger] self[i]).from_arcsec_ensures(r[i])
    }

    open spec fn from_mas_ensures(self, r: Vec<T>) -> bool {
        &&& r.len() == self.len()
        &&& forall|i: int| 0 <= i < self.len() ==> (#[trigger] self[i]).from_mas_ensures(r[i])
    }

    open spec fn to_degree_ensures(self, r: Vec<T>) -> bool {
        &&& r.len() == self.len()
        &&& forall|i: int| 0 <= i < self.len() ==> (#[trigger] self[i]).to_degree_ensures(r[i])
    }

    open spec fn to_arcmin_ensures(self, r: Vec<T>) -> bool {
        &&& r.len() == self.len()
        &&& forall|i: int| 0 <= i < self.len() ==> (#[trigger] self[i]).to_arcmin_ensures(r[i])
    }

    open spec fn to_arcsec_ensures(self, r: Vec<T>) -> bool {
        &&& r.len() == self.len()
        &&& forall|i: int| 0 <= i < self.len() ==> (#[trigger] self[i]).to_arcsec_ensures(r[i])
    }

    open spec fn to_mas_ensures(self, r: Vec<T>) -> bool {
        &&& r.len() == self.len()
        &&& forall|i: int| 0 <= i < self.len() ==> (#[trigger] self[i]).to_mas_ensures(r[i])
    }

    fn from_degree(self) -> (r: Vec<T>) {
        map_owned(self, T::from_degree)
    }

    fn from_arcmin(self) -> (r: Vec<T>) {
        map_owned(self, T::from_arcmin)
    }

    fn from_arcsec(self) -> (r: Vec<T>) {
        map_owned(self, T::from_arcsec)
    }

    fn from_mas(self) -> (r: Vec<T>) {
        map_owned(self, T::from_mas)
    }

    fn to_degree(self) -> (r: Vec<T>) {
        map_owned(self, T::to_degree)
    }

    fn to_arcmin(self) -> (r: Vec<T>) {
        map_owned(self, T::to_arcmin)
    }

    fn to_arcsec(self) -> (r: Vec<T>) {
        map_owned(self, T::to_arcsec)
    }

    fn to_mas(self) -> (r: Vec<T>) {
        map_owned(self, T::to_mas)
    }
}

/// A borrowed sequence converts element by element into a new owned one, and
/// is left as it was.
impl<T: Conversion<T> + Copy> Conversion<Vec<T>> for &[T] {
    open spec fn from_degree_ensures(self, r: Vec<T>) -> bool {
        &&& r.len() == self.len()
        &&& forall|i: int| 0 <= i < self.len() ==> (#[trigger] self[i]).from_degree_ensures(r[i])
    }

    open spec fn from_arcmin_ensures(self, r: Vec<T>) -> bool {
        &&& r.len() == self.len()
        &&& forall|i: int| 0 <= i < self.len() ==> (#[trigger] self[i]).from_arcmin_ensures(r[i])
    }

    open spec fn from_arcsec_ensures(self, r: Vec<T>) -> bool {
        &&& r.len() == self.len()
        &&& forall|i: int| 0 <= i < self.len() ==> (#[trigger] self[i]).from_arcsec_ensures(r[i])
    }

    open spec fn from_mas_ensures(self, r: Vec<T>) -> bool {
        &&& r.len() == self.len()
        &&& forall|i: int| 0 <= i < self.len() ==> (#[trigger] self[i]).from_mas_ensures(r[i])
    }

    open spec fn to_degree_ensures(self, r: Vec<T>) -> bool {
        &&& r.len() == self.len()
        &&& forall|i: int| 0 <= i < self.len() ==> (#[trigger] self[i]).to_degree_ensures(r[i])
    }

    open spec fn to_arcmin_ensures(self, r: Vec<T>) -> bool {
        &&& r.len() == self.len()
        &&& forall|i: int| 0 <= i < self.len() ==> (#[trigger] self[i]).to_arcmin_ensures(r[i])
    }

    open spec fn to_arcsec_ensures(self, r: Vec<T>) -> bool {
        &&& r.len() == self.len()
        &&& forall|i: int| 0 <= i < self.len() ==> (#[trigger] self[i]).to_arcsec_ensures(r[i])
    }

    open spec fn to_mas_ensures(self, r: Vec<T>) -> bool {
        &&& r.len() == self.len()
        &&& forall|i: int| 0 <= i < self.len() ==> (#[trigger] self[i]).to_mas_ensures(r[i])
    }

    fn from_degree(self) -> (r: Vec<T>) {
        map_borrowed(self, T::from_degree)
    }

    fn from_arcmin(self) -> (r: Vec<T>) {
        map_borrowed(self, T::from_arcmin)
    }

    fn from_arcsec(self) -> (r: Vec<T>) {
        map_borrowed(self, T::from_arcsec)
    }

    fn from_mas(self) -> (r: Vec<T>) {
        map_borrowed(self, T::from_mas)
    }

    fn to_degree(self) -> (r: Vec<T>) {
        map_borrowed(self, T::to_degree)
    }

    fn to_arcmin(self) -> (r: Vec<T>) {
        map_borrowed(self, T::to_arcmin)
    }

    fn to_arcsec(self) -> (r: Vec<T>) {
        map_borrowed(self, T::to_arcsec)
    }

    fn to_mas(self) -> (r: Vec<T>) {
        map_borrowed(self, T::to_mas)
    }
}

} // verus!
