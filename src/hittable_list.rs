//! An ordered list of the objects in a scene.
//!
//! The list keeps its objects in the order they were added; a ray query over
//! the list visits them in that order.
use vstd::prelude::*;

verus! {

/// The objects of a scene, in insertion order.
pub struct HittableList<T> {
    objects: Vec<T>,
}

impl<T> View for HittableList<T> {
    type V = Seq<T>;

    closed spec fn view(&self) -> Seq<T> {
        self.objects@
    }
}

impl<T> HittableList<T> {
    /// A list that holds `object` alone.
    pub fn new(object: T) -> (l: Self)
        ensures
            l@ == seq![object],
    {
        let mut objects: Vec<T> = Vec::new();
        objects.push(object);
        assert(objects@ =~= seq![object]);
        HittableList { objects }
    }

    /// A list with no object.
    pub fn empty() -> (l: Self)
        ensures
            l@ == Seq::<T>::empty(),
    {
        HittableList { objects: Vec::new() }
    }

    /// Removes every object.
    pub fn clear(&mut self)
        ensures
            final(self)@ == Seq::<T>::empty(),
    {
        self.objects.clear();
    }

    /// Appends `object` after the objects already in the list.
    pub fn add(&mut self, object: T)
        ensures
            final(self)@ == old(self)@.push(object),
    {
        self.objects.push(object);
    }

    /// The objects, in insertion order.
    pub fn objects(&self) -> (r: &Vec<T>)
        ensures
            r@ == self@,
    {
        &self.objects
    }

    /// Number of objects.
    pub fn len(&self) -> (n: usize)
        ensures
            n == self@.len(),
    {
        self.objects.len()
    }
}

impl<T> Default for HittableList<T> {
    fn default() -> (l: Self)
        ensures
            l@ == Seq::<T>::empty(),
    {
        HittableList { objects: Vec::new() }
    }
}

} // verus!
