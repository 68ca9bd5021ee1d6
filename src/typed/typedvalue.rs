use vstd::prelude::*;

verus! {

/// An owned, boxed value of a type fixed at compile time.
///
/// Every recovery of the value is checked by the type system, so none of
/// them can fail or meet a value of another type.
pub struct TypedValueBase<V>(pub Box<V>);

impl<V> TypedValueBase<V> {
    /// The value held.
    pub open spec fn view(&self) -> V {
        *self.0
    }

    /// Boxes `value`.
    pub fn from_value(value: V) -> (r: Self)
        ensures
            r.view() == value,
    {
        TypedValueBase(Box::new(value))
    }

    /// Takes the value out.
    pub fn downcast(self) -> (r: Option<V>)
        ensures
            r == Some(self.view()),
    {
        Some(*self.0)
    }

    /// Borrows the value.
    pub fn downcast_ref(&self) -> (r: Option<&V>)
        ensures
            r is Some,
            *r->Some_0 == self.view(),
    {
        Some(&*self.0)
    }

    /// Borrows the value for change.
    pub fn downcast_mut(&mut self) -> (r: Option<&mut V>)
        ensures
            r is Some,
            *r->Some_0 == old(self).view(),
            final(self).view() == *final(r->Some_0),
    {
        Some(&mut *self.0)
    }
}

} // verus!
