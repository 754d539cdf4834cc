use vstd::prelude::*;

verus! {

/// A slot that is empty until initialised once, and after that is only
/// changed by handing its whole content to a function and storing what comes
/// back.
pub struct SharedCell<T> {
    pub slot: Option<T>,
}

impl<T> SharedCell<T> {
    /// An empty slot.
    pub fn new() -> (r: Self)
        ensures
            r.slot is None,
    {
        SharedCell { slot: None }
    }

    /// Whether the slot holds a value.
    pub fn is_populated(&self) -> (r: bool)
        ensures
            r == self.slot is Some,
    {
        self.slot.is_some()
    }

    /// Fills the empty slot with `value`.
    pub fn initialize(&mut self, value: T)
        requires
            old(self).slot is None,
        ensures
            final(self).slot == Some(value),
    {
        self.slot = Some(value);
    }

    /// Takes the value out, applies `f` to it, and puts the result back. On
    /// an empty slot nothing happens.
    pub fn with_exclusive_access<F: FnOnce(T) -> T>(&mut self, f: F)
        requires
            old(self).slot matches Some(v) ==> f.requires((v,)),
        ensures
            old(self).slot is None ==> final(self).slot is None,
            old(self).slot matches Some(v) ==> (final(self).slot matches Some(w) && f.ensures(
                (v,),
                w,
            )),
    {
        match self.slot.take() {
            Some(v) => {
                self.slot = Some(f(v));
            },
            None => {},
        }
    }
}

} // verus!
