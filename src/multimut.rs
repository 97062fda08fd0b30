use vstd::prelude::*;

verus! {

/// A container that owns one value and lends out references to it.
///
/// Any number of shared references can be taken from a shared borrow of the
/// cell; mutable references are taken one after another, each seeing what the
/// one before it left. All of them reach the same single storage location:
/// nothing is copied, nothing is counted, and no check runs when a reference
/// is handed out.
pub struct MultiMut<T> {
    value: T,
}

/// The same cell under its second name.
pub type MultiRef<T> = MultiMut<T>;

impl<T> View for MultiMut<T> {
    type V = T;

    /// The value that the cell holds.
    closed spec fn view(&self) -> T {
        self.value
    }
}

/// What one storage location holds once the updates `fs` are applied to `v`,
/// first to last.
pub open spec fn applied<T>(v: T, fs: Seq<spec_fn(T) -> T>) -> T {
    fs.fold_left(v, |acc: T, f: spec_fn(T) -> T| f(acc))
}

impl<T> MultiMut<T> {
    /// The cell that holds `v`.
    pub closed spec fn wrapping(v: T) -> Self {
        MultiMut { value: v }
    }

    /// The cell once a mutable reference has been taken for each update of
    /// `fs`, first to last, and each has been left holding the update of the
    /// value that it showed when it was taken.
    pub closed spec fn through_references(self, fs: Seq<spec_fn(T) -> T>) -> Self
        decreases fs.len(),
    {
        if fs.len() == 0 {
            self
        } else {
            let before = self.through_references(fs.drop_last());
            Self::wrapping((fs.last())(before@))
        }
    }

    /// Wraps `object` in a new cell, which takes ownership of it.
    pub fn new(object: T) -> (r: Self)
        ensures
            r == Self::wrapping(object),
            r@ == object,
    {
        MultiMut { value: object }
    }

    /// A shared reference to the wrapped value.
    ///
    /// Any number of these can be alive at once; taking one leaves the cell
    /// as it was.
    pub fn get_ref(&self) -> (r: &T)
        ensures
            *r == self@,
    {
        &self.value
    }

    /// A mutable reference to the wrapped value.
    ///
    /// The reference shows what the cell holds now, and whatever it holds when
    /// it is last used is what the cell holds from then on: there is one
    /// storage location, not a copy.
    pub fn get_mut(&mut self) -> (r: &mut T)
        ensures
            *r == old(self)@,
            *final(self) == Self::wrapping(*final(r)),
            final(self)@ == *final(r),
    {
        &mut self.value
    }

    /// Ends the cell and hands back the value it holds, by move.
    pub fn unwrap(self) -> (r: T)
        ensures
            r == self@,
    {
        self.value
    }

    /// Unwrapping a cell just made gives back the value it was made from.
    pub proof fn lemma_unwrap_new(v: T)
        ensures
            Self::wrapping(v)@ == v,
    {
    }

    /// Updates made through any number of mutable references taken one after
    /// another leave the cell holding what a single location holds once the
    /// same updates are applied to it in the same order.
    pub proof fn lemma_updates_in_order(self, fs: Seq<spec_fn(T) -> T>)
        ensures
            self.through_references(fs)@ == applied(self@, fs),
        decreases fs.len(),
    {
        if fs.len() > 0 {
            self.lemma_updates_in_order(fs.drop_last());
        }
    }
}

} // verus!
