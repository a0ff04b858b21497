use vstd::prelude::*;

verus! {

/// A request field that accepts either one value or an ordered sequence of
/// values. Both forms canonicalize to the same ordered sequence, so use sites
/// work over a single shape.
#[derive(Debug, Clone)]
pub enum OptionArray<T> {
    Item(T),
    Array(Vec<T>),
}

impl<T> OptionArray<T> {
    /// The ordered sequence this field canonicalizes to.
    pub open spec fn seq(self) -> Seq<T> {
        match self {
            OptionArray::Item(x) => seq![x],
            OptionArray::Array(v) => v@,
        }
    }

    /// Canonicalize to an ordered sequence, regardless of which form the
    /// caller supplied.
    pub fn into_vec(self) -> (r: Vec<T>)
        ensures
            r@ == self.seq(),
    {
        match self {
            OptionArray::Item(x) => {
                let mut v: Vec<T> = Vec::new();
                v.push(x);
                proof {
                    assert(v@ =~= seq![x]);
                }
                v
            },
            OptionArray::Array(v) => v,
        }
    }
}

impl<T> Default for OptionArray<T> {
    /// An absent one-or-many field stands for the empty sequence.
    fn default() -> (r: Self)
        ensures
            r.seq() == Seq::<T>::empty(),
    {
        let v: Vec<T> = Vec::new();
        OptionArray::Array(v)
    }
}

} // verus!
