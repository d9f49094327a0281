use vstd::prelude::*;

verus! {

/// One value, or two values in order.
#[derive(Copy, Clone, Debug, Eq, PartialEq, Hash)]
pub enum OneTwo<T> {
    One(T),
    Two(T, T),
}

/// No value, one value, or two values in order.
#[derive(Copy, Clone, Debug, Eq, PartialEq, Hash)]
pub enum ZeroOneTwo<T> {
    Zero,
    One(T),
    Two(T, T),
}

/// An owned walk over the values of a `OneTwo` or `ZeroOneTwo`, from either end.
pub struct ResultIter<T> {
    front: Option<T>,
    back: Option<T>,
}

impl<T> ResultIter<T> {
    /// A back value is only held together with a front value.
    #[verifier::type_invariant]
    spec fn back_needs_front(self) -> bool {
        self.back is Some ==> self.front is Some
    }

    /// The values not yet taken, in order.
    pub closed spec fn remaining(self) -> Seq<T> {
        match self.front {
            Some(a) => match self.back {
                Some(b) => seq![a, b],
                None => seq![a],
            },
            None => seq![],
        }
    }

    fn from_items(front: Option<T>, back: Option<T>) -> (r: Self)
        requires
            back is Some ==> front is Some,
        ensures
            r.remaining() == (match front {
                Some(a) => match back {
                    Some(b) => seq![a, b],
                    None => seq![a],
                },
                None => seq![],
            }),
    {
        ResultIter { front, back }
    }

    /// How many values are left.
    pub fn len(&self) -> (n: usize)
        ensures
            n == self.remaining().len(),
    {
        proof {
            use_type_invariant(self);
        }
        match (&self.front, &self.back) {
            (Some(_), Some(_)) => 2,
            (Some(_), None) => 1,
            _ => 0,
        }
    }

    /// Takes the first value left, or `None` once all are taken.
    pub fn next(&mut self) -> (r: Option<T>)
        ensures
            old(self).remaining().len() == 0 ==> r is None && final(self).remaining() == old(
                self,
            ).remaining(),
            old(self).remaining().len() > 0 ==> r == Some(old(self).remaining()[0])
                && final(self).remaining() == old(self).remaining().drop_first(),
    {
        proof {
            use_type_invariant(&*self);
        }
        let mut taken = ResultIter { front: None, back: None };
        std::mem::swap(self, &mut taken);
        let ResultIter { front, back } = taken;
        *self = ResultIter { front: back, back: None };
        proof {
            if front is Some {
                assert(seq![front.unwrap()].drop_first() =~= Seq::<T>::empty());
            }
        }
        front
    }

    /// Takes the last value left, or `None` once all are taken.
    pub fn next_back(&mut self) -> (r: Option<T>)
        ensures
            old(self).remaining().len() == 0 ==> r is None && final(self).remaining() == old(
                self,
            ).remaining(),
            old(self).remaining().len() > 0 ==> r == Some(old(self).remaining().last())
                && final(self).remaining() == old(self).remaining().drop_last(),
    {
        proof {
            use_type_invariant(&*self);
        }
        let mut taken = ResultIter { front: None, back: None };
        std::mem::swap(self, &mut taken);
        let ResultIter { front, back } = taken;
        match back {
            Some(b) => {
                *self = ResultIter { front, back: None };
                Some(b)
            },
            None => front,
        }
    }
}

impl<T: View> View for OneTwo<T> {
    type V = OneTwo<T::V>;

    open spec fn view(&self) -> OneTwo<T::V> {
        match self {
            OneTwo::One(a) => OneTwo::One(a@),
            OneTwo::Two(a, b) => OneTwo::Two(a@, b@),
        }
    }
}

impl<T: View> View for ZeroOneTwo<T> {
    type V = ZeroOneTwo<T::V>;

    open spec fn view(&self) -> ZeroOneTwo<T::V> {
        match self {
            ZeroOneTwo::Zero => ZeroOneTwo::Zero,
            ZeroOneTwo::One(a) => ZeroOneTwo::One(a@),
            ZeroOneTwo::Two(a, b) => ZeroOneTwo::Two(a@, b@),
        }
    }
}

impl<T> OneTwo<T> {
    /// The values held, in order.
    pub open spec fn items(self) -> Seq<T> {
        match self {
            OneTwo::One(a) => seq![a],
            OneTwo::Two(a, b) => seq![a, b],
        }
    }

    /// How many values are held: one or two.
    pub fn len(&self) -> (n: usize)
        ensures
            n == self.items().len(),
    {
        match self {
            OneTwo::One(_) => 1,
            OneTwo::Two(_, _) => 2,
        }
    }

    /// An owned walk over the values held, in order.
    pub fn into_iter(self) -> (r: ResultIter<T>)
        ensures
            r.remaining() == self.items(),
    {
        match self {
            OneTwo::One(a) => ResultIter::from_items(Some(a), None),
            OneTwo::Two(a, b) => ResultIter::from_items(Some(a), Some(b)),
        }
    }

    /// The values held, in order, as a vector.
    pub fn into_vec(self) -> (v: Vec<T>)
        ensures
            v@ == self.items(),
    {
        let mut v: Vec<T> = Vec::new();
        match self {
            OneTwo::One(a) => {
                v.push(a);
            },
            OneTwo::Two(a, b) => {
                v.push(a);
                v.push(b);
            },
        }
        v
    }
}

impl<T> ZeroOneTwo<T> {
    /// The values held, in order.
    pub open spec fn items(self) -> Seq<T> {
        match self {
            ZeroOneTwo::Zero => seq![],
            ZeroOneTwo::One(a) => seq![a],
            ZeroOneTwo::Two(a, b) => seq![a, b],
        }
    }

    /// How many values are held: zero, one or two.
    pub fn len(&self) -> (n: usize)
        ensures
            n == self.items().len(),
    {
        match self {
            ZeroOneTwo::Zero => 0,
            ZeroOneTwo::One(_) => 1,
            ZeroOneTwo::Two(_, _) => 2,
        }
    }

    /// Whether no value is held.
    pub fn is_empty(&self) -> (b: bool)
        ensures
            b == (self.items().len() == 0),
    {
        match self {
            ZeroOneTwo::Zero => true,
            _ => false,
        }
    }

    /// An owned walk over the values held, in order.
    pub fn into_iter(self) -> (r: ResultIter<T>)
        ensures
            r.remaining() == self.items(),
    {
        match self {
            ZeroOneTwo::Zero => ResultIter::from_items(None, None),
            ZeroOneTwo::One(a) => ResultIter::from_items(Some(a), None),
            ZeroOneTwo::Two(a, b) => ResultIter::from_items(Some(a), Some(b)),
        }
    }

    /// The values held, in order, as a vector.
    pub fn into_vec(self) -> (v: Vec<T>)
        ensures
            v@ == self.items(),
    {
        let mut v: Vec<T> = Vec::new();
        match self {
            ZeroOneTwo::Zero => {},
            ZeroOneTwo::One(a) => {
                v.push(a);
            },
            ZeroOneTwo::Two(a, b) => {
                v.push(a);
                v.push(b);
            },
        }
        v
    }
}

} // verus!
