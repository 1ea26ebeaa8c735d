//! A counter that yields one to five, and filtering shoes by size.
use vstd::prelude::*;

verus! {

/// Yields 1, 2, 3, 4, 5 from [`Counter::next`], then nothing.
pub struct Counter {
    count: u32,
}

impl Counter {
    pub closed spec fn spec_count(&self) -> u32 {
        self.count
    }

    #[verifier::type_invariant]
    spec fn bounded(&self) -> bool {
        self.count <= 6
    }

    /// A counter that has yielded nothing yet.
    pub fn new() -> (r: Counter)
        ensures
            r.spec_count() == 0,
    {
        Counter { count: 0 }
    }

    /// The next number, while there are numbers left.
    pub fn next(&mut self) -> (r: Option<u32>)
        ensures
            old(self).spec_count() < 5 ==> r == Some((old(self).spec_count() + 1) as u32)
                && final(self).spec_count() == old(self).spec_count() + 1,
            old(self).spec_count() >= 5 ==> r is None && final(self).spec_count() == 6,
    {
        proof {
            use_type_invariant(&*self);
        }
        if self.count < 6 {
            self.count = self.count + 1;
        }
        if self.count < 6 {
            Some(self.count)
        } else {
            None
        }
    }
}

#[derive(PartialEq, Debug)]
pub struct Shoe {
    pub size: u32,
    pub style: String,
}

pub open spec fn fits(size: u32) -> spec_fn(Shoe) -> bool {
    |s: Shoe| s.size == size
}

/// The shoes of size `shoe_size`, in their order.
pub fn shoes_in_my_size(shoes: Vec<Shoe>, shoe_size: u32) -> (r: Vec<Shoe>)
    ensures
        r@ == shoes@.filter(fits(shoe_size)),
{
    let mut rest = shoes;
    let mut out: Vec<Shoe> = Vec::new();
    while rest.len() > 0
        invariant
            out@ + rest@.filter(fits(shoe_size)) == shoes@.filter(fits(shoe_size)),
        decreases rest.len(),
    {
        let ghost before = rest@;
        let s = rest.remove(0);
        proof {
            assert(before == seq![s] + rest@);
            Seq::filter_distributes_over_add(seq![s], rest@, fits(shoe_size));
            reveal_with_fuel(Seq::filter, 2);
        }
        if s.size == shoe_size {
            out.push(s);
        }
    }
    proof {
        assert(rest@.filter(fits(shoe_size)) =~= Seq::<Shoe>::empty());
    }
    out
}

} // verus!
