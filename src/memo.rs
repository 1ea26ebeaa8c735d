//! A memoizing wrapper around one computation: each argument is computed on
//! first use and answered from memory after that.
use std::collections::HashMap;
use vstd::prelude::*;

verus! {

broadcast use vstd::std_specs::hash::group_hash_axioms;

/// Holds a computation and the results it has produced, by argument.
pub struct Cacher<T> where T: Fn(u32) -> u32 {
    calculation: T,
    values: HashMap<u32, u32>,
}

impl<T> Cacher<T> where T: Fn(u32) -> u32 {
    /// The results computed so far, by argument.
    pub closed spec fn memory(&self) -> Map<u32, u32> {
        self.values@
    }

    pub closed spec fn calculation(&self) -> T {
        self.calculation
    }

    /// A cacher around `calculation` that has computed nothing yet.
    pub fn new(calculation: T) -> (r: Cacher<T>)
        ensures
            r.memory() == Map::<u32, u32>::empty(),
            r.calculation() == calculation,
    {
        Cacher { calculation, values: HashMap::new() }
    }

    /// The result for `arg`: the remembered one if `arg` was asked before,
    /// otherwise a fresh result of the calculation, which is remembered.
    pub fn value(&mut self, arg: u32) -> (r: u32)
        requires
            old(self).calculation().requires((arg,)),
        ensures
            final(self).calculation() == old(self).calculation(),
            old(self).memory().contains_key(arg) ==> r == old(self).memory()[arg]
                && final(self).memory() == old(self).memory(),
            !old(self).memory().contains_key(arg) ==> old(self).calculation().ensures((arg,), r)
                && final(self).memory() == old(self).memory().insert(arg, r),
    {
        match self.values.get(&arg) {
            Some(v) => *v,
            None => {
                let v = (self.calculation)(arg);
                self.values.insert(arg, v);
                v
            },
        }
    }
}

/// A day's training.
#[derive(PartialEq, Eq, Structural, Clone, Copy, Debug)]
pub enum Workout {
    Exercises { pushups: u32, situps: u32 },
    Break,
    Run { minutes: u32 },
}

/// The plan for `intensity` and a random draw, given the expensive result
/// for `intensity` where the plan needs one.
pub open spec fn plan_of(intensity: u32, random_number: u32, result: u32) -> Workout {
    if intensity > 25 {
        Workout::Exercises { pushups: result, situps: result }
    } else if random_number == 3 {
        Workout::Break
    } else {
        Workout::Run { minutes: result }
    }
}

/// Plans a workout. A high intensity asks for the expensive result twice,
/// once for pushups and once for situps; the cacher computes it at most once.
/// A random draw of 3 at low intensity gives a break and computes nothing.
pub fn generate_workout<T: Fn(u32) -> u32>(
    intensity: u32,
    random_number: u32,
    expensive: &mut Cacher<T>,
) -> (r: Workout)
    requires
        old(expensive).calculation().requires((intensity,)),
    ensures
        final(expensive).calculation() == old(expensive).calculation(),
        r == Workout::Break <==> intensity <= 25 && random_number == 3,
        r == Workout::Break ==> final(expensive).memory() == old(expensive).memory(),
        r != Workout::Break ==> final(expensive).memory().contains_key(intensity)
            && r == plan_of(intensity, random_number, final(expensive).memory()[intensity]),
        old(expensive).memory().contains_key(intensity)
            ==> final(expensive).memory() == old(expensive).memory(),
        !old(expensive).memory().contains_key(intensity) && r != Workout::Break
            ==> old(expensive).calculation().ensures((intensity,), final(expensive).memory()[intensity])
            && final(expensive).memory() == old(expensive).memory().insert(
                intensity,
                final(expensive).memory()[intensity],
            ),
{
    if intensity > 25 {
        let pushups = expensive.value(intensity);
        let situps = expensive.value(intensity);
        Workout::Exercises { pushups, situps }
    } else {
        if random_number == 3 {
            Workout::Break
        } else {
            Workout::Run { minutes: expensive.value(intensity) }
        }
    }
}

} // verus!
