//! Small arithmetic, greetings and bounded guesses.
use vstd::prelude::*;
use vstd::string::StringExecFns;

verus! {

/// `a + b`.
pub fn internal_adder(a: i32, b: i32) -> (r: i32)
    requires
        i32::MIN <= a + b <= i32::MAX,
    ensures
        r == a + b,
{
    a + b
}

/// `a + 2`.
pub fn add_two(a: i32) -> (r: i32)
    requires
        a + 2 <= i32::MAX,
    ensures
        r == a + 2,
{
    internal_adder(a, 2)
}

/// `x + 1`.
pub fn add_one(x: i32) -> (r: i32)
    requires
        x + 1 <= i32::MAX,
    ensures
        r == x + 1,
{
    x + 1
}

/// `Hello <name>!`.
pub fn greeting(name: &str) -> (r: String)
    ensures
        r@ == "Hello "@ + name@ + "!"@,
{
    let mut r = String::from_str("Hello ");
    r.append(name);
    r.append("!");
    r
}

/// A guess between 1 and 100.
pub struct Guess {
    value: i32,
}

/// Another name of [`Guess`].
pub type Guest = Guess;

impl Guess {
    #[verifier::type_invariant]
    spec fn in_range(&self) -> bool {
        1 <= self.value <= 100
    }

    pub closed spec fn spec_value(&self) -> i32 {
        self.value
    }

    /// A guess of `value`, which must lie between 1 and 100.
    pub fn new(value: i32) -> (r: Guess)
        requires
            1 <= value <= 100,
        ensures
            r.spec_value() == value,
    {
        Guess { value }
    }

    /// The guessed number.
    pub fn value(&self) -> (r: i32)
        ensures
            r == self.spec_value(),
            1 <= r <= 100,
    {
        proof {
            use_type_invariant(self);
        }
        self.value
    }
}

/// Shared preparation for tests of this module; there is nothing to prepare.
pub fn setup() {
}

} // verus!
