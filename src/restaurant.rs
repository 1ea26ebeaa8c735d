//! A restaurant's orders: breakfasts with a choice of toast and a seasonal
//! fruit, appetizers, and a waitlist.
use vstd::prelude::*;
use vstd::string::StringExecFns;

verus! {

pub struct Breakfast {
    pub toast: String,
    seasonal_fruit: String,
}

#[derive(PartialEq, Eq, Structural, Clone, Copy, Debug)]
pub enum Appetizer {
    Soup,
    Salad,
}

impl Breakfast {
    pub closed spec fn toast_of(&self) -> Seq<char> {
        self.toast@
    }

    pub closed spec fn fruit(&self) -> Seq<char> {
        self.seasonal_fruit@
    }

    /// The summer breakfast: `toast` with peaches.
    pub fn summer(toast: &str) -> (r: Breakfast)
        ensures
            r.toast_of() == toast@,
            r.fruit() == "peaches"@,
    {
        Breakfast { toast: String::from_str(toast), seasonal_fruit: String::from_str("peaches") }
    }

    /// The seasonal fruit, which the kitchen chooses.
    pub fn seasonal_fruit(&self) -> (r: &str)
        ensures
            r@ == self.fruit(),
    {
        self.seasonal_fruit.as_str()
    }
}

/// Puts a guest on the waitlist; the host keeps no list yet.
pub fn add_to_waitlist() {
}

/// Orders the summer breakfast on rye, then changes the toast to wheat;
/// the fruit stays the kitchen's choice.
pub fn eat_at_restaurant() -> (r: Breakfast)
    ensures
        r.toast_of() == "Wheat"@,
        r.fruit() == "peaches"@,
{
    add_to_waitlist();
    let mut meal = Breakfast::summer("Rye");
    meal.toast = String::from_str("Wheat");
    meal
}

} // verus!
