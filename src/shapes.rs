//! Rectangles and their areas, and user records.
use vstd::prelude::*;

verus! {

#[derive(Debug, Clone, Copy, PartialEq, Eq, Structural)]
pub struct Rectangle {
    pub width: u32,
    pub height: u32,
}

impl Rectangle {
    /// Width times height.
    pub fn area(&self) -> (r: u32)
        requires
            self.width * self.height <= u32::MAX,
        ensures
            r == self.width * self.height,
    {
        self.width * self.height
    }

    /// A square with sides of `size`.
    pub fn square(size: u32) -> (r: Rectangle)
        ensures
            r.width == size,
            r.height == size,
    {
        Rectangle { width: size, height: size }
    }

    /// Whether `other` fits strictly inside `self`, both sides smaller.
    pub fn can_hold(&self, other: &Rectangle) -> (r: bool)
        ensures
            r == (self.width > other.width && self.height > other.height),
    {
        self.width > other.width && self.height > other.height
    }
}

/// The area of `rectangle`.
pub fn area(rectangle: &Rectangle) -> (r: u32)
    requires
        rectangle.width * rectangle.height <= u32::MAX,
    ensures
        r == rectangle.width * rectangle.height,
{
    rectangle.area()
}

pub struct User {
    pub username: String,
    pub email: String,
    pub sign_in_count: u64,
    pub active: bool,
}

/// A new active user who has signed in once.
pub fn build_user(email: String, username: String) -> (r: User)
    ensures
        r.email == email,
        r.username == username,
        r.active,
        r.sign_in_count == 1,
{
    User { email, username, active: true, sign_in_count: 1 }
}

} // verus!
