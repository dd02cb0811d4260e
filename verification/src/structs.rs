//! Aggregate types: a record with named fields, a builder that uses the
//! field-init shorthand, an update that copies all but one field from an
//! existing record, and a rectangle with methods and an associated
//! constructor.

use vstd::prelude::*;

verus! {

/// An account record with named fields.
pub struct User {
    pub active: bool,
    pub username: String,
    pub email: String,
    pub sign_in_count: u64,
}

/// Builds a fresh active account from an email and a username, with a
/// sign-in count of one.
pub fn build_user(email: String, username: String) -> (user: User)
    ensures
        user.active == true,
        user.username == username,
        user.email == email,
        user.sign_in_count == 1,
{
    User { email, username, active: true, sign_in_count: 1 }
}

impl User {
    /// Replaces the email and keeps every other field, consuming the
    /// original record (the update-from-existing-instance pattern).
    pub fn with_email(self, email: String) -> (user: User)
        ensures
            user.email == email,
            user.username == self.username,
            user.active == self.active,
            user.sign_in_count == self.sign_in_count,
    {
        User { email, ..self }
    }
}

/// An axis-aligned rectangle measured in pixels.
pub struct Rectangle {
    pub width: u32,
    pub height: u32,
}

impl Rectangle {
    /// The area of the rectangle.
    pub fn area(&self) -> (a: u32)
        requires
            self.width * self.height <= u32::MAX,
        ensures
            a == self.width * self.height,
    {
        self.width * self.height
    }

    /// Whether this rectangle can hold `other` entirely, which requires
    /// being strictly wider and strictly taller.
    pub fn can_hold(&self, other: &Rectangle) -> (b: bool)
        ensures
            b == (self.width > other.width && self.height > other.height),
    {
        self.width > other.width && self.height > other.height
    }

    /// Associated constructor: a square of the given side length.
    pub fn square(size: u32) -> (r: Rectangle)
        ensures
            r.width == size,
            r.height == size,
    {
        Rectangle { width: size, height: size }
    }
}

} // verus!
