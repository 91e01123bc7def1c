//! A seat: a set of devices that one user works at.
use vstd::prelude::*;

verus! {

#[derive(Debug)]
pub struct Seat {
    name: String,
}

impl View for Seat {
    /// A seat is seen as its name.
    type V = Seq<char>;

    closed spec fn view(&self) -> Seq<char> {
        self.name@
    }
}

impl Seat {
    /// A seat with the given name.
    pub fn new(name: &str) -> (s: Seat)
        ensures
            s@ == name@,
    {
        Seat { name: name.to_owned() }
    }
}

} // verus!
