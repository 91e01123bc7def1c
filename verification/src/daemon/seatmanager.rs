//! The seats that the daemon serves.
use vstd::prelude::*;
use crate::daemon::seat::Seat;

verus! {

#[derive(Debug)]
pub struct SeatManager {
    seats: Vec<Seat>,
}

impl View for SeatManager {
    /// The names of the seats, in the order in which they were added.
    type V = Seq<Seq<char>>;

    closed spec fn view(&self) -> Seq<Seq<char>> {
        self.seats@.map_values(|s: Seat| s@)
    }
}

impl SeatManager {
    /// A manager with no seats.
    pub fn new() -> (m: SeatManager)
        ensures
            m@ == Seq::<Seq<char>>::empty(),
    {
        let m = SeatManager { seats: Vec::new() };
        assert(m@ =~= Seq::<Seq<char>>::empty());
        m
    }

    /// Adds a seat named `name` after the existing ones.
    pub fn add_seat(&mut self, name: &str)
        ensures
            final(self)@ == old(self)@.push(name@),
    {
        let seat = Seat::new(name);
        self.seats.push(seat);
        assert(self@ =~= old(self)@.push(name@));
    }
}

} // verus!
