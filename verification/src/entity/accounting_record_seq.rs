//! The counter of the records of one day.

use vstd::prelude::*;

verus! {

/// The number of records filed on one day.
#[derive(Debug, Clone, Copy, PartialEq, Eq, Structural)]
pub struct Model {
    /// The day, as the digits of year, month and day.
    pub id: i32,
    /// The sequence number of the day's latest record.
    pub seq: i32,
}

impl Model {
    /// The counter after one more record was filed on the day `date`:
    /// `current` is the day's counter so far, `None` where the day has none
    /// yet. The first record of a day has the number 1. `None` where the
    /// counter cannot go further.
    pub fn get_next_sequence(current: Option<Model>, date: i32) -> (next: Option<Model>)
        ensures
            match current {
                None => next == Some(Model { id: date, seq: 1 }),
                Some(counter) => if counter.seq < i32::MAX {
                    next == Some(Model { id: counter.id, seq: (counter.seq + 1) as i32 })
                } else {
                    next is None
                },
            },
    {
        match current {
            None => Some(Model { id: date, seq: 1 }),
            Some(counter) => {
                if counter.seq < i32::MAX {
                    Some(Model { id: counter.id, seq: counter.seq + 1 })
                } else {
                    None
                }
            },
        }
    }
}

} // verus!
