//! One human giving part of its health to another: a tenth of the
//! giver's health changes hands, but only while the giver keeps more
//! than a fifth of its health after the gift.

use vstd::prelude::*;

use crate::zombie::agents::package::Package;

verus! {

/// The health transfer between a giver and a receiver.
pub struct Restoration;

impl Restoration {
    pub fn new() -> (r: Self)
        ensures
            true,
    {
        Restoration
    }

    /// Transfer a tenth of the giver's health to the receiver if the
    /// giver would keep more than a fifth of it; otherwise change
    /// nothing.
    pub fn give_health(self, giver: &mut Package, receiver: &mut Package)
        requires
            0 <= old(giver).spec_stats().health,
            old(receiver).spec_stats().health + old(giver).spec_stats().health / 10 <= i64::MAX,
        ensures
            ({
                let h = old(giver).spec_stats().health as int;
                let gifted = h / 10;
                if h - gifted > h / 5 {
                    &&& final(giver).spec_stats().health == h - gifted
                    &&& final(receiver).spec_stats().health == old(
                        receiver,
                    ).spec_stats().health + gifted
                } else {
                    &&& final(giver).spec_stats().health == old(giver).spec_stats().health
                    &&& final(receiver).spec_stats().health == old(receiver).spec_stats().health
                }
            }),
            final(giver).spec_stats().strength == old(giver).spec_stats().strength,
            final(receiver).spec_stats().strength == old(receiver).spec_stats().strength,
            final(giver).spec_kind() == old(giver).spec_kind(),
            final(receiver).spec_kind() == old(receiver).spec_kind(),
            final(giver).spec_id() == old(giver).spec_id(),
            final(receiver).spec_id() == old(receiver).spec_id(),
            final(giver).spec_position() == old(giver).spec_position(),
            final(receiver).spec_position() == old(receiver).spec_position(),
            final(giver).spec_alive() == old(giver).spec_alive(),
            final(receiver).spec_alive() == old(receiver).spec_alive(),
    {
        let giver_health: i64 = giver.as_statistics().health;
        let gifted_health: i64 = giver_health / 10;
        if giver_health - gifted_health > giver_health / 5 {
            giver.as_statistics_mut().health = giver_health - gifted_health;
            let receiver_health: i64 = receiver.as_statistics().health;
            receiver.as_statistics_mut().health = receiver_health + gifted_health;
        }
    }
}

} // verus!
