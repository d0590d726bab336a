//! The vital package every agent carries: its core agent record, its
//! combat statistics, its life switch, and the shared observer of how
//! many agents of each side remain in play.

use vstd::prelude::*;

use crate::agent;
use crate::context::GridPosition;
use crate::message::MessageInterface;
use crate::utils::random::draw_in_range;
use crate::utils::sync::GreedyCell;
use crate::zombie::agents::Kind;
use crate::zombie::agents::Message;

verus! {

/// Combat statistics, drawn at random when the package is built.
#[derive(Debug, Clone, Copy)]
pub struct Statistics {
    pub health: i64,
    pub strength: i64,
}

impl Statistics {
    /// Draw fresh statistics for an agent of `kind`: humans start with
    /// health in 1..25 and strength in 1..100, zombies with health in
    /// 1..50 and strength in 1..25.  Only the ranges are promised: the
    /// draws are random.
    pub fn random(kind: &Kind) -> (r: Self)
        ensures
            *kind == Kind::Human ==> 1 <= r.health < 25 && 1 <= r.strength < 100,
            *kind == Kind::Zombie ==> 1 <= r.health < 50 && 1 <= r.strength < 25,
    {
        match kind {
            Kind::Human => {
                let health: usize = draw_in_range(1, 25);
                let strength: usize = draw_in_range(1, 100);
                Self { health: health as i64, strength: strength as i64 }
            },
            Kind::Zombie => {
                let health: usize = draw_in_range(1, 50);
                let strength: usize = draw_in_range(1, 25);
                Self { health: health as i64, strength: strength as i64 }
            },
        }
    }
}

/// Whether an agent is still in play.
#[derive(Debug, Clone, Copy)]
pub struct LifeSwitch {
    switch: bool,
}

impl LifeSwitch {
    /// Still in play?
    pub closed spec fn spec_alive(&self) -> bool {
        self.switch
    }

    /// A fresh agent is alive.
    pub fn new() -> (r: Self)
        ensures
            r.spec_alive(),
    {
        LifeSwitch { switch: true }
    }

    pub fn is_alive(&self) -> (r: bool)
        ensures
            r == self.spec_alive(),
    {
        self.switch
    }

    /// Take the agent out of play.
    pub fn set_dead(&mut self)
        ensures
            !final(self).spec_alive(),
    {
        self.switch = false;
    }
}

/// The shared tally of how many agents of each side remain in play.
#[derive(Debug, Clone, Copy)]
pub struct Observer {
    pub human_count: i64,
    pub zombie_count: i64,
}

impl Observer {
    pub fn new() -> (r: Self)
        ensures
            r.human_count == 0,
            r.zombie_count == 0,
    {
        Self { human_count: 0, zombie_count: 0 }
    }

    /// Adjust one side's tally by `count`.
    pub fn adjust(&mut self, count: i64, kind: &Kind)
        requires
            *kind == Kind::Human ==> i64::MIN <= old(self).human_count + count <= i64::MAX,
            *kind == Kind::Zombie ==> i64::MIN <= old(self).zombie_count + count <= i64::MAX,
        ensures
            *kind == Kind::Human ==> final(self).human_count == old(self).human_count + count
                && final(self).zombie_count == old(self).zombie_count,
            *kind == Kind::Zombie ==> final(self).zombie_count == old(self).zombie_count + count
                && final(self).human_count == old(self).human_count,
    {
        match kind {
            Kind::Human => {
                self.human_count = self.human_count + count;
            },
            Kind::Zombie => {
                self.zombie_count = self.zombie_count + count;
            },
        }
    }

    /// Wrap the observer in a guarded cell for shared access.
    pub fn into_cell(self) -> (r: GreedyCell<Self>)
        ensures
            r.lock_state() is Free,
            r.stored() == self,
    {
        GreedyCell::new(self)
    }
}

/// Everything one agent carries: its core record, its statistics, and
/// its life switch.  The shared observer and the grid are passed
/// alongside wherever they are needed.
pub struct Package {
    agent: agent::Agent<Message, Kind>,
    stats: Statistics,
    life_switch: LifeSwitch,
}

impl Package {
    pub closed spec fn spec_position(&self) -> GridPosition {
        self.agent.spec_position()
    }

    pub closed spec fn spec_kind(&self) -> Kind {
        self.agent.spec_kind()
    }

    pub closed spec fn spec_id(&self) -> usize {
        self.agent.spec_id()
    }

    pub closed spec fn spec_comm(&self) -> MessageInterface<Message> {
        self.agent.spec_comm()
    }

    pub closed spec fn spec_stats(&self) -> Statistics {
        self.stats
    }

    pub closed spec fn spec_alive(&self) -> bool {
        self.life_switch.spec_alive()
    }

    /// Build a package: draw its statistics and bundle the agent record.
    pub fn new(comm: MessageInterface<Message>, position: GridPosition, kind: Kind, id: usize) -> (r:
        Self)
        ensures
            r.spec_comm() == comm,
            r.spec_position() == position,
            r.spec_kind() == kind,
            r.spec_id() == id,
            r.spec_alive(),
            kind == Kind::Human ==> 1 <= r.spec_stats().health < 25 && 1 <= r.spec_stats().strength
                < 100,
            kind == Kind::Zombie ==> 1 <= r.spec_stats().health < 50 && 1
                <= r.spec_stats().strength < 25,
    {
        Package {
            stats: Statistics::random(&kind),
            agent: agent::Agent::new(comm, position, kind, id),
            life_switch: LifeSwitch::new(),
        }
    }

    #[inline]
    pub fn as_tile(&self) -> (r: GridPosition)
        ensures
            r == self.spec_position(),
    {
        self.agent.as_tile()
    }

    /// Record that the agent now stands somewhere else.
    #[inline]
    pub fn swap_stored_position_with(&mut self, new: GridPosition)
        ensures
            final(self).spec_position() == new,
            final(self).spec_kind() == old(self).spec_kind(),
            final(self).spec_id() == old(self).spec_id(),
            final(self).spec_comm() == old(self).spec_comm(),
            final(self).spec_stats() == old(self).spec_stats(),
            final(self).spec_alive() == old(self).spec_alive(),
    {
        self.agent.swap_stored_position_with(new)
    }

    #[inline]
    pub fn as_messenger(&self) -> (r: &MessageInterface<Message>)
        ensures
            *r == self.spec_comm(),
    {
        self.agent.as_messenger()
    }

    /// The message interface, mutably, for queueing and flushing.
    #[inline]
    pub fn as_messenger_mut(&mut self) -> (r: &mut MessageInterface<Message>)
        ensures
            *r == old(self).spec_comm(),
            final(self).spec_comm() == *final(r),
            final(self).spec_position() == old(self).spec_position(),
            final(self).spec_kind() == old(self).spec_kind(),
            final(self).spec_id() == old(self).spec_id(),
            final(self).spec_stats() == old(self).spec_stats(),
            final(self).spec_alive() == old(self).spec_alive(),
    {
        self.agent.as_messenger_mut()
    }

    #[inline]
    pub fn as_statistics(&self) -> (r: &Statistics)
        ensures
            *r == self.spec_stats(),
    {
        &self.stats
    }

    /// The statistics, mutably, for combat and restoration.
    #[inline]
    pub fn as_statistics_mut(&mut self) -> (r: &mut Statistics)
        ensures
            *r == old(self).spec_stats(),
            final(self).spec_stats() == *final(r),
            final(self).spec_position() == old(self).spec_position(),
            final(self).spec_kind() == old(self).spec_kind(),
            final(self).spec_id() == old(self).spec_id(),
            final(self).spec_comm() == old(self).spec_comm(),
            final(self).spec_alive() == old(self).spec_alive(),
    {
        &mut self.stats
    }

    #[inline]
    pub fn as_kind(&self) -> (r: &Kind)
        ensures
            *r == self.spec_kind(),
    {
        self.agent.as_kind()
    }

    #[inline]
    pub fn get_id(&self) -> (r: usize)
        ensures
            r == self.spec_id(),
    {
        self.agent.get_id()
    }

    #[inline]
    pub fn as_life_switch(&self) -> (r: &LifeSwitch)
        ensures
            r.spec_alive() == self.spec_alive(),
    {
        &self.life_switch
    }

    /// The life switch, mutably, for taking the agent out of play.
    #[inline]
    pub fn as_life_switch_mut(&mut self) -> (r: &mut LifeSwitch)
        ensures
            r.spec_alive() == old(self).spec_alive(),
            final(self).spec_alive() == final(r).spec_alive(),
            final(self).spec_position() == old(self).spec_position(),
            final(self).spec_kind() == old(self).spec_kind(),
            final(self).spec_id() == old(self).spec_id(),
            final(self).spec_comm() == old(self).spec_comm(),
            final(self).spec_stats() == old(self).spec_stats(),
    {
        &mut self.life_switch
    }
}

impl crate::zombie::agents::GetPackage for Package {
    open spec fn spec_package(&self) -> Package {
        *self
    }

    #[inline]
    fn get_package(&self) -> (r: &Package) {
        self
    }

    #[inline]
    fn get_package_mut(&mut self) -> (r: &mut Package) {
        self
    }
}

impl crate::zombie::agents::DeadOrAlive for Package {

}

} // verus!
