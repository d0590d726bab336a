//! The greedy lock primitive: exclusive and shared access to one guarded
//! cell, retried until success or until a bounded wait gives up.
//!
//! The scheduling model is cooperative: while one logical accessor waits,
//! no other accessor runs, so a cell that is held stays held for the whole
//! bounded wait and a cell that is free is won on the first attempt.  The
//! bounded acquisitions therefore resolve deterministically from the
//! cell's lock state, and the unbounded ones, which would spin forever on
//! a held cell, require a free cell.

use vstd::prelude::*;

verus! {

/// Who, if anyone, holds the cell: nobody, some shared readers, or one
/// exclusive writer.
#[derive(Clone, Copy, Debug, PartialEq, Eq, Structural)]
pub enum LockState {
    Free,
    Shared(u64),
    Exclusive,
}

/// A bounded wait for the cell expired while it was held.
#[derive(Clone, Copy, Debug, PartialEq, Eq, Structural)]
pub struct LockTimeout;

/// Exclusive access to a guarded cell.
pub trait GreedyLock: Sized {
    type Output;

    spec fn cell_state(&self) -> LockState;

    spec fn cell_value(&self) -> Self::Output;

    /// Retry an exclusive-lock attempt until it succeeds.  The caller must
    /// guarantee the cell is free, or this would spin forever.
    fn await_greedy_lock(&mut self)
        requires
            old(self).cell_state() is Free,
        ensures
            final(self).cell_state() is Exclusive,
            final(self).cell_value() == old(self).cell_value(),
    ;

    /// Retry an exclusive-lock attempt, giving up once the elapsed wait
    /// exceeds the timeout; a held cell yields a busy result, never a fault.
    fn await_greedy_lock_with_timeout(&mut self, timeout_millis: u64) -> (r: Result<
        (),
        LockTimeout,
    >)
        ensures
            old(self).cell_state() is Free ==> r is Ok && final(self).cell_state() is Exclusive,
            !(old(self).cell_state() is Free) ==> r is Err && *final(self) == *old(self),
            final(self).cell_value() == old(self).cell_value(),
    ;
}

/// Shared access to a guarded cell.
pub trait GreedyBorrow: Sized {
    type Output;

    spec fn shared_state(&self) -> LockState;

    spec fn shared_value(&self) -> Self::Output;

    /// Retry a shared-borrow attempt until it succeeds.  The caller must
    /// guarantee the cell is not held exclusively, or this would spin
    /// forever.
    fn await_greedy_borrow(&mut self)
        requires
            !(old(self).shared_state() is Exclusive),
            old(self).shared_state() matches LockState::Shared(c) ==> c < u64::MAX,
        ensures
            final(self).shared_state() is Shared,
            final(self).shared_value() == old(self).shared_value(),
            old(self).shared_state() is Free ==> final(self).shared_state() == LockState::Shared(
                1,
            ),
            old(self).shared_state() matches LockState::Shared(c) ==> final(self).shared_state()
                == LockState::Shared((c + 1) as u64),
    ;

    /// Retry a shared-borrow attempt, giving up once the elapsed wait
    /// exceeds the timeout.
    fn await_greedy_borrow_with_timeout(&mut self, timeout_millis: u64) -> (r: Result<
        (),
        LockTimeout,
    >)
        requires
            old(self).shared_state() matches LockState::Shared(c) ==> c < u64::MAX,
        ensures
            !(old(self).shared_state() is Exclusive) ==> r is Ok && final(self).shared_state() is Shared,
            old(self).shared_state() is Exclusive ==> r is Err && final(self).shared_state()
                == old(self).shared_state(),
            final(self).shared_value() == old(self).shared_value(),
    ;
}

/// Read-only access to a guarded cell, without taking the lock.
pub trait GreedyRead: Sized {
    type Output;

    spec fn read_state(&self) -> LockState;

    spec fn read_value(&self) -> Self::Output;

    /// Read the cell's contents; the cell must not be held exclusively.
    fn await_greedy_read(&self) -> (r: &Self::Output)
        requires
            !(self.read_state() is Exclusive),
        ensures
            *r == self.read_value(),
    ;
}

/// One shared mutable cell guarded by the greedy lock discipline: the
/// stored value together with its lock state.
#[derive(Debug)]
pub struct GreedyCell<T> {
    value: T,
    state: LockState,
}

impl<T> GreedyCell<T> {
    /// The cell's lock state.
    pub closed spec fn lock_state(&self) -> LockState {
        self.state
    }

    /// The value the cell guards.
    pub closed spec fn stored(&self) -> T {
        self.value
    }

    /// A fresh cell is free.
    pub fn new(value: T) -> (r: Self)
        ensures
            r.lock_state() is Free,
            r.stored() == value,
    {
        GreedyCell { value, state: LockState::Free }
    }

    /// Read the guarded value; the cell must not be held exclusively.
    pub fn read(&self) -> (r: &T)
        requires
            !(self.lock_state() is Exclusive),
        ensures
            *r == self.stored(),
    {
        &self.value
    }

    /// Mutable access to the guarded value, for the holder of the
    /// exclusive lock.
    pub fn locked_mut(&mut self) -> (r: &mut T)
        requires
            old(self).lock_state() is Exclusive,
        ensures
            *r == old(self).stored(),
            final(self).stored() == *final(r),
            final(self).lock_state() is Exclusive,
    {
        &mut self.value
    }

    /// Give the exclusive lock back.
    pub fn release_exclusive(&mut self)
        requires
            old(self).lock_state() is Exclusive,
        ensures
            final(self).lock_state() is Free,
            final(self).stored() == old(self).stored(),
    {
        self.state = LockState::Free;
    }

    /// Give one shared borrow back.
    pub fn release_shared(&mut self)
        requires
            old(self).lock_state() is Shared,
        ensures
            final(self).stored() == old(self).stored(),
            old(self).lock_state() matches LockState::Shared(c) ==> final(self).lock_state() == (
            if c > 1 {
                LockState::Shared((c - 1) as u64)
            } else {
                LockState::Free
            }),
    {
        match self.state {
            LockState::Shared(c) => {
                if c > 1 {
                    self.state = LockState::Shared(c - 1);
                } else {
                    self.state = LockState::Free;
                }
            },
            _ => {},
        }
    }
}

impl<T> GreedyLock for GreedyCell<T> {
    type Output = T;

    open spec fn cell_state(&self) -> LockState {
        self.lock_state()
    }

    open spec fn cell_value(&self) -> T {
        self.stored()
    }

    fn await_greedy_lock(&mut self) {
        self.state = LockState::Exclusive;
    }

    #[allow(unused_variables)]
    fn await_greedy_lock_with_timeout(&mut self, timeout_millis: u64) -> (r: Result<
        (),
        LockTimeout,
    >) {
        match self.state {
            LockState::Free => {
                self.state = LockState::Exclusive;
                Ok(())
            },
            _ => Err(LockTimeout),
        }
    }
}

impl<T> GreedyBorrow for GreedyCell<T> {
    type Output = T;

    open spec fn shared_state(&self) -> LockState {
        self.lock_state()
    }

    open spec fn shared_value(&self) -> T {
        self.stored()
    }

    fn await_greedy_borrow(&mut self) {
        match self.state {
            LockState::Free => {
                self.state = LockState::Shared(1);
            },
            LockState::Shared(c) => {
                self.state = LockState::Shared(c + 1);
            },
            LockState::Exclusive => {},
        }
    }

    #[allow(unused_variables)]
    fn await_greedy_borrow_with_timeout(&mut self, timeout_millis: u64) -> (r: Result<
        (),
        LockTimeout,
    >) {
        match self.state {
            LockState::Free => {
                self.state = LockState::Shared(1);
                Ok(())
            },
            LockState::Shared(c) => {
                self.state = LockState::Shared(c + 1);
                Ok(())
            },
            LockState::Exclusive => Err(LockTimeout),
        }
    }
}

impl<T> GreedyRead for GreedyCell<T> {
    type Output = T;

    open spec fn read_state(&self) -> LockState {
        self.lock_state()
    }

    open spec fn read_value(&self) -> T {
        self.stored()
    }

    fn await_greedy_read(&self) -> (r: &T) {
        &self.value
    }
}

} // verus!
