//! Exclusive access to the serial device of one connection.
//!
//! Two roles share the device: the reader and the writer. A role asks for the
//! device before every single read or write and gives it back when the call has
//! returned, so that at most one call runs against the device at any time. A
//! role that was turned away goes first once the device is free, so neither
//! direction can keep the other from the device for longer than one call.

use vstd::prelude::*;

verus! {

/// The two roles that use the serial device of a connection.
#[derive(Clone, Copy, Debug, PartialEq, Eq, Structural)]
pub enum Role {
    /// Reads from the device, for the client.
    Reader,
    /// Writes to the device what the client sent.
    Writer,
}

impl Role {
    /// The role of the opposite direction.
    pub open spec fn spec_other(self) -> Role {
        match self {
            Role::Reader => Role::Writer,
            Role::Writer => Role::Reader,
        }
    }

    /// The role of the opposite direction.
    #[verifier::when_used_as_spec(spec_other)]
    pub fn other(self) -> (role: Role)
        ensures
            role == self.spec_other(),
    {
        match self {
            Role::Reader => Role::Writer,
            Role::Writer => Role::Reader,
        }
    }
}

/// A [`DeviceGuard`] as a mathematical value.
pub ghost struct GuardState {
    /// The role whose call runs against the device.
    pub holder: Option<Role>,
    /// The role that was turned away and goes first when the device is free.
    pub waiting: Option<Role>,
}

impl GuardState {
    /// The guard of a device that nobody uses or waits for.
    pub open spec fn free() -> GuardState {
        GuardState { holder: None, waiting: None }
    }

    /// No role waits for a device that it holds itself.
    pub open spec fn wf(self) -> bool {
        self.holder is Some ==> self.waiting != self.holder
    }

    /// Whether a request of `role` is granted: the device is free and the
    /// other role was not turned away before.
    pub open spec fn grants(self, role: Role) -> bool {
        self.holder is None && self.waiting != Some(role.other())
    }

    /// The guard after `role` asked for the device.
    pub open spec fn acquire(self, role: Role) -> GuardState {
        if self.grants(role) {
            GuardState { holder: Some(role), waiting: None }
        } else if self.holder == Some(role.other()) {
            GuardState { holder: self.holder, waiting: Some(role) }
        } else {
            self
        }
    }

    /// The guard after `role` gave the device back. Only the holder can.
    pub open spec fn release(self, role: Role) -> GuardState {
        if self.holder == Some(role) {
            GuardState { holder: None, waiting: self.waiting }
        } else {
            self
        }
    }
}

/// Arbiter for the serial device of one connection.
pub struct DeviceGuard {
    holder: Option<Role>,
    waiting: Option<Role>,
}

impl View for DeviceGuard {
    type V = GuardState;

    closed spec fn view(&self) -> GuardState {
        GuardState { holder: self.holder, waiting: self.waiting }
    }
}

impl DeviceGuard {
    /// The guard of a device that nobody uses or waits for.
    pub fn new() -> (guard: Self)
        ensures
            guard@ == GuardState::free(),
    {
        DeviceGuard { holder: None, waiting: None }
    }

    /// The role whose call runs against the device, if any.
    pub fn holder(&self) -> (holder: Option<Role>)
        ensures
            holder == self@.holder,
    {
        self.holder
    }

    /// The role that goes first when the device is free, if any.
    pub fn waiting(&self) -> (waiting: Option<Role>)
        ensures
            waiting == self@.waiting,
    {
        self.waiting
    }

    /// `role` asks for the device, for one call.
    ///
    /// The request is granted when the device is free and the other role is
    /// not waiting for it. A role that is turned away by the holder is
    /// remembered and served first.
    pub fn acquire(&mut self, role: Role) -> (granted: bool)
        ensures
            granted == old(self)@.grants(role),
            final(self)@ == old(self)@.acquire(role),
    {
        let other = role.other();
        let free = self.holder.is_none();
        let held_by_other = role_is(self.holder, other);
        let other_waits = role_is(self.waiting, other);
        if free && !other_waits {
            self.holder = Some(role);
            self.waiting = None;
            true
        } else {
            if held_by_other {
                self.waiting = Some(role);
            }
            false
        }
    }

    /// `role` gives the device back after its call. Answers whether it held it.
    pub fn release(&mut self, role: Role) -> (released: bool)
        ensures
            released == (old(self)@.holder == Some(role)),
            final(self)@ == old(self)@.release(role),
    {
        if role_is(self.holder, role) {
            self.holder = None;
            true
        } else {
            false
        }
    }

    /// Frees the device and forgets who waited: the connection is over.
    pub fn reset(&mut self)
        ensures
            final(self)@ == GuardState::free(),
    {
        self.holder = None;
        self.waiting = None;
    }
}

/// Whether `slot` holds `role`.
fn role_is(slot: Option<Role>, role: Role) -> (same: bool)
    ensures
        same == (slot == Some(role)),
{
    match slot {
        Some(found) => found == role,
        None => false,
    }
}

/// Mutual exclusion: a request is granted only for a free device, and a
/// granted request leaves the asking role as the one holder.
pub proof fn lemma_guard_exclusive(guard: GuardState, role: Role)
    ensures
        guard.grants(role) ==> guard.holder is None && guard.acquire(role).holder == Some(role),
        !guard.grants(role) ==> guard.acquire(role).holder == guard.holder,
        guard.wf() ==> guard.acquire(role).wf(),
        guard.wf() ==> guard.release(role).wf(),
{
}

/// Bounded waiting: a role that the holder turned away gets the device with
/// its first request after the holder gave it back, and the former holder
/// cannot take it again in between.
pub proof fn lemma_guard_turn(guard: GuardState, role: Role)
    requires
        guard.wf(),
        guard.holder == Some(role.other()),
    ensures
        ({
            let denied = guard.acquire(role);
            let freed = denied.release(role.other());
            &&& !guard.grants(role)
            &&& denied.holder == Some(role.other())
            &&& !freed.grants(role.other())
            &&& freed.acquire(role.other()) == freed
            &&& freed.grants(role)
            &&& freed.acquire(role) == GuardState { holder: Some(role), waiting: None }
        }),
{
}

} // verus!
