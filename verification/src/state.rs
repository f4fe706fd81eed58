//! The shared registry state: whether a loop runs, its handle, and the
//! number of active registrations.

use crate::error::RegistryError;
use crate::token::{RegistrationToken, Release};
use vstd::prelude::*;

verus! {

/// The mathematical value of a registry: the handle of the running loop, if
/// one runs, and the number of registrations that are active on it.
pub struct LoopView<H> {
    pub handle: Option<H>,
    pub active_count: nat,
}

impl<H> LoopView<H> {
    /// The registry at process start and after every stop of the loop.
    pub open spec fn stopped() -> Self {
        LoopView { handle: None, active_count: 0 }
    }

    /// A handle is present exactly while registrations are active.
    pub open spec fn wf(self) -> bool {
        self.handle is Some <==> self.active_count > 0
    }

    /// Whether a loop thread exists.
    pub open spec fn running(self) -> bool {
        self.handle is Some
    }

    /// The spawn decision: a thread is spawned exactly when no loop runs.
    pub open spec fn admission(self) -> Admission {
        if self.running() {
            Admission::Attach
        } else {
            Admission::Spawn
        }
    }

    /// The registry once a freshly spawned loop has reported `handle`: that
    /// loop, with the one registration that triggered it.
    pub open spec fn started(handle: H) -> Self {
        LoopView { handle: Some(handle), active_count: 1 }
    }

    /// The registry after one more registration on the running loop. The
    /// handle stays: no second loop comes into being.
    pub open spec fn attached(self) -> Self {
        LoopView { handle: self.handle, active_count: self.active_count + 1 }
    }

    /// The registry after one release: the last one stops the loop and clears
    /// the handle, any other only lowers the count.
    pub open spec fn released(self) -> Self {
        if self.active_count > 1 {
            LoopView { handle: self.handle, active_count: (self.active_count - 1) as nat }
        } else {
            Self::stopped()
        }
    }

    /// Committing a registration on the running loop, given the loop's answer
    /// to the membership query: the next registry, or the reason for the
    /// refusal.
    pub open spec fn attach(self, already_member: bool) -> Result<Self, RegistryError> {
        if !self.running() {
            Err(RegistryError::NotRunning)
        } else if already_member {
            Err(RegistryError::DuplicateSource)
        } else {
            Ok(self.attached())
        }
    }

    /// Committing the registration that spawned a loop thread, given what the
    /// rendezvous with that thread yielded: the next registry, or the reason
    /// for the refusal.
    pub open spec fn start(self, rendezvous: Option<H>) -> Result<Self, RegistryError> {
        match rendezvous {
            None => Err(RegistryError::StartupFailed),
            Some(handle) => if self.running() {
                Err(RegistryError::AlreadyRunning)
            } else {
                Ok(Self::started(handle))
            },
        }
    }

    /// Releasing one registration: the next registry, or the reason for the
    /// refusal.
    pub open spec fn release(self) -> Result<Self, RegistryError> {
        if self.running() {
            Ok(self.released())
        } else {
            Err(RegistryError::NotRunning)
        }
    }

    /// What a release of `source` asks of the platform loop.
    pub open spec fn departure<S>(self, source: S) -> Release<H, S> {
        if self.active_count > 1 {
            Release::Detach { source }
        } else {
            Release::Stop { source, handle: self.handle->Some_0 }
        }
    }
}

/// What a registrant has to do on the platform before its registration can
/// be committed.
#[derive(Clone, Copy, Debug, PartialEq, Eq, Structural)]
pub enum Admission {
    /// A loop runs: ask it whether the source is a member already, and add
    /// the source if it is not. No thread is spawned.
    Attach,
    /// No loop runs: spawn the loop thread with the source and wait for the
    /// handle that it reports.
    Spawn,
}

/// The process-wide registry state. It is meant to live behind one exclusive
/// lock; every method is one step taken while that lock is held.
#[derive(Debug)]
pub struct LoopState<H> {
    handle: Option<H>,
    active_count: usize,
}

impl<H> View for LoopState<H> {
    type V = LoopView<H>;

    closed spec fn view(&self) -> LoopView<H> {
        LoopView { handle: self.handle, active_count: self.active_count as nat }
    }
}

impl<H> LoopState<H> {
    #[verifier::type_invariant]
    spec fn handle_tracks_count(self) -> bool {
        self.handle is Some <==> self.active_count > 0
    }

    /// The registry before the first registration: no loop, no registrations.
    pub fn new() -> (state: Self)
        ensures
            state@ == LoopView::<H>::stopped(),
    {
        LoopState { handle: None, active_count: 0 }
    }

    /// The number of active registrations.
    pub fn active_count(&self) -> (count: usize)
        ensures
            count == self@.active_count,
    {
        self.active_count
    }

    /// Whether a loop thread exists.
    pub fn is_running(&self) -> (running: bool)
        ensures
            running == self@.running(),
            self@.wf(),
    {
        proof {
            use_type_invariant(self);
        }
        self.handle.is_some()
    }

    /// The handle of the running loop, for the calls that add, query and
    /// remove sources.
    pub fn handle(&self) -> (handle: Option<&H>)
        ensures
            handle is Some <==> self@.running(),
            handle matches Some(h) ==> self@.handle == Some(*h),
    {
        self.handle.as_ref()
    }

    /// The spawn decision: a thread is spawned exactly when no loop runs.
    pub fn admission(&self) -> (admission: Admission)
        ensures
            admission == self@.admission(),
    {
        if self.handle.is_some() {
            Admission::Attach
        } else {
            Admission::Spawn
        }
    }

    /// Commits a registration of `source` on the running loop.
    /// `already_member` is the loop's answer to the membership query for
    /// `source`. A duplicate is refused and counts nothing. On success the
    /// caller adds the source to the loop and keeps the token for as long as
    /// the source is to be serviced.
    pub fn attach<S>(
        &mut self,
        source: S,
        already_member: bool,
    ) -> (registration: Result<RegistrationToken<S>, RegistryError>)
        requires
            old(self)@.active_count < usize::MAX,
        ensures
            final(self)@.wf(),
            (match old(self)@.attach(already_member) {
                Ok(next) => {
                    &&& final(self)@ == next
                    &&& registration is Ok
                    &&& registration->Ok_0@ == source
                },
                Err(reason) => {
                    &&& final(self)@ == old(self)@
                    &&& registration is Err
                    &&& registration->Err_0 == reason
                },
            }),
    {
        proof {
            use_type_invariant(&*self);
        }
        if self.handle.is_none() {
            Err(RegistryError::NotRunning)
        } else if already_member {
            Err(RegistryError::DuplicateSource)
        } else {
            self.active_count = self.active_count + 1;
            Ok(RegistrationToken::new(source))
        }
    }

    /// Commits the registration of `source` that spawned a loop thread.
    /// `rendezvous` is what the wait for that thread yielded: its handle, or
    /// nothing if it never reported one. On success the registry owns the
    /// handle and counts one registration.
    pub fn start<S>(
        &mut self,
        source: S,
        rendezvous: Option<H>,
    ) -> (registration: Result<RegistrationToken<S>, RegistryError>)
        ensures
            final(self)@.wf(),
            (match old(self)@.start(rendezvous) {
                Ok(next) => {
                    &&& final(self)@ == next
                    &&& registration is Ok
                    &&& registration->Ok_0@ == source
                },
                Err(reason) => {
                    &&& final(self)@ == old(self)@
                    &&& registration is Err
                    &&& registration->Err_0 == reason
                },
            }),
    {
        proof {
            use_type_invariant(&*self);
        }
        match rendezvous {
            None => Err(RegistryError::StartupFailed),
            Some(handle) => {
                if self.handle.is_some() {
                    Err(RegistryError::AlreadyRunning)
                } else {
                    *self = LoopState { handle: Some(handle), active_count: 1 };
                    Ok(RegistrationToken::new(source))
                }
            },
        }
    }

    /// Takes one registration off the count. Hands out the handle when that
    /// was the last one: the registry is then stopped and the loop is the
    /// caller's to stop.
    pub(crate) fn unregister(&mut self) -> (last: Result<Option<H>, RegistryError>)
        ensures
            final(self)@.wf(),
            (match old(self)@.release() {
                Ok(next) => {
                    &&& final(self)@ == next
                    &&& last is Ok
                    &&& next.running() ==> last->Ok_0 is None
                    &&& !next.running() ==> last->Ok_0 == old(self)@.handle
                },
                Err(reason) => {
                    &&& final(self)@ == old(self)@
                    &&& last is Err
                    &&& last->Err_0 == reason
                },
            }),
    {
        proof {
            use_type_invariant(&*self);
        }
        if self.handle.is_none() {
            Err(RegistryError::NotRunning)
        } else if self.active_count > 1 {
            self.active_count = self.active_count - 1;
            Ok(None)
        } else {
            let mut stopped = LoopState::new();
            core::mem::swap(self, &mut stopped);
            let LoopState { handle, active_count: _ } = stopped;
            Ok(handle)
        }
    }
}

} // verus!
