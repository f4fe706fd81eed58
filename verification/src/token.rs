//! The registration token: the capability that stands for one source's
//! membership in the shared loop.

use crate::error::RegistryError;
use crate::state::LoopState;
use vstd::prelude::*;

verus! {

/// What the holder of a released token has to do on the platform loop.
#[derive(Debug)]
pub enum Release<H, S> {
    /// Other registrations remain. Remove `source` from the loop, which keeps
    /// running and keeps servicing the others.
    Detach { source: S },
    /// This was the last registration. Remove `source` from the loop and stop
    /// the loop through `handle`, which the registry has given up.
    Stop { source: S, handle: H },
}

impl<H, S> Release<H, S> {
    /// The one source that leaves the loop.
    pub open spec fn source(self) -> S {
        match self {
            Release::Detach { source } => source,
            Release::Stop { source, .. } => source,
        }
    }

    /// The members of the loop once the release is carried out: the released
    /// source has left, every other member is still there.
    pub open spec fn members_after(self, members: Set<S>) -> Set<S> {
        members.remove(self.source())
    }
}

/// One source's membership in the loop. A token comes into being only by a
/// successful registration and is used up by its release, so a membership
/// ends at most once. A token that is never released keeps its registration
/// counted, and the loop running.
#[derive(Debug)]
pub struct RegistrationToken<S> {
    source: S,
}

impl<S> View for RegistrationToken<S> {
    type V = S;

    closed spec fn view(&self) -> S {
        self.source
    }
}

impl<S> RegistrationToken<S> {
    pub(crate) fn new(source: S) -> (token: Self)
        ensures
            token@ == source,
    {
        RegistrationToken { source }
    }

    /// The source whose membership this token stands for.
    pub fn source(&self) -> (source: &S)
        ensures
            *source == self@,
    {
        &self.source
    }

    /// Ends the membership: takes the registration off the count of
    /// `registry` and says what is left to do on the platform loop. The last
    /// release stops the loop. Without a running loop nothing is released.
    pub fn release<H>(
        self,
        registry: &mut LoopState<H>,
    ) -> (release: Result<Release<H, S>, RegistryError>)
        ensures
            final(registry)@.wf(),
            (match old(registry)@.release() {
                Ok(next) => {
                    &&& final(registry)@ == next
                    &&& release is Ok
                    &&& release->Ok_0 == old(registry)@.departure(self@)
                },
                Err(reason) => {
                    &&& final(registry)@ == old(registry)@
                    &&& release is Err
                    &&& release->Err_0 == reason
                },
            }),
    {
        let RegistrationToken { source } = self;
        match registry.unregister() {
            Ok(None) => Ok(Release::Detach { source }),
            Ok(Some(handle)) => Ok(Release::Stop { source, handle }),
            Err(reason) => Err(reason),
        }
    }
}

} // verus!
