//! The registry together with the platform loop that it coordinates, as one
//! mathematical system. The platform loop is taken to do what it is told: a
//! source is a member from its registration to its release, and the loop
//! answers the membership query accordingly.

use crate::error::RegistryError;
use crate::state::{Admission, LoopView};
use vstd::prelude::*;

verus! {

/// The registry and the members of the loop that it speaks for.
#[verifier::reject_recursive_types(S)]
pub struct World<H, S> {
    pub registry: LoopView<H>,
    /// The sources that the running loop services. They are the sources for
    /// which a token is outstanding.
    pub members: Set<S>,
}

/// One operation on the shared registry. Operations from any number of
/// threads take effect one after the other, in the order in which they get
/// the registry's lock.
pub enum Op<H, S> {
    /// A registration of `source`. `rendezvous` is what the loop thread
    /// reports, should this registration be the one that spawns it.
    Register { source: S, rendezvous: Option<H> },
    /// The release of the token for `source`.
    Unregister { source: S },
}

impl<H, S> World<H, S> {
    /// The system at process start.
    pub open spec fn initial() -> Self {
        World { registry: LoopView::stopped(), members: Set::empty() }
    }

    /// What holds of the system at every moment: the handle is present
    /// exactly while registrations are active, and the count is the number
    /// of members.
    pub open spec fn inv(self) -> bool {
        &&& self.registry.wf()
        &&& self.members.finite()
        &&& self.members.len() == self.registry.active_count
    }

    /// A registration of `source`, from the spawn decision to the commit.
    pub open spec fn register(self, source: S, rendezvous: Option<H>) -> Result<
        Self,
        RegistryError,
    > {
        match self.registry.admission() {
            Admission::Attach => match self.registry.attach(self.members.contains(source)) {
                Ok(registry) => Ok(World { registry, members: self.members.insert(source) }),
                Err(reason) => Err(reason),
            },
            Admission::Spawn => match self.registry.start(rendezvous) {
                Ok(registry) => Ok(World { registry, members: Set::empty().insert(source) }),
                Err(reason) => Err(reason),
            },
        }
    }

    /// The release of the token for `source`.
    pub open spec fn unregister(self, source: S) -> Result<Self, RegistryError> {
        match self.registry.release() {
            Ok(registry) => Ok(
                World {
                    registry,
                    members: self.registry.departure(source).members_after(self.members),
                },
            ),
            Err(reason) => Err(reason),
        }
    }

    /// Whether `op` can be issued at all: a release needs a token, and there
    /// is one for each member and for nothing else.
    pub open spec fn enabled(self, op: Op<H, S>) -> bool {
        match op {
            Op::Register { .. } => true,
            Op::Unregister { source } => self.members.contains(source),
        }
    }

    /// The system after `op`. A refused operation changes nothing.
    pub open spec fn step(self, op: Op<H, S>) -> Self {
        if !self.enabled(op) {
            self
        } else {
            let outcome = match op {
                Op::Register { source, rendezvous } => self.register(source, rendezvous),
                Op::Unregister { source } => self.unregister(source),
            };
            match outcome {
                Ok(next) => next,
                Err(_) => self,
            }
        }
    }

    /// The system after the operations `ops`, taken in order.
    pub open spec fn run(self, ops: Seq<Op<H, S>>) -> Self
        decreases ops.len(),
    {
        if ops.len() == 0 {
            self
        } else {
            self.run(ops.drop_last()).step(ops.last())
        }
    }
}

} // verus!
