//! The registry on a Core Foundation run loop: the registrations and the
//! releases that go to a loop which runs already. Starting the loop thread
//! is not done here; its outcome is committed with `LoopState::start`.
//!
//! A run loop keeps its sources per mode. Every call takes the mode, and the
//! embedding program hands the same one to all of them.

use crate::error::RegistryError;
use crate::state::LoopState;
use crate::token::{RegistrationToken, Release};
use core_foundation::base::TCFType;
use core_foundation::runloop::{CFRunLoop, CFRunLoopSource};
use core_foundation::string::CFString;
use vstd::prelude::*;

verus! {

/// `core_foundation::runloop::CFRunLoop`, a counted reference to a run
/// loop. Nothing of what it refers to is visible here.
#[verifier::external_type_specification]
#[verifier::external_body]
pub struct ExCFRunLoop(CFRunLoop);

/// `core_foundation::runloop::CFRunLoopSource`, a counted reference to a
/// run loop source. Nothing of what it refers to is visible here.
#[verifier::external_type_specification]
#[verifier::external_body]
pub struct ExCFRunLoopSource(CFRunLoopSource);

/// `core_foundation::string::CFString`, here only as the name of a run loop
/// mode. Nothing of its text is visible here.
#[verifier::external_type_specification]
#[verifier::external_body]
pub struct ExCFString(CFString);

/// Calls `CFRunLoop::contains_source`. Nothing is claimed of the answer: it
/// is the platform's, as of the moment of the call.
#[verifier::external_body]
fn contains_source(
    runloop: &CFRunLoop,
    source: &CFRunLoopSource,
    mode: &CFString,
) -> (present: bool) {
    runloop.contains_source(source, mode.as_concrete_TypeRef())
}

/// Calls `CFRunLoop::add_source`, which returns nothing. Nothing is claimed
/// of what it does to the run loop.
#[verifier::external_body]
fn add_source(runloop: &CFRunLoop, source: &CFRunLoopSource, mode: &CFString) {
    runloop.add_source(source, mode.as_concrete_TypeRef())
}

/// Calls `CFRunLoop::remove_source`, which returns nothing. Nothing is
/// claimed of what it does to the run loop.
#[verifier::external_body]
fn remove_source(runloop: &CFRunLoop, source: &CFRunLoopSource, mode: &CFString) {
    runloop.remove_source(source, mode.as_concrete_TypeRef())
}

/// Calls `CFRunLoop::stop`, which returns nothing. Nothing is claimed of
/// what it does to the run loop.
#[verifier::external_body]
fn stop(runloop: &CFRunLoop) {
    runloop.stop()
}

/// Registers `source` on the run loop that runs. The run loop is asked
/// whether it has the source already. If it has, the registration is
/// refused as a duplicate and nothing is counted; if not, the source is
/// added to the run loop and counted. Which of the two happens is the run
/// loop's answer. Without a running loop the registration is refused and
/// the run loop is not called.
pub fn attach_source(
    registry: &mut LoopState<CFRunLoop>,
    source: CFRunLoopSource,
    mode: &CFString,
) -> (registration: Result<RegistrationToken<CFRunLoopSource>, RegistryError>)
    requires
        old(registry)@.active_count < usize::MAX,
    ensures
        final(registry)@.wf(),
        old(registry)@.running() ==> ({
            ||| {
                &&& registration is Ok
                &&& registration->Ok_0@ == source
                &&& final(registry)@ == old(registry)@.attached()
            }
            ||| {
                &&& registration is Err
                &&& registration->Err_0 == RegistryError::DuplicateSource
                &&& final(registry)@ == old(registry)@
            }
        }),
        !old(registry)@.running() ==> ({
            &&& registration is Err
            &&& registration->Err_0 == RegistryError::NotRunning
            &&& final(registry)@ == old(registry)@
        }),
{
    let already_member = match registry.handle() {
        Some(runloop) => contains_source(runloop, &source, mode),
        None => false,
    };
    match registry.attach(source, already_member) {
        Ok(token) => {
            add_source(registry.handle().unwrap(), token.source(), mode);
            Ok(token)
        },
        Err(reason) => Err(reason),
    }
}

/// Releases `token`: its source is removed from the run loop, and if it was
/// the last one registered, the run loop is stopped and the registry gives
/// up its handle. Without a running loop nothing is released and the run
/// loop is not called.
pub fn detach_source(
    registry: &mut LoopState<CFRunLoop>,
    token: RegistrationToken<CFRunLoopSource>,
    mode: &CFString,
) -> (released: Result<(), RegistryError>)
    ensures
        final(registry)@.wf(),
        (match old(registry)@.release() {
            Ok(next) => final(registry)@ == next && released is Ok,
            Err(reason) => {
                &&& final(registry)@ == old(registry)@
                &&& released is Err
                &&& released->Err_0 == reason
            },
        }),
{
    match token.release(registry) {
        Ok(Release::Detach { source }) => {
            remove_source(registry.handle().unwrap(), &source, mode);
            Ok(())
        },
        Ok(Release::Stop { source, handle }) => {
            remove_source(&handle, &source, mode);
            stop(&handle);
            Ok(())
        },
        Err(reason) => Err(reason),
    }
}

} // verus!
