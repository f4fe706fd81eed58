use loop_registry::error::RegistryError;
use loop_registry::state::{Admission, LoopState};
use loop_registry::token::{RegistrationToken, Release};
use std::collections::HashSet;

/// A stand-in for the platform: the members of the loop that runs, and a
/// record of the loop threads that were spawned and stopped.
struct Platform {
    members: HashSet<u32>,
    running: Option<u32>,
    spawned: u32,
    stopped: Vec<u32>,
}

fn platform() -> Platform {
    Platform { members: HashSet::new(), running: None, spawned: 0, stopped: Vec::new() }
}

fn register(
    registry: &mut LoopState<u32>,
    platform: &mut Platform,
    source: u32,
) -> Result<RegistrationToken<u32>, RegistryError> {
    match registry.admission() {
        Admission::Attach => {
            let present = platform.members.contains(&source);
            assert!(registry.active_count() < usize::MAX);
            let token = registry.attach(source, present)?;
            platform.members.insert(source);
            Ok(token)
        },
        Admission::Spawn => {
            platform.spawned += 1;
            platform.running = Some(platform.spawned);
            platform.members = HashSet::from([source]);
            registry.start(source, platform.running)
        },
    }
}

fn unregister(registry: &mut LoopState<u32>, platform: &mut Platform, token: RegistrationToken<u32>) {
    match token.release(registry) {
        Ok(Release::Detach { source }) => {
            assert!(registry.handle().is_some());
            assert!(platform.members.remove(&source));
        },
        Ok(Release::Stop { source, handle }) => {
            assert!(platform.members.remove(&source));
            assert_eq!(platform.running, Some(handle));
            platform.running = None;
            platform.stopped.push(handle);
        },
        Err(reason) => panic!("release refused: {:?}", reason),
    }
}

fn check_invariant(registry: &LoopState<u32>, platform: &Platform, outstanding: usize) {
    assert_eq!(registry.active_count(), outstanding);
    assert_eq!(registry.active_count(), platform.members.len());
    assert_eq!(registry.is_running(), registry.active_count() > 0);
    assert_eq!(registry.handle().copied(), platform.running);
    assert_eq!(registry.handle().is_some(), registry.active_count() > 0);
}

#[test]
fn interleaved_pairs_keep_the_invariant() {
    let workers: usize = 8;
    let rounds: usize = 200;
    let mut registry: LoopState<u32> = LoopState::new();
    let mut platform = platform();
    let mut held: Vec<Option<RegistrationToken<u32>>> = (0..workers).map(|_| None).collect();
    let mut outstanding: usize = 0;
    let mut seed: u64 = 0x2545_f491_4f6c_dd1d;
    for _ in 0..(workers * rounds) {
        seed = seed.wrapping_mul(6364136223846793005).wrapping_add(1442695040888963407);
        let worker = ((seed >> 33) % workers as u64) as usize;
        match held[worker].take() {
            None => {
                let token = register(&mut registry, &mut platform, worker as u32).unwrap();
                assert_eq!(*token.source(), worker as u32);
                held[worker] = Some(token);
                outstanding += 1;
            },
            Some(token) => {
                unregister(&mut registry, &mut platform, token);
                outstanding -= 1;
            },
        }
        check_invariant(&registry, &platform, outstanding);
    }
    for worker in 0..workers {
        if let Some(token) = held[worker].take() {
            unregister(&mut registry, &mut platform, token);
            outstanding -= 1;
            check_invariant(&registry, &platform, outstanding);
        }
    }
    assert_eq!(outstanding, 0);
    assert_eq!(registry.active_count(), 0);
    assert!(!registry.is_running());
    assert_eq!(platform.spawned as usize, platform.stopped.len());
    assert!(platform.spawned >= 1);
}

#[test]
fn duplicate_in_a_run_is_refused_and_leaves_the_run_intact() {
    let mut registry: LoopState<u32> = LoopState::new();
    let mut platform = platform();
    let first = register(&mut registry, &mut platform, 10).unwrap();
    let second = register(&mut registry, &mut platform, 11).unwrap();
    assert_eq!(platform.spawned, 1);
    let refused = register(&mut registry, &mut platform, 11);
    assert_eq!(refused.unwrap_err(), RegistryError::DuplicateSource);
    check_invariant(&registry, &platform, 2);
    assert_eq!(platform.spawned, 1);
    unregister(&mut registry, &mut platform, second);
    check_invariant(&registry, &platform, 1);
    assert!(platform.members.contains(&10));
    assert!(!platform.members.contains(&11));
    unregister(&mut registry, &mut platform, first);
    check_invariant(&registry, &platform, 0);
    assert_eq!(platform.stopped, vec![1]);
    let third = register(&mut registry, &mut platform, 11).unwrap();
    assert_eq!(platform.spawned, 2);
    assert_eq!(registry.handle(), Some(&2));
    check_invariant(&registry, &platform, 1);
    unregister(&mut registry, &mut platform, third);
    assert_eq!(platform.stopped, vec![1, 2]);
}

#[test]
fn register_then_unregister_restores_the_registry() {
    let mut registry: LoopState<u32> = LoopState::new();
    let mut platform = platform();
    let keeper = register(&mut registry, &mut platform, 1).unwrap();
    let before_members = platform.members.clone();
    let before_count = registry.active_count();
    let before_handle = registry.handle().copied();
    let visitor = register(&mut registry, &mut platform, 2).unwrap();
    unregister(&mut registry, &mut platform, visitor);
    assert_eq!(platform.members, before_members);
    assert_eq!(registry.active_count(), before_count);
    assert_eq!(registry.handle().copied(), before_handle);
    unregister(&mut registry, &mut platform, keeper);
    check_invariant(&registry, &platform, 0);
}

#[test]
fn unreleased_token_keeps_the_loop_running() {
    let mut registry: LoopState<u32> = LoopState::new();
    let mut platform = platform();
    let keeper = register(&mut registry, &mut platform, 1).unwrap();
    let handle = registry.handle().copied();
    for round in 0..20u32 {
        let first = register(&mut registry, &mut platform, 100 + round).unwrap();
        let second = register(&mut registry, &mut platform, 200 + round).unwrap();
        unregister(&mut registry, &mut platform, first);
        unregister(&mut registry, &mut platform, second);
        check_invariant(&registry, &platform, 1);
        assert!(registry.is_running());
        assert_eq!(registry.handle().copied(), handle);
        assert!(platform.members.contains(&1));
    }
    assert_eq!(platform.spawned, 1);
    assert!(platform.stopped.is_empty());
    assert_eq!(*keeper.source(), 1);
    std::mem::forget(keeper);
    assert_eq!(registry.active_count(), 1);
    assert!(registry.is_running());
}
