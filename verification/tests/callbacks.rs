//! The single-shot callback protocol, driven against a mock native layer:
//! the test plays the native runtime, deciding which registrations are
//! accepted and which results are delivered.

use std::cell::Cell;
use std::collections::HashMap;
use std::rc::Rc;

use discord_game_sdk::{Discord, Error};
use discord_game_sdk::Action;
use discord_game_sdk::DeveloperViolation;
use discord_game_sdk::ImageHandle;

/// Increments its counter when dropped, so a test can observe that a
/// closure's captured context was released.
struct DropGuard(Rc<Cell<u32>>);

impl Drop for DropGuard {
    fn drop(&mut self) {
        self.0.set(self.0.get() + 1);
    }
}

fn new_handle() -> Discord {
    Discord::new(12345, 0, 0).unwrap()
}

/// A tiny deterministic generator standing in for randomness.
struct Lcg(u64);

impl Lcg {
    fn next(&mut self) -> u64 {
        self.0 = self.0.wrapping_mul(6364136223846793005).wrapping_add(1442695040888963407);
        self.0 >> 33
    }
}

#[test]
fn single_delivery_across_randomized_interleavings() {
    let mut d = new_handle();
    let mut lcg = Lcg(0x5eed);
    let mut pending: HashMap<u64, (Box<dyn FnMut(Result<(), Error>)>, DropGuard)> =
        HashMap::new();
    let mut expected_pending: u32 = 0;

    for round in 0..1000u64 {
        let accepted = lcg.next() % 2 == 0;
        let accept_code = if accepted { 0 } else { 4 };
        let invoked = Rc::new(Cell::new(0u32));
        let dropped = Rc::new(Cell::new(0u32));
        let invoked_in = Rc::clone(&invoked);
        let guard = DropGuard(Rc::clone(&dropped));
        let closure: Box<dyn FnMut(Result<(), Error>)> =
            Box::new(move |_res| invoked_in.set(invoked_in.get() + 1));

        match d.set_overlay_opened(round % 2 == 0, accept_code) {
            Ok(token) => {
                assert!(accepted);
                pending.insert(token, (closure, guard));
                expected_pending += 1;
            }
            Err(err) => {
                assert!(!accepted);
                assert_eq!(err, Error::InternalError);
                drop(closure);
                drop(guard);
                // Early failure: released before the call returns, never invoked.
                assert_eq!(dropped.get(), 1);
                assert_eq!(invoked.get(), 0);
            }
        }

        // Every few rounds the mock runtime pumps and completes some calls.
        if lcg.next() % 3 == 0 {
            d.run_callbacks(0).unwrap();
            let tokens: Vec<u64> = pending.keys().copied().collect();
            for token in tokens {
                if lcg.next() % 2 == 0 {
                    let result_code = if lcg.next() % 2 == 0 { 0 } else { 9 };
                    let delivered = d.deliver_callback(token, result_code);
                    let (mut closure, _guard) = pending.remove(&token).unwrap();
                    closure(delivered.expect("accepted context must deliver"));
                    expected_pending -= 1;
                    // A second delivery for the same token finds nothing.
                    assert!(d.deliver_callback(token, result_code).is_none());
                }
            }
        }
        assert_eq!(d.pending_callbacks() as u32, expected_pending);
    }

    // Drain the rest: each accepted context is delivered exactly once.
    let tokens: Vec<u64> = pending.keys().copied().collect();
    for token in tokens {
        let delivered = d.deliver_callback(token, 0);
        let (mut closure, _guard) = pending.remove(&token).unwrap();
        closure(delivered.expect("accepted context must deliver"));
    }
    assert_eq!(d.pending_callbacks(), 0);
    assert!(d.destroy(0).is_none());
}

#[test]
fn early_failure_means_zero_delivery() {
    let mut d = new_handle();
    let invoked = Rc::new(Cell::new(0u32));
    let dropped = Rc::new(Cell::new(0u32));
    let invoked_in = Rc::clone(&invoked);
    let guard = DropGuard(Rc::clone(&dropped));
    let closure: Box<dyn FnMut(Result<(), Error>)> =
        Box::new(move |_res| invoked_in.set(invoked_in.get() + 1));

    // The mock native accept call fails synchronously.
    let r = d.set_overlay_opened(true, 27);
    assert_eq!(r, Err(Error::NotRunning));
    drop(closure);
    drop(guard);
    assert_eq!(dropped.get(), 1);
    assert_eq!(invoked.get(), 0);
    assert_eq!(d.pending_callbacks(), 0);

    // Whatever token the runtime might dream up, nothing is delivered.
    assert!(d.deliver_callback(0, 0).is_none());
    assert!(d.deliver_callback(17, 0).is_none());
}

#[test]
fn fetch_callback_receives_not_found() {
    let mut d = new_handle();
    let seen: Rc<Cell<Option<Result<ImageHandle, Error>>>> = Rc::new(Cell::new(None));
    let seen_in = Rc::clone(&seen);
    let mut closure = move |res: Result<ImageHandle, Error>| seen_in.set(Some(res));

    let handle = ImageHandle { id: 77, size: 256 };
    let token = d.fetch_image(handle, true, 0).unwrap();
    assert_eq!(d.pending_callbacks(), 1);

    // The mock native layer invokes the trampoline with a "not found" code.
    d.run_callbacks(0).unwrap();
    let delivered = d.deliver_fetch(token, 9).expect("pending context must deliver");
    closure(delivered);

    assert_eq!(seen.get(), Some(Err(Error::NotFound)));
    assert_eq!(d.pending_callbacks(), 0);
}

#[test]
fn fetch_success_hands_back_the_registered_handle() {
    let mut d = new_handle();
    let handle = ImageHandle { id: 123, size: 64 };
    let other = ImageHandle { id: 124, size: 32 };
    let t1 = d.fetch_image(handle, false, 0).unwrap();
    let t2 = d.fetch_image(other, true, 0).unwrap();

    // Each delivery hands back exactly the handle its fetch was
    // registered with, and only once.
    assert_eq!(d.deliver_fetch(t2, 0), Some(Ok(other)));
    assert_eq!(d.deliver_fetch(t1, 0), Some(Ok(handle)));
    assert!(d.deliver_fetch(t1, 0).is_none());
    assert_eq!(d.pending_callbacks(), 0);

    // A token of a plain overlay operation is not a fetch token.
    let t3 = d.set_overlay_opened(true, 0).unwrap();
    assert!(d.deliver_fetch(t3, 0).is_none());
    assert_eq!(d.deliver_callback(t3, 0), Some(Ok(())));
}

#[test]
fn fetch_early_failure_records_nothing() {
    let mut d = new_handle();
    let handle = ImageHandle { id: 9, size: 16 };
    let r = d.fetch_image(handle, false, 27);
    assert_eq!(r, Err(Error::NotRunning));
    assert_eq!(d.pending_callbacks(), 0);
}

#[test]
fn each_overlay_operation_registers_one_context() {
    let mut d = new_handle();
    let t1 = d.set_overlay_opened(true, 0).unwrap();
    let t2 = d.open_invite_overlay(Action::Join, 0).unwrap();
    let t3 = d.open_voice_settings(0).unwrap();
    let t4 = d.open_guild_invite_overlay("abcdef", 0).unwrap();
    assert_eq!(d.pending_callbacks(), 4);
    assert!(t1 != t2 && t2 != t3 && t3 != t4 && t1 != t3 && t1 != t4 && t2 != t4);
    for token in [t1, t2, t3, t4] {
        assert!(d.is_callback_pending(token));
        assert_eq!(d.deliver_callback(token, 0), Some(Ok(())));
        assert!(!d.is_callback_pending(token));
    }
    assert_eq!(d.pending_callbacks(), 0);
}

#[test]
fn guild_invite_code_with_interior_nul_is_a_developer_error() {
    let mut d = new_handle();
    let r = d.open_guild_invite_overlay("abc\0def", 0);
    assert_eq!(r, Err(Error::DeveloperViolation(DeveloperViolation::InteriorNul)));
    assert!(r.unwrap_err().is_developer_error());
    assert_eq!(d.pending_callbacks(), 0);

    // A clean code goes through; a failing accept code comes back translated.
    let r = d.open_guild_invite_overlay("abcdef", 34);
    assert_eq!(r, Err(Error::RateLimited));
    assert!(!r.unwrap_err().is_developer_error());
    assert_eq!(d.pending_callbacks(), 0);
}
