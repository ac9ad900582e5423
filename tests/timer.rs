use std::cell::Cell;
use std::rc::Rc;

use sdl2_bridge::error::BridgeError;
use sdl2_bridge::facility::ManualTimerFacility;
use sdl2_bridge::timer::{removal_outcome, CallbackParam, SizeClass, Timer};

/// Registers a callback that records what it was handed, fires it once and
/// checks that the captured value came back unchanged.
fn round_trip<T: Copy + PartialEq + std::fmt::Debug + 'static>(captured: T) {
    let seen: Rc<Cell<Option<T>>> = Rc::new(Cell::new(None));
    let seen_in = seen.clone();
    let mut facility = ManualTimerFacility::new();
    let timer = Timer::new(
        15,
        move |_interval: u32, p: T| {
            seen_in.set(Some(p));
            0
        },
        captured,
        &mut facility,
    )
    .expect("a supported capture size registers");
    assert_eq!(timer.delay(), 15);
    assert_eq!(facility.fire(&timer), Some(0));
    assert_eq!(seen.get(), Some(captured));
}

#[test]
fn every_supported_capture_size_round_trips() {
    round_trip::<u8>(0xa5);
    round_trip::<u16>(0xbeef);
    round_trip::<u32>(0xdead_beef);
    round_trip::<[u8; 6]>([1, 2, 3, 4, 5, 6]);
    round_trip::<u64>(0x0102_0304_0506_0708);
    round_trip::<[u8; 16]>([7; 16]);
    round_trip::<[u64; 4]>([1, 2, 3, u64::MAX]);
}

#[test]
fn size_classes_by_byte_size() {
    for n in [1usize, 2, 4, 6, 8, 16, 32] {
        assert_eq!(SizeClass::for_size(n).map(|c| c.bytes()), Ok(n));
    }
    for n in [0usize, 3, 5, 7, 12, 24, 33, 64] {
        assert_eq!(SizeClass::for_size(n), Err(BridgeError::UnsupportedCaptureSize));
    }
    assert_eq!(SizeClass::of::<u32>(), Ok(SizeClass::Bytes4));
    assert_eq!(SizeClass::of::<[u8; 3]>(), Err(BridgeError::UnsupportedCaptureSize));
}

#[test]
fn unsupported_capture_size_is_refused_before_registration() {
    let mut facility = ManualTimerFacility::new();
    let r = Timer::new(10, |_i: u32, _p: [u8; 3]| 10, [0u8; 3], &mut facility);
    assert!(matches!(r, Err(BridgeError::UnsupportedCaptureSize)));
    assert!(!facility.is_active(1));
    assert_eq!(facility.scheduled_interval(1), None);
    // the facility was not asked: the next timer still gets the first identifier
    let t = Timer::new(10, |_i: u32, _p: u32| 10, 0u32, &mut facility).unwrap();
    assert_eq!(t.id(), 1);
}

#[test]
fn returning_zero_stops_the_timer() {
    let mut facility = ManualTimerFacility::new();
    let timer = Timer::new(5, |_i: u32, _p: u32| 0, 0u32, &mut facility).unwrap();
    assert_eq!(facility.fire(&timer), Some(0));
    assert!(!facility.is_active(timer.id()));
    assert_eq!(facility.fire(&timer), None);
    assert_eq!(facility.fire(&timer), None);
    assert_eq!(facility.invocation_count(), 1);
}

#[test]
fn returning_positive_reschedules() {
    let mut facility = ManualTimerFacility::new();
    let timer = Timer::new(5, |i: u32, p: u32| i + p, 20u32, &mut facility).unwrap();
    assert_eq!(facility.scheduled_interval(timer.id()), Some(5));
    assert_eq!(facility.fire(&timer), Some(25));
    assert_eq!(facility.scheduled_interval(timer.id()), Some(25));
    // the next firing is handed the rescheduled interval
    assert_eq!(facility.fire(&timer), Some(45));
    assert_eq!(facility.invocation(1), Some((timer.id(), 45)));
}

#[test]
fn remove_before_firing_prevents_invocation() {
    let mut facility = ManualTimerFacility::new();
    let calls = Rc::new(Cell::new(0u32));
    let calls_in = calls.clone();
    let timer = Timer::new(
        5,
        move |_i: u32, _p: u32| {
            calls_in.set(calls_in.get() + 1);
            5
        },
        0u32,
        &mut facility,
    )
    .unwrap();
    let id = timer.id();
    assert_eq!(timer.remove(&mut facility), Ok(()));
    assert!(!facility.is_active(id));
    assert_eq!(facility.invocation_count(), 0);
    assert_eq!(calls.get(), 0);
}

#[test]
fn removing_a_cancelled_timer_fails_and_spares_others() {
    let mut facility = ManualTimerFacility::new();
    let first = Timer::new(5, |_i: u32, _p: u32| 5, 0u32, &mut facility).unwrap();
    let second = Timer::new(7, |_i: u32, _p: u32| 9, 0u32, &mut facility).unwrap();
    assert!(facility.cancel(first.id()));
    assert_eq!(first.remove(&mut facility), Err(BridgeError::RemovalFailed));
    assert!(!facility.cancel(1));
    assert!(facility.is_active(second.id()));
    assert_eq!(facility.scheduled_interval(second.id()), Some(7));
    assert_eq!(facility.fire(&second), Some(9));
    assert_eq!(second.remove(&mut facility), Ok(()));
}

#[test]
fn removing_a_stopped_timer_fails() {
    let mut facility = ManualTimerFacility::new();
    let timer = Timer::new(5, |_i: u32, _p: u8| 0, 1u8, &mut facility).unwrap();
    assert_eq!(facility.fire(&timer), Some(0));
    assert_eq!(timer.remove(&mut facility), Err(BridgeError::RemovalFailed));
}

#[test]
fn counter_fires_three_times_then_stops() {
    let mut facility = ManualTimerFacility::new();
    let count = Rc::new(Cell::new(0u32));
    let count_in = count.clone();
    let timer = Timer::new(
        10,
        move |_i: u32, _p: u32| {
            count_in.set(count_in.get() + 1);
            if count_in.get() < 3 {
                10
            } else {
                0
            }
        },
        0u32,
        &mut facility,
    )
    .unwrap();
    assert_eq!(facility.fire(&timer), Some(10));
    assert_eq!(facility.fire(&timer), Some(10));
    assert_eq!(facility.fire(&timer), Some(0));
    assert_eq!(facility.fire(&timer), None);
    assert_eq!(count.get(), 3);
    assert_eq!(facility.invocation_count(), 3);
    assert_eq!(facility.invocation(2), Some((timer.id(), 0)));
    assert_eq!(facility.invocation(3), None);
}

#[test]
fn refused_registration_reports_failure() {
    let cell = Rc::new(CallbackParam::new(|_i: u32, p: u32| p, 4u32));
    let r = Timer::from_registration(10, 0, cell.clone());
    assert!(matches!(r, Err(BridgeError::RegistrationFailed)));
    // the refused registration released its reference to the cell
    assert_eq!(Rc::strong_count(&cell), 1);
    let t = Timer::from_registration(10, 3, cell.clone()).unwrap();
    assert_eq!((t.id(), t.delay()), (3, 10));
    assert_eq!(t.callback_param().invoke(2), 4);
}

#[test]
fn removal_outcomes() {
    assert_eq!(removal_outcome(true), Ok(()));
    assert_eq!(removal_outcome(false), Err(BridgeError::RemovalFailed));
}

#[test]
fn invoke_passes_interval_and_capture() {
    let cell = CallbackParam::new(|i: u32, p: [u8; 2]| i * 1000 + p[0] as u32 * 10 + p[1] as u32, [3u8, 4]);
    assert_eq!(cell.invoke(7), 7034);
}
