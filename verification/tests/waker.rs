use voice_capture::stream::{AsyncSampleStream, SamplePoll};
use voice_capture::waker::WakerGate;

#[test]
fn new_gate_has_no_waiter_and_no_data() {
    let gate: WakerGate<u32> = WakerGate::new();
    assert_eq!(gate.waiter, None);
    assert!(!gate.has_data);
}

#[test]
fn first_storing_push_wakes_the_waiter_once() {
    let mut gate: WakerGate<u32> = WakerGate::new();
    gate.register_waiter(7);
    assert_eq!(gate.notify(3), Some(7));
    assert!(gate.has_data);
    assert_eq!(gate.waiter, None);
    assert_eq!(gate.notify(3), None);
    assert_eq!(gate.notify(1), None);
}

#[test]
fn push_that_stored_nothing_wakes_nobody() {
    let mut gate: WakerGate<u32> = WakerGate::new();
    gate.register_waiter(7);
    assert_eq!(gate.notify(0), None);
    assert!(!gate.has_data);
    assert_eq!(gate.waiter, Some(7));
    assert_eq!(gate.notify(1), Some(7));
}

#[test]
fn push_without_waiter_only_raises_the_flag() {
    let mut gate: WakerGate<u32> = WakerGate::new();
    assert_eq!(gate.notify(5), None);
    assert!(gate.has_data);
    gate.register_waiter(1);
    assert!(!gate.has_data);
    assert_eq!(gate.notify(5), Some(1));
}

#[test]
fn registering_replaces_the_earlier_waiter() {
    let mut gate: WakerGate<u32> = WakerGate::new();
    gate.register_waiter(1);
    gate.register_waiter(2);
    assert_eq!(gate.notify(1), Some(2));
    assert_eq!(gate.notify(1), None);
}

#[test]
fn poll_registers_only_when_nothing_is_buffered() {
    let mut stream: AsyncSampleStream<u32> = AsyncSampleStream::with_capacity(16000, 8).unwrap();
    assert_eq!(stream.poll_next(1), SamplePoll::Pending);
    let delivery = stream.deliver(&[11, 12]);
    assert_eq!(delivery.stored, 2);
    assert_eq!(delivery.lost, 0);
    assert_eq!(delivery.wake, Some(1));
    assert_eq!(stream.poll_next(2), SamplePoll::Ready(11));
    assert_eq!(stream.poll_next(2), SamplePoll::Ready(12));
    assert_eq!(stream.poll_next(3), SamplePoll::Pending);
    assert_eq!(stream.deliver(&[13]).wake, Some(3));
}

#[test]
fn delivery_between_first_look_and_registration_is_found() {
    let mut stream: AsyncSampleStream<u32> = AsyncSampleStream::with_capacity(16000, 8).unwrap();
    assert_eq!(stream.try_next(), None);
    let delivery = stream.deliver(&[42]);
    assert_eq!(delivery.wake, None);
    stream.park(9);
    assert_eq!(stream.try_next(), Some(42));
}

#[test]
fn several_deliveries_wake_a_parked_consumer_once() {
    let mut stream: AsyncSampleStream<u32> = AsyncSampleStream::with_capacity(16000, 8).unwrap();
    assert_eq!(stream.poll_next(5), SamplePoll::Pending);
    let mut wakes = 0;
    for batch in [[1u32, 2], [3, 4], [5, 6]] {
        if stream.deliver(&batch).wake.is_some() {
            wakes += 1;
        }
    }
    assert_eq!(wakes, 1);
    for expected in 1..=6u32 {
        assert_eq!(stream.poll_next(5), SamplePoll::Ready(expected));
    }
}

fn next_random(state: &mut u64) -> u64 {
    *state = state.wrapping_mul(6364136223846793005).wrapping_add(1442695040888963407);
    *state >> 33
}

#[test]
fn no_wakeup_is_lost_under_random_interleavings() {
    let mut seed = 0x5eed_u64;
    for _ in 0..500 {
        let mut stream: AsyncSampleStream<u32> =
            AsyncSampleStream::with_capacity(16000, 128).unwrap();
        let mut parked: Option<u32> = None;
        let mut pushed_since_park = false;
        let mut woken_since_park = false;
        let mut next_sample = 1u32;
        let mut next_expected = 1u32;
        for step in 0..40u32 {
            match next_random(&mut seed) % 3 {
                0 => {
                    let size = (next_random(&mut seed) % 3) as usize;
                    let batch: Vec<u32> = (0..size as u32).map(|i| next_sample + i).collect();
                    let delivery = stream.deliver(&batch);
                    assert_eq!(delivery.stored, size);
                    next_sample += size as u32;
                    if let Some(waker) = delivery.wake {
                        assert_eq!(Some(waker), parked);
                        assert!(!woken_since_park);
                        woken_since_park = true;
                    }
                    if size > 0 && parked.is_some() {
                        pushed_since_park = true;
                        assert!(woken_since_park);
                    }
                }
                1 => {
                    stream.park(step);
                    parked = Some(step);
                    pushed_since_park = false;
                    woken_since_park = false;
                }
                _ => {
                    let poll = stream.poll_next(step);
                    if next_expected < next_sample {
                        assert_eq!(poll, SamplePoll::Ready(next_expected));
                        next_expected += 1;
                    } else {
                        assert_eq!(poll, SamplePoll::Pending);
                        assert!(!pushed_since_park || woken_since_park);
                        parked = Some(step);
                        pushed_since_park = false;
                        woken_since_park = false;
                    }
                }
            }
        }
    }
}
