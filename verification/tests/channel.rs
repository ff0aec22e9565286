use voice_capture::channel::{SampleChannel, CHANNEL_CAPACITY, MAX_CHANNEL_CAPACITY};

#[test]
fn push_then_pop_is_first_in_first_out() {
    let mut channel = SampleChannel::with_capacity(4).unwrap();
    assert_eq!(channel.push_slice(&[1, 2, 3]), 3);
    assert_eq!(channel.try_pop(), Some(1));
    assert_eq!(channel.try_pop(), Some(2));
    assert_eq!(channel.try_pop(), Some(3));
    assert_eq!(channel.try_pop(), None);
}

#[test]
fn default_channel_holds_8192_samples() {
    assert_eq!(CHANNEL_CAPACITY, 8192);
    let mut channel = SampleChannel::new();
    let batch = vec![7u32; 9000];
    assert_eq!(channel.push_slice(&batch), 8192);
    assert_eq!(channel.dropped(), 9000 - 8192);
    assert_eq!(channel.push_slice(&[1]), 0);
    assert_eq!(channel.dropped(), 9000 - 8192 + 1);
}

#[test]
fn capacity_zero_and_oversized_are_refused() {
    assert!(SampleChannel::with_capacity(0).is_none());
    assert!(SampleChannel::with_capacity(MAX_CHANNEL_CAPACITY + 1).is_none());
    assert!(SampleChannel::with_capacity(1).is_some());
}

#[test]
fn overflow_drops_the_newest_samples() {
    let mut channel = SampleChannel::with_capacity(3).unwrap();
    assert_eq!(channel.push_slice(&[10, 20]), 2);
    assert_eq!(channel.push_slice(&[30, 40, 50]), 1);
    assert_eq!(channel.dropped(), 2);
    assert_eq!(channel.try_pop(), Some(10));
    assert_eq!(channel.try_pop(), Some(20));
    assert_eq!(channel.try_pop(), Some(30));
    assert_eq!(channel.try_pop(), None);
}

#[test]
fn push_on_a_full_channel_stores_nothing_for_every_size() {
    for capacity in 1..=64usize {
        let mut channel = SampleChannel::with_capacity(capacity).unwrap();
        let fill: Vec<u32> = (0..capacity as u32).collect();
        assert_eq!(channel.push_slice(&fill), capacity);
        for extra in 1..=8usize {
            let batch = vec![99u32; extra];
            assert_eq!(channel.push_slice(&batch), 0);
        }
        for expected in 0..capacity as u32 {
            assert_eq!(channel.try_pop(), Some(expected));
        }
        assert_eq!(channel.try_pop(), None);
    }
}

#[test]
fn push_stores_the_minimum_of_batch_and_vacancy() {
    for capacity in 1..=16usize {
        for held in 0..=capacity {
            for offered in 0..=20usize {
                let mut channel = SampleChannel::with_capacity(capacity).unwrap();
                assert_eq!(channel.push_slice(&vec![1u32; held]), held);
                let stored = channel.push_slice(&vec![2u32; offered]);
                assert_eq!(stored, offered.min(capacity - held));
                assert_eq!(channel.dropped(), (offered - stored) as u64);
            }
        }
    }
}

#[test]
fn try_push_reports_a_full_channel() {
    let mut channel = SampleChannel::with_capacity(2).unwrap();
    assert!(channel.try_push(5));
    assert!(channel.try_push(6));
    assert!(!channel.try_push(7));
    assert_eq!(channel.dropped(), 1);
    assert_eq!(channel.try_pop(), Some(5));
    assert!(channel.try_push(8));
    assert_eq!(channel.try_pop(), Some(6));
    assert_eq!(channel.try_pop(), Some(8));
}

#[test]
fn channel_wraps_around_its_storage() {
    let mut channel = SampleChannel::with_capacity(4).unwrap();
    let mut next_in = 0u32;
    let mut next_out = 0u32;
    for _ in 0..50 {
        let batch = [next_in, next_in + 1, next_in + 2];
        assert_eq!(channel.push_slice(&batch), 3);
        next_in += 3;
        for _ in 0..3 {
            assert_eq!(channel.try_pop(), Some(next_out));
            next_out += 1;
        }
    }
    assert_eq!(channel.dropped(), 0);
}
