use voice_capture::apple_voice_processing::create_speaker_reference_for_voice_processing;
use voice_capture::reference::ReferenceRouter;
use voice_capture::voice_processing_direct::create_speaker_reference;

#[test]
fn fork_hands_the_sample_on_unchanged() {
    let mut router = ReferenceRouter::attach();
    for sample in [0u32, 1, 0x3f80_0000, u32::MAX] {
        assert_eq!(router.fork(sample), sample);
    }
    assert_eq!(router.pull(4), vec![0, 1, 0x3f80_0000, u32::MAX]);
}

#[test]
fn pull_pads_a_shortfall_with_silence() {
    let mut router = ReferenceRouter::with_capacity(8).unwrap();
    router.fork(5);
    router.fork(6);
    assert_eq!(router.pull(5), vec![5, 6, 0, 0, 0]);
    assert_eq!(router.pull(3), vec![0, 0, 0]);
}

#[test]
fn pull_leaves_what_it_does_not_need() {
    let mut router = ReferenceRouter::with_capacity(8).unwrap();
    for sample in 1..=6u32 {
        router.fork(sample);
    }
    assert_eq!(router.pull(4), vec![1, 2, 3, 4]);
    assert_eq!(router.pull(0), Vec::<u32>::new());
    assert_eq!(router.pull(4), vec![5, 6, 0, 0]);
}

#[test]
fn starved_reference_gives_silence_of_the_length_asked_for() {
    let mut router = ReferenceRouter::attach();
    for frames in [0u32, 1, 512, 4096] {
        let reference = router.pull(frames);
        assert_eq!(reference.len(), frames as usize);
        assert!(reference.iter().all(|sample| *sample == 0));
    }
}

#[test]
fn full_reference_keeps_playback_going() {
    let mut router = ReferenceRouter::with_capacity(2).unwrap();
    assert_eq!(router.fork(1), 1);
    assert_eq!(router.fork(2), 2);
    assert_eq!(router.fork(3), 3);
    assert_eq!(router.dropped(), 1);
    assert_eq!(router.pull(3), vec![1, 2, 0]);
}

#[test]
fn created_references_are_empty() {
    let mut first = create_speaker_reference_for_voice_processing();
    let mut second = create_speaker_reference();
    assert_eq!(first.pull(2), vec![0, 0]);
    assert_eq!(second.pull(2), vec![0, 0]);
    let batch = vec![1u32; 8192];
    for sample in batch {
        first.fork(sample);
    }
    assert_eq!(first.dropped(), 0);
    first.fork(1);
    assert_eq!(first.dropped(), 1);
}
