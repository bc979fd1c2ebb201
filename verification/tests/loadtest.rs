use udp_protocol::loadtest::{
    deadline_reached, judge_reply, new_probe, probe_from, same_bytes, tally, Exchange, LoopStats,
    Tally, PROBE_LEN,
};

#[test]
fn probe_has_4096_random_bytes() {
    assert_eq!(PROBE_LEN, 4096);
    let a = new_probe().unwrap();
    let b = new_probe().unwrap();
    assert_eq!(a.len(), 4096);
    assert_eq!(b.len(), 4096);
    // a buffer handed back as it was made would be all zeros
    assert!(a.iter().any(|&x| x != 0));
    assert!(b.iter().any(|&x| x != 0));
    assert_ne!(a, b);
}

#[test]
fn probe_is_kept_only_if_the_source_delivered() {
    assert_eq!(probe_from(vec![1, 2, 3], true), Some(vec![1, 2, 3]));
    assert_eq!(probe_from(vec![1, 2, 3], false), None);
    assert_eq!(probe_from(Vec::new(), true), Some(Vec::new()));
}

#[test]
fn same_bytes_compares_length_and_content() {
    assert!(same_bytes(&[], &[]));
    assert!(same_bytes(&[1, 2, 3], &[1, 2, 3]));
    assert!(!same_bytes(&[1, 2, 3], &[1, 2, 4]));
    assert!(!same_bytes(&[0, 2, 3], &[1, 2, 3]));
    assert!(!same_bytes(&[1, 2, 3], &[1, 2]));
    assert!(!same_bytes(&[1, 2], &[1, 2, 3]));
    assert!(!same_bytes(&[], &[0]));
}

#[test]
fn reply_is_judged_against_its_probe() {
    let probe = [9u8, 8, 7];
    assert_eq!(judge_reply(&probe, Some(&[9, 8, 7])), Exchange::Echoed);
    assert_eq!(judge_reply(&probe, Some(&[9, 8, 6])), Exchange::Garbled);
    assert_eq!(judge_reply(&probe, Some(&[9, 8])), Exchange::Garbled);
    assert_eq!(judge_reply(&probe, Some(&[])), Exchange::Garbled);
    assert_eq!(judge_reply(&probe, None), Exchange::Failed);
    assert_eq!(judge_reply(&[], Some(&[])), Exchange::Echoed);
}

#[test]
fn tally_of_each_outcome() {
    let go = Tally { error: false, sent: true, stop: false };
    let ignored = Tally { error: true, sent: true, stop: false };
    let halt = Tally { error: true, sent: false, stop: true };
    assert_eq!(tally(Exchange::Echoed, false), go);
    assert_eq!(tally(Exchange::Echoed, true), go);
    assert_eq!(tally(Exchange::Garbled, true), ignored);
    assert_eq!(tally(Exchange::Failed, true), ignored);
    assert_eq!(tally(Exchange::Garbled, false), halt);
    assert_eq!(tally(Exchange::Failed, false), halt);
}

#[test]
fn stats_count_exchanges() {
    let mut stats = LoopStats::new();
    assert_eq!(stats, LoopStats { total_sent: 0, total_bytes: 0, error_count: 0 });
    assert!(stats.can_record(4096));
    assert!(!stats.record(Exchange::Echoed, 4096, false));
    assert_eq!(stats, LoopStats { total_sent: 1, total_bytes: 4096, error_count: 0 });
    assert!(!stats.record(Exchange::Garbled, 4096, true));
    assert_eq!(stats, LoopStats { total_sent: 2, total_bytes: 8192, error_count: 1 });
    assert!(!stats.record(Exchange::Failed, 100, true));
    assert_eq!(stats, LoopStats { total_sent: 3, total_bytes: 8292, error_count: 2 });
    assert!(stats.record(Exchange::Failed, 4096, false));
    assert_eq!(stats, LoopStats { total_sent: 3, total_bytes: 8292, error_count: 3 });
    assert!(stats.record(Exchange::Garbled, 4096, false));
    assert_eq!(stats, LoopStats { total_sent: 3, total_bytes: 8292, error_count: 4 });
}

#[test]
fn stats_know_when_they_are_full() {
    let full_sent = LoopStats { total_sent: u64::MAX, total_bytes: 0, error_count: 0 };
    assert!(!full_sent.can_record(0));
    let full_errors = LoopStats { total_sent: 0, total_bytes: 0, error_count: u64::MAX };
    assert!(!full_errors.can_record(0));
    let nearly = LoopStats { total_sent: 0, total_bytes: u64::MAX - 10, error_count: 0 };
    assert!(nearly.can_record(10));
    assert!(!nearly.can_record(11));
    let mut last = LoopStats {
        total_sent: u64::MAX - 1,
        total_bytes: u64::MAX - 10,
        error_count: u64::MAX - 1,
    };
    assert!(last.can_record(10));
    assert!(!last.record(Exchange::Garbled, 10, true));
    assert_eq!(
        last,
        LoopStats { total_sent: u64::MAX, total_bytes: u64::MAX, error_count: u64::MAX }
    );
}

#[test]
fn deadline_is_reached_at_the_limit() {
    assert!(!deadline_reached(0, None));
    assert!(!deadline_reached(u64::MAX, None));
    assert!(deadline_reached(0, Some(0)));
    assert!(!deadline_reached(9, Some(10)));
    assert!(deadline_reached(10, Some(10)));
    assert!(deadline_reached(11, Some(10)));
}
