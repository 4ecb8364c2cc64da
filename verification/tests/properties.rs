use time_local::DateTime;
use time_local::IndeterminateOffsetError;
use time_local::InitGate;
use time_local::InitOutcome;
use time_local::OffsetCache;
use time_local::QueryOutcome;
use time_local::ResolvedOffset;
use time_local::datetime::UNIX_TIMESTAMP_MAX;
use time_local::datetime::UNIX_TIMESTAMP_MIN;
use time_local::utc_offset_init_error;

fn plus_two_hours() -> ResolvedOffset {
    ResolvedOffset::from_whole_seconds(7200).unwrap()
}

#[test]
fn concrete_local_scenario() {
    // Cached offset fixed at +02:00, instant fixed at Unix timestamp
    // 1718785511: the local representation records exactly +02:00 and its
    // wall clock reads exactly two hours past the UTC reading.
    let mut gate = InitGate::new();
    assert_eq!(gate.apply_init(Ok(plus_two_hours())), InitOutcome::Initialized);
    let date = DateTime::from_unix_timestamp(1718785511).unwrap();
    let local = gate.to_local_cached(date);
    assert_eq!(local.offset, plus_two_hours());
    assert_eq!(local.unix_timestamp, 1718785511);
    let wall = local.unix_timestamp + i64::from(local.offset.whole_seconds());
    assert_eq!(wall, 1718792711);
    // 2024-06-19 10:25:11 in wall-clock seconds of that day.
    assert_eq!(wall.rem_euclid(86400), 37511);
}

#[test]
fn model_matches_platform_shift() {
    // The platform's own offset shift at the same values: the model and the
    // platform agree that the instant is kept and the offset is recorded.
    let off = time::UtcOffset::from_whole_seconds(7200).unwrap();
    let date = time::OffsetDateTime::from_unix_timestamp(1718785511).unwrap();
    let local = date.to_offset(off);
    assert_eq!(local.offset(), off);
    assert_eq!(local.unix_timestamp(), 1718785511);
    assert_eq!((local.hour(), local.minute(), local.second()), (10, 25, 11));

    let model = DateTime::from_unix_timestamp(1718785511).unwrap().to_offset(plus_two_hours());
    assert_eq!(model.offset.whole_seconds(), local.offset().whole_seconds());
    assert_eq!(model.unix_timestamp, local.unix_timestamp());
}

#[test]
fn repeated_reads_identical() {
    let mut gate = InitGate::new();
    gate.apply_init(Ok(plus_two_hours()));
    let first = gate.cached_local_offset();
    let second = gate.cached_local_offset();
    let third = gate.cached_local_offset();
    assert_eq!(first, second);
    assert_eq!(second, third);
    assert_eq!(first, plus_two_hours());
}

#[test]
fn read_before_init_is_detected() {
    let gate = InitGate::new();
    assert_eq!(gate.peek_cached(), None);
    assert_eq!(
        utc_offset_init_error(),
        "call `time_local::init()` once during application initialization before spawning threads"
    );
}

#[test]
fn double_init_is_detected_and_keeps_first_value() {
    let mut gate = InitGate::new();
    assert_eq!(gate.apply_init(Ok(plus_two_hours())), InitOutcome::Initialized);
    let other = ResolvedOffset::from_whole_seconds(-3600).unwrap();
    assert_eq!(gate.apply_init(Ok(other)), InitOutcome::AlreadyInitialized);
    assert_eq!(gate.cached_local_offset(), plus_two_hours());
}

#[test]
fn failed_query_leaves_gate_empty_for_retry() {
    let mut gate = InitGate::new();
    let r = gate.apply_init(Err(IndeterminateOffsetError));
    assert_eq!(r, InitOutcome::QueryFailed(IndeterminateOffsetError));
    assert_eq!(gate.peek_cached(), None);
    // A later attempt may still succeed.
    assert_eq!(gate.apply_init(Ok(plus_two_hours())), InitOutcome::Initialized);
    assert_eq!(gate.peek_cached(), Some(plus_two_hours()));
}

#[test]
fn cache_runs_query_once_and_shares_outcome() {
    let mut cache = OffsetCache::new();
    let mut runs = 0;
    let first = cache.get_or_init(|| {
        runs += 1;
        Ok(ResolvedOffset::from_whole_seconds(3600).unwrap())
    });
    assert_eq!(runs, 1);
    let mut retried = false;
    let second = cache.get_or_init(|| {
        retried = true;
        Err(IndeterminateOffsetError)
    });
    assert!(!retried);
    assert_eq!(first, second);
    assert_eq!(first, Ok(ResolvedOffset::from_whole_seconds(3600).unwrap()));
}

#[test]
fn cache_keeps_a_cached_failure() {
    let mut cache = OffsetCache::new();
    let failed: QueryOutcome = Err(IndeterminateOffsetError);
    let first = cache.get_or_init(|| failed);
    assert_eq!(first, failed);
    let mut retried = false;
    let second = cache.get_or_init(|| {
        retried = true;
        Ok(ResolvedOffset::from_whole_seconds(0).unwrap())
    });
    assert!(!retried);
    assert_eq!(second, failed);
    assert_eq!(cache.peek(), Some(failed));
}

#[test]
fn try_set_populates_only_once() {
    let mut cache = OffsetCache::new();
    assert_eq!(cache.peek(), None);
    let won: QueryOutcome = Ok(plus_two_hours());
    assert!(cache.try_set(won));
    let lost: QueryOutcome = Err(IndeterminateOffsetError);
    assert!(!cache.try_set(lost));
    assert_eq!(cache.peek(), Some(won));
}

#[test]
fn offset_range_boundaries() {
    assert_eq!(ResolvedOffset::from_whole_seconds(93599).unwrap().whole_seconds(), 93599);
    assert_eq!(ResolvedOffset::from_whole_seconds(-93599).unwrap().whole_seconds(), -93599);
    assert!(ResolvedOffset::from_whole_seconds(93600).is_none());
    assert!(ResolvedOffset::from_whole_seconds(-93600).is_none());
    assert_eq!(ResolvedOffset::utc().whole_seconds(), 0);
}

#[test]
fn timestamp_range_boundaries() {
    assert!(DateTime::from_unix_timestamp(UNIX_TIMESTAMP_MAX).is_some());
    assert!(DateTime::from_unix_timestamp(UNIX_TIMESTAMP_MAX + 1).is_none());
    assert!(DateTime::from_unix_timestamp(UNIX_TIMESTAMP_MIN).is_some());
    assert!(DateTime::from_unix_timestamp(UNIX_TIMESTAMP_MIN - 1).is_none());
    let epoch = DateTime::from_unix_timestamp(0).unwrap();
    assert_eq!(epoch.unix_timestamp, 0);
    assert_eq!(epoch.offset.whole_seconds(), 0);
}

#[test]
fn init_caches_a_platform_offset() {
    // The outcome of the real platform query is environment-dependent; either
    // way the cached state reflects it exactly.
    let mut gate = InitGate::new();
    match gate.init() {
        Ok(()) => {
            let offset = gate.cached_local_offset();
            assert!(offset.whole_seconds().abs() <= 93599);
            assert_eq!(gate.peek_cached(), Some(offset));
        }
        Err(IndeterminateOffsetError) => {
            assert_eq!(gate.peek_cached(), None);
        }
    }
}

#[test]
fn fresh_to_local_keeps_the_instant() {
    let date = DateTime::from_unix_timestamp(1718785511).unwrap();
    match date.to_local() {
        Ok(local) => {
            assert_eq!(local.unix_timestamp, 1718785511);
            assert!(local.offset.whole_seconds().abs() <= 93599);
        }
        Err(IndeterminateOffsetError) => {}
    }
}

#[test]
fn indeterminate_error_message() {
    assert_eq!(
        IndeterminateOffsetError.message(),
        "the local UTC offset could not be determined"
    );
}
