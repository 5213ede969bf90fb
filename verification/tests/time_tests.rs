use electron_audio_native::time::{nanos_as_u64, now_nanos};
use std::time::Instant;

#[test]
fn now_nanos_counts_forward_from_the_epoch() {
    let epoch = Instant::now();
    let first = now_nanos(&epoch);
    let mut later = now_nanos(&epoch);
    let mut spins: u64 = 0;
    while later == first && spins < 100_000_000 {
        later = now_nanos(&epoch);
        spins += 1;
    }
    assert!(later > first);
    assert!(first < 60 * 1_000_000_000);
}

#[test]
fn nanos_keep_the_lower_64_bits() {
    assert_eq!(nanos_as_u64(1_500), 1_500);
    assert_eq!(nanos_as_u64(u64::MAX as u128), u64::MAX);
    assert_eq!(nanos_as_u64((1u128 << 64) + 7), 7);
}
