use leg_sim::memory::{DMCache, DRAM, InspectableMemory, Memory};
use leg_sim::result::{SimError, SimResult};

#[test]
fn dram_unset_address_reads_zero() {
    let mut dram = DRAM::new(3);
    assert_eq!(dram.get(42), SimResult::Wait(3, 0));
    assert_eq!(dram.set(42, 7), SimResult::Wait(3, ()));
    assert_eq!(dram.get(42), SimResult::Wait(3, 7));
    // The read of the unset address initialized it to 0 for inspection.
    let snapshot = dram.inspect();
    assert!(snapshot.contains(&(42, 7)));
}

/// A word just written is the word then read, whichever level serves it.
#[test]
fn set_then_get_round_trips_at_every_level() {
    // Straight to the backing store.
    let mut dram = Memory::Dram(DRAM::new(2));
    let _ = dram.set(9, 1234);
    assert_eq!(dram.get(9), SimResult::Wait(2, 1234));

    // Served by a cache hit.
    let mut one = Memory::Cache(DMCache::new(1, 4, Memory::Dram(DRAM::new(2))));
    let _ = one.set(9, 77);
    assert_eq!(one.get(9), SimResult::Wait(1, 77));

    // Through two cache levels.
    let chain = Memory::Cache(DMCache::new(
        1,
        4,
        Memory::Cache(DMCache::new(3, 8, Memory::Dram(DRAM::new(5)))),
    ));
    let mut chain = chain;
    let _ = chain.set(123, 99);
    assert_eq!(chain.get(123), SimResult::Wait(1, 99));
}

/// The cycles a get or set reports are the sum of the fixed delays of the
/// levels the access actually traversed.
#[test]
fn latency_adds_over_traversed_levels() {
    let mut mem = Memory::Cache(DMCache::new(
        3,
        4,
        Memory::Cache(DMCache::new(5, 8, Memory::Dram(DRAM::new(7)))),
    ));

    // A cold read misses both caches: 3 + 5 + 7.
    assert_eq!(mem.get(100), SimResult::Wait(15, 0));
    // The same read again hits the first level: 3.
    assert_eq!(mem.get(100), SimResult::Wait(3, 0));
    // A write hit is charged the first level's delay alone.
    assert_eq!(mem.set(100, 1), SimResult::Wait(3, ()));
    // A conflicting write (104 maps to 100's line in a 4-line cache)
    // pushes the dirty line into the second level, which is a clean miss
    // there (104 and 100 use different lines of the 8-line cache): the
    // eviction write costs 5, on top of the first level's own 3.
    assert_eq!(mem.set(104, 2), SimResult::Wait(3 + 5, ()));
}

/// Writing two addresses that collide on a cache line pushes the first,
/// dirty value down before the line is overwritten.
#[test]
fn eviction_writes_dirty_line_down() {
    let mut mem = Memory::Cache(DMCache::new(5, 4, Memory::Dram(DRAM::new(10))));

    // Addresses 5 and 9 share line 1 of a 4-line cache with different tags.
    assert_eq!(mem.set(5, 0xAB), SimResult::Wait(5, ()));
    assert_eq!(mem.set(9, 0xCD), SimResult::Wait(5 + 10, ()));

    // The line now holds 9's value; reading 5 must fetch from the store
    // below (evicting 9's dirty line first), and finds the written-back
    // value there: 5 (hit is impossible) + 10 (push 9 down) + 10 (fetch).
    assert_eq!(mem.get(5), SimResult::Wait(25, 0xAB));
    // And 9's value survived its own eviction: the line is clean after
    // the fetch of 5, so reading 9 evicts nothing and pays 5 + 10.
    assert_eq!(mem.get(9), SimResult::Wait(15, 0xCD));
}

#[test]
fn cache_snapshot_lists_valid_lines() {
    let mut mem = Memory::Cache(DMCache::new(1, 4, Memory::Dram(DRAM::new(1))));
    let _ = mem.set(6, 11);
    let snapshot = mem.inspect();
    assert_eq!(snapshot, vec![(6, 11)]);
}

#[test]
fn load_image_places_big_endian_words() {
    let mut dram = DRAM::new(0);
    let bytes: Vec<u8> = vec![
        0x01, 0x02, 0x03, 0x04, // word 0
        0x00, 0x00, 0x00, 0x2B, // word 1
    ];
    assert_eq!(dram.load_image(&bytes), Ok(()));
    assert_eq!(dram.get(0), SimResult::Wait(0, 0x0102_0304));
    assert_eq!(dram.get(1), SimResult::Wait(0, 0x2B));
    assert_eq!(dram.get(2), SimResult::Wait(0, 0));
}

#[test]
fn load_image_rejects_ragged_length() {
    let mut dram = DRAM::new(0);
    let bytes: Vec<u8> = vec![1, 2, 3, 4, 5];
    assert_eq!(dram.load_image(&bytes), Err(SimError::Load(5)));
    // Nothing was placed.
    assert_eq!(dram.get(0), SimResult::Wait(0, 0));
}
