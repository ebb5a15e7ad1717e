use genesis::{CacheKey, FaceHandle, GlyphCache, GlyphMetrics, TextError};

fn metrics(width: u32, height: u32, glyph_index: u32) -> GlyphMetrics {
    GlyphMetrics {
        width,
        height,
        bearing_left: 0,
        bearing_top: height as i32,
        advance_x: (width as i32 + 1) * 65536,
        advance_y: 0,
        glyph_index,
    }
}

fn key(face: u32, size: isize, ch: char) -> CacheKey {
    CacheKey::new(FaceHandle { index: face }, size, ch)
}

#[test]
fn new_cache_is_empty() {
    let cache = GlyphCache::new();
    assert_eq!(cache.len(), 0);
    assert_eq!(cache.find(&key(0, 16, 'a')), None);
    assert!(cache.get(&key(0, 16, 'a')).is_none());
    assert!(cache.record(0).is_none());
}

#[test]
fn insert_gives_slots_in_order() {
    let mut cache = GlyphCache::new();
    assert_eq!(cache.insert(key(0, 16, 'a'), metrics(2, 3, 5), vec![9; 6]), Ok(0));
    assert_eq!(cache.insert(key(0, 16, 'b'), metrics(1, 1, 6), vec![7]), Ok(1));
    assert_eq!(cache.len(), 2);
    assert_eq!(cache.find(&key(0, 16, 'a')), Some(0));
    assert_eq!(cache.find(&key(0, 16, 'b')), Some(1));
    let record = cache.get(&key(0, 16, 'b')).unwrap();
    assert_eq!(record.key, key(0, 16, 'b'));
    assert_eq!(record.metrics, metrics(1, 1, 6));
    assert_eq!(record.coverage, vec![7]);
    assert_eq!(cache.metrics_at(0), metrics(2, 3, 5));
}

#[test]
fn equal_keys_share_one_record() {
    let mut cache = GlyphCache::new();
    assert_eq!(cache.insert(key(0, 16, 'a'), metrics(2, 3, 5), vec![9; 6]), Ok(0));
    // a second insert under an equal key keeps the first record
    assert_eq!(cache.insert(key(0, 16, 'a'), metrics(1, 1, 8), vec![1]), Ok(0));
    assert_eq!(cache.len(), 1);
    let record = cache.get(&key(0, 16, 'a')).unwrap();
    assert_eq!(record.metrics, metrics(2, 3, 5));
    assert_eq!(record.coverage, vec![9; 6]);
    assert_eq!(cache.find(&key(0, 16, 'a')), cache.find(&key(0, 16, 'a')));
}

#[test]
fn keys_differing_in_one_part_never_share_a_record() {
    let mut cache = GlyphCache::new();
    let keys = [
        key(0, 16, 'a'),
        key(0, 17, 'a'),
        key(0, 16, 'b'),
        key(1, 16, 'a'),
        key(0, -16, 'a'),
        key(0, isize::MAX, 'a'),
        key(0, isize::MIN, 'a'),
        key(u32::MAX, 16, 'a'),
        key(0, 16, char::MAX),
        key(0, 16, '\0'),
    ];
    for (i, k) in keys.iter().enumerate() {
        assert_eq!(cache.insert(*k, metrics(1, 1, i as u32), vec![i as u8]), Ok(i));
    }
    assert_eq!(cache.len(), keys.len());
    for (i, k) in keys.iter().enumerate() {
        assert_eq!(cache.find(k), Some(i));
        assert_eq!(cache.get(k).unwrap().coverage, vec![i as u8]);
    }
}

#[test]
fn key_codes_are_distinct() {
    let keys = [
        key(0, 0, '\0'),
        key(0, 0, '\u{1}'),
        key(0, 1, '\0'),
        key(1, 0, '\0'),
        key(0, -1, '\0'),
    ];
    for a in 0..keys.len() {
        for b in 0..keys.len() {
            assert_eq!(keys[a].code() == keys[b].code(), a == b);
        }
    }
    assert_eq!(key(0, 0, '\0').code(), 1u128 << 95);
    assert_eq!(key(2, 3, 'A').code(), (2u128 << 96) + (((1u128 << 63) + 3) << 32) + 65);
}

#[test]
fn slots_are_stable_as_the_cache_grows() {
    let mut cache = GlyphCache::new();
    cache.insert(key(0, 16, 'a'), metrics(1, 1, 1), vec![1]).unwrap();
    let before = cache.find(&key(0, 16, 'a'));
    for (i, ch) in "bcdefgh".chars().enumerate() {
        assert_eq!(cache.insert(key(0, 16, ch), metrics(1, 1, 2), vec![2]), Ok(i + 1));
    }
    assert_eq!(cache.find(&key(0, 16, 'a')), before);
    assert_eq!(cache.record(0).unwrap().coverage, vec![1]);
}

#[test]
fn coverage_of_the_wrong_length_is_refused() {
    let mut cache = GlyphCache::new();
    assert_eq!(
        cache.insert(key(0, 16, 'a'), metrics(2, 3, 5), vec![9; 5]),
        Err(TextError::MalformedBitmap)
    );
    assert_eq!(cache.len(), 0);
    assert_eq!(cache.find(&key(0, 16, 'a')), None);
}

#[test]
fn record_out_of_range_is_none() {
    let mut cache = GlyphCache::new();
    cache.insert(key(0, 16, 'a'), metrics(0, 0, 1), Vec::new()).unwrap();
    assert!(cache.record(0).is_some());
    assert!(cache.record(1).is_none());
}
