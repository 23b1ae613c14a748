use file_preview::caches::{is_cache_valid, CachedImage, MainCache, Texture, TextureCache};
use file_preview::preload::PreloadCache;
use file_preview::thumbnail::{DecodeError, PixelBuffer};

fn pixels(w: u32, h: u32) -> PixelBuffer {
    PixelBuffer { width: w, height: h, rgba: vec![0u8; (w * h * 4) as usize] }
}

fn image(texture: u64, file_size: u64) -> CachedImage<u64> {
    CachedImage { texture, width: 10, height: 20, file_size, last_modified: 7 }
}

#[test]
fn preload_cache_trims_back_under_capacity() {
    let mut cache = PreloadCache::new(50);
    for i in 0..51 {
        cache.insert(format!("/p/{}.png", i), pixels(1, 1));
    }
    assert_eq!(cache.len(), 51);
    cache.insert("/p/new.png".to_string(), pixels(1, 1));
    assert!(cache.len() <= 50);
    assert_eq!(cache.len(), 42);
    // the oldest ten went first
    assert!(!cache.contains("/p/0.png"));
    assert!(!cache.contains("/p/9.png"));
    assert!(cache.contains("/p/10.png"));
    assert!(cache.contains("/p/new.png"));
}

#[test]
fn preload_cache_trim_is_a_fifth_of_large_capacities() {
    let mut cache = PreloadCache::new(100);
    for i in 0..101 {
        cache.insert(format!("/q/{}.png", i), pixels(1, 1));
    }
    cache.insert("/q/last.png".to_string(), pixels(1, 1));
    assert_eq!(cache.len(), 101 - 20 + 1);
}

#[test]
fn preload_cache_replaces_same_key() {
    let mut cache = PreloadCache::new(10);
    cache.insert("/a.png".to_string(), pixels(1, 1));
    cache.insert("/a.png".to_string(), pixels(3, 2));
    assert_eq!(cache.len(), 1);
    let b = cache.get("/a.png").unwrap();
    assert_eq!((b.width, b.height), (3, 2));
    assert!(cache.get("/b.png").is_none());
}

#[test]
fn preload_cache_drops_failed_decodes() {
    let mut cache = PreloadCache::new(10);
    assert!(!cache.store_result("/c.png".to_string(), Err(DecodeError::Corrupt("bad".to_string()))));
    assert_eq!(cache.len(), 0);
    assert!(cache.store_result("/a.png".to_string(), Ok(pixels(2, 2))));
    assert!(cache.contains("/a.png"));
}

#[test]
fn main_cache_entry_is_stale_after_size_change() {
    let mut cache: MainCache<u64> = MainCache::new(100);
    cache.cache_image("/p.png".to_string(), image(1, 100));
    assert!(cache.get_cached_image("/p.png", Some(100)).is_some());
    assert!(cache.get_cached_image("/p.png", Some(200)).is_none());
    assert!(cache.get_cached_image("/p.png", None).is_none());
    assert!(cache.get_cached_image("/q.png", Some(100)).is_none());
}

#[test]
fn main_cache_evicts_lexicographically_first_keys() {
    let mut cache: MainCache<u64> = MainCache::new(20);
    for c in ["m", "c", "x", "a", "q", "b", "z", "d", "e", "f", "g", "h", "i", "j", "k", "l", "n", "o", "p", "r"] {
        cache.cache_image(format!("/{}.png", c), image(0, 1));
    }
    assert_eq!(cache.len(), 20);
    cache.cache_image("/s.png".to_string(), image(0, 1));
    // 21 entries exceed 20: the first ten in key order are dropped
    assert_eq!(cache.len(), 11);
    for c in ["a", "b", "c", "d", "e", "f", "g", "h", "i", "j"] {
        assert!(cache.get_cached_image(&format!("/{}.png", c), Some(1)).is_none());
    }
    for c in ["k", "s", "z"] {
        assert!(cache.get_cached_image(&format!("/{}.png", c), Some(1)).is_some());
    }
}

#[test]
fn main_cache_replaces_same_key() {
    let mut cache: MainCache<u64> = MainCache::new(5);
    cache.cache_image("/p.png".to_string(), image(1, 100));
    cache.cache_image("/p.png".to_string(), image(2, 300));
    assert_eq!(cache.len(), 1);
    assert_eq!(cache.get_cached_image("/p.png", Some(300)).unwrap().texture, 2);
}

#[test]
fn full_validity_needs_size_and_time() {
    let e = image(1, 100);
    assert!(is_cache_valid(&e, Some(100), Some(7)));
    assert!(!is_cache_valid(&e, Some(100), Some(8)));
    assert!(!is_cache_valid(&e, Some(101), Some(7)));
    assert!(!is_cache_valid(&e, None, Some(7)));
}

#[test]
fn texture_cache_lookup() {
    let mut cache: TextureCache<u64> = TextureCache::new();
    assert!(cache.get("/a").is_none());
    cache.insert("/a".to_string(), Texture { handle: 5, width: 1, height: 2 });
    assert!(cache.contains("/a"));
    assert_eq!(cache.get("/a").unwrap().handle, 5);
    assert_eq!(cache.len(), 1);
}
