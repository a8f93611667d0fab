use std::cell::Cell;
use tile_rpg::texture_cache::TextureCache;

#[test]
fn second_load_of_a_path_reuses_the_first() {
    let decodes = Cell::new(0u32);
    let mut cache: TextureCache<String> = TextureCache::new();
    let p = "sprites/player.png".to_string();
    let a = cache.load(&p, |s: &String| {
        decodes.set(decodes.get() + 1);
        Ok(format!("texture of {}", s))
    });
    let b = cache.load(&p, |s: &String| {
        decodes.set(decodes.get() + 1);
        Ok(format!("other texture of {}", s))
    });
    assert_eq!(a, Ok(0));
    assert_eq!(b, Ok(0));
    assert_eq!(decodes.get(), 1);
    assert_eq!(cache.get(0), "texture of sprites/player.png");
    assert_eq!(cache.len(), 1);
}

#[test]
fn distinct_paths_get_distinct_handles() {
    let mut cache: TextureCache<u32> = TextureCache::new();
    let a = cache.load(&"a.png".to_string(), |_s: &String| Ok(10));
    let b = cache.load(&"b.png".to_string(), |_s: &String| Ok(20));
    assert_eq!((a, b), (Ok(0), Ok(1)));
    assert_eq!(*cache.get(1), 20);
    assert_eq!(cache.find(&"b.png".to_string()), Some(1));
    assert_eq!(cache.find(&"c.png".to_string()), None);
}

#[test]
fn failed_load_is_retried() {
    let decodes = Cell::new(0u32);
    let mut cache: TextureCache<u32> = TextureCache::new();
    let p = "broken.png".to_string();
    let first = cache.load(&p, |_s: &String| {
        decodes.set(decodes.get() + 1);
        Err("cannot decode".to_string())
    });
    assert_eq!(first, Err("cannot decode".to_string()));
    assert_eq!(cache.len(), 0);
    let second = cache.load(&p, |_s: &String| {
        decodes.set(decodes.get() + 1);
        Ok(7)
    });
    assert_eq!(second, Ok(0));
    assert_eq!(decodes.get(), 2);
}
