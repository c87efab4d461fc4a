//! Scenarios for the glyph-atlas synchroniser: lifecycle, coalescing,
//! resource discipline and channel expansion on concrete values.

use rokol::fons::{expand_channels, FonsError, FontTexture, TextureStore};
use rokol::gfx::ResourceUsage;

/// First glyph triggers `create`: texture allocated at 256 x 256 and the
/// handle dirty; the first sync uploads one 262144-byte RGBA buffer and
/// clears the flag.
#[test]
fn scenario_first_create_and_sync() {
    let mut store = TextureStore::new(128);
    let mut ft = FontTexture::new(256, 256);
    assert_eq!(ft.img(), None);
    assert!(!ft.is_dirty());

    let r = ft.create(&mut store, 256, 256);
    assert!(r.is_ok());
    assert!(ft.img().is_some());
    assert!(ft.is_dirty());
    assert_eq!(store.live().len(), 1);
    assert_eq!(store.live()[0].w, 256);
    assert_eq!(store.live()[0].h, 256);
    assert_eq!(store.live()[0].usage, ResourceUsage::Dynamic);

    let coverage = vec![0u8; 256 * 256];
    ft.maybe_update_image(&mut store, &coverage);
    assert!(!ft.is_dirty());
    assert_eq!(store.n_uploads(), 1);
    assert_eq!(store.last_upload().len(), 262144);
    let (buf, dims) = ft.cpu_texture();
    assert_eq!(buf.len(), 262144);
    assert_eq!(dims, [256, 256]);
}

/// A successful `expand` doubles the requested dimensions, and the
/// rasterizer reports the growth through `create(512, 512)`: the old
/// texture is destroyed, a new one allocated, and the next sync uploads a
/// 1048576-byte buffer.
#[test]
fn scenario_expand_succeeds() {
    let mut store = TextureStore::new(128);
    let mut ft = FontTexture::new(256, 256);
    ft.create(&mut store, 256, 256).unwrap();
    let coverage = vec![0u8; 256 * 256];
    ft.maybe_update_image(&mut store, &coverage);
    let old_id = ft.img().unwrap();

    assert_eq!(ft.expand_target(), [512, 512]);
    assert!(ft.on_expand(true).is_ok());

    ft.create(&mut store, 512, 512).unwrap();
    let new_id = ft.img().unwrap();
    assert_ne!(old_id, new_id);
    assert_eq!(store.n_destroyed(), 1);
    assert_eq!(store.n_created(), 2);
    assert_eq!(store.live().len(), 1);
    assert!(ft.is_dirty());

    let coverage = vec![255u8; 512 * 512];
    ft.maybe_update_image(&mut store, &coverage);
    assert_eq!(store.n_uploads(), 2);
    assert_eq!(store.last_upload().len(), 1048576);
}

/// A failed `expand` reports `AtlasExpandFailure` and touches nothing: the
/// texture, the dimensions and the dirty flag all stay as they were.
#[test]
fn scenario_expand_fails() {
    let mut store = TextureStore::new(128);
    let mut ft = FontTexture::new(256, 256);
    ft.create(&mut store, 256, 256).unwrap();
    let coverage = vec![0u8; 256 * 256];
    ft.maybe_update_image(&mut store, &coverage);
    let id = ft.img();
    let dirty = ft.is_dirty();

    let r = ft.on_expand(false);
    assert_eq!(r, Err(FonsError::AtlasExpandFailure));
    assert_eq!(ft.img(), id);
    assert_eq!(ft.is_dirty(), dirty);
    let (_, dims) = ft.cpu_texture();
    assert_eq!(dims, [256, 256]);
    assert_eq!(store.n_destroyed(), 0);
    assert_eq!(store.n_created(), 1);
}

/// Two `update` signals, one sync, a third `update`, a second sync:
/// exactly two uploads in all, each of the then-current buffer, never a
/// stale one.
#[test]
fn scenario_interleaved_updates_and_syncs() {
    let mut store = TextureStore::new(128);
    let mut ft = FontTexture::new(2, 2);
    ft.create(&mut store, 2, 2).unwrap();
    let coverage0 = vec![0u8; 4];
    ft.maybe_update_image(&mut store, &coverage0);
    let n0 = store.n_uploads();

    assert!(ft.update());
    assert!(ft.update());
    let coverage1 = vec![10u8, 20, 30, 40];
    ft.maybe_update_image(&mut store, &coverage1);
    assert_eq!(store.n_uploads(), n0 + 1);
    assert_eq!(store.last_upload().as_slice(), expand_channels(&coverage1).as_slice());

    assert!(ft.update());
    let coverage2 = vec![50u8, 60, 70, 80];
    ft.maybe_update_image(&mut store, &coverage2);
    assert_eq!(store.n_uploads(), n0 + 2);
    assert_eq!(store.last_upload().as_slice(), expand_channels(&coverage2).as_slice());
}

/// Buffer sizing: after a sync the staging buffer is exactly 4 * w * h
/// bytes, for the dimensions of the latest `create`/`resize`.
#[test]
fn buffer_sized_after_sync() {
    let mut store = TextureStore::new(128);
    let mut ft = FontTexture::new(2, 3);
    ft.create(&mut store, 2, 3).unwrap();
    ft.maybe_update_image(&mut store, &vec![1u8; 6]);
    let (buf, dims) = ft.cpu_texture();
    assert_eq!((buf.len(), dims), (24, [2, 3]));

    ft.resize(&mut store, 4, 5).unwrap();
    ft.maybe_update_image(&mut store, &vec![1u8; 20]);
    let (buf, dims) = ft.cpu_texture();
    assert_eq!((buf.len(), dims), (80, [4, 5]));
}

/// Coalescing: any number of `update` signals before a sync yield one
/// upload; a second sync with no signal in between uploads nothing.
#[test]
fn updates_coalesce_into_one_upload() {
    let mut store = TextureStore::new(128);
    let mut ft = FontTexture::new(2, 2);
    ft.create(&mut store, 2, 2).unwrap();
    let coverage = vec![9u8; 4];

    for _ in 0..5 {
        assert!(ft.update());
    }
    ft.maybe_update_image(&mut store, &coverage);
    assert_eq!(store.n_uploads(), 1);
    ft.maybe_update_image(&mut store, &coverage);
    assert_eq!(store.n_uploads(), 1);

    // with no update at all, a clean handle syncs to nothing
    ft.maybe_update_image(&mut store, &coverage);
    assert_eq!(store.n_uploads(), 1);
}

/// Single live texture: across any `create`/`resize` sequence there is
/// never more than one texture allocated, and every allocation beyond the
/// first has been matched by exactly one destroy.
#[test]
fn one_live_texture_across_recreations() {
    let mut store = TextureStore::new(128);
    let mut ft = FontTexture::new(16, 16);
    let dims: [(u32, u32); 5] = [(16, 16), (32, 32), (64, 64), (32, 32), (128, 128)];
    for (i, (w, h)) in dims.iter().enumerate() {
        if i % 2 == 0 {
            ft.create(&mut store, *w, *h).unwrap();
        } else {
            ft.resize(&mut store, *w, *h).unwrap();
        }
        assert_eq!(store.live().len(), 1);
        assert_eq!(store.n_destroyed(), store.n_created() - 1);
        assert_eq!(store.live()[0].id, ft.img().unwrap());
        assert_eq!((store.live()[0].w, store.live()[0].h), (*w, *h));
    }
    assert_eq!(store.n_created(), 5);
    assert_eq!(store.n_destroyed(), 4);
}

/// Channel expansion: each coverage byte becomes opaque white with the
/// coverage as alpha, in order.
#[test]
fn channel_expansion_values() {
    let coverage = vec![0u8, 127, 255];
    let out = expand_channels(&coverage);
    assert_eq!(out, vec![255, 255, 255, 0, 255, 255, 255, 127, 255, 255, 255, 255]);

    let empty: Vec<u8> = Vec::new();
    assert_eq!(expand_channels(&empty), Vec::<u8>::new());
}

/// A store with no room reports the fatal allocation failure; the handle
/// records the dimensions but holds no texture.
#[test]
fn allocation_failure_is_fatal() {
    let mut store = TextureStore::new(0);
    let mut ft = FontTexture::new(8, 8);
    let r = ft.create(&mut store, 8, 8);
    assert_eq!(r, Err(FonsError::AllocationFailure));
    assert_eq!(ft.img(), None);
    assert!(ft.is_dirty());
    assert_eq!(store.n_created(), 0);
}

/// Teardown releases the one GPU texture.
#[test]
fn dispose_releases_texture() {
    let mut store = TextureStore::new(128);
    let mut ft = FontTexture::new(8, 8);
    ft.create(&mut store, 8, 8).unwrap();
    ft.dispose(&mut store);
    assert_eq!(ft.img(), None);
    assert_eq!(store.live().len(), 0);
    assert_eq!(store.n_destroyed(), 1);
    // disposing an unallocated handle destroys nothing
    ft.dispose(&mut store);
    assert_eq!(store.n_destroyed(), 1);
}

/// The upload record names the texture it went to.
#[test]
fn upload_targets_current_texture() {
    let mut store = TextureStore::new(128);
    let mut ft = FontTexture::new(2, 2);
    ft.create(&mut store, 2, 2).unwrap();
    let coverage = vec![3u8; 4];
    ft.maybe_update_image(&mut store, &coverage);
    assert_eq!(store.last_upload_id(), ft.img().unwrap());

    ft.resize(&mut store, 4, 4).unwrap();
    let coverage = vec![4u8; 16];
    ft.maybe_update_image(&mut store, &coverage);
    assert_eq!(store.last_upload_id(), ft.img().unwrap());
}
