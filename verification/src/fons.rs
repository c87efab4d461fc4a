/*!
Glyph-atlas texture synchronisation.

An external glyph rasterizer packs rasterized characters into a single
one-byte-per-pixel coverage bitmap and reports atlas events (`create`,
`resize`, `expand`, `update`) through callbacks. The GPU, on the other hand,
accepts at most one full-content upload per texture per rendered frame, and
expects four-channel pixel data.

[`FontTexture`] is the state that bridges the two: the atlas dimensions as
last reported by the rasterizer, the id of the one live GPU texture (if any),
a four-channel CPU staging buffer, and a dirty flag. [`TextureStore`] stands
for the GPU texture interface (allocate, destroy, upload, over a bounded
image pool) so that the resource discipline — a single live texture, at most
one upload per frame — is stated in the contracts and proved.

The platform layer drives a [`FontTexture`] as follows: each rasterizer
callback is forwarded to the method of the same name, and once per rendered
frame, after glyph insertion and before drawing, the host calls
[`FontTexture::maybe_update_image`] with the rasterizer's current coverage
bitmap.
*/

use vstd::prelude::*;

use crate::gfx::ResourceUsage;

verus! {

// --------------------------------------------------------------------------------
// Channel expansion

/// What a coverage buffer becomes in the four-channel upload buffer:
/// opaque white, with the coverage value as alpha.
pub open spec fn expanded(c: Seq<u8>) -> Seq<u8> {
    Seq::new(4 * c.len(), |j: int| if j % 4 == 3 { c[j / 4] } else { 255u8 })
}

/// The byte size of a four-channel image of the given dimensions.
pub open spec fn rgba_size(w: u32, h: u32) -> int {
    4 * ((w as int) * (h as int))
}

/// Channel expansion: turns a one-byte-per-pixel coverage buffer into the
/// four-bytes-per-pixel buffer that the texture upload expects. Pure; no
/// gamma correction and no premultiplication.
pub fn expand_channels(coverage: &[u8]) -> (out: Vec<u8>)
    requires
        4 * coverage@.len() <= usize::MAX,
    ensures
        out@ == expanded(coverage@),
{
    let mut out: Vec<u8> = Vec::new();
    let n = coverage.len();
    for i in 0..n
        invariant
            4 * coverage@.len() <= usize::MAX,
            n == coverage@.len(),
            out@ =~= expanded(coverage@.subrange(0, i as int)),
    {
        out.push(255);
        out.push(255);
        out.push(255);
        out.push(coverage[i]);
        proof {
            assert(out@ =~= expanded(coverage@.subrange(0, i + 1)));
        }
    }
    proof {
        assert(coverage@.subrange(0, n as int) =~= coverage@);
    }
    out
}

/// Each pixel of the expanded buffer is opaque white with the coverage
/// value as alpha: bytes `4 * i`, `4 * i + 1` and `4 * i + 2` are `255`,
/// and byte `4 * i + 3` is `c[i]`.
pub proof fn lemma_expanded_pixel(c: Seq<u8>, i: int)
    requires
        0 <= i < c.len(),
    ensures
        expanded(c).len() == 4 * c.len(),
        expanded(c)[4 * i] == 255u8,
        expanded(c)[4 * i + 1] == 255u8,
        expanded(c)[4 * i + 2] == 255u8,
        expanded(c)[4 * i + 3] == c[i],
{
}

// --------------------------------------------------------------------------------
// Errors

/// How atlas synchronisation can fail.
#[derive(Clone, Copy, Debug, PartialEq, Eq, Structural)]
pub enum FonsError {
    /// The GPU could not allocate a texture. Fatal: without a backing
    /// texture no further text rendering is possible.
    AllocationFailure,
    /// The rasterizer could not grow its atlas bitmap any further.
    /// Recoverable: the existing texture and atlas remain valid.
    AtlasExpandFailure,
}

// --------------------------------------------------------------------------------
// The GPU texture store

/// One allocated GPU texture: its id, its dimensions, and the update
/// strategy it was allocated with.
#[derive(Clone, Copy, Debug, PartialEq, Eq, Structural)]
pub struct TextureEntry {
    pub id: u32,
    pub w: u32,
    pub h: u32,
    pub usage: ResourceUsage,
}

/// The mathematical state of a [`TextureStore`].
pub struct StoreModel {
    /// Size of the image pool the store was made with.
    pub capacity: nat,
    /// The id the next allocation will hand out; ids start at 1, and 0 is
    /// never a valid texture id.
    pub next_id: u32,
    /// The textures currently allocated, oldest first.
    pub live: Seq<TextureEntry>,
    /// How many allocations have succeeded so far.
    pub created: nat,
    /// How many textures have been destroyed so far.
    pub destroyed: nat,
    /// How many content uploads have been issued so far.
    pub uploads: nat,
    /// The bytes of the most recent upload.
    pub last_upload: Seq<u8>,
    /// The texture the most recent upload went to; 0 before any upload.
    pub last_upload_id: u32,
}

impl StoreModel {
    /// The store's internal consistency: counts balance, ids are nonzero,
    /// distinct and below `next_id`, and the pool bound is respected.
    pub open spec fn wf(self) -> bool {
        &&& self.created == self.destroyed + self.live.len()
        &&& self.live.len() <= self.capacity
        &&& 1 <= self.next_id
        &&& forall|i: int|
            0 <= i < self.live.len() ==> 0 < #[trigger] self.live[i].id < self.next_id
        &&& forall|i: int, j: int|
            0 <= i < self.live.len() && 0 <= j < self.live.len() && i != j
                ==> #[trigger] self.live[i].id != #[trigger] self.live[j].id
    }

    /// Whether a texture with this id is currently allocated.
    pub open spec fn has_live(self, id: u32) -> bool {
        exists|i: int| 0 <= i < self.live.len() && #[trigger] self.live[i].id == id
    }

    /// The position of the live texture with this id.
    pub open spec fn live_index(self, id: u32) -> int {
        choose|i: int| 0 <= i < self.live.len() && #[trigger] self.live[i].id == id
    }
}

/// What an allocation does to the store: if the pool has room, a fresh
/// texture with id `next_id` joins `live`; otherwise nothing changes.
pub open spec fn store_create_step(g: StoreModel, w: u32, h: u32, usage: ResourceUsage) -> StoreModel {
    if g.live.len() < g.capacity {
        StoreModel {
            next_id: ((g.next_id + 1) as u32),
            live: g.live.push(TextureEntry { id: g.next_id, w, h, usage }),
            created: g.created + 1,
            ..g
        }
    } else {
        g
    }
}

/// The id an allocation hands back: the store's `next_id` if the pool has
/// room, nothing otherwise.
pub open spec fn store_create_result(g: StoreModel) -> Option<u32> {
    if g.live.len() < g.capacity {
        Some(g.next_id)
    } else {
        None
    }
}

/// What destruction does to the store: the entry with the given id leaves
/// `live`, and the destroy count rises by one.
pub open spec fn store_destroy_step(g: StoreModel, id: u32) -> StoreModel {
    StoreModel { live: g.live.remove(g.live_index(id)), destroyed: g.destroyed + 1, ..g }
}

/// What an upload does to the store: only the upload record changes.
pub open spec fn store_upload_step(g: StoreModel, id: u32, data: Seq<u8>) -> StoreModel {
    StoreModel { uploads: g.uploads + 1, last_upload: data, last_upload_id: id, ..g }
}

/// A stand-in for the GPU texture interface: it allocates ids from a
/// bounded pool, destroys them, and records full-content uploads. Every
/// operation is specified exactly, so that code driving it is verified
/// against the same discipline the real device imposes (bounded pool,
/// uploads only to live textures, upload size equal to the texture size).
#[derive(Debug)]
pub struct TextureStore {
    capacity: usize,
    next_id: u32,
    live: Vec<TextureEntry>,
    created: u64,
    destroyed: u64,
    uploads: u64,
    last_upload: Vec<u8>,
    last_upload_id: u32,
}

impl View for TextureStore {
    type V = StoreModel;

    closed spec fn view(&self) -> StoreModel {
        StoreModel {
            capacity: self.capacity as nat,
            next_id: self.next_id,
            live: self.live@,
            created: self.created as nat,
            destroyed: self.destroyed as nat,
            uploads: self.uploads as nat,
            last_upload: self.last_upload@,
            last_upload_id: self.last_upload_id,
        }
    }
}

impl TextureStore {
    /// An empty store over a pool of the given size.
    pub fn new(capacity: usize) -> (s: Self)
        ensures
            s@ == (StoreModel {
                capacity: capacity as nat,
                next_id: 1u32,
                live: Seq::empty(),
                created: 0nat,
                destroyed: 0nat,
                uploads: 0nat,
                last_upload: Seq::empty(),
                last_upload_id: 0u32,
            }),
            s@.wf(),
    {
        let s = TextureStore {
            capacity,
            next_id: 1,
            live: Vec::new(),
            created: 0,
            destroyed: 0,
            uploads: 0,
            last_upload: Vec::new(),
            last_upload_id: 0,
        };
        proof {
            assert(s@.live =~= Seq::<TextureEntry>::empty());
            assert(s@.last_upload =~= Seq::<u8>::empty());
        }
        s
    }

    /// Allocates a texture of the given dimensions and update strategy.
    /// Hands back a fresh nonzero id, or nothing when the pool is
    /// exhausted.
    pub fn create_texture(&mut self, w: u32, h: u32, usage: ResourceUsage) -> (r: Option<u32>)
        requires
            old(self)@.wf(),
            old(self)@.next_id < u32::MAX,
            old(self)@.created < u64::MAX,
        ensures
            final(self)@ == store_create_step(old(self)@, w, h, usage),
            r == store_create_result(old(self)@),
            final(self)@.wf(),
    {
        if self.live.len() < self.capacity {
            let id = self.next_id;
            self.live.push(TextureEntry { id, w, h, usage });
            self.next_id = self.next_id + 1;
            self.created = self.created + 1;
            Some(id)
        } else {
            None
        }
    }

    /// Destroys the live texture with the given id.
    pub fn destroy_texture(&mut self, id: u32)
        requires
            old(self)@.wf(),
            old(self)@.has_live(id),
            old(self)@.destroyed < u64::MAX,
        ensures
            final(self)@ == store_destroy_step(old(self)@, id),
            final(self)@.wf(),
    {
        let ghost g = self@;
        let mut i: usize = 0;
        while i < self.live.len()
            invariant
                g == old(self)@,
                self@ == g,
                g.wf(),
                g.has_live(id),
                0 <= i <= g.live.len(),
                forall|j: int| 0 <= j < i ==> #[trigger] g.live[j].id != id,
            decreases g.live.len() - i,
        {
            if self.live[i].id == id {
                proof {
                    let k = g.live_index(id);
                    assert(0 <= k < g.live.len() && g.live[k].id == id);
                    assert(k == i);
                }
                self.live.remove(i);
                self.destroyed = self.destroyed + 1;
                return;
            }
            i = i + 1;
        }
        proof {
            let k = g.live_index(id);
            assert(0 <= k < g.live.len() && g.live[k].id == id);
            assert(false);
        }
    }

    /// Uploads full texture content: the data must be the four-channel
    /// image of a live texture, so its length is four bytes per pixel.
    pub fn upload(&mut self, id: u32, data: &[u8])
        requires
            old(self)@.wf(),
            old(self)@.has_live(id),
            data@.len() == rgba_size(
                old(self)@.live[old(self)@.live_index(id)].w,
                old(self)@.live[old(self)@.live_index(id)].h,
            ),
            old(self)@.uploads < u64::MAX,
        ensures
            final(self)@ == store_upload_step(old(self)@, id, data@),
            final(self)@.wf(),
    {
        let mut copy: Vec<u8> = Vec::new();
        let n = data.len();
        for i in 0..n
            invariant
                n == data@.len(),
                copy@ =~= data@.subrange(0, i as int),
        {
            copy.push(data[i]);
            proof {
                assert(copy@ =~= data@.subrange(0, i + 1));
            }
        }
        proof {
            assert(data@.subrange(0, n as int) =~= data@);
        }
        self.last_upload = copy;
        self.last_upload_id = id;
        self.uploads = self.uploads + 1;
    }

    /// The textures currently allocated.
    pub fn live(&self) -> (r: &Vec<TextureEntry>)
        ensures
            r@ == self@.live,
    {
        &self.live
    }

    /// How many allocations have succeeded so far.
    pub fn n_created(&self) -> (r: u64)
        ensures
            r as nat == self@.created,
    {
        self.created
    }

    /// How many textures have been destroyed so far.
    pub fn n_destroyed(&self) -> (r: u64)
        ensures
            r as nat == self@.destroyed,
    {
        self.destroyed
    }

    /// How many content uploads have been issued so far.
    pub fn n_uploads(&self) -> (r: u64)
        ensures
            r as nat == self@.uploads,
    {
        self.uploads
    }

    /// The bytes of the most recent upload.
    pub fn last_upload(&self) -> (r: &Vec<u8>)
        ensures
            r@ == self@.last_upload,
    {
        &self.last_upload
    }

    /// The texture the most recent upload went to; 0 before any upload.
    pub fn last_upload_id(&self) -> (r: u32)
        ensures
            r == self@.last_upload_id,
    {
        self.last_upload_id
    }
}

// --------------------------------------------------------------------------------
// The atlas texture handle

/// The mathematical state of a [`FontTexture`].
pub struct AtlasModel {
    /// The atlas width as last reported by the rasterizer.
    pub w: u32,
    /// The atlas height as last reported by the rasterizer.
    pub h: u32,
    /// The id of the GPU texture; `None` before the first `create`.
    pub img: Option<u32>,
    /// The four-channel CPU staging buffer, as of the last upload.
    pub tex: Seq<u8>,
    /// Whether a change has been signalled that is not yet uploaded.
    pub dirty: bool,
}

impl AtlasModel {
    /// An allocated texture implies positive dimensions whose four-channel
    /// buffer size fits in memory.
    pub open spec fn wf(self) -> bool {
        self.img is Some ==> 0 < self.w && 0 < self.h && rgba_size(self.w, self.h) <= usize::MAX
    }

    /// The handle owns the store's textures outright: the store holds
    /// exactly the texture the handle points at, at the handle's
    /// dimensions, and nothing else.
    pub open spec fn owns(self, g: StoreModel) -> bool {
        match self.img {
            Some(id) => g.live == seq![
                TextureEntry { id, w: self.w, h: self.h, usage: ResourceUsage::Dynamic },
            ],
            None => g.live == Seq::<TextureEntry>::empty(),
        }
    }
}

/// What a rasterizer `update` signal does to the handle: it only marks it
/// dirty. Pixel content is pulled from the rasterizer later, on sync.
pub open spec fn update_step(s: AtlasModel) -> AtlasModel {
    AtlasModel { dirty: true, ..s }
}

/// What a frame sync does to the handle: on a dirty handle the staging
/// buffer becomes the channel-expanded coverage bitmap and the dirty flag
/// clears; on a clean handle nothing happens.
pub open spec fn sync_step(s: AtlasModel, coverage: Seq<u8>) -> AtlasModel {
    if s.dirty {
        AtlasModel { tex: expanded(coverage), dirty: false, ..s }
    } else {
        s
    }
}

/// What a frame sync does to the store: on a dirty handle, exactly one
/// upload of the channel-expanded coverage bitmap; otherwise nothing.
pub open spec fn sync_store_step(g: StoreModel, s: AtlasModel, coverage: Seq<u8>) -> StoreModel {
    if s.dirty {
        store_upload_step(g, s.img.unwrap(), expanded(coverage))
    } else {
        g
    }
}

/// What letting go of the handle's texture does to the store: the old
/// texture is destroyed if there is one.
pub open spec fn release_step(g: StoreModel, s: AtlasModel) -> StoreModel {
    match s.img {
        Some(id) => store_destroy_step(g, id),
        None => g,
    }
}

/// What a rasterizer `create` does to the handle: the new dimensions are
/// recorded, the handle points at the newly allocated texture (or at
/// nothing, if allocation failed), and the handle is dirty.
pub open spec fn create_atlas_step(s: AtlasModel, g: StoreModel, w: u32, h: u32) -> AtlasModel {
    AtlasModel { w, h, img: store_create_result(release_step(g, s)), dirty: true, tex: s.tex }
}

/// What a rasterizer `create` does to the store: the old texture (if any)
/// is destroyed first — never leaked — and then one new texture is
/// allocated, with the update strategy of content that changes repeatedly
/// but not necessarily every frame.
pub open spec fn create_store_step(s: AtlasModel, g: StoreModel, w: u32, h: u32) -> StoreModel {
    store_create_step(release_step(g, s), w, h, ResourceUsage::Dynamic)
}

/// The CPU side of the glyph-atlas bridge: dimensions, the owned GPU
/// texture id, the four-channel staging buffer, and the dirty flag.
#[derive(Debug)]
pub struct FontTexture {
    w: u32,
    h: u32,
    img: Option<u32>,
    tex_data: Vec<u8>,
    dirty: bool,
}

impl View for FontTexture {
    type V = AtlasModel;

    closed spec fn view(&self) -> AtlasModel {
        AtlasModel { w: self.w, h: self.h, img: self.img, tex: self.tex_data@, dirty: self.dirty }
    }
}

impl FontTexture {
    /// An unallocated handle. The dimensions are the ones the rasterizer
    /// will be initialized with; no GPU texture exists until the rasterizer
    /// reports its first `create`.
    pub fn new(w: u32, h: u32) -> (ft: Self)
        ensures
            ft@ == (AtlasModel { w, h, img: None, tex: Seq::<u8>::empty(), dirty: false }),
            ft@.wf(),
    {
        let ft = FontTexture { w, h, img: None, tex_data: Vec::new(), dirty: false };
        proof {
            assert(ft@.tex =~= Seq::<u8>::empty());
        }
        ft
    }

    /// The current GPU texture id, for binding in draw calls. `None` before
    /// the first `create`. The id may change across a `create`/`resize`, so
    /// callers must re-fetch it rather than cache it.
    pub fn img(&self) -> (r: Option<u32>)
        ensures
            r == self@.img,
    {
        self.img
    }

    /// Read-only view of the CPU staging buffer and the current dimensions,
    /// for diagnostics and testing.
    pub fn cpu_texture(&self) -> (r: (&Vec<u8>, [u32; 2]))
        ensures
            r.0@ == self@.tex,
            r.1@ == seq![self@.w, self@.h],
    {
        let dims = [self.w, self.h];
        proof {
            assert(dims@ =~= seq![self@.w, self@.h]);
        }
        (&self.tex_data, dims)
    }

    /// Whether a change is pending that the next sync will upload.
    pub fn is_dirty(&self) -> (r: bool)
        ensures
            r == self@.dirty,
    {
        self.dirty
    }

    /// The rasterizer's `create` callback: any existing texture is
    /// destroyed first (never leaked), one new texture is allocated at the
    /// new dimensions, and the handle is marked dirty. Fails — fatally for
    /// text rendering — only if the GPU allocation itself fails, which over
    /// a store with room for at least one texture cannot happen.
    pub fn create(&mut self, store: &mut TextureStore, w: u32, h: u32) -> (r: Result<
        (),
        FonsError,
    >)
        requires
            old(self)@.wf(),
            old(store)@.wf(),
            old(self)@.owns(old(store)@),
            0 < w,
            0 < h,
            rgba_size(w, h) <= usize::MAX,
            old(store)@.next_id < u32::MAX,
            old(store)@.created < u64::MAX,
            old(store)@.destroyed < u64::MAX,
        ensures
            final(self)@ == create_atlas_step(old(self)@, old(store)@, w, h),
            final(store)@ == create_store_step(old(self)@, old(store)@, w, h),
            final(self)@.wf(),
            final(store)@.wf(),
            final(self)@.owns(final(store)@),
            r is Ok <==> 1 <= old(store)@.capacity,
            r is Err ==> r == Result::<(), FonsError>::Err(FonsError::AllocationFailure),
    {
        match self.img {
            Some(id) => {
                proof {
                    assert(old(store)@.live[0].id == id);
                    assert(old(store)@.has_live(id));
                }
                store.destroy_texture(id);
                self.img = None;
                proof {
                    let g = old(store)@;
                    let k = g.live_index(id);
                    assert(0 <= k < g.live.len() && g.live[k].id == id);
                    assert(k == 0);
                    assert(store@.live =~= Seq::<TextureEntry>::empty());
                }
            },
            None => {},
        }
        self.w = w;
        self.h = h;
        self.dirty = true;
        match store.create_texture(w, h, ResourceUsage::Dynamic) {
            Some(id) => {
                self.img = Some(id);
                proof {
                    assert(store@.live =~= seq![
                        TextureEntry { id, w, h, usage: ResourceUsage::Dynamic },
                    ]);
                }
                Ok(())
            },
            None => {
                self.img = None;
                Err(FonsError::AllocationFailure)
            },
        }
    }

    /// The rasterizer's `resize` callback: a full recreation, not an
    /// incremental copy — it behaves exactly like [`FontTexture::create`].
    pub fn resize(&mut self, store: &mut TextureStore, w: u32, h: u32) -> (r: Result<
        (),
        FonsError,
    >)
        requires
            old(self)@.wf(),
            old(store)@.wf(),
            old(self)@.owns(old(store)@),
            0 < w,
            0 < h,
            rgba_size(w, h) <= usize::MAX,
            old(store)@.next_id < u32::MAX,
            old(store)@.created < u64::MAX,
            old(store)@.destroyed < u64::MAX,
        ensures
            final(self)@ == create_atlas_step(old(self)@, old(store)@, w, h),
            final(store)@ == create_store_step(old(self)@, old(store)@, w, h),
            final(self)@.wf(),
            final(store)@.wf(),
            final(self)@.owns(final(store)@),
            r is Ok <==> 1 <= old(store)@.capacity,
            r is Err ==> r == Result::<(), FonsError>::Err(FonsError::AllocationFailure),
    {
        self.create(store, w, h)
    }

    /// The rasterizer's `update` callback: the region and pixel arguments
    /// of the underlying protocol carry no information the sync path would
    /// use — the full bitmap is pulled on sync — so the callback only marks
    /// the handle dirty, and always succeeds. Must not be invoked before
    /// the first `create`.
    pub fn update(&mut self) -> (ok: bool)
        requires
            old(self)@.img is Some,
        ensures
            final(self)@ == update_step(old(self)@),
            ok,
    {
        self.dirty = true;
        true
    }

    /// The dimensions the rasterizer is asked to grow to on `expand`:
    /// double in both directions.
    pub fn expand_target(&self) -> (dims: [u32; 2])
        requires
            2 * self@.w <= u32::MAX,
            2 * self@.h <= u32::MAX,
        ensures
            dims@ == seq![(2 * self@.w) as u32, (2 * self@.h) as u32],
    {
        let dims = [self.w * 2, self.h * 2];
        proof {
            assert(dims@ =~= seq![(2 * self@.w) as u32, (2 * self@.h) as u32]);
        }
        dims
    }

    /// The rasterizer's answer to an `expand` request. Growth happens — or
    /// fails — entirely inside the rasterizer, which on success reports the
    /// new dimensions through a later `create`; the handle itself is left
    /// untouched either way. Failure is recoverable: rendering continues
    /// with the existing, smaller atlas.
    pub fn on_expand(&mut self, grew: bool) -> (r: Result<(), FonsError>)
        ensures
            final(self)@ == old(self)@,
            grew <==> r is Ok,
            r is Err ==> r == Result::<(), FonsError>::Err(FonsError::AtlasExpandFailure),
    {
        if grew {
            Ok(())
        } else {
            Err(FonsError::AtlasExpandFailure)
        }
    }

    /// The once-per-frame sync. `coverage` is the rasterizer's current full
    /// bitmap, one byte per pixel at the handle's dimensions. On a dirty
    /// handle: the staging buffer becomes the channel-expanded bitmap and
    /// exactly one full-content upload is issued; on a clean handle this
    /// does nothing, so however many `update` signals arrived since the
    /// last sync, each frame uploads at most once.
    pub fn maybe_update_image(&mut self, store: &mut TextureStore, coverage: &[u8])
        requires
            old(self)@.wf(),
            old(store)@.wf(),
            old(self)@.owns(old(store)@),
            old(self)@.dirty ==> old(self)@.img is Some,
            coverage@.len() == (old(self)@.w as int) * (old(self)@.h as int),
            old(store)@.uploads < u64::MAX,
        ensures
            final(self)@ == sync_step(old(self)@, coverage@),
            final(store)@ == sync_store_step(old(store)@, old(self)@, coverage@),
            final(self)@.wf(),
            final(store)@.wf(),
            final(self)@.owns(final(store)@),
    {
        if !self.dirty {
            return ;
        }
        self.dirty = false;
        self.tex_data = expand_channels(coverage);
        match self.img {
            Some(id) => {
                proof {
                    assert(old(store)@.live[0].id == id);
                    assert(old(store)@.has_live(id));
                    let k = old(store)@.live_index(id);
                    assert(0 <= k < old(store)@.live.len() && old(store)@.live[k].id == id);
                    assert(k == 0);
                }
                store.upload(id, self.tex_data.as_slice());
            },
            None => {
                proof {
                    assert(false);
                }
            },
        }
    }

    /// Teardown: releases the GPU texture, the only path that frees it
    /// outside of a `create`/`resize`.
    pub fn dispose(&mut self, store: &mut TextureStore)
        requires
            old(self)@.wf(),
            old(store)@.wf(),
            old(self)@.owns(old(store)@),
            old(store)@.destroyed < u64::MAX,
        ensures
            final(self)@ == (AtlasModel { img: None, ..old(self)@ }),
            final(store)@ == release_step(old(store)@, old(self)@),
            final(self)@.wf(),
            final(store)@.wf(),
            final(self)@.owns(final(store)@),
    {
        match self.img {
            Some(id) => {
                proof {
                    assert(old(store)@.live[0].id == id);
                    assert(old(store)@.has_live(id));
                    let k = old(store)@.live_index(id);
                    assert(0 <= k < old(store)@.live.len() && old(store)@.live[k].id == id);
                    assert(k == 0);
                }
                store.destroy_texture(id);
                self.img = None;
                proof {
                    assert(store@.live =~= Seq::<TextureEntry>::empty());
                }
            },
            None => {},
        }
    }
}

// --------------------------------------------------------------------------------
// Laws

/// Buffer sizing: a sync never changes the dimensions; on a dirty handle —
/// and every `create`/`resize` leaves the handle dirty — it leaves the
/// staging buffer at exactly four bytes per pixel of those dimensions, and
/// on a clean handle it changes nothing at all, so the buffer stays sized
/// from sync to sync.
pub proof fn lemma_sync_buffer_sized(s: AtlasModel, coverage: Seq<u8>)
    requires
        coverage.len() == (s.w as int) * (s.h as int),
    ensures
        sync_step(s, coverage).w == s.w,
        sync_step(s, coverage).h == s.h,
        s.dirty ==> sync_step(s, coverage).tex.len() == rgba_size(s.w, s.h),
        !s.dirty ==> sync_step(s, coverage) == s,
{
}

/// A run of `n` consecutive `update` signals.
pub open spec fn updates_n(s: AtlasModel, n: nat) -> AtlasModel
    decreases n,
{
    if n == 0 {
        s
    } else {
        update_step(updates_n(s, (n - 1) as nat))
    }
}

/// Update signals accumulate to nothing but the dirty flag.
pub proof fn lemma_updates_n(s: AtlasModel, n: nat)
    ensures
        updates_n(s, n) == if n == 0 {
            s
        } else {
            update_step(s)
        },
    decreases n,
{
    if n > 0 {
        lemma_updates_n(s, (n - 1) as nat);
    }
}

/// Coalescing: any number of `update` signals followed by two consecutive
/// syncs with nothing in between issue exactly one upload, on the first
/// sync; the second sync changes neither the handle nor the store. (With no
/// update signal at all and a clean handle, neither sync uploads; that case
/// is excluded here.)
pub proof fn lemma_sync_coalesces(s: AtlasModel, g: StoreModel, n: nat, coverage: Seq<u8>)
    requires
        0 < n || s.dirty,
    ensures
        ({
            let s1 = updates_n(s, n);
            let s2 = sync_step(s1, coverage);
            let g2 = sync_store_step(g, s1, coverage);
            &&& g2.uploads == g.uploads + 1
            &&& sync_step(s2, coverage) == s2
            &&& sync_store_step(g2, s2, coverage) == g2
        }),
{
    lemma_updates_n(s, n);
}

/// Single live texture: a handle that owns its store never has two GPU
/// textures allocated at once, and every allocation beyond the one the
/// handle still holds has been matched by exactly one destroy.
pub proof fn lemma_single_live_texture(s: AtlasModel, g: StoreModel)
    requires
        s.owns(g),
        g.wf(),
    ensures
        g.live.len() <= 1,
        g.created == g.destroyed + (if s.img is Some {
            1nat
        } else {
            0nat
        }),
{
}

/// A `create` (or `resize`, which is the same step) keeps single ownership:
/// the texture the handle held — and no other — is destroyed, and at most
/// one new texture is allocated; over a store with any room at all the
/// allocation succeeds.
pub proof fn lemma_create_preserves_ownership(s: AtlasModel, g: StoreModel, w: u32, h: u32)
    requires
        s.owns(g),
    ensures
        ({
            let s2 = create_atlas_step(s, g, w, h);
            let g2 = create_store_step(s, g, w, h);
            &&& s2.owns(g2)
            &&& g2.destroyed == g.destroyed + (if s.img is Some {
                1nat
            } else {
                0nat
            })
            &&& 1 <= g.capacity ==> g2.created == g.created + 1 && s2.img is Some
            &&& g.capacity == 0 ==> g2.created == g.created && s2.img is None
        }),
{
    let g1 = release_step(g, s);
    match s.img {
        Some(id) => {
            assert(g.live[0].id == id);
            let k = g.live_index(id);
            assert(0 <= k < g.live.len() && g.live[k].id == id);
            assert(k == 0);
            assert(g1.live =~= Seq::<TextureEntry>::empty());
        },
        None => {},
    }
    let s2 = create_atlas_step(s, g, w, h);
    let g2 = create_store_step(s, g, w, h);
    if g1.live.len() < g1.capacity {
        assert(g2.live =~= seq![
            TextureEntry { id: g1.next_id, w, h, usage: ResourceUsage::Dynamic },
        ]);
    }
}

} // verus!
