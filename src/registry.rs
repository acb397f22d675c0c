//! The texture registry: maps texture handles to their texture and
//! descriptor set, and recycles the descriptor sets of released textures
//! through a free list instead of returning them to the pool.
use vstd::prelude::*;
use std::collections::HashMap;
use vstd::std_specs::iter::IteratorSpec;
use crate::texture::{
    CopyRegion, ImageDelta, ImageLayout, Texture2D, TextureExtent, TextureHandle, UploadStep,
    image_bytes, pixel_bytes, region_fits, rgba_bytes, upload_steps,
};

verus! {

broadcast use vstd::std_specs::hash::group_hash_axioms;

/// How many descriptor sets the descriptor pool can hand out.
pub const DESCRIPTOR_POOL_SIZE: u64 = 1024;

/// Where the descriptor set of a new texture comes from.
#[derive(Clone, Copy, Debug, PartialEq, Eq, Structural)]
pub enum DescriptorSource {
    /// A set released earlier, taken back from the free list.
    Reused(u64),
    /// A set to be allocated fresh from the descriptor pool.
    Allocate,
}

/// Why a texture update was refused.
#[derive(Clone, Copy, Debug, PartialEq, Eq, Structural)]
pub enum TextureError {
    /// The delta's texel count is not `width * height`.
    PixelCountMismatch,
    /// A patch names a texture that is not registered.
    UnknownTexture,
    /// A patch does not lie inside the texture it patches.
    PatchOutOfBounds,
    /// The free list is empty and the descriptor pool is used up.
    PoolExhausted,
}

/// What the registry knows of one texture.
#[derive(Clone, Copy, Debug, PartialEq, Eq, Structural)]
pub struct TextureRecord {
    /// The texture the registry owns; `None` for an external texture, whose
    /// image belongs to whoever registered it.
    pub texture: Option<Texture2D>,
    pub descriptor_set: u64,
}

/// The registry as a mathematical value.
pub struct RegistryView {
    pub textures: Map<TextureHandle, TextureRecord>,
    /// Released descriptor sets, the most recent last.
    pub free_sets: Seq<u64>,
    /// How many sets have been allocated from the pool so far.
    pub pool_allocations: nat,
    /// The id the next external texture gets.
    pub next_external: nat,
}

impl RegistryView {
    pub open spec fn wf(self) -> bool {
        &&& self.pool_allocations <= DESCRIPTOR_POOL_SIZE
        &&& self.next_external <= u64::MAX
        &&& forall|h: TextureHandle| #[trigger]
            self.textures.contains_key(h) ==> (self.textures[h].texture is Some <==> h is Internal)
        &&& forall|h: TextureHandle| #[trigger]
            self.textures.contains_key(h) && h is Internal ==> self.textures[h].texture.unwrap().layout
                == ImageLayout::ShaderReadOnlyOptimal
        &&& forall|h: TextureHandle| #[trigger]
            self.textures.contains_key(h) && h is Internal ==> self.textures[h].texture.unwrap().wf()
        &&& forall|id: u64| #[trigger]
            self.textures.contains_key(TextureHandle::External(id)) ==> id < self.next_external
    }

    /// The descriptor set a new texture would get: the last one released,
    /// else a fresh one from the pool while the pool lasts.
    pub open spec fn acquire_result(self) -> Option<DescriptorSource> {
        if self.free_sets.len() > 0 {
            Some(DescriptorSource::Reused(self.free_sets.last()))
        } else if self.pool_allocations < DESCRIPTOR_POOL_SIZE {
            Some(DescriptorSource::Allocate)
        } else {
            None
        }
    }

    pub open spec fn after_acquire(self) -> RegistryView {
        if self.free_sets.len() > 0 {
            RegistryView { free_sets: self.free_sets.drop_last(), ..self }
        } else if self.pool_allocations < DESCRIPTOR_POOL_SIZE {
            RegistryView { pool_allocations: self.pool_allocations + 1, ..self }
        } else {
            self
        }
    }

    /// Stores `rec` under `h`; a record it replaces gives its set to the
    /// free list.
    pub open spec fn after_insert(self, h: TextureHandle, rec: TextureRecord) -> RegistryView {
        RegistryView {
            textures: self.textures.insert(h, rec),
            free_sets: if self.textures.contains_key(h) {
                self.free_sets.push(self.textures[h].descriptor_set)
            } else {
                self.free_sets
            },
            ..self
        }
    }

    /// Removes `h`, its set going to the free list; nothing changes when
    /// `h` is not registered.
    pub open spec fn after_release(self, h: TextureHandle) -> RegistryView {
        if self.textures.contains_key(h) {
            RegistryView {
                textures: self.textures.remove(h),
                free_sets: self.free_sets.push(self.textures[h].descriptor_set),
                ..self
            }
        } else {
            self
        }
    }

    /// Releases each handle of `hs` in turn.
    pub open spec fn after_release_all(self, hs: Seq<TextureHandle>) -> RegistryView
        decreases hs.len(),
    {
        if hs.len() == 0 {
            self
        } else {
            self.after_release_all(hs.drop_last()).after_release(hs.last())
        }
    }

    /// The descriptor set bound for `h`, if `h` is registered.
    pub open spec fn set_of(self, h: TextureHandle) -> Option<u64> {
        if self.textures.contains_key(h) {
            Some(self.textures[h].descriptor_set)
        } else {
            None
        }
    }
}

/// A texture created and then freed leaves the registry's textures as they
/// were, and its descriptor set waits on the free list: nothing it held is
/// lost.
pub proof fn lemma_create_then_free_restores(v: RegistryView, id: u64, rec: TextureRecord)
    requires
        !v.textures.contains_key(TextureHandle::Internal(id)),
    ensures
        v.after_insert(TextureHandle::Internal(id), rec).after_release(TextureHandle::Internal(id)).textures
            == v.textures,
        v.after_insert(TextureHandle::Internal(id), rec).after_release(TextureHandle::Internal(id)).free_sets
            == v.free_sets.push(rec.descriptor_set),
        v.after_insert(TextureHandle::Internal(id), rec).after_release(
            TextureHandle::Internal(id),
        ).pool_allocations == v.pool_allocations,
{
    let h = TextureHandle::Internal(id);
    assert(v.after_insert(h, rec).after_release(h).textures =~= v.textures);
}

/// Releasing a texture and then taking a set for a new one reuses the
/// released set: no allocation from the pool is made.
pub proof fn lemma_release_then_create_reuses_set(v: RegistryView, h: TextureHandle)
    requires
        v.textures.contains_key(h),
    ensures
        v.after_release(h).acquire_result() == Some(DescriptorSource::Reused(v.textures[h].descriptor_set)),
        v.after_release(h).after_acquire().pool_allocations == v.pool_allocations,
        v.after_release(h).after_acquire().free_sets == v.free_sets,
{
    assert(v.after_release(h).free_sets.drop_last() =~= v.free_sets);
}

/// Registering a texture under `Internal(id)` with set `set` (taken as
/// `acquire_result` says), freeing it, and registering a new texture gives
/// the new texture the same set, and leaves the free list and the pool
/// count as they were after the first registration. A patch in between
/// changes nothing here: `prepare_update` leaves the registry as it is for
/// a patch.
pub proof fn lemma_round_trip_reuses_set(
    v: RegistryView,
    id: u64,
    first: Texture2D,
    set: u64,
)
    requires
        !v.textures.contains_key(TextureHandle::Internal(id)),
        v.acquire_result() is Some,
        v.acquire_result() matches Some(DescriptorSource::Reused(s)) ==> s == set,
    ensures
        ({
            let h = TextureHandle::Internal(id);
            let registered = v.after_acquire().after_insert(
                h,
                TextureRecord { texture: Some(first), descriptor_set: set },
            );
            let freed = registered.after_release(h);
            &&& freed.free_sets.len() == v.after_acquire().free_sets.len() + 1
            &&& freed.acquire_result() == Some(DescriptorSource::Reused(set))
            &&& freed.after_acquire().free_sets == v.after_acquire().free_sets
            &&& freed.after_acquire().pool_allocations == v.after_acquire().pool_allocations
        }),
{
    let h = TextureHandle::Internal(id);
    let registered = v.after_acquire().after_insert(h, TextureRecord { texture: Some(first), descriptor_set: set });
    assert(!v.after_acquire().textures.contains_key(h));
    lemma_release_then_create_reuses_set(registered, h);
}

/// A patch that lies inside its texture copies exactly its own rectangle
/// `[x, x + patch.width) x [y, y + patch.height)`, which lies inside the
/// image, from exactly its own bytes; the texture keeps its extent.
pub proof fn lemma_patch_region(t: Texture2D, patch: TextureExtent, offset: (u32, u32))
    requires
        t.wf(),
        region_fits(offset, patch, t.extent),
    ensures
        image_bytes(patch) <= t.staging.size,
        ({
            let steps = upload_steps(t.layout, image_bytes(patch) as u64, offset, patch);
            &&& steps[0] == UploadStep::Stage { len: image_bytes(patch) as u64 }
            &&& steps[2] == UploadStep::CopyToImage {
                region: CopyRegion { x: offset.0, y: offset.1, width: patch.width, height: patch.height },
            }
            &&& offset.0 + patch.width <= t.extent.width
            &&& offset.1 + patch.height <= t.extent.height
        }),
{
    lemma_patch_bytes(patch, t.extent);
}

proof fn lemma_patch_bytes(patch: TextureExtent, extent: TextureExtent)
    requires
        patch.width <= extent.width,
        patch.height <= extent.height,
    ensures
        image_bytes(patch) <= image_bytes(extent),
{
    assert(patch.width as int * patch.height as int <= extent.width as int * extent.height as int) by (nonlinear_arith)
        requires
            patch.width <= extent.width,
            patch.height <= extent.height,
            0 <= patch.width,
            0 <= patch.height,
    ;
}

/// Releasing each handle of `hs` in turn from the objects `m`: the objects
/// left, and those handed back, in the order they were released.
pub open spec fn release_all_resources<T>(m: Map<TextureHandle, T>, hs: Seq<TextureHandle>) -> (Map<
    TextureHandle,
    T,
>, Seq<T>)
    decreases hs.len(),
{
    if hs.len() == 0 {
        (m, Seq::empty())
    } else {
        let (rest, out) = release_all_resources(m, hs.drop_last());
        if rest.contains_key(hs.last()) {
            (rest.remove(hs.last()), out.push(rest[hs.last()]))
        } else {
            (rest, out)
        }
    }
}

/// One registered texture with the embedding program's GPU objects for it.
pub struct TextureEntry<T> {
    pub texture: Option<Texture2D>,
    pub descriptor_set: u64,
    pub resource: T,
}

pub open spec fn record_of<T>(e: TextureEntry<T>) -> TextureRecord {
    TextureRecord { texture: e.texture, descriptor_set: e.descriptor_set }
}

/// What a texture update asks of the graphics API.
pub struct TextureUpload {
    /// The texture as it stands once the upload is carried out.
    pub texture: Texture2D,
    /// For a new texture, where its descriptor set comes from; `None` for a
    /// patch of a registered texture, whose set stays as it is.
    pub descriptor: Option<DescriptorSource>,
    /// The payload for the staging buffer.
    pub bytes: Vec<u8>,
    pub steps: Vec<UploadStep>,
}

/// Handles to textures, each with its descriptor set, and a free list of
/// descriptor sets released for reuse. `T` is the embedding program's GPU
/// objects for one texture.
pub struct TextureRegistry<T> {
    internal: HashMap<u64, TextureEntry<T>>,
    external: HashMap<u64, TextureEntry<T>>,
    free_sets: Vec<u64>,
    pool_allocations: u64,
    next_external: u64,
}

impl<T> View for TextureRegistry<T> {
    type V = RegistryView;

    closed spec fn view(&self) -> RegistryView {
        RegistryView {
            textures: Map::new(
                |h: TextureHandle|
                    match h {
                        TextureHandle::Internal(id) => self.internal@.contains_key(id),
                        TextureHandle::External(id) => self.external@.contains_key(id),
                    },
                |h: TextureHandle|
                    match h {
                        TextureHandle::Internal(id) => record_of(self.internal@[id]),
                        TextureHandle::External(id) => record_of(self.external@[id]),
                    },
            ),
            free_sets: self.free_sets@,
            pool_allocations: self.pool_allocations as nat,
            next_external: self.next_external as nat,
        }
    }
}

impl<T> TextureRegistry<T> {
    /// The embedding program's objects for each registered handle.
    pub closed spec fn resources(&self) -> Map<TextureHandle, T> {
        Map::new(
            |h: TextureHandle|
                match h {
                    TextureHandle::Internal(id) => self.internal@.contains_key(id),
                    TextureHandle::External(id) => self.external@.contains_key(id),
                },
            |h: TextureHandle|
                match h {
                    TextureHandle::Internal(id) => self.internal@[id].resource,
                    TextureHandle::External(id) => self.external@[id].resource,
                },
        )
    }

    pub open spec fn wf(&self) -> bool {
        &&& self@.wf()
        &&& self.resources().dom() == self@.textures.dom()
    }

    /// An empty registry.
    pub fn new() -> (r: Self)
        ensures
            r.wf(),
            r@.textures =~= Map::<TextureHandle, TextureRecord>::empty(),
            r@.free_sets == Seq::<u64>::empty(),
            r@.pool_allocations == 0,
            r@.next_external == 0,
    {
        let r = TextureRegistry {
            internal: HashMap::new(),
            external: HashMap::new(),
            free_sets: Vec::new(),
            pool_allocations: 0,
            next_external: 0,
        };
        assert(r@.textures =~= Map::<TextureHandle, TextureRecord>::empty());
        r
    }

    /// The descriptor set bound for `handle`, if it is registered.
    pub fn descriptor_set(&self, handle: TextureHandle) -> (r: Option<u64>)
        ensures
            r == self@.set_of(handle),
    {
        let found = match handle {
            TextureHandle::Internal(id) => self.internal.get(&id),
            TextureHandle::External(id) => self.external.get(&id),
        };
        match found {
            Some(e) => Some(e.descriptor_set),
            None => None,
        }
    }

    /// The embedding program's objects for `handle`, if it is registered.
    pub fn resource(&self, handle: TextureHandle) -> (r: Option<&T>)
        ensures
            r is Some <==> self.resources().contains_key(handle),
            r is Some ==> *r.unwrap() == self.resources()[handle],
    {
        let found = match handle {
            TextureHandle::Internal(id) => self.internal.get(&id),
            TextureHandle::External(id) => self.external.get(&id),
        };
        match found {
            Some(e) => Some(&e.resource),
            None => None,
        }
    }

    /// Every registered handle.
    pub fn handles(&self) -> (r: Vec<TextureHandle>)
        ensures
            forall|h: TextureHandle| self@.textures.contains_key(h) <==> r@.contains(h),
    {
        let mut out: Vec<TextureHandle> = Vec::new();
        for id in it: self.internal.keys()
            invariant
                out@.len() == it.index(),
                it.seq() == vstd::std_specs::hash::spec_keys_iter(&self.internal).remaining(),
                forall|j: int| 0 <= j < it.index() ==> #[trigger] out@[j] == TextureHandle::Internal(*it.seq()[j]),
        {
            out.push(TextureHandle::Internal(*id));
        }
        let ghost n = out@.len();
        let ghost internal_keys = vstd::std_specs::hash::spec_keys_iter(&self.internal).remaining();
        assert(internal_keys.unref().to_set() == self.internal@.dom());
        for id in it: self.external.keys()
            invariant
                out@.len() == n + it.index(),
                n == internal_keys.len(),
                internal_keys.unref().to_set() == self.internal@.dom(),
                it.seq() == vstd::std_specs::hash::spec_keys_iter(&self.external).remaining(),
                forall|j: int| 0 <= j < n ==> #[trigger] out@[j] == TextureHandle::Internal(*internal_keys[j]),
                forall|j: int| 0 <= j < it.index() ==> #[trigger] out@[n + j] == TextureHandle::External(*it.seq()[j]),
        {
            out.push(TextureHandle::External(*id));
        }
        let ghost external_keys = vstd::std_specs::hash::spec_keys_iter(&self.external).remaining();
        assert(external_keys.unref().to_set() == self.external@.dom());
        assert forall|h: TextureHandle| self@.textures.contains_key(h) <==> out@.contains(h) by {
            match h {
                TextureHandle::Internal(id) => {
                    if self.internal@.contains_key(id) {
                        assert(internal_keys.unref().to_set().contains(id));
                        let j = choose|j: int| 0 <= j < internal_keys.unref().len() && internal_keys.unref()[j] == id;
                        assert(out@[j] == h);
                    }
                    if out@.contains(h) {
                        let j = choose|j: int| 0 <= j < out@.len() && out@[j] == h;
                        if j < n {
                            assert(internal_keys.unref()[j] == id);
                            assert(internal_keys.unref().to_set().contains(id));
                        } else {
                            assert(out@[n + (j - n)] == TextureHandle::External(*external_keys[j - n]));
                        }
                    }
                },
                TextureHandle::External(id) => {
                    if self.external@.contains_key(id) {
                        assert(external_keys.unref().to_set().contains(id));
                        let j = choose|j: int| 0 <= j < external_keys.unref().len() && external_keys.unref()[j] == id;
                        assert(out@[n + j] == h);
                    }
                    if out@.contains(h) {
                        let j = choose|j: int| 0 <= j < out@.len() && out@[j] == h;
                        if j >= n {
                            assert(out@[n + (j - n)] == TextureHandle::External(*external_keys[j - n]));
                            assert(external_keys.unref()[j - n] == id);
                            assert(external_keys.unref().to_set().contains(id));
                        }
                    }
                },
            }
        }
        out
    }

    /// How many released descriptor sets wait for reuse.
    pub fn free_set_count(&self) -> (r: usize)
        ensures
            r == self@.free_sets.len(),
    {
        self.free_sets.len()
    }

    /// How many descriptor sets have been allocated from the pool.
    pub fn pool_allocations(&self) -> (r: u64)
        ensures
            r == self@.pool_allocations,
    {
        self.pool_allocations
    }

    /// Stores a new texture of the GUI's own under `Internal(id)`, with its
    /// descriptor set and GPU objects. A texture already stored under that
    /// handle is replaced: its set goes to the free list and its objects are
    /// handed back for destruction.
    pub fn insert(&mut self, id: u64, texture: Texture2D, descriptor_set: u64, resource: T) -> (r: Option<T>)
        requires
            old(self).wf(),
            texture.wf(),
            texture.layout == ImageLayout::ShaderReadOnlyOptimal,
        ensures
            final(self).wf(),
            final(self)@ == old(self)@.after_insert(
                TextureHandle::Internal(id),
                TextureRecord { texture: Some(texture), descriptor_set },
            ),
            final(self).resources() == old(self).resources().insert(TextureHandle::Internal(id), resource),
            r == (if old(self).resources().contains_key(TextureHandle::Internal(id)) {
                Some(old(self).resources()[TextureHandle::Internal(id)])
            } else {
                None::<T>
            }),
    {
        let ghost m = self.resources();
        let ghost v = self@;
        let h = TextureHandle::Internal(id);
        let entry = TextureEntry { texture: Some(texture), descriptor_set, resource };
        let old_entry = self.internal.insert(id, entry);
        let ghost rec = TextureRecord { texture: Some(texture), descriptor_set };
        match old_entry {
            Some(e) => {
                self.free_sets.push(e.descriptor_set);
                assert(self@.textures =~= v.textures.insert(h, rec));
                assert(self@.free_sets =~= v.free_sets.push(v.textures[h].descriptor_set));
                assert(self.resources() =~= m.insert(h, resource));
                Some(e.resource)
            },
            None => {
                assert(self@.textures =~= v.textures.insert(h, rec));
                assert(self.resources() =~= m.insert(h, resource));
                None
            },
        }
    }

    /// Registers an external texture, whose descriptor set the caller has
    /// bound to its own view and sampler, under a handle no live texture
    /// has. `None`, and nothing changed, once the external ids are used up.
    pub fn register_external(&mut self, descriptor_set: u64, resource: T) -> (r: Option<TextureHandle>)
        requires
            old(self).wf(),
        ensures
            final(self).wf(),
            old(self)@.next_external < u64::MAX ==> {
                &&& r == Some(TextureHandle::External(old(self)@.next_external as u64))
                &&& !old(self)@.textures.contains_key(r.unwrap())
                &&& final(self)@ == RegistryView {
                    next_external: old(self)@.next_external + 1,
                    ..old(self)@.after_insert(r.unwrap(), TextureRecord { texture: None, descriptor_set })
                }
                &&& final(self).resources() == old(self).resources().insert(r.unwrap(), resource)
            },
            old(self)@.next_external == u64::MAX ==> r is None && final(self)@ == old(self)@
                && final(self).resources() == old(self).resources(),
    {
        let ghost v = self@;
        if self.next_external == u64::MAX {
            return None;
        }
        let id = self.next_external;
        let h = TextureHandle::External(id);
        assert(!v.textures.contains_key(h));
        let entry = TextureEntry { texture: None, descriptor_set, resource };
        let _ = self.external.insert(id, entry);
        self.next_external = id + 1;
        assert(self@.textures =~= v.textures.insert(h, TextureRecord { texture: None, descriptor_set }));
        Some(h)
    }

    /// Removes `handle`: its descriptor set goes to the free list, not back
    /// to the pool, and its GPU objects are handed back for destruction.
    /// Nothing changes when `handle` is not registered.
    pub fn release(&mut self, handle: TextureHandle) -> (r: Option<T>)
        requires
            old(self).wf(),
        ensures
            final(self).wf(),
            final(self)@ == old(self)@.after_release(handle),
            final(self).resources() == old(self).resources().remove(handle),
            r == (if old(self).resources().contains_key(handle) {
                Some(old(self).resources()[handle])
            } else {
                None::<T>
            }),
    {
        let ghost m = self.resources();
        let ghost v = self@;
        let removed = match handle {
            TextureHandle::Internal(id) => self.internal.remove(&id),
            TextureHandle::External(id) => self.external.remove(&id),
        };
        match removed {
            Some(e) => {
                self.free_sets.push(e.descriptor_set);
                assert(self@.textures =~= v.textures.remove(handle));
                Some(e.resource)
            },
            None => {
                assert(self@.textures =~= v.textures);
                None
            },
        }
    }

    /// Removes an external texture; an internal handle is refused and
    /// changes nothing.
    pub fn unregister_external(&mut self, handle: TextureHandle) -> (r: Option<T>)
        requires
            old(self).wf(),
        ensures
            final(self).wf(),
            handle is External ==> {
                &&& final(self)@ == old(self)@.after_release(handle)
                &&& final(self).resources() == old(self).resources().remove(handle)
                &&& r == (if old(self).resources().contains_key(handle) {
                    Some(old(self).resources()[handle])
                } else {
                    None::<T>
                })
            },
            handle is Internal ==> final(self)@ == old(self)@ && final(self).resources() == old(
                self,
            ).resources() && r is None,
    {
        match handle {
            TextureHandle::Internal(_) => None,
            TextureHandle::External(_) => self.release(handle),
        }
    }

    /// Releases each handle of `handles` in order, handing back the GPU
    /// objects of those that were registered.
    pub fn release_all(&mut self, handles: &Vec<TextureHandle>) -> (r: Vec<T>)
        requires
            old(self).wf(),
        ensures
            final(self).wf(),
            final(self)@ == old(self)@.after_release_all(handles@),
            (final(self).resources(), r@) == release_all_resources(old(self).resources(), handles@),
    {
        let ghost v = self@;
        let ghost m = self.resources();
        let mut out: Vec<T> = Vec::new();
        let mut i: usize = 0;
        while i < handles.len()
            invariant
                i <= handles@.len(),
                self.wf(),
                self@ == v.after_release_all(handles@.take(i as int)),
                (self.resources(), out@) == release_all_resources(m, handles@.take(i as int)),
            decreases handles@.len() - i,
        {
            let h = handles[i];
            if let Some(res) = self.release(h) {
                out.push(res);
            }
            assert(handles@.take(i + 1).drop_last() =~= handles@.take(i as int));
            i = i + 1;
        }
        assert(handles@.take(i as int) =~= handles@);
        out
    }

    /// Turns an image delta for the GUI's texture `id` into an upload.
    ///
    /// Without an offset the delta is a new texture of its size: a
    /// descriptor set is taken as `acquire_descriptor_set` does, and the
    /// whole image is uploaded at (0, 0); the caller creates the GPU objects,
    /// writes the descriptor and stores the result with `insert`. With an
    /// offset the delta patches the registered texture in place, which keeps
    /// its extent and its descriptor set: the copy covers exactly the
    /// patch's rectangle, and a patch that does not lie inside the texture
    /// is refused.
    pub fn prepare_update(&mut self, id: u64, delta: &ImageDelta) -> (r: Result<TextureUpload, TextureError>)
        requires
            old(self).wf(),
        ensures
            final(self).wf(),
            final(self).resources() == old(self).resources(),
            ({
                let v = old(self)@;
                let h = TextureHandle::Internal(id);
                let n = delta.width as int * delta.height as int;
                let len = (4 * n) as u64;
                if n != delta.pixels@.len() {
                    r == Err::<TextureUpload, TextureError>(TextureError::PixelCountMismatch)
                        && final(self)@ == v
                } else if delta.offset is Some {
                    if !v.textures.contains_key(h) {
                        r == Err::<TextureUpload, TextureError>(TextureError::UnknownTexture)
                            && final(self)@ == v
                    } else if !region_fits(
                        delta.offset.unwrap(),
                        TextureExtent { width: delta.width, height: delta.height },
                        v.textures[h].texture.unwrap().extent,
                    ) {
                        r == Err::<TextureUpload, TextureError>(TextureError::PatchOutOfBounds)
                            && final(self)@ == v
                    } else {
                        let t = v.textures[h].texture.unwrap();
                        let patch = TextureExtent { width: delta.width, height: delta.height };
                        &&& final(self)@ == v
                        &&& r is Ok
                        &&& r.unwrap().texture == t
                        &&& r.unwrap().descriptor is None
                        &&& r.unwrap().bytes@ == rgba_bytes(delta.pixels@)
                        &&& r.unwrap().steps@ == upload_steps(t.layout, len, delta.offset.unwrap(), patch)
                        &&& region_fits(delta.offset.unwrap(), patch, r.unwrap().texture.extent)
                    }
                } else if v.acquire_result() is None {
                    r == Err::<TextureUpload, TextureError>(TextureError::PoolExhausted)
                        && final(self)@ == v
                } else {
                    let extent = TextureExtent { width: delta.width, height: delta.height };
                    &&& final(self)@ == v.after_acquire()
                    &&& r is Ok
                    &&& r.unwrap().texture == Texture2D {
                        extent,
                        staging: crate::texture::StagingBuffer { size: len },
                        layout: ImageLayout::ShaderReadOnlyOptimal,
                    }
                    &&& r.unwrap().descriptor == v.acquire_result()
                    &&& r.unwrap().bytes@ == rgba_bytes(delta.pixels@)
                    &&& r.unwrap().steps@ == upload_steps(ImageLayout::Undefined, len, (0u32, 0u32), extent)
                }
            }),
    {
        let ghost m = self.resources();
        proof {
            assert(delta.width as int * delta.height as int <= u32::MAX as int * u32::MAX as int) by (nonlinear_arith)
                requires
                    delta.width <= u32::MAX,
                    delta.height <= u32::MAX,
            ;
        }
        let texels: u64 = delta.width as u64 * delta.height as u64;
        if texels != delta.pixels.len() as u64 {
            return Err(TextureError::PixelCountMismatch);
        }
        let bytes = pixel_bytes(delta.pixels.as_slice());
        let len = bytes.len() as u64;
        match delta.offset {
            Some(offset) => {
                let h = TextureHandle::Internal(id);
                let found = self.internal.get(&id);
                match found {
                    None => Err(TextureError::UnknownTexture),
                    Some(e) => {
                        assert(self@.textures.contains_key(h));
                        let mut texture = match e.texture {
                            Some(t) => t,
                            None => {
                                assert(false);
                                return Err(TextureError::UnknownTexture);
                            },
                        };
                        let patch = TextureExtent { width: delta.width, height: delta.height };
                        proof {
                            if region_fits(offset, patch, texture.extent) {
                                lemma_patch_bytes(patch, texture.extent);
                            }
                        }
                        match texture.upload_data(patch, offset) {
                            None => Err(TextureError::PatchOutOfBounds),
                            Some(steps) => {
                                Ok(TextureUpload { texture, descriptor: None, bytes, steps })
                            },
                        }
                    },
                }
            },
            None => {
                let source = self.acquire_descriptor_set();
                match source {
                    None => Err(TextureError::PoolExhausted),
                    Some(src) => {
                        let mut texture = match Texture2D::create(delta.width, delta.height) {
                            Some(t) => t,
                            None => {
                                assert(false);
                                return Err(TextureError::PoolExhausted);
                            },
                        };
                        let extent = TextureExtent { width: delta.width, height: delta.height };
                        match texture.upload_data(extent, (0, 0)) {
                            None => {
                                assert(false);
                                Err(TextureError::PatchOutOfBounds)
                            },
                            Some(steps) => {
                                Ok(TextureUpload { texture, descriptor: Some(src), bytes, steps })
                            },
                        }
                    },
                }
            },
        }
    }

    /// Takes the descriptor set for a new texture: the last released one if
    /// any, else a fresh allocation from the pool, counted. `None`, and
    /// nothing changed, when the pool is used up.
    pub fn acquire_descriptor_set(&mut self) -> (r: Option<DescriptorSource>)
        requires
            old(self).wf(),
        ensures
            final(self).wf(),
            r == old(self)@.acquire_result(),
            final(self)@ == old(self)@.after_acquire(),
            final(self).resources() == old(self).resources(),
    {
        let ghost v = self@;
        match self.free_sets.pop() {
            Some(set) => {
                assert(self@.textures =~= v.textures);
                assert(self@ == v.after_acquire());
                Some(DescriptorSource::Reused(set))
            },
            None => {
                if self.pool_allocations < DESCRIPTOR_POOL_SIZE {
                    self.pool_allocations = self.pool_allocations + 1;
                    assert(self@.textures =~= v.textures);
                    Some(DescriptorSource::Allocate)
                } else {
                    assert(self@.textures =~= v.textures);
                    None
                }
            },
        }
    }
}

} // verus!
