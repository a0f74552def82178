//! The framebuffer cache data model.
//!
//! Render-to-texture has no first-class object in the immediate-mode API, so a
//! framebuffer with a depth renderbuffer is created lazily the first time a
//! texture serves as a render target, and reused afterwards. The cache is a
//! list keyed by the color texture's handle, with unique keys and pairwise
//! distinct framebuffers.

use vstd::prelude::*;

use crate::handle::FramebufferHandle;
use crate::handle::RenderbufferHandle;
use crate::handle::TextureHandle;

verus! {

/// A cached framebuffer: the framebuffer, its depth renderbuffer, and the
/// dimensions they were created with.
#[derive(Clone, Copy, Debug, PartialEq, Eq, Structural)]
pub struct CachedFbo {
    pub fbo: FramebufferHandle,
    pub depth_renderbuffer: RenderbufferHandle,
    pub width: u32,
    pub height: u32,
}

/// One cache entry: the color texture's handle and what was created for it.
#[derive(Clone, Copy, Debug, PartialEq, Eq, Structural)]
pub struct FboEntry {
    pub texture: TextureHandle,
    pub cached: CachedFbo,
}

/// The first cache entry for a texture, if any.
pub open spec fn spec_cache_lookup(cache: Seq<FboEntry>, texture: TextureHandle) -> Option<
    CachedFbo,
>
    decreases cache.len(),
{
    if cache.len() == 0 {
        None
    } else if cache[0].texture == texture {
        Some(cache[0].cached)
    } else {
        spec_cache_lookup(cache.skip(1), texture)
    }
}

/// A hit at `k`, with only misses before it, is what the cache lookup finds.
pub proof fn lemma_cache_lookup_hit(cache: Seq<FboEntry>, texture: TextureHandle, k: int)
    requires
        0 <= k < cache.len(),
        cache[k].texture == texture,
        forall|j: int| 0 <= j < k ==> cache[j].texture != texture,
    ensures
        spec_cache_lookup(cache, texture) == Some(cache[k].cached),
    decreases k,
{
    if k > 0 {
        lemma_cache_lookup_hit(cache.skip(1), texture, k - 1);
    }
}

/// With no entry for the texture, the cache lookup misses.
pub proof fn lemma_cache_lookup_miss(cache: Seq<FboEntry>, texture: TextureHandle)
    requires
        forall|j: int| 0 <= j < cache.len() ==> cache[j].texture != texture,
    ensures
        spec_cache_lookup(cache, texture) is None,
    decreases cache.len(),
{
    if cache.len() > 0 {
        lemma_cache_lookup_miss(cache.skip(1), texture);
    }
}

/// A hit returns some entry's cached framebuffer.
pub proof fn lemma_cache_lookup_is_entry(cache: Seq<FboEntry>, texture: TextureHandle)
    requires
        spec_cache_lookup(cache, texture) is Some,
    ensures
        exists|i: int|
            0 <= i < cache.len() && cache[i].texture == texture && cache[i].cached
                == spec_cache_lookup(cache, texture)->Some_0,
    decreases cache.len(),
{
    if cache.len() > 0 && cache[0].texture != texture {
        lemma_cache_lookup_is_entry(cache.skip(1), texture);
        let i = choose|i: int|
            0 <= i < cache.skip(1).len() && cache.skip(1)[i].texture == texture && cache.skip(
                1,
            )[i].cached == spec_cache_lookup(cache.skip(1), texture)->Some_0;
        assert(cache[i + 1].texture == texture && cache[i + 1].cached == spec_cache_lookup(
            cache,
            texture,
        )->Some_0);
    }
}

/// A miss means no entry holds the texture.
pub proof fn lemma_cache_lookup_none(cache: Seq<FboEntry>, texture: TextureHandle)
    requires
        spec_cache_lookup(cache, texture) is None,
    ensures
        forall|j: int| 0 <= j < cache.len() ==> (#[trigger] cache[j]).texture != texture,
    decreases cache.len(),
{
    if cache.len() > 0 {
        lemma_cache_lookup_none(cache.skip(1), texture);
        assert(forall|j: int|
            1 <= j < cache.len() ==> (#[trigger] cache[j]) == cache.skip(1)[j - 1]);
    }
}

/// Whether the cache is well formed: keys unique and framebuffers pairwise
/// distinct.
pub open spec fn spec_cache_wf(cache: Seq<FboEntry>) -> bool {
    &&& forall|i: int, j: int|
        0 <= i < j < cache.len() ==> (#[trigger] cache[i]).texture != (#[trigger] cache[j]).texture
    &&& forall|i: int, j: int|
        0 <= i < j < cache.len() ==> (#[trigger] cache[i]).cached.fbo != (
        #[trigger] cache[j]).cached.fbo
}

/// In a well-formed cache, distinct textures never share a framebuffer.
pub proof fn lemma_cache_distinct_framebuffers(
    cache: Seq<FboEntry>,
    t1: TextureHandle,
    t2: TextureHandle,
)
    requires
        spec_cache_wf(cache),
        t1 != t2,
        spec_cache_lookup(cache, t1) is Some,
        spec_cache_lookup(cache, t2) is Some,
    ensures
        spec_cache_lookup(cache, t1)->Some_0.fbo != spec_cache_lookup(cache, t2)->Some_0.fbo,
{
    lemma_cache_lookup_is_entry(cache, t1);
    lemma_cache_lookup_is_entry(cache, t2);
    let i = choose|i: int|
        0 <= i < cache.len() && cache[i].texture == t1 && cache[i].cached == spec_cache_lookup(
            cache,
            t1,
        )->Some_0;
    let j = choose|j: int|
        0 <= j < cache.len() && cache[j].texture == t2 && cache[j].cached == spec_cache_lookup(
            cache,
            t2,
        )->Some_0;
    assert(i != j);
    if i < j {
        assert(cache[i].cached.fbo != cache[j].cached.fbo);
    } else {
        assert(cache[j].cached.fbo != cache[i].cached.fbo);
    }
}

/// The first cache entry for a texture, if any.
pub fn cache_lookup(cache: &Vec<FboEntry>, texture: TextureHandle) -> (r: Option<CachedFbo>)
    ensures
        r == spec_cache_lookup(cache@, texture),
{
    let n = cache.len();
    let mut i: usize = 0;
    while i < n
        invariant
            i <= n,
            n == cache@.len(),
            forall|j: int| 0 <= j < i ==> cache@[j].texture != texture,
        decreases n - i,
    {
        if cache[i].texture == texture {
            proof {
                lemma_cache_lookup_hit(cache@, texture, i as int);
            }
            return Some(cache[i].cached);
        }
        i = i + 1;
    }
    proof {
        lemma_cache_lookup_miss(cache@, texture);
    }
    None
}

} // verus!
