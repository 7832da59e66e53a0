//! The per-frame render node: for each eligible view, resolve the
//! compiled pipeline, reuse or rebuild the bind group against the current
//! resource identities, and decide the full-screen draw.
//!
//! Every lookup failure is "effect inactive this frame", never an error:
//! the node no-ops and the frame goes on. The bind-group cache is keyed
//! per view, so concurrently active views never evict one another's
//! entries; the node is written for the single-writer discipline of a
//! frame graph that runs it once per frame, with any cross-thread
//! protection left to the host's scheduling.

use vstd::prelude::*;

use crate::pipeline::SmaaPipeline;

verus! {

/// Per-view handle of the compiled pipeline variant this view renders
/// with, as issued by the host's pipeline cache.
#[derive(Clone, Copy, Debug, PartialEq, Eq)]
pub struct ViewSmaaPipeline(pub u64);

/// The two render targets of a ping-pong post-process write: read from
/// `source`, write into `destination`. The two must be distinct textures,
/// or the pass would read and write the same image.
#[derive(Clone, Copy, Debug, PartialEq, Eq, Structural)]
pub struct RenderTargets {
    /// Identity of the texture view holding the current frame contents.
    pub source: u64,
    /// Identity of the texture view the effect writes into.
    pub destination: u64,
}

/// What the host world offers the node for one view this frame. Each
/// piece is optional: a missing piece means the effect is inactive for the
/// view (not extracted, pipeline still compiling, view gone), and the node
/// no-ops.
#[derive(Clone, Copy, Debug, PartialEq, Eq)]
pub struct ViewFrameData {
    /// The view's post-process targets, when the view still exists.
    pub targets: Option<RenderTargets>,
    /// The compiled pipeline behind the view's [`ViewSmaaPipeline`]
    /// component, once the host's pipeline cache has finished compiling
    /// it.
    pub pipeline: Option<u64>,
    /// The view's dynamic offset into the shared uniform buffer, when
    /// extraction produced an entry for it.
    pub uniform_offset: Option<u32>,
}

/// An opaque GPU bind group, identified by what it binds: the layout it
/// was built for, the sampler, the source texture view and the uniform
/// buffer.
#[derive(Clone, Copy, Debug, PartialEq, Eq, Structural)]
pub struct BindGroup {
    pub layout: u64,
    pub sampler: u64,
    pub texture: u64,
    pub buffer: u64,
}

/// One slot of the bind-group cache: the resource identities a bind group
/// was built against, and the bind group itself.
#[derive(Clone, Copy, Debug, PartialEq, Eq, Structural)]
pub struct CacheEntry {
    /// The view this slot belongs to.
    pub view: u64,
    /// Identity of the uniform buffer the bind group was built against.
    pub buffer: u64,
    /// Identity of the source texture view it was built against.
    pub texture: u64,
    pub bind_group: BindGroup,
}

/// The draw the node decided on: a full-screen triangle (three vertices,
/// no vertex or index buffers) into `destination`, with the bind group
/// bound at the view's dynamic uniform offset. The host's render-pass
/// runner executes it.
#[derive(Clone, Copy, Debug, PartialEq, Eq, Structural)]
pub struct DrawCommand {
    pub pipeline: u64,
    pub bind_group: BindGroup,
    pub dynamic_offset: u32,
    pub destination: u64,
    pub vertex_count: u32,
}

/// Whether some cache slot belongs to `view`.
pub open spec fn has_entry(cache: Seq<CacheEntry>, view: u64) -> bool {
    exists|i: int| 0 <= i < cache.len() && cache[i].view == view
}

/// The cache slot of `view`; meaningful when `has_entry` holds and the
/// view keys are unique.
pub open spec fn entry_for(cache: Seq<CacheEntry>, view: u64) -> CacheEntry
    recommends
        has_entry(cache, view),
{
    cache[choose|i: int| 0 <= i < cache.len() && cache[i].view == view]
}

/// No two cache slots belong to the same view.
pub open spec fn cache_keys_unique(cache: Seq<CacheEntry>) -> bool {
    forall|i: int, j: int|
        0 <= i < j < cache.len() ==> (#[trigger] cache[i]).view != (#[trigger] cache[j]).view
}

/// A slot records exactly the identities its bind group binds.
pub open spec fn entry_wf(e: CacheEntry) -> bool {
    e.bind_group.texture == e.texture && e.bind_group.buffer == e.buffer
}

/// With unique view keys, the slot found at index `i` is the slot of its
/// view.
pub proof fn lemma_entry_at(cache: Seq<CacheEntry>, view: u64, i: int)
    requires
        cache_keys_unique(cache),
        0 <= i < cache.len(),
        cache[i].view == view,
    ensures
        has_entry(cache, view),
        entry_for(cache, view) == cache[i],
{
    assert(has_entry(cache, view));
    let j = choose|j: int| 0 <= j < cache.len() && cache[j].view == view;
    if i < j {
        assert(cache[i].view != cache[j].view);
    }
    if j < i {
        assert(cache[j].view != cache[i].view);
    }
}

/// The cached slot of `view` was built against exactly this buffer and
/// source texture, so the bind group can be reused unmodified.
pub open spec fn cache_hit(cache: Seq<CacheEntry>, view: u64, buffer: u64, texture: u64) -> bool {
    &&& has_entry(cache, view)
    &&& entry_for(cache, view).buffer == buffer
    &&& entry_for(cache, view).texture == texture
}

/// The effect runs for the view this frame: the view still exists, its
/// pipeline variant is compiled, extraction produced a uniform entry, and
/// the shared uniform buffer is allocated.
pub open spec fn eligible(data: ViewFrameData, uniform_buffer: Option<u64>) -> bool {
    &&& data.targets is Some
    &&& data.pipeline is Some
    &&& data.uniform_offset is Some
    &&& uniform_buffer is Some
}

/// The full behavior of one `run` call, relating the node state before
/// (`pre`) and after (`post`) to the returned draw.
///
/// An ineligible view changes nothing and draws nothing. An eligible view
/// always draws: a full-screen triangle into its destination with its own
/// pipeline and offset, through a bind group reading its own source
/// texture. On a cache hit the cached bind group is reused and nothing is
/// rebuilt; on a miss exactly one bind group is built from the current
/// layout, sampler, source texture and uniform buffer, and the view's
/// slot is overwritten. Slots of other views are never touched.
pub open spec fn run_post(
    pre: SmaaNode,
    post: SmaaNode,
    pipeline: SmaaPipeline,
    view: u64,
    data: ViewFrameData,
    uniform_buffer: Option<u64>,
    r: Option<DrawCommand>,
) -> bool {
    if !eligible(data, uniform_buffer) {
        r is None && post == pre
    } else {
        let t = data.targets->Some_0;
        let b = uniform_buffer->Some_0;
        let hit = cache_hit(pre.cache@, view, b, t.source);
        &&& r matches Some(cmd) && {
            &&& cmd.pipeline == data.pipeline->Some_0
            &&& cmd.dynamic_offset == data.uniform_offset->Some_0
            &&& cmd.destination == t.destination
            &&& cmd.vertex_count == 3
            &&& cmd.bind_group.texture == t.source
            &&& cmd.bind_group.buffer == b
            &&& (hit ==> cmd.bind_group == entry_for(pre.cache@, view).bind_group)
            &&& (!hit ==> cmd.bind_group == (BindGroup {
                layout: pipeline.texture_bind_group,
                sampler: pipeline.sampler,
                texture: t.source,
                buffer: b,
            }))
            &&& has_entry(post.cache@, view)
            &&& entry_for(post.cache@, view) == (CacheEntry {
                view,
                buffer: b,
                texture: t.source,
                bind_group: cmd.bind_group,
            })
        }
        &&& (hit ==> post.cache@ == pre.cache@ && post.rebuild_count == pre.rebuild_count)
        &&& (!hit ==> post.rebuild_count == pre.rebuild_count + 1)
        &&& (forall|v: u64|
            v != view ==> (has_entry(post.cache@, v) <==> has_entry(pre.cache@, v)))
        &&& (forall|v: u64|
            v != view && has_entry(pre.cache@, v) ==> entry_for(post.cache@, v) == entry_for(
                pre.cache@,
                v,
            ))
    }
}

/// The render node: the per-view bind-group cache and a rebuild counter
/// for instrumentation.
pub struct SmaaNode {
    /// One slot per view that has drawn at least once; view keys unique.
    pub cache: Vec<CacheEntry>,
    /// How many bind groups have been built over the node's lifetime.
    pub rebuild_count: u64,
}

impl SmaaNode {
    /// View keys are unique and every slot records the identities its
    /// bind group binds. Established by `new` and preserved by `run`.
    pub open spec fn wf(self) -> bool {
        &&& cache_keys_unique(self.cache@)
        &&& forall|i: int| 0 <= i < self.cache@.len() ==> entry_wf(#[trigger] self.cache@[i])
    }

    /// A fresh node: empty cache, nothing built yet.
    pub fn new() -> (r: SmaaNode)
        ensures
            r.wf(),
            r.cache@.len() == 0,
            r.rebuild_count == 0,
    {
        SmaaNode { cache: Vec::new(), rebuild_count: 0 }
    }

    /// How many bind groups the node has built so far.
    pub fn rebuilds(&self) -> (r: u64)
        ensures
            r == self.rebuild_count,
    {
        self.rebuild_count
    }

    /// The index of `view`'s cache slot, if it has one.
    fn find_entry(cache: &Vec<CacheEntry>, view: u64) -> (r: Option<usize>)
        requires
            cache_keys_unique(cache@),
        ensures
            r matches Some(i) ==> i < cache@.len() && cache@[i as int].view == view && has_entry(
                cache@,
                view,
            ) && entry_for(cache@, view) == cache@[i as int],
            r is None ==> !has_entry(cache@, view),
    {
        let mut i: usize = 0;
        while i < cache.len()
            invariant
                i <= cache@.len(),
                cache_keys_unique(cache@),
                forall|j: int| 0 <= j < i ==> (#[trigger] cache@[j]).view != view,
            decreases cache@.len() - i,
        {
            if cache[i].view == view {
                proof {
                    lemma_entry_at(cache@, view, i as int);
                }
                return Some(i);
            }
            i += 1;
        }
        None
    }

    /// Run the node for one view of the frame.
    ///
    /// Mirrors the frame-graph entry point: the host passes the view's
    /// identity, what its world lookup found for the view, and the
    /// identity of the shared uniform buffer, and performs the returned
    /// draw, if any. The contract is `run_post`: no-op on any missing
    /// lookup, reuse on a cache hit, exactly one rebuild on a miss, other
    /// views' slots untouched.
    pub fn run(
        &mut self,
        pipeline: &SmaaPipeline,
        view_entity: u64,
        data: &ViewFrameData,
        uniform_buffer: Option<u64>,
    ) -> (r: Option<DrawCommand>)
        requires
            old(self).wf(),
            old(self).rebuild_count < u64::MAX,
            data.targets matches Some(t) ==> t.source != t.destination,
        ensures
            final(self).wf(),
            run_post(*old(self), *final(self), *pipeline, view_entity, *data, uniform_buffer, r),
    {
        let targets = match data.targets {
            Some(t) => t,
            None => {
                return None;
            },
        };
        let pipeline_id = match data.pipeline {
            Some(p) => p,
            None => {
                return None;
            },
        };
        let offset = match data.uniform_offset {
            Some(o) => o,
            None => {
                return None;
            },
        };
        let buffer = match uniform_buffer {
            Some(b) => b,
            None => {
                return None;
            },
        };
        let found = Self::find_entry(&self.cache, view_entity);
        match found {
            Some(i) => {
                let e = self.cache[i];
                if e.buffer == buffer && e.texture == targets.source {
                    // The cached bind group was built against exactly the
                    // current identities: reuse it, build nothing.
                    Some(
                        DrawCommand {
                            pipeline: pipeline_id,
                            bind_group: e.bind_group,
                            dynamic_offset: offset,
                            destination: targets.destination,
                            vertex_count: 3,
                        },
                    )
                } else {
                    // Same view, stale identities: rebuild and overwrite
                    // the view's own slot.
                    let bind_group = BindGroup {
                        layout: pipeline.texture_bind_group,
                        sampler: pipeline.sampler,
                        texture: targets.source,
                        buffer,
                    };
                    let entry = CacheEntry {
                        view: view_entity,
                        buffer,
                        texture: targets.source,
                        bind_group,
                    };
                    let slot = &mut self.cache[i];
                    *slot = entry;
                    self.rebuild_count = self.rebuild_count + 1;
                    proof {
                        lemma_entry_at(self.cache@, view_entity, i as int);
                        lemma_overwrite_preserves_others(
                            old(self).cache@,
                            self.cache@,
                            i as int,
                            view_entity,
                        );
                    }
                    Some(
                        DrawCommand {
                            pipeline: pipeline_id,
                            bind_group,
                            dynamic_offset: offset,
                            destination: targets.destination,
                            vertex_count: 3,
                        },
                    )
                }
            },
            None => {
                // First draw of this view: build its bind group and give
                // it a slot of its own.
                let bind_group = BindGroup {
                    layout: pipeline.texture_bind_group,
                    sampler: pipeline.sampler,
                    texture: targets.source,
                    buffer,
                };
                let entry = CacheEntry {
                    view: view_entity,
                    buffer,
                    texture: targets.source,
                    bind_group,
                };
                self.cache.push(entry);
                self.rebuild_count = self.rebuild_count + 1;
                proof {
                    lemma_entry_at(self.cache@, view_entity, self.cache@.len() - 1);
                    lemma_push_preserves_others(old(self).cache@, self.cache@, view_entity);
                }
                Some(
                    DrawCommand {
                        pipeline: pipeline_id,
                        bind_group,
                        dynamic_offset: offset,
                        destination: targets.destination,
                        vertex_count: 3,
                    },
                )
            },
        }
    }
}

/// Law: a view without a uniform entry — in particular one whose mode is
/// `Disabled`, for which extraction produced nothing — is a no-op: the
/// node draws nothing and its state does not change.
pub proof fn lemma_inactive_view_no_op(
    pre: SmaaNode,
    post: SmaaNode,
    pipeline: SmaaPipeline,
    view: u64,
    data: ViewFrameData,
    uniform_buffer: Option<u64>,
    r: Option<DrawCommand>,
)
    requires
        data.uniform_offset is None,
        run_post(pre, post, pipeline, view, data, uniform_buffer, r),
    ensures
        r is None,
        post == pre,
{
}

/// Law: re-running a view on the same frame state reuses the cached bind
/// group. The first run leaves a slot built against exactly the current
/// identities, so the second run is a hit: it returns the same draw, the
/// same bind group, and builds nothing.
pub proof fn lemma_same_frame_reuses_bind_group(
    n0: SmaaNode,
    n1: SmaaNode,
    n2: SmaaNode,
    pipeline: SmaaPipeline,
    view: u64,
    data: ViewFrameData,
    uniform_buffer: Option<u64>,
    r1: Option<DrawCommand>,
    r2: Option<DrawCommand>,
)
    requires
        eligible(data, uniform_buffer),
        run_post(n0, n1, pipeline, view, data, uniform_buffer, r1),
        run_post(n1, n2, pipeline, view, data, uniform_buffer, r2),
    ensures
        n2.rebuild_count == n1.rebuild_count,
        n2.cache@ == n1.cache@,
        r2 == r1,
{
}

/// Law: after a resize, the ping-pong write hands the next frame a new
/// source identity. The run that first sees the new source rebuilds
/// exactly once, and a further run on the unchanged state rebuilds
/// nothing.
pub proof fn lemma_new_source_rebuilds_once(
    n0: SmaaNode,
    n1: SmaaNode,
    n2: SmaaNode,
    n3: SmaaNode,
    pipeline: SmaaPipeline,
    view: u64,
    data1: ViewFrameData,
    data2: ViewFrameData,
    uniform_buffer: Option<u64>,
    r1: Option<DrawCommand>,
    r2: Option<DrawCommand>,
    r3: Option<DrawCommand>,
)
    requires
        eligible(data1, uniform_buffer),
        eligible(data2, uniform_buffer),
        data2.targets->Some_0.source != data1.targets->Some_0.source,
        run_post(n0, n1, pipeline, view, data1, uniform_buffer, r1),
        run_post(n1, n2, pipeline, view, data2, uniform_buffer, r2),
        run_post(n2, n3, pipeline, view, data2, uniform_buffer, r3),
    ensures
        n2.rebuild_count == n1.rebuild_count + 1,
        n3.rebuild_count == n2.rebuild_count,
{
}

/// Law: two views active in the same frame stay independent. Each draw
/// reads its own source texture through its own bind group, and the
/// second view's run leaves the first view's cache slot untouched, so
/// neither evicts the other.
pub proof fn lemma_two_views_independent(
    n0: SmaaNode,
    n1: SmaaNode,
    n2: SmaaNode,
    pipeline: SmaaPipeline,
    view_a: u64,
    view_b: u64,
    data_a: ViewFrameData,
    data_b: ViewFrameData,
    uniform_buffer: Option<u64>,
    r_a: Option<DrawCommand>,
    r_b: Option<DrawCommand>,
)
    requires
        view_a != view_b,
        eligible(data_a, uniform_buffer),
        eligible(data_b, uniform_buffer),
        run_post(n0, n1, pipeline, view_a, data_a, uniform_buffer, r_a),
        run_post(n1, n2, pipeline, view_b, data_b, uniform_buffer, r_b),
    ensures
        r_a matches Some(cmd_a) && cmd_a.bind_group.texture == data_a.targets->Some_0.source,
        r_b matches Some(cmd_b) && cmd_b.bind_group.texture == data_b.targets->Some_0.source,
        has_entry(n2.cache@, view_a),
        entry_for(n2.cache@, view_a) == entry_for(n1.cache@, view_a),
{
}

/// Overwriting the slot at `i`, whose view key stays `view`, leaves every
/// other view's presence and slot unchanged.
proof fn lemma_overwrite_preserves_others(
    pre: Seq<CacheEntry>,
    post: Seq<CacheEntry>,
    i: int,
    view: u64,
)
    requires
        cache_keys_unique(pre),
        cache_keys_unique(post),
        0 <= i < pre.len(),
        post.len() == pre.len(),
        pre[i].view == view,
        post[i].view == view,
        forall|j: int| 0 <= j < pre.len() && j != i ==> post[j] == pre[j],
    ensures
        forall|v: u64| v != view ==> (has_entry(post, v) <==> has_entry(pre, v)),
        forall|v: u64| v != view && has_entry(pre, v) ==> entry_for(post, v) == entry_for(pre, v),
{
    assert forall|v: u64| v != view implies (has_entry(post, v) <==> has_entry(pre, v)) by {
        if has_entry(pre, v) {
            let j = choose|j: int| 0 <= j < pre.len() && pre[j].view == v;
            assert(post[j] == pre[j]);
            assert(has_entry(post, v));
        }
        if has_entry(post, v) {
            let j = choose|j: int| 0 <= j < post.len() && post[j].view == v;
            assert(pre[j] == post[j]);
            assert(has_entry(pre, v));
        }
    }
    assert forall|v: u64| v != view && has_entry(pre, v) implies entry_for(post, v) == entry_for(
        pre,
        v,
    ) by {
        let j = choose|j: int| 0 <= j < pre.len() && pre[j].view == v;
        assert(post[j] == pre[j]);
        lemma_entry_at(pre, v, j);
        lemma_entry_at(post, v, j);
    }
}

/// Appending a slot for a new view leaves every other view's presence and
/// slot unchanged.
proof fn lemma_push_preserves_others(pre: Seq<CacheEntry>, post: Seq<CacheEntry>, view: u64)
    requires
        cache_keys_unique(pre),
        cache_keys_unique(post),
        post.len() == pre.len() + 1,
        post[post.len() - 1].view == view,
        forall|j: int| 0 <= j < pre.len() ==> post[j] == pre[j],
    ensures
        forall|v: u64| v != view ==> (has_entry(post, v) <==> has_entry(pre, v)),
        forall|v: u64| v != view && has_entry(pre, v) ==> entry_for(post, v) == entry_for(pre, v),
{
    assert forall|v: u64| v != view implies (has_entry(post, v) <==> has_entry(pre, v)) by {
        if has_entry(pre, v) {
            let j = choose|j: int| 0 <= j < pre.len() && pre[j].view == v;
            assert(post[j] == pre[j]);
            assert(has_entry(post, v));
        }
        if has_entry(post, v) {
            let j = choose|j: int| 0 <= j < post.len() && post[j].view == v;
            assert(j < pre.len());
            assert(pre[j] == post[j]);
            assert(has_entry(pre, v));
        }
    }
    assert forall|v: u64| v != view && has_entry(pre, v) implies entry_for(post, v) == entry_for(
        pre,
        v,
    ) by {
        let j = choose|j: int| 0 <= j < pre.len() && pre[j].view == v;
        assert(post[j] == pre[j]);
        lemma_entry_at(pre, v, j);
        lemma_entry_at(post, v, j);
    }
}

} // verus!
