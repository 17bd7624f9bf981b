//! Render-pass description, the framebuffer cache, and pipeline
//! descriptors.
//!
//! The framebuffer cache memoizes framebuffer objects on a structural key.
//! The key includes the concrete view handles besides the dimensions and
//! the attachment signature: two keys are interchangeable only when they
//! bind the same views, so a structural hit can never hand back a
//! framebuffer built around different views.

use vstd::prelude::*;

use crate::image::ImageDesc;
use crate::vk::{
    AttachmentDescription, LAYOUT_COLOR_ATTACHMENT_OPTIMAL,
    LAYOUT_DEPTH_STENCIL_ATTACHMENT_OPTIMAL, LAYOUT_PRESENT_SRC, LAYOUT_UNDEFINED, LOAD_OP_CLEAR,
    LOAD_OP_DONT_CARE, SAMPLE_COUNT_1, STORE_OP_DONT_CARE, STORE_OP_STORE,
};

verus! {

/// The pipeline stage a shader runs in.
#[derive(Copy, Clone, Hash, Eq, PartialEq, Structural, Debug)]
pub enum ShaderPipelineStage {
    Vertex,
    Pixel,
    RayGen,
    RayMiss,
    RayClosestHit,
}

/// One shader of a pipeline: its stage, push-constant footprint, and entry
/// point name.
#[derive(Hash, PartialEq, Eq, Clone, Debug)]
pub struct PipelineShaderDesc {
    pub stage: ShaderPipelineStage,
    pub push_constants_bytes: usize,
    pub entry: String,
}

impl PipelineShaderDesc {
    /// A shader for the given stage with no push constants and an empty
    /// entry point name, to be filled in.
    pub fn new(stage: ShaderPipelineStage) -> (r: PipelineShaderDesc)
        ensures
            r.stage == stage,
            r.push_constants_bytes == 0,
            r.entry@ =~= Seq::<char>::empty(),
    {
        PipelineShaderDesc { stage, push_constants_bytes: 0, entry: String::new() }
    }
}

/// How a raster pipeline is configured against its render pass.
#[derive(Clone, Copy)]
pub struct RasterPipelineDesc {
    pub render_pass: u64,
    pub face_cull: bool,
    pub depth_write: bool,
    pub push_constants_bytes: usize,
}

impl RasterPipelineDesc {
    /// The default configuration: back-face culling and depth writes on,
    /// no push constants, no render pass bound yet.
    pub fn new() -> (r: RasterPipelineDesc)
        ensures
            r.render_pass == 0u64,
            r.face_cull,
            r.depth_write,
            r.push_constants_bytes == 0,
    {
        RasterPipelineDesc {
            render_pass: 0,
            face_cull: true,
            depth_write: true,
            push_constants_bytes: 0,
        }
    }
}

/// One attachment of a render pass, before layouts are chosen.
#[derive(Clone, Copy, Debug, PartialEq, Eq, Structural)]
pub struct RenderPassAttachmentDesc {
    pub format: u32,
    pub load_op: u32,
    pub store_op: u32,
    pub samples: u32,
}

impl RenderPassAttachmentDesc {
    /// A single-sampled color attachment: cleared on load, stored on exit.
    pub fn create_color_attachment(format: u32) -> (r: RenderPassAttachmentDesc)
        ensures
            r == (RenderPassAttachmentDesc {
                format,
                load_op: LOAD_OP_CLEAR,
                store_op: STORE_OP_STORE,
                samples: SAMPLE_COUNT_1,
            }),
    {
        RenderPassAttachmentDesc {
            format,
            load_op: LOAD_OP_CLEAR,
            store_op: STORE_OP_STORE,
            samples: SAMPLE_COUNT_1,
        }
    }

    /// A single-sampled depth attachment: cleared on load, discarded on
    /// exit.
    pub fn create_depth_attachment(format: u32) -> (r: RenderPassAttachmentDesc)
        ensures
            r == (RenderPassAttachmentDesc {
                format,
                load_op: LOAD_OP_CLEAR,
                store_op: STORE_OP_DONT_CARE,
                samples: SAMPLE_COUNT_1,
            }),
    {
        RenderPassAttachmentDesc {
            format,
            load_op: LOAD_OP_CLEAR,
            store_op: STORE_OP_DONT_CARE,
            samples: SAMPLE_COUNT_1,
        }
    }

    /// Do not load the previous contents.
    pub fn garbage_input(self) -> (r: RenderPassAttachmentDesc)
        ensures
            r == (RenderPassAttachmentDesc { load_op: LOAD_OP_DONT_CARE, ..self }),
    {
        RenderPassAttachmentDesc { load_op: LOAD_OP_DONT_CARE, ..self }
    }

    /// Clear before use.
    pub fn clear_input(self) -> (r: RenderPassAttachmentDesc)
        ensures
            r == (RenderPassAttachmentDesc { load_op: LOAD_OP_CLEAR, ..self }),
    {
        RenderPassAttachmentDesc { load_op: LOAD_OP_CLEAR, ..self }
    }

    /// Do not keep the results.
    pub fn discard_output(self) -> (r: RenderPassAttachmentDesc)
        ensures
            r == (RenderPassAttachmentDesc { store_op: STORE_OP_DONT_CARE, ..self }),
    {
        RenderPassAttachmentDesc { store_op: STORE_OP_DONT_CARE, ..self }
    }

    /// The full attachment description under the given layouts.
    pub fn to_vk(self, initial_layout: u32, final_layout: u32) -> (r: AttachmentDescription)
        ensures
            r == (AttachmentDescription {
                format: self.format,
                samples: self.samples,
                load_op: self.load_op,
                store_op: self.store_op,
                stencil_load_op: LOAD_OP_DONT_CARE,
                initial_layout,
                final_layout,
            }),
    {
        AttachmentDescription {
            format: self.format,
            samples: self.samples,
            load_op: self.load_op,
            store_op: self.store_op,
            stencil_load_op: LOAD_OP_DONT_CARE,
            initial_layout,
            final_layout,
        }
    }
}

/// What a render pass is built from.
pub struct RenderPassDesc {
    pub color_attachments: Vec<RenderPassAttachmentDesc>,
    pub depth_attachment: Option<RenderPassAttachmentDesc>,
}

/// The full description of a color attachment: starts undefined and ends
/// ready to present.
pub open spec fn spec_color_attachment_description(
    d: RenderPassAttachmentDesc,
) -> AttachmentDescription {
    AttachmentDescription {
        format: d.format,
        samples: d.samples,
        load_op: d.load_op,
        store_op: d.store_op,
        stencil_load_op: LOAD_OP_DONT_CARE,
        initial_layout: LAYOUT_UNDEFINED,
        final_layout: LAYOUT_PRESENT_SRC,
    }
}

/// The full description of the depth attachment: starts undefined and ends
/// as a depth-stencil attachment.
pub open spec fn spec_depth_attachment_description(
    d: RenderPassAttachmentDesc,
) -> AttachmentDescription {
    AttachmentDescription {
        format: d.format,
        samples: d.samples,
        load_op: d.load_op,
        store_op: d.store_op,
        stencil_load_op: LOAD_OP_DONT_CARE,
        initial_layout: LAYOUT_UNDEFINED,
        final_layout: LAYOUT_DEPTH_STENCIL_ATTACHMENT_OPTIMAL,
    }
}

/// Build the render pass's attachment list: every color attachment in
/// order, then the depth attachment if there is one.
pub fn render_pass_attachments(desc: &RenderPassDesc) -> (r: Vec<AttachmentDescription>)
    ensures
        desc.depth_attachment is None ==> r@ =~= desc.color_attachments@.map_values(
            |d: RenderPassAttachmentDesc| spec_color_attachment_description(d),
        ),
        desc.depth_attachment matches Some(depth) ==> r@ =~= desc.color_attachments@.map_values(
            |d: RenderPassAttachmentDesc| spec_color_attachment_description(d),
        ).push(spec_depth_attachment_description(depth)),
{
    let n = desc.color_attachments.len();
    let mut attachments: Vec<AttachmentDescription> = Vec::new();
    let mut i: usize = 0;
    while i < n
        invariant
            n == desc.color_attachments@.len(),
            i <= n,
            attachments@.len() == i,
            forall|j: int|
                0 <= j < i ==> attachments@[j] == spec_color_attachment_description(
                    desc.color_attachments@[j],
                ),
        decreases n - i,
    {
        let d = desc.color_attachments[i];
        attachments.push(
            AttachmentDescription {
                format: d.format,
                samples: d.samples,
                load_op: d.load_op,
                store_op: d.store_op,
                stencil_load_op: LOAD_OP_DONT_CARE,
                initial_layout: LAYOUT_UNDEFINED,
                final_layout: LAYOUT_PRESENT_SRC,
            },
        );
        i = i + 1;
    }
    match desc.depth_attachment {
        Some(d) => {
            attachments.push(
                AttachmentDescription {
                    format: d.format,
                    samples: d.samples,
                    load_op: d.load_op,
                    store_op: d.store_op,
                    stencil_load_op: LOAD_OP_DONT_CARE,
                    initial_layout: LAYOUT_UNDEFINED,
                    final_layout: LAYOUT_DEPTH_STENCIL_ATTACHMENT_OPTIMAL,
                },
            );
        },
        None => {},
    }
    attachments
}

/// One attachment slot of a subpass.
#[derive(Clone, Copy, Debug, PartialEq, Eq, Structural)]
pub struct AttachmentReference {
    pub attachment: u32,
    pub layout: u32,
}

/// The subpass's color attachment references: slots 0 to `count`-1 in
/// color-attachment layout.
pub fn color_attachment_refs(count: u32) -> (r: Vec<AttachmentReference>)
    ensures
        r@.len() == count,
        forall|i: int|
            0 <= i < count ==> r@[i] == (AttachmentReference {
                attachment: i as u32,
                layout: LAYOUT_COLOR_ATTACHMENT_OPTIMAL,
            }),
{
    let mut refs: Vec<AttachmentReference> = Vec::new();
    let mut i: u32 = 0;
    while i < count
        invariant
            i <= count,
            refs@.len() == i,
            forall|j: int|
                0 <= j < i ==> refs@[j] == (AttachmentReference {
                    attachment: j as u32,
                    layout: LAYOUT_COLOR_ATTACHMENT_OPTIMAL,
                }),
        decreases count - i,
    {
        refs.push(AttachmentReference { attachment: i, layout: LAYOUT_COLOR_ATTACHMENT_OPTIMAL });
        i = i + 1;
    }
    refs
}

/// The depth attachment's reference: the slot after the color attachments,
/// in depth-stencil layout.
pub fn depth_attachment_ref(color_count: u32) -> (r: AttachmentReference)
    ensures
        r == (AttachmentReference {
            attachment: color_count,
            layout: LAYOUT_DEPTH_STENCIL_ATTACHMENT_OPTIMAL,
        }),
{
    AttachmentReference {
        attachment: color_count,
        layout: LAYOUT_DEPTH_STENCIL_ATTACHMENT_OPTIMAL,
    }
}

/// The framebuffer cache key: the dimensions, the per-attachment (usage,
/// creation-flags) signature, and the concrete view handles the framebuffer
/// binds. Equal keys mean an interchangeable framebuffer.
pub struct FramebufferCacheKey {
    pub dims: [u32; 2],
    pub attachments: Vec<(u32, u32)>,
    pub color_view: u64,
    pub depth_view: u64,
}

/// The abstract value of a key.
pub open spec fn key_view(k: FramebufferCacheKey) -> (Seq<u32>, Seq<(u32, u32)>, u64, u64) {
    (k.dims@, k.attachments@, k.color_view, k.depth_view)
}

/// Two keys denote the same framebuffer binding.
pub open spec fn key_matches(a: FramebufferCacheKey, b: FramebufferCacheKey) -> bool {
    key_view(a) == key_view(b)
}

impl FramebufferCacheKey {
    /// Build the key from the attachment descriptors (colors in order, then
    /// the depth attachment if any) and the views the framebuffer will
    /// bind.
    pub fn new(
        dims: [u32; 2],
        color_attachments: &Vec<ImageDesc>,
        depth_stencil_attachment: Option<ImageDesc>,
        color_view: u64,
        depth_view: u64,
    ) -> (r: FramebufferCacheKey)
        ensures
            r.dims@ == dims@,
            r.color_view == color_view,
            r.depth_view == depth_view,
            depth_stencil_attachment is None ==> r.attachments@ =~= color_attachments@.map_values(
                |d: ImageDesc| (d.usage, d.flags),
            ),
            depth_stencil_attachment matches Some(depth) ==> r.attachments@
                =~= color_attachments@.map_values(|d: ImageDesc| (d.usage, d.flags)).push(
                (depth.usage, depth.flags),
            ),
    {
        let n = color_attachments.len();
        let mut attachments: Vec<(u32, u32)> = Vec::new();
        let mut i: usize = 0;
        while i < n
            invariant
                n == color_attachments@.len(),
                i <= n,
                attachments@.len() == i,
                forall|j: int|
                    0 <= j < i ==> attachments@[j] == (
                    color_attachments@[j].usage,
                    color_attachments@[j].flags,
                    ),
            decreases n - i,
        {
            let d = color_attachments[i];
            attachments.push((d.usage, d.flags));
            i = i + 1;
        }
        match depth_stencil_attachment {
            Some(d) => {
                attachments.push((d.usage, d.flags));
            },
            None => {},
        }
        FramebufferCacheKey { dims, attachments, color_view, depth_view }
    }

    /// The key for a color-only framebuffer.
    pub fn new_simple(
        dims: [u32; 2],
        color_attachments: &Vec<ImageDesc>,
        color_view: u64,
    ) -> (r: FramebufferCacheKey)
        ensures
            r.dims@ == dims@,
            r.color_view == color_view,
            r.depth_view == 0u64,
            r.attachments@ =~= color_attachments@.map_values(|d: ImageDesc| (d.usage, d.flags)),
    {
        FramebufferCacheKey::new(dims, color_attachments, None, color_view, 0)
    }

    /// Whether two keys denote the same framebuffer binding.
    pub fn matches_key(&self, other: &FramebufferCacheKey) -> (r: bool)
        ensures
            r == key_matches(*self, *other),
    {
        if self.dims[0] != other.dims[0] || self.dims[1] != other.dims[1] {
            assert(self.dims@ != other.dims@);
            return false;
        }
        if self.color_view != other.color_view || self.depth_view != other.depth_view {
            return false;
        }
        if self.attachments.len() != other.attachments.len() {
            assert(self.attachments@ != other.attachments@);
            return false;
        }
        let n = self.attachments.len();
        let mut i: usize = 0;
        while i < n
            invariant
                n == self.attachments@.len(),
                n == other.attachments@.len(),
                i <= n,
                forall|j: int| 0 <= j < i ==> self.attachments@[j] == other.attachments@[j],
            decreases n - i,
        {
            let (au, af) = self.attachments[i];
            let (bu, bf) = other.attachments[i];
            if au != bu || af != bf {
                assert(self.attachments@[i as int] != other.attachments@[i as int]);
                assert(self.attachments@ != other.attachments@);
                return false;
            }
            i = i + 1;
        }
        assert(self.attachments@ =~= other.attachments@);
        assert(self.dims@ =~= other.dims@);
        true
    }
}

/// The key `key` is cached in `entries`.
pub open spec fn spec_cache_has_key(
    entries: Seq<(FramebufferCacheKey, u64)>,
    key: FramebufferCacheKey,
) -> bool {
    exists|i: int| 0 <= i < entries.len() && key_matches(entries[i].0, key)
}

/// The framebuffer cached under `key`, where there is one.
pub open spec fn spec_cache_handle(
    entries: Seq<(FramebufferCacheKey, u64)>,
    key: FramebufferCacheKey,
) -> u64 {
    entries[choose|i: int| 0 <= i < entries.len() && key_matches(entries[i].0, key)].1
}

/// No two cache entries share a key.
pub open spec fn spec_cache_wf(entries: Seq<(FramebufferCacheKey, u64)>) -> bool {
    forall|i: int, j: int|
        0 <= i < j < entries.len() ==> !key_matches(entries[i].0, entries[j].0)
}

/// The entry list after a lookup-or-insert of `key` with `fresh` as the
/// newly created framebuffer: unchanged on a hit, extended on a miss.
pub open spec fn spec_get_or_create_entries(
    entries: Seq<(FramebufferCacheKey, u64)>,
    key: FramebufferCacheKey,
    fresh: u64,
) -> Seq<(FramebufferCacheKey, u64)> {
    if spec_cache_has_key(entries, key) {
        entries
    } else {
        entries.push((key, fresh))
    }
}

/// The framebuffer a lookup-or-insert hands back: the cached one on a hit,
/// the newly created one on a miss.
pub open spec fn spec_get_or_create_handle(
    entries: Seq<(FramebufferCacheKey, u64)>,
    key: FramebufferCacheKey,
    fresh: u64,
) -> u64 {
    if spec_cache_has_key(entries, key) {
        spec_cache_handle(entries, key)
    } else {
        fresh
    }
}

/// In a well-formed cache, any entry matching `key` holds the cached
/// framebuffer: the match is unique.
pub proof fn lemma_cache_handle_unique(
    entries: Seq<(FramebufferCacheKey, u64)>,
    key: FramebufferCacheKey,
    i: int,
)
    requires
        spec_cache_wf(entries),
        0 <= i < entries.len(),
        key_matches(entries[i].0, key),
    ensures
        spec_cache_has_key(entries, key),
        spec_cache_handle(entries, key) == entries[i].1,
{
    assert(spec_cache_has_key(entries, key));
    let j = choose|j: int| 0 <= j < entries.len() && key_matches(entries[j].0, key);
    if i < j {
        assert(key_matches(entries[i].0, entries[j].0));
        assert(false);
    } else if j < i {
        assert(key_matches(entries[j].0, entries[i].0));
        assert(false);
    }
}

/// Memoizes framebuffer objects on [`FramebufferCacheKey`], so one binding
/// is created at most once per swapchain configuration; dropped wholesale
/// with its owning render pass.
pub struct FramebufferCache {
    pub entries: Vec<(FramebufferCacheKey, u64)>,
    pub color_attachment_descs: Vec<RenderPassAttachmentDesc>,
    pub color_attachment_count: usize,
    pub depth_attachment_descs: Vec<RenderPassAttachmentDesc>,
    pub depth_attachment_count: usize,
}

impl FramebufferCache {
    /// The cache invariant: no key is cached twice.
    pub open spec fn wf(self) -> bool {
        spec_cache_wf(self.entries@)
    }

    /// An empty cache for a render pass with the given attachments.
    pub fn new(
        color_attachments: &Vec<RenderPassAttachmentDesc>,
        depth_attachment: RenderPassAttachmentDesc,
    ) -> (r: FramebufferCache)
        ensures
            r.wf(),
            r.entries@.len() == 0,
            r.color_attachment_descs@ == color_attachments@,
            r.color_attachment_count == color_attachments@.len(),
            r.depth_attachment_descs@ =~= seq![depth_attachment],
            r.depth_attachment_count == 1,
    {
        let n = color_attachments.len();
        let mut color_attachment_descs: Vec<RenderPassAttachmentDesc> = Vec::new();
        let mut i: usize = 0;
        while i < n
            invariant
                n == color_attachments@.len(),
                i <= n,
                color_attachment_descs@ =~= color_attachments@.subrange(0, i as int),
            decreases n - i,
        {
            color_attachment_descs.push(color_attachments[i]);
            i = i + 1;
        }
        assert(color_attachment_descs@ =~= color_attachments@);
        let mut depth_attachment_descs: Vec<RenderPassAttachmentDesc> = Vec::new();
        depth_attachment_descs.push(depth_attachment);
        FramebufferCache {
            entries: Vec::new(),
            color_attachment_count: color_attachment_descs.len(),
            color_attachment_descs,
            depth_attachment_descs,
            depth_attachment_count: 1,
        }
    }

    /// The cached framebuffer under `key`, if any.
    pub fn lookup(&self, key: &FramebufferCacheKey) -> (r: Option<u64>)
        requires
            self.wf(),
        ensures
            r is Some <==> spec_cache_has_key(self.entries@, *key),
            r matches Some(h) ==> h == spec_cache_handle(self.entries@, *key),
    {
        let n = self.entries.len();
        let mut i: usize = 0;
        while i < n
            invariant
                self.wf(),
                n == self.entries@.len(),
                i <= n,
                forall|j: int| 0 <= j < i ==> !key_matches(self.entries@[j].0, *key),
            decreases n - i,
        {
            if self.entries[i].0.matches_key(key) {
                proof {
                    lemma_cache_handle_unique(self.entries@, *key, i as int);
                }
                return Some(self.entries[i].1);
            }
            i = i + 1;
        }
        None
    }

    /// Look `key` up; on a hit hand back the cached framebuffer, on a miss
    /// record `fresh_framebuffer` (the one the driver just created for
    /// exactly this key) and hand it back. The second component says
    /// whether the fresh object was consumed; when it is false the caller
    /// must not have created one, or must destroy it.
    pub fn get_or_create(&mut self, key: FramebufferCacheKey, fresh_framebuffer: u64) -> (r: (
        u64,
        bool,
    ))
        requires
            old(self).wf(),
        ensures
            final(self).wf(),
            final(self).entries@ == spec_get_or_create_entries(
                old(self).entries@,
                key,
                fresh_framebuffer,
            ),
            r.0 == spec_get_or_create_handle(old(self).entries@, key, fresh_framebuffer),
            r.1 == !spec_cache_has_key(old(self).entries@, key),
            final(self).color_attachment_descs@ == old(self).color_attachment_descs@,
            final(self).color_attachment_count == old(self).color_attachment_count,
            final(self).depth_attachment_descs@ == old(self).depth_attachment_descs@,
            final(self).depth_attachment_count == old(self).depth_attachment_count,
    {
        match self.lookup(&key) {
            Some(handle) => (handle, false),
            None => {
                proof {
                    let entries = self.entries@;
                    assert forall|i: int, j: int|
                        0 <= i < j < entries.push((key, fresh_framebuffer)).len() implies !key_matches(
                        entries.push((key, fresh_framebuffer))[i].0,
                        entries.push((key, fresh_framebuffer))[j].0,
                    ) by {
                        if j < entries.len() {
                            assert(!key_matches(entries[i].0, entries[j].0));
                        } else {
                            assert(!key_matches(entries[i].0, key));
                        }
                    }
                }
                self.entries.push((key, fresh_framebuffer));
                (fresh_framebuffer, true)
            },
        }
    }
}

/// Law: the framebuffer cache is idempotent. After a miss inserts a
/// framebuffer under a key, looking the same key (same dimensions,
/// signature and views) up again hands back that same framebuffer, creates
/// nothing, and leaves the cache unchanged.
pub proof fn lemma_cache_idempotent(
    entries: Seq<(FramebufferCacheKey, u64)>,
    key: FramebufferCacheKey,
    fresh1: u64,
    fresh2: u64,
)
    requires
        spec_cache_wf(entries),
        !spec_cache_has_key(entries, key),
    ensures
        ({
            let after1 = spec_get_or_create_entries(entries, key, fresh1);
            &&& spec_get_or_create_handle(entries, key, fresh1) == fresh1
            &&& after1 == entries.push((key, fresh1))
            &&& spec_cache_wf(after1)
            &&& spec_get_or_create_handle(after1, key, fresh2) == fresh1
            &&& spec_get_or_create_entries(after1, key, fresh2) == after1
        }),
{
    let after1 = entries.push((key, fresh1));
    assert forall|i: int, j: int| 0 <= i < j < after1.len() implies !key_matches(
        after1[i].0,
        after1[j].0,
    ) by {
        if j < entries.len() {
            assert(!key_matches(entries[i].0, entries[j].0));
        } else {
            assert(!key_matches(entries[i].0, key));
        }
    }
    assert(key_matches(after1[entries.len() as int].0, key));
    lemma_cache_handle_unique(after1, key, entries.len() as int);
}

/// Why a render pass could not be assembled.
#[derive(Debug)]
pub enum RenderPassError {
    /// The description names no depth attachment, which this backend's
    /// render passes require.
    MissingDepthAttachment,
}

/// A render pass and the framebuffer cache whose entries live and die with
/// it: on swapchain recreation both are discarded together.
pub struct RenderPass {
    pub raw: u64,
    pub framebuffer_cache: FramebufferCache,
}

impl RenderPass {
    /// Own a driver-created render pass and start its framebuffer cache
    /// empty. Fails exactly when the description has no depth attachment.
    pub fn create_render_pass(raw: u64, desc: &RenderPassDesc) -> (r: Result<
        RenderPass,
        RenderPassError,
    >)
        ensures
            r is Ok <==> desc.depth_attachment is Some,
            r matches Ok(p) ==> {
                &&& p.raw == raw
                &&& p.framebuffer_cache.wf()
                &&& p.framebuffer_cache.entries@.len() == 0
                &&& p.framebuffer_cache.color_attachment_descs@ == desc.color_attachments@
                &&& p.framebuffer_cache.depth_attachment_descs@ =~= seq![
                    desc.depth_attachment->0,
                ]
            },
            r is Err ==> (r matches Err(e) && e is MissingDepthAttachment),
    {
        match desc.depth_attachment {
            Some(depth) => Ok(
                RenderPass {
                    raw,
                    framebuffer_cache: FramebufferCache::new(&desc.color_attachments, depth),
                },
            ),
            None => Err(RenderPassError::MissingDepthAttachment),
        }
    }
}

} // verus!
