use vstd::prelude::*;
use crate::resource::{Binding, DescriptorSet, Format, ResourceError, ResourceKind, bind_descriptor_set, layout_matches};

verus! {

/// One vertex attribute: the shader location it feeds and its format.
#[derive(Clone, Copy, Debug, PartialEq, Eq, Structural)]
pub struct VertexAttr {
    pub location: u32,
    pub format: Format,
}

/// What a compiled shader module declares: its inputs, the formats of its
/// outputs, and for each descriptor set the kinds of its bindings.
#[derive(Clone, Debug)]
pub struct ShaderInterface {
    pub inputs: Vec<VertexAttr>,
    pub outputs: Vec<Format>,
    pub sets: Vec<Vec<ResourceKind>>,
}

#[derive(Clone, Copy, Debug, PartialEq, Eq, Structural)]
pub enum LoadOp {
    Load,
    Clear,
    DontCare,
}

#[derive(Clone, Copy, Debug, PartialEq, Eq, Structural)]
pub enum StoreOp {
    Store,
    DontCare,
}

#[derive(Clone, Copy, Debug, PartialEq, Eq, Structural)]
pub struct Attachment {
    pub format: Format,
    pub load: LoadOp,
    pub store: StoreOp,
    pub samples: u32,
}

/// Attachment slots and, for each subpass, the indices of the attachments it
/// writes colour to.
#[derive(Clone, Debug)]
pub struct RenderPass {
    pub attachments: Vec<Attachment>,
    pub subpasses: Vec<Vec<usize>>,
}

/// Why a graphics pipeline cannot be built.
#[derive(Clone, Copy, Debug, PartialEq, Eq, Structural)]
pub enum PipelineError {
    /// The render pass has no subpass of that index.
    NoSuchSubpass,
    /// The vertex layout feeds no attribute of the right format to the vertex
    /// shader input at this index.
    VertexInputUnmatched { input: usize },
    /// The fragment shader writes a different number of colours than the
    /// subpass has colour attachments.
    ColorOutputMismatch,
}

/// A graphics pipeline: immutable once built. The viewport is dynamic and
/// the scissor test is off.
#[derive(Clone, Debug)]
pub struct GraphicsPipeline {
    pub vertex_layout: Vec<VertexAttr>,
    pub subpass: usize,
    pub color_outputs: usize,
    pub sets: Vec<Vec<ResourceKind>>,
}

/// A compute pipeline: one shader entry and no fixed-function state.
#[derive(Clone, Debug)]
pub struct ComputePipeline {
    pub sets: Vec<Vec<ResourceKind>>,
}

/// Some attribute of `layout` feeds `input`.
pub open spec fn input_fed(layout: Seq<VertexAttr>, input: VertexAttr) -> bool {
    exists|k: int| 0 <= k < layout.len() && #[trigger] layout[k] == input
}

/// The first vertex shader input that `layout` does not feed, if any.
pub open spec fn first_unfed(layout: Seq<VertexAttr>, inputs: Seq<VertexAttr>, i: int) -> bool {
    &&& 0 <= i < inputs.len()
    &&& !input_fed(layout, inputs[i])
    &&& forall|k: int| 0 <= k < i ==> input_fed(layout, #[trigger] inputs[k])
}

pub open spec fn all_fed(layout: Seq<VertexAttr>, inputs: Seq<VertexAttr>) -> bool {
    forall|k: int| 0 <= k < inputs.len() ==> input_fed(layout, #[trigger] inputs[k])
}

fn feeds(layout: &Vec<VertexAttr>, input: VertexAttr) -> (r: bool)
    ensures
        r == input_fed(layout@, input),
{
    let mut k: usize = 0;
    while k < layout.len()
        invariant
            k <= layout@.len(),
            forall|m: int| 0 <= m < k ==> #[trigger] layout@[m] != input,
        decreases layout@.len() - k,
    {
        if layout[k] == input {
            return true;
        }
        k = k + 1;
    }
    false
}

/// Composes a graphics pipeline for subpass `subpass` of `rp`. Checks, in this
/// order, that the subpass exists, that every vertex shader input is fed by the
/// vertex layout, and that the fragment shader writes one colour per colour
/// attachment of the subpass. The pipeline keeps the vertex shader's
/// descriptor layout.
pub fn build_graphics_pipeline(
    vertex_layout: Vec<VertexAttr>,
    vs: ShaderInterface,
    fs: &ShaderInterface,
    rp: &RenderPass,
    subpass: usize,
) -> (r: Result<GraphicsPipeline, PipelineError>)
    ensures
        subpass >= rp.subpasses@.len() ==> r == Err::<GraphicsPipeline, PipelineError>(
            PipelineError::NoSuchSubpass,
        ),
        r matches Err(PipelineError::VertexInputUnmatched { input }) ==> subpass
            < rp.subpasses@.len() && first_unfed(vertex_layout@, vs.inputs@, input as int),
        subpass < rp.subpasses@.len() && !all_fed(vertex_layout@, vs.inputs@) ==> r matches Err(
            PipelineError::VertexInputUnmatched { .. },
        ),
        subpass < rp.subpasses@.len() ==> (r == Err::<GraphicsPipeline, PipelineError>(
            PipelineError::ColorOutputMismatch,
        ) <==> (all_fed(vertex_layout@, vs.inputs@) && fs.outputs@.len()
            != rp.subpasses@[subpass as int]@.len())),
        r is Ok <==> (subpass < rp.subpasses@.len() && all_fed(vertex_layout@, vs.inputs@)
            && fs.outputs@.len() == rp.subpasses@[subpass as int]@.len()),
        r matches Ok(p) ==> {
            &&& p.vertex_layout@ == vertex_layout@
            &&& p.subpass == subpass
            &&& p.color_outputs == fs.outputs@.len()
            &&& p.sets@ == vs.sets@
        },
{
    if subpass >= rp.subpasses.len() {
        return Err(PipelineError::NoSuchSubpass);
    }
    let mut i: usize = 0;
    while i < vs.inputs.len()
        invariant
            subpass < rp.subpasses@.len(),
            i <= vs.inputs@.len(),
            forall|k: int| 0 <= k < i ==> input_fed(vertex_layout@, #[trigger] vs.inputs@[k]),
        decreases vs.inputs@.len() - i,
    {
        if !feeds(&vertex_layout, vs.inputs[i]) {
            return Err(PipelineError::VertexInputUnmatched { input: i });
        }
        i = i + 1;
    }
    if fs.outputs.len() != rp.subpasses[subpass].len() {
        return Err(PipelineError::ColorOutputMismatch);
    }
    Ok(
        GraphicsPipeline {
            vertex_layout,
            subpass,
            color_outputs: fs.outputs.len(),
            sets: vs.sets,
        },
    )
}

/// Builds a compute pipeline from one shader entry.
pub fn build_compute_pipeline(cs: ShaderInterface) -> (r: ComputePipeline)
    ensures
        r.sets@ == cs.sets@,
{
    ComputePipeline { sets: cs.sets }
}

/// The binding kinds set `slot` of `sets` declares; none where there is no such set.
pub open spec fn declared_set(sets: Seq<Vec<ResourceKind>>, slot: u32) -> Option<Seq<ResourceKind>> {
    if slot < sets.len() {
        Some(sets[slot as int]@)
    } else {
        None
    }
}

impl ComputePipeline {
    /// Binds `resources` to descriptor set `slot` of this pipeline.
    pub fn bind_descriptor_set(&self, slot: u32, resources: Vec<Binding>) -> (r: Result<
        DescriptorSet,
        ResourceError,
    >)
        ensures
            r is Ok <==> (declared_set(self.sets@, slot) matches Some(d) && layout_matches(
                d,
                resources@,
            )),
            r matches Ok(s) ==> s.slot == slot && s.bindings@ == resources@,
            r is Err ==> r == Err::<DescriptorSet, ResourceError>(
                ResourceError::DescriptorLayoutMismatch,
            ),
    {
        if slot as usize >= self.sets.len() {
            return Err(ResourceError::DescriptorLayoutMismatch);
        }
        bind_descriptor_set(&self.sets[slot as usize], slot, resources)
    }
}

} // verus!
