use vstd::prelude::*;

verus! {

/// A colour as four 8-bit channels, red first.
#[derive(Clone, Copy, Debug, PartialEq, Eq, Structural)]
pub struct Rgba8 {
    pub r: u8,
    pub g: u8,
    pub b: u8,
    pub a: u8,
}

/// One GPU operation. Resources are named by their index in the pools that
/// the submitting side keeps.
#[derive(Clone, Copy, Debug, PartialEq, Eq, Structural)]
pub enum Op {
    BeginRenderPass { framebuffer: usize, clear: Rgba8 },
    Draw { pipeline: usize, vertex_buffer: usize },
    Dispatch { pipeline: usize, descriptor_set: usize, groups_x: u32, groups_y: u32, groups_z: u32 },
    CopyImageToBuffer { image: usize, buffer: usize },
    EndRenderPass,
}

#[derive(Clone, Copy, Debug, PartialEq, Eq, Structural)]
pub enum RecordError {
    /// The operation at `at` is not allowed in the render-pass state it meets;
    /// `at` equal to the length means a render pass was left open.
    InvalidRecordingState { at: usize },
}

/// Whether a render pass is open after `op`, given whether one was open before.
pub open spec fn inside_after(inside: bool, op: Op) -> bool {
    match op {
        Op::BeginRenderPass { .. } => true,
        Op::EndRenderPass => false,
        _ => inside,
    }
}

/// Whether a render pass is open just before operation `i` of `ops`.
pub open spec fn inside_before(ops: Seq<Op>, i: nat) -> bool
    decreases i,
{
    if i == 0 || i > ops.len() {
        false
    } else {
        inside_after(inside_before(ops, (i - 1) as nat), ops[i - 1])
    }
}

/// `op` may be recorded in the given render-pass state.
pub open spec fn op_legal(inside: bool, op: Op) -> bool {
    match op {
        Op::BeginRenderPass { .. } => !inside,
        Op::Draw { .. } => inside,
        Op::EndRenderPass => inside,
        Op::Dispatch { .. } => !inside,
        Op::CopyImageToBuffer { .. } => !inside,
    }
}

/// Operation `i` of `ops` is legal where it stands.
pub open spec fn legal_at(ops: Seq<Op>, i: int) -> bool {
    op_legal(inside_before(ops, i as nat), ops[i])
}

/// Every operation is legal where it stands and no render pass is left open.
pub open spec fn valid_recording(ops: Seq<Op>) -> bool {
    &&& forall|i: int| 0 <= i < ops.len() ==> #[trigger] legal_at(ops, i)
    &&& !inside_before(ops, ops.len())
}

/// `at` is where recording `ops` first goes wrong.
pub open spec fn first_violation(ops: Seq<Op>, at: int) -> bool {
    &&& 0 <= at <= ops.len()
    &&& forall|i: int| 0 <= i < at ==> #[trigger] legal_at(ops, i)
    &&& (at < ops.len() ==> !legal_at(ops, at))
    &&& (at == ops.len() ==> inside_before(ops, ops.len()))
}

/// An ordered, immutable sequence of operations that passed the recording rules.
pub struct CommandList {
    ops: Vec<Op>,
}

impl View for CommandList {
    type V = Seq<Op>;

    closed spec fn view(&self) -> Seq<Op> {
        self.ops@
    }
}

impl CommandList {
    #[verifier::type_invariant]
    spec fn inv(&self) -> bool {
        valid_recording(self.ops@)
    }

    /// The recorded operations, in order.
    pub fn ops(&self) -> (r: &Vec<Op>)
        ensures
            r@ == self@,
            valid_recording(self@),
    {
        proof {
            use_type_invariant(self);
        }
        &self.ops
    }

    pub fn len(&self) -> (r: usize)
        ensures
            r == self@.len(),
    {
        self.ops.len()
    }
}

/// Checks `ops` against the render-pass rules and seals it into a command list.
pub fn record(ops: Vec<Op>) -> (r: Result<CommandList, RecordError>)
    ensures
        r is Ok <==> valid_recording(ops@),
        r matches Ok(cl) ==> cl@ == ops@,
        r matches Err(RecordError::InvalidRecordingState { at }) ==> first_violation(ops@, at as int),
{
    let mut inside = false;
    let mut i: usize = 0;
    while i < ops.len()
        invariant
            i <= ops@.len(),
            inside == inside_before(ops@, i as nat),
            forall|j: int| 0 <= j < i ==> #[trigger] legal_at(ops@, j),
        decreases ops@.len() - i,
    {
        let op = ops[i];
        let ok = match op {
            Op::BeginRenderPass { .. } => !inside,
            Op::Draw { .. } => inside,
            Op::EndRenderPass => inside,
            Op::Dispatch { .. } => !inside,
            Op::CopyImageToBuffer { .. } => !inside,
        };
        if !ok {
            assert(!legal_at(ops@, i as int));
            return Err(RecordError::InvalidRecordingState { at: i });
        }
        inside = match op {
            Op::BeginRenderPass { .. } => true,
            Op::EndRenderPass => false,
            _ => inside,
        };
        i = i + 1;
    }
    if inside {
        return Err(RecordError::InvalidRecordingState { at: i });
    }
    Ok(CommandList { ops })
}

} // verus!

verus! {

/// `ops` holds only compute dispatches and image-to-buffer copies.
pub open spec fn compute_only(ops: Seq<Op>) -> bool {
    forall|i: int|
        0 <= i < ops.len() ==> (#[trigger] ops[i] is Dispatch || ops[i] is CopyImageToBuffer)
}

proof fn lemma_compute_only_outside(ops: Seq<Op>, i: nat)
    requires
        compute_only(ops),
        i <= ops.len(),
    ensures
        !inside_before(ops, i),
    decreases i,
{
    if i > 0 {
        lemma_compute_only_outside(ops, (i - 1) as nat);
        assert(ops[i - 1] is Dispatch || ops[i - 1] is CopyImageToBuffer);
    }
}

/// A list of nothing but dispatches and copies always records: no render pass
/// is ever open, so each of them stands where it is allowed.
pub proof fn lemma_compute_only_records(ops: Seq<Op>)
    requires
        compute_only(ops),
    ensures
        valid_recording(ops),
{
    assert forall|i: int| 0 <= i < ops.len() implies #[trigger] legal_at(ops, i) by {
        lemma_compute_only_outside(ops, i as nat);
        assert(ops[i] is Dispatch || ops[i] is CopyImageToBuffer);
    }
    lemma_compute_only_outside(ops, ops.len());
}

/// A draw recorded while no render pass is open makes the whole list invalid,
/// so `record` refuses it with `InvalidRecordingState`.
pub proof fn lemma_draw_outside_pass_fails(ops: Seq<Op>, i: int)
    requires
        0 <= i < ops.len(),
        ops[i] is Draw,
        !inside_before(ops, i as nat),
    ensures
        !valid_recording(ops),
{
    assert(!legal_at(ops, i));
}

} // verus!
