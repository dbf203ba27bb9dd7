use vstd::prelude::*;

verus! {

/// Pixel formats the allocator knows the size of.
#[derive(Clone, Copy, Debug, PartialEq, Eq, Structural)]
pub enum Format {
    R8Unorm,
    R8G8B8A8Unorm,
    B8G8R8A8Unorm,
    R32Uint,
    R16G16B16A16Sfloat,
    R32G32B32A32Sfloat,
}

pub open spec fn bytes_per_pixel_spec(f: Format) -> nat {
    match f {
        Format::R8Unorm => 1,
        Format::R8G8B8A8Unorm => 4,
        Format::B8G8R8A8Unorm => 4,
        Format::R32Uint => 4,
        Format::R16G16B16A16Sfloat => 8,
        Format::R32G32B32A32Sfloat => 16,
    }
}

impl Format {
    pub fn bytes_per_pixel(&self) -> (r: usize)
        ensures
            r == bytes_per_pixel_spec(*self),
    {
        match self {
            Format::R8Unorm => 1,
            Format::R8G8B8A8Unorm => 4,
            Format::B8G8R8A8Unorm => 4,
            Format::R32Uint => 4,
            Format::R16G16B16A16Sfloat => 8,
            Format::R32G32B32A32Sfloat => 16,
        }
    }
}

#[derive(Clone, Copy, Debug, PartialEq, Eq, Structural)]
pub enum ResourceError {
    ResourceAllocationFailed,
    DescriptorLayoutMismatch,
}

/// Bytes of device memory a `width` by `height` image of format `f` takes:
/// fails with `ResourceAllocationFailed` where that does not fit in `usize`.
pub fn image_byte_len(width: u32, height: u32, f: Format) -> (r: Result<usize, ResourceError>)
    ensures
        width * height * bytes_per_pixel_spec(f) <= usize::MAX ==> r == Ok::<usize, ResourceError>(
            (width * height * bytes_per_pixel_spec(f)) as usize,
        ),
        width * height * bytes_per_pixel_spec(f) > usize::MAX ==> r == Err::<usize, ResourceError>(
            ResourceError::ResourceAllocationFailed,
        ),
{
    let bpp = f.bytes_per_pixel();
    match (width as usize).checked_mul(height as usize) {
        Some(px) => match px.checked_mul(bpp) {
            Some(n) => Ok(n),
            None => Err(ResourceError::ResourceAllocationFailed),
        },
        None => {
            proof {
                assert(width * height * bytes_per_pixel_spec(f) >= width * height) by (nonlinear_arith)
                    requires
                        bytes_per_pixel_spec(f) >= 1,
                ;
            }
            Err(ResourceError::ResourceAllocationFailed)
        },
    }
}

/// What a buffer may be used for.
#[derive(Clone, Copy, Debug, PartialEq, Eq, Structural)]
pub struct BufferUsage {
    pub vertex: bool,
    pub storage: bool,
    pub transfer_dst: bool,
}

/// A linear region of device-addressable memory, seen as 32-bit words.
#[derive(Clone, Debug)]
pub struct Buffer {
    pub usage: BufferUsage,
    pub host_visible: bool,
    pub data: Vec<u32>,
}

impl Buffer {
    /// A buffer sized to hold exactly `elements`, holding a copy of them.
    pub fn from_elements(usage: BufferUsage, host_visible: bool, elements: &Vec<u32>) -> (r: Buffer)
        ensures
            r.usage == usage,
            r.host_visible == host_visible,
            r.data@ == elements@,
    {
        let mut data: Vec<u32> = Vec::new();
        let mut i: usize = 0;
        while i < elements.len()
            invariant
                i <= elements@.len(),
                data@ == elements@.subrange(0, i as int),
            decreases elements@.len() - i,
        {
            data.push(elements[i]);
            assert(data@ =~= elements@.subrange(0, i + 1));
            i = i + 1;
        }
        assert(data@ =~= elements@);
        Buffer { usage, host_visible, data }
    }

    /// A buffer of `len` words, all zero.
    pub fn zeroed(usage: BufferUsage, host_visible: bool, len: usize) -> (r: Buffer)
        ensures
            r.usage == usage,
            r.host_visible == host_visible,
            r.data@ == Seq::new(len as nat, |i: int| 0u32),
    {
        let mut data: Vec<u32> = Vec::new();
        let mut i: usize = 0;
        while i < len
            invariant
                i <= len,
                data@ == Seq::new(i as nat, |k: int| 0u32),
            decreases len - i,
        {
            data.push(0);
            assert(data@ =~= Seq::new((i + 1) as nat, |k: int| 0u32));
            i = i + 1;
        }
        Buffer { usage, host_visible, data }
    }

    /// A host-side copy of the contents.
    pub fn read(&self) -> (r: Vec<u32>)
        ensures
            r@ == self.data@,
    {
        let mut r: Vec<u32> = Vec::new();
        let mut i: usize = 0;
        while i < self.data.len()
            invariant
                i <= self.data@.len(),
                r@ == self.data@.subrange(0, i as int),
            decreases self.data@.len() - i,
        {
            r.push(self.data[i]);
            assert(r@ =~= self.data@.subrange(0, i + 1));
            i = i + 1;
        }
        assert(r@ =~= self.data@);
        r
    }
}

/// The kind of resource a shader slot expects.
#[derive(Clone, Copy, Debug, PartialEq, Eq, Structural)]
pub enum ResourceKind {
    StorageBuffer,
    UniformBuffer,
    StorageImage,
    SampledImage,
}

/// One resource handed to a descriptor set: its kind and its index in its pool.
#[derive(Clone, Copy, Debug, PartialEq, Eq, Structural)]
pub struct Binding {
    pub kind: ResourceKind,
    pub resource: usize,
}

/// Resources bound, in binding order, to the slots a pipeline's shader declares.
#[derive(Clone, Debug)]
pub struct DescriptorSet {
    pub slot: u32,
    pub bindings: Vec<Binding>,
}

/// `bound` supplies one resource of the declared kind for each declared binding.
pub open spec fn layout_matches(declared: Seq<ResourceKind>, bound: Seq<Binding>) -> bool {
    &&& declared.len() == bound.len()
    &&& forall|i: int| 0 <= i < declared.len() ==> #[trigger] bound[i].kind == declared[i]
}

/// Binds `resources` to set `slot` of a pipeline whose shader declares the
/// binding kinds `declared` for that set.
pub fn bind_descriptor_set(declared: &Vec<ResourceKind>, slot: u32, resources: Vec<Binding>) -> (r: Result<
    DescriptorSet,
    ResourceError,
>)
    ensures
        r is Ok <==> layout_matches(declared@, resources@),
        r matches Ok(s) ==> s.slot == slot && s.bindings@ == resources@,
        r is Err ==> r == Err::<DescriptorSet, ResourceError>(ResourceError::DescriptorLayoutMismatch),
{
    if declared.len() != resources.len() {
        return Err(ResourceError::DescriptorLayoutMismatch);
    }
    let mut i: usize = 0;
    while i < declared.len()
        invariant
            i <= declared@.len(),
            declared@.len() == resources@.len(),
            forall|k: int| 0 <= k < i ==> #[trigger] resources@[k].kind == declared@[k],
        decreases declared@.len() - i,
    {
        if resources[i].kind != declared[i] {
            return Err(ResourceError::DescriptorLayoutMismatch);
        }
        i = i + 1;
    }
    Ok(DescriptorSet { slot, bindings: resources })
}

} // verus!
