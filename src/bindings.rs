use vstd::prelude::*;

verus! {

/// How a shader sees a bound resource.
#[derive(Clone, Copy, Debug, PartialEq, Eq, Structural)]
pub enum BindingKind {
    /// A 2-D floating-point image the shader writes and never reads.
    WriteOnlyImage,
    /// A 2-D floating-point image the shader samples, without filtering.
    SampledImage,
    /// A read-only uniform buffer.
    Uniform,
    /// A read-only storage buffer.
    ReadOnlyStorage,
}

/// The shader stages that see a binding.
#[derive(Clone, Copy, Debug, PartialEq, Eq, Structural)]
pub struct Stages {
    pub vertex: bool,
    pub fragment: bool,
    pub compute: bool,
}

/// The resource that fills a binding.
#[derive(Clone, Copy, Debug, PartialEq, Eq, Structural)]
pub enum SceneResource {
    /// The intermediate image that the compute pass writes.
    OutputImage,
    /// The viewport resolution.
    Resolution,
    /// The camera position, where rays start.
    RayOrigin,
    /// The inverse view and inverse projection matrices.
    Camera,
    /// Light intensities, voxel count, ray offset and bounce count.
    SceneProperties,
    /// The random seed.
    RandomSeed,
    /// The voxel volume.
    Voxels,
}

/// One entry of a binding layout.
#[derive(Clone, Copy, Debug, PartialEq, Eq, Structural)]
pub struct BindingSlot {
    pub binding: u32,
    pub kind: BindingKind,
    pub stages: Stages,
    pub resource: SceneResource,
}

pub open spec fn compute_stage() -> Stages {
    Stages { vertex: false, fragment: false, compute: true }
}

pub open spec fn slot(
    binding: u32,
    kind: BindingKind,
    stages: Stages,
    resource: SceneResource,
) -> BindingSlot {
    BindingSlot { binding, kind, stages, resource }
}

/// Layout of the ray-marching compute pass: the output image, five uniform
/// buffers and the voxel storage buffer, bound at 0 to 6 in this order.
pub open spec fn compute_layout() -> Seq<BindingSlot> {
    seq![
        slot(0, BindingKind::WriteOnlyImage, compute_stage(), SceneResource::OutputImage),
        slot(1, BindingKind::Uniform, compute_stage(), SceneResource::Resolution),
        slot(2, BindingKind::Uniform, compute_stage(), SceneResource::RayOrigin),
        slot(3, BindingKind::Uniform, compute_stage(), SceneResource::Camera),
        slot(4, BindingKind::Uniform, compute_stage(), SceneResource::SceneProperties),
        slot(5, BindingKind::Uniform, compute_stage(), SceneResource::RandomSeed),
        slot(6, BindingKind::ReadOnlyStorage, compute_stage(), SceneResource::Voxels),
    ]
}

/// Layout of the full-screen pass: the sampled intermediate image for the
/// fragment stage, then the resolution for both stages.
pub open spec fn render_layout() -> Seq<BindingSlot> {
    seq![
        slot(
            0,
            BindingKind::SampledImage,
            Stages { vertex: false, fragment: true, compute: false },
            SceneResource::OutputImage,
        ),
        slot(
            1,
            BindingKind::Uniform,
            Stages { vertex: true, fragment: true, compute: false },
            SceneResource::Resolution,
        ),
    ]
}

fn compute_only() -> (r: Stages)
    ensures
        r == compute_stage(),
{
    Stages { vertex: false, fragment: false, compute: true }
}

/// The compute pass's binding layout, in binding order.
pub fn compute_bindings() -> (r: Vec<BindingSlot>)
    ensures
        r@ == compute_layout(),
        forall|i: int| 0 <= i < r@.len() ==> #[trigger] r@[i].binding == i,
{
    let mut v: Vec<BindingSlot> = Vec::new();
    v.push(
        BindingSlot {
            binding: 0,
            kind: BindingKind::WriteOnlyImage,
            stages: compute_only(),
            resource: SceneResource::OutputImage,
        },
    );
    v.push(
        BindingSlot {
            binding: 1,
            kind: BindingKind::Uniform,
            stages: compute_only(),
            resource: SceneResource::Resolution,
        },
    );
    v.push(
        BindingSlot {
            binding: 2,
            kind: BindingKind::Uniform,
            stages: compute_only(),
            resource: SceneResource::RayOrigin,
        },
    );
    v.push(
        BindingSlot {
            binding: 3,
            kind: BindingKind::Uniform,
            stages: compute_only(),
            resource: SceneResource::Camera,
        },
    );
    v.push(
        BindingSlot {
            binding: 4,
            kind: BindingKind::Uniform,
            stages: compute_only(),
            resource: SceneResource::SceneProperties,
        },
    );
    v.push(
        BindingSlot {
            binding: 5,
            kind: BindingKind::Uniform,
            stages: compute_only(),
            resource: SceneResource::RandomSeed,
        },
    );
    v.push(
        BindingSlot {
            binding: 6,
            kind: BindingKind::ReadOnlyStorage,
            stages: compute_only(),
            resource: SceneResource::Voxels,
        },
    );
    assert(v@ =~= compute_layout());
    v
}

/// The full-screen pass's binding layout, in binding order.
pub fn render_bindings() -> (r: Vec<BindingSlot>)
    ensures
        r@ == render_layout(),
        forall|i: int| 0 <= i < r@.len() ==> #[trigger] r@[i].binding == i,
{
    let mut v: Vec<BindingSlot> = Vec::new();
    v.push(
        BindingSlot {
            binding: 0,
            kind: BindingKind::SampledImage,
            stages: Stages { vertex: false, fragment: true, compute: false },
            resource: SceneResource::OutputImage,
        },
    );
    v.push(
        BindingSlot {
            binding: 1,
            kind: BindingKind::Uniform,
            stages: Stages { vertex: true, fragment: true, compute: false },
            resource: SceneResource::Resolution,
        },
    );
    assert(v@ =~= render_layout());
    v
}

} // verus!
