//! The pipeline builder: the size-independent GPU pipeline state and
//! resource-binding layouts. Built exactly once at startup from the two
//! opaque shader programs; a resize never touches it. The dissolve
//! variant additionally carries the compute pipeline and the layout of
//! its write-only storage-image binding.

use vstd::prelude::*;

verus! {

/// The layout of the one uniform-buffer binding (group 0, binding 0):
/// visible to the vertex stage, and to the compute stage exactly in the
/// dissolve variant.
#[derive(Clone, Copy, PartialEq, Eq, Structural, Debug)]
pub struct UniformBindingLayout {
    pub binding: u32,
    pub visible_to_vertex: bool,
    pub visible_to_compute: bool,
}

/// The layout of the storage-image binding (group 1, binding 0) the
/// dissolve compute program writes through: write-only, matching the
/// resolve texture's format.
#[derive(Clone, Copy, PartialEq, Eq, Structural, Debug)]
pub struct StorageImageBindingLayout {
    pub binding: u32,
    pub write_only: bool,
}

/// The fixed-function shape of the render pipeline: no vertex buffers
/// (the three triangle vertices are synthesized from the vertex index),
/// one color target, four samples, no depth/stencil.
#[derive(Clone, Copy, PartialEq, Eq, Structural, Debug)]
pub struct RenderPipelineSpec {
    pub vertex_buffers: u32,
    pub color_targets: u32,
    pub sample_count: u32,
    pub depth_stencil: bool,
}

/// The shape of the dissolve compute pipeline: which binding group
/// holds the shared uniform buffer and which the storage image.
#[derive(Clone, Copy, PartialEq, Eq, Structural, Debug)]
pub struct ComputePipelineSpec {
    pub uniform_group: u32,
    pub storage_image_group: u32,
}

/// Everything the pipeline builder produces. None of it depends on the
/// surface size, so it is created once and never rebuilt.
#[derive(Clone, Copy, PartialEq, Eq, Structural, Debug)]
pub struct PipelineSet {
    pub uniform_layout: UniformBindingLayout,
    pub storage_layout: Option<StorageImageBindingLayout>,
    pub render: RenderPipelineSpec,
    pub compute: Option<ComputePipelineSpec>,
}

impl PipelineSet {
    /// The one pipeline set of each variant: the render pipeline draws
    /// bufferless multisampled triangles into one color target; the
    /// compute pipeline and the storage-image layout exist exactly in
    /// the dissolve variant, where the uniform buffer is also visible
    /// to the compute stage.
    pub open spec fn wf(self, has_dissolve: bool) -> bool {
        &&& self.uniform_layout == (UniformBindingLayout {
            binding: 0,
            visible_to_vertex: true,
            visible_to_compute: has_dissolve,
        })
        &&& self.storage_layout == (if has_dissolve {
            Some(StorageImageBindingLayout { binding: 0, write_only: true })
        } else {
            None
        })
        &&& self.render == (RenderPipelineSpec {
            vertex_buffers: 0,
            color_targets: 1,
            sample_count: 4,
            depth_stencil: false,
        })
        &&& self.compute == (if has_dissolve {
            Some(ComputePipelineSpec { uniform_group: 0, storage_image_group: 1 })
        } else {
            None
        })
    }

    /// Builds the pipeline state of one variant. Called exactly once,
    /// at startup; compiling the opaque shader programs either succeeds
    /// or the run aborts before any frame, so there is no error path
    /// here.
    pub fn build(has_dissolve: bool) -> (p: Self)
        ensures
            p.wf(has_dissolve),
    {
        PipelineSet {
            uniform_layout: UniformBindingLayout {
                binding: 0,
                visible_to_vertex: true,
                visible_to_compute: has_dissolve,
            },
            storage_layout: if has_dissolve {
                Some(StorageImageBindingLayout { binding: 0, write_only: true })
            } else {
                None
            },
            render: RenderPipelineSpec {
                vertex_buffers: 0,
                color_targets: 1,
                sample_count: 4,
                depth_stencil: false,
            },
            compute: if has_dissolve {
                Some(ComputePipelineSpec { uniform_group: 0, storage_image_group: 1 })
            } else {
                None
            },
        }
    }
}

} // verus!
