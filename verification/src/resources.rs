//! Size-dependent frame resources: the multisample color target, the
//! resolve target, their views, and — in the dissolve variant — the
//! binding set that exposes the resolve texture as a writable storage
//! image. The whole set is replaced wholesale on every resize; handles
//! are drawn from a monotonic counter, so a rebuilt set never reuses a
//! handle of the set it supersedes.

use vstd::prelude::*;
use crate::config::clamp_dim_spec;
use crate::config::clamp_dim;

verus! {

/// One created texture: its handle and the creation parameters it
/// reports back (size, sample count, usage flags).
#[derive(Clone, Copy, PartialEq, Eq, Structural, Debug)]
pub struct TextureSpec {
    pub id: u64,
    pub width: u32,
    pub height: u32,
    pub sample_count: u32,
    pub render_attachment: bool,
    pub copy_src: bool,
    pub copy_dst: bool,
    pub storage_binding: bool,
}

/// The pair of color targets for one surface size, with their views and
/// the optional storage binding set over the resolve texture. Always
/// created and replaced as one unit, never mutated field by field.
#[derive(Clone, Copy, PartialEq, Eq, Structural, Debug)]
pub struct ColorTargetSet {
    pub multisample: TextureSpec,
    pub multisample_view: u64,
    pub resolve: TextureSpec,
    pub resolve_view: u64,
    pub storage_binding_set: Option<u64>,
}

impl ColorTargetSet {
    /// Every handle the set holds, in a fixed order.
    pub open spec fn ids(self) -> Seq<u64> {
        let base = seq![self.multisample.id, self.multisample_view, self.resolve.id, self.resolve_view];
        match self.storage_binding_set {
            Some(b) => base.push(b),
            None => base,
        }
    }

    /// Every handle of the set is below `bound`.
    pub open spec fn ids_below(self, bound: u64) -> bool {
        forall|i: int| 0 <= i < self.ids().len() ==> self.ids()[i] < bound
    }

    /// Every handle of the set is at least `bound`.
    pub open spec fn ids_at_least(self, bound: u64) -> bool {
        forall|i: int| 0 <= i < self.ids().len() ==> self.ids()[i] >= bound
    }

    /// No two handles of the set are the same.
    pub open spec fn ids_distinct(self) -> bool {
        forall|i: int, j: int|
            0 <= i < j < self.ids().len() ==> self.ids()[i] != self.ids()[j]
    }

    /// No handle of this set is also a handle of `other`.
    pub open spec fn disjoint_from(self, other: ColorTargetSet) -> bool {
        forall|i: int, j: int|
            0 <= i < self.ids().len() && 0 <= j < other.ids().len() ==> self.ids()[i]
                != other.ids()[j]
    }

    /// The one width both targets share.
    pub open spec fn width(self) -> u32 {
        self.multisample.width
    }

    /// The one height both targets share.
    pub open spec fn height(self) -> u32 {
        self.multisample.height
    }

    /// Shape of a well-formed set for one variant: both targets have the
    /// same non-zero size; the multisample target has four samples and is
    /// a render attachment and copy destination; the resolve target has
    /// one sample and is a render attachment and copy source, a storage
    /// image exactly in the dissolve variant; the storage binding set is
    /// present exactly in the dissolve variant; handles are distinct.
    pub open spec fn wf(self, has_dissolve: bool) -> bool {
        &&& self.multisample.width >= 1
        &&& self.multisample.height >= 1
        &&& self.resolve.width == self.multisample.width
        &&& self.resolve.height == self.multisample.height
        &&& self.multisample.sample_count == 4
        &&& self.resolve.sample_count == 1
        &&& self.multisample.render_attachment
        &&& self.multisample.copy_dst
        &&& !self.multisample.copy_src
        &&& !self.multisample.storage_binding
        &&& self.resolve.render_attachment
        &&& self.resolve.copy_src
        &&& !self.resolve.copy_dst
        &&& self.resolve.storage_binding == has_dissolve
        &&& self.storage_binding_set is Some <==> has_dissolve
        &&& self.ids_distinct()
    }
}

/// Handles at or above `bound` never collide with handles below it.
pub proof fn lemma_fresh_sets_disjoint(older: ColorTargetSet, newer: ColorTargetSet, bound: u64)
    requires
        older.ids_below(bound),
        newer.ids_at_least(bound),
    ensures
        newer.disjoint_from(older),
{
}

/// Builds one complete target set for the (already clamped) dimensions,
/// handing out handles `first_id, first_id + 1, ...`; returns the set
/// and the next unused handle.
fn make_target_set(first_id: u64, has_dissolve: bool, width: u32, height: u32) -> (r: (
    ColorTargetSet,
    u64,
))
    requires
        first_id <= u64::MAX - 5,
        width >= 1,
        height >= 1,
    ensures
        r.0.wf(has_dissolve),
        r.0.width() == width,
        r.0.height() == height,
        r.0.ids_at_least(first_id),
        r.0.ids_below(r.1),
        first_id < r.1 <= first_id + 5,
{
    let multisample = TextureSpec {
        id: first_id,
        width,
        height,
        sample_count: 4,
        render_attachment: true,
        copy_src: false,
        copy_dst: true,
        storage_binding: false,
    };
    let resolve = TextureSpec {
        id: first_id + 2,
        width,
        height,
        sample_count: 1,
        render_attachment: true,
        copy_src: true,
        copy_dst: false,
        storage_binding: has_dissolve,
    };
    let set = ColorTargetSet {
        multisample,
        multisample_view: first_id + 1,
        resolve,
        resolve_view: first_id + 3,
        storage_binding_set: if has_dissolve {
            Some(first_id + 4)
        } else {
            None
        },
    };
    let next = if has_dissolve {
        first_id + 5
    } else {
        first_id + 4
    };
    (set, next)
}

/// Owner of the size-dependent resources: the current target set and
/// the counter the next handles will be drawn from.
#[derive(Clone, Copy, PartialEq, Eq, Structural, Debug)]
pub struct FrameResources {
    pub has_dissolve: bool,
    pub next_id: u64,
    pub targets: ColorTargetSet,
}

impl FrameResources {
    /// The current target set is well formed for this variant and all
    /// its handles lie below the counter.
    pub open spec fn wf(self) -> bool {
        &&& self.targets.wf(self.has_dissolve)
        &&& self.targets.ids_below(self.next_id)
    }

    /// Creates the startup resources for the initial surface size;
    /// both dimensions are clamped to at least one.
    pub fn new(has_dissolve: bool, width: u32, height: u32) -> (r: Self)
        ensures
            r.wf(),
            r.has_dissolve == has_dissolve,
            r.targets.width() == clamp_dim_spec(width),
            r.targets.height() == clamp_dim_spec(height),
            r.next_id <= 5,
    {
        let (targets, next_id) = make_target_set(0, has_dissolve, clamp_dim(width), clamp_dim(
            height,
        ));
        FrameResources { has_dissolve, next_id, targets }
    }

    /// Rebuilds the whole target set for the requested size, clamped to
    /// at least one in each dimension.
    ///
    /// Afterwards every held handle is valid (below the counter), both
    /// targets report exactly the clamped dimensions, and no handle of
    /// the new set is a handle of the superseded set.
    pub fn configure(&mut self, width: u32, height: u32)
        requires
            old(self).wf(),
            old(self).next_id <= u64::MAX - 5,
        ensures
            final(self).wf(),
            final(self).has_dissolve == old(self).has_dissolve,
            final(self).targets.multisample.width == clamp_dim_spec(width),
            final(self).targets.multisample.height == clamp_dim_spec(height),
            final(self).targets.resolve.width == clamp_dim_spec(width),
            final(self).targets.resolve.height == clamp_dim_spec(height),
            final(self).targets.disjoint_from(old(self).targets),
            final(self).targets.ids_at_least(old(self).next_id),
            old(self).next_id < final(self).next_id <= old(self).next_id + 5,
    {
        let (targets, next_id) = make_target_set(self.next_id, self.has_dissolve, clamp_dim(width),
            clamp_dim(height));
        proof {
            lemma_fresh_sets_disjoint(self.targets, targets, self.next_id);
        }
        self.targets = targets;
        self.next_id = next_id;
    }
}

} // verus!
