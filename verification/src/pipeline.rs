//! Pipeline builder: from a shader's declared interface to a compute
//! pipeline plan.
//!
//! A compiled shader module is an opaque blob with a declared interface: its
//! entry points, the descriptor bindings those read and write, and the local
//! work-group size. The plan derives the descriptor-set layout from the
//! declared bindings and fixes the single compute stage; once built it is
//! immutable and may back any number of recordings.

use vstd::prelude::*;
use crate::dispatch::LocalSize;
use crate::errors::ResourceError;
use crate::names::{names_contain, spec_contains_name};

verus! {

/// The declared interface of a compiled shader module.
#[derive(Clone, Debug)]
pub struct ShaderInterface {
    /// Entry-point names the module exports.
    pub entry_points: Vec<Vec<u8>>,
    /// Descriptor binding indices the shader declares, in declaration order.
    pub binding_indices: Vec<u32>,
    /// Local work-group size of the compute stage.
    pub local_size: LocalSize,
}

/// An immutable compute pipeline plan: one shader stage, and the
/// descriptor-set layout derived from the shader's declared bindings.
#[derive(Clone, Debug)]
pub struct PipelinePlan {
    set_layout_bindings: Vec<u32>,
    local_size: LocalSize,
}

impl PipelinePlan {
    /// Binding indices of the derived descriptor-set layout.
    pub closed spec fn spec_bindings(self) -> Seq<u32> {
        self.set_layout_bindings@
    }

    /// Local work-group size of the bound stage.
    pub closed spec fn spec_local_size(self) -> LocalSize {
        self.local_size
    }

    /// Binding indices of the derived descriptor-set layout.
    pub fn bindings(&self) -> (r: &Vec<u32>)
        ensures
            r@ == self.spec_bindings(),
    {
        &self.set_layout_bindings
    }

    /// Local work-group size of the bound stage.
    pub fn local_size(&self) -> (r: LocalSize)
        ensures
            r == self.spec_local_size(),
    {
        self.local_size
    }
}

/// Build a compute pipeline plan for one entry point of a shader interface.
///
/// Succeeds exactly when the module exports the entry point and the declared
/// local size has no zero axis; the plan then carries the shader's bindings,
/// in order, and its local size. A missing entry point is a shader-load
/// failure; a degenerate local size makes the stage incompatible with any
/// layout, a pipeline-creation failure.
pub fn plan_pipeline(iface: ShaderInterface, entry_point: &Vec<u8>) -> (r: Result<
    PipelinePlan,
    ResourceError,
>)
    ensures
        r is Ok <==> spec_contains_name(iface.entry_points@, entry_point@) && iface.local_size.x
            > 0 && iface.local_size.y > 0 && iface.local_size.z > 0,
        r matches Ok(p) ==> p.spec_bindings() == iface.binding_indices@ && p.spec_local_size()
            == iface.local_size,
        r matches Err(e) ==> e == (if !spec_contains_name(iface.entry_points@, entry_point@) {
            ResourceError::ShaderLoadFailed
        } else {
            ResourceError::PipelineCreationFailed
        }),
{
    if !names_contain(&iface.entry_points, entry_point) {
        return Err(ResourceError::ShaderLoadFailed);
    }
    if iface.local_size.x == 0 || iface.local_size.y == 0 || iface.local_size.z == 0 {
        return Err(ResourceError::PipelineCreationFailed);
    }
    Ok(PipelinePlan { set_layout_bindings: iface.binding_indices, local_size: iface.local_size })
}

} // verus!
