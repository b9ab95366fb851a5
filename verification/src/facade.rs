//! Resource facade policy: what must hold before and around the common
//! resource bundle the driver builds.
//!
//! The bundle itself — instance, device, queues, allocators — is driver
//! state owned by the surrounding program. The decisions modelled here are
//! the fail-fast check that every requested validation layer is installed,
//! the sharing mode a selection imposes on cross-queue resources, and the
//! construction order of the bundle, whose teardown must run strictly in
//! reverse: every sub-allocator holds a shared reference to the device and
//! none may outlive it.

use vstd::prelude::*;
use crate::errors::InitializationError;
use crate::names::{names_contain, spec_contains_name};
use crate::selector::SelectionResult;

verus! {

/// How a resource crossing queue families must be shared.
#[derive(Clone, Copy, Debug, PartialEq, Eq, Structural)]
pub enum SharingMode {
    /// One queue family owns the resource; handing it over needs explicit
    /// barriers.
    Exclusive,
    /// Both chosen families may access the resource without ownership
    /// transfer.
    Concurrent,
}

/// Whether the selection put the graphics and present roles on distinct
/// queue families.
pub open spec fn spec_distinct_families(s: SelectionResult) -> bool {
    s.present_queue_index matches Some(p) && p != s.graphics_queue_index
}

/// Sharing mode the selection imposes on resources that both roles touch:
/// concurrent exactly when the two roles landed on distinct families.
pub fn sharing_mode_for(s: &SelectionResult) -> (r: SharingMode)
    ensures
        r == SharingMode::Concurrent <==> spec_distinct_families(*s),
        r == SharingMode::Exclusive <==> !spec_distinct_families(*s),
{
    match s.present_queue_index {
        Some(p) => {
            if p != s.graphics_queue_index {
                SharingMode::Concurrent
            } else {
                SharingMode::Exclusive
            }
        },
        None => SharingMode::Exclusive,
    }
}

/// Fail fast when a requested validation layer is not installed: succeeds
/// exactly when every required layer name appears, by exact match, in the
/// enumerated list.
pub fn check_layers(required: &Vec<Vec<u8>>, available: &Vec<Vec<u8>>) -> (r: Result<
    (),
    InitializationError,
>)
    ensures
        r is Ok <==> forall|i: int|
            0 <= i < required@.len() ==> spec_contains_name(available@, (#[trigger] required@[i])@),
        r matches Err(e) ==> e == InitializationError::MissingValidationLayer,
{
    let n = required.len();
    let mut i: usize = 0;
    while i < n
        invariant
            n == required@.len(),
            i <= n,
            forall|k: int| 0 <= k < i ==> spec_contains_name(available@, (#[trigger] required@[k])@),
        decreases n - i,
    {
        if !names_contain(available, &required[i]) {
            return Err(InitializationError::MissingValidationLayer);
        }
        i = i + 1;
    }
    Ok(())
}

/// The pieces of the common resource bundle, in the order they come to be.
#[derive(Clone, Copy, Debug, PartialEq, Eq, Structural)]
pub enum SetupStage {
    Library,
    Instance,
    DiagnosticsSink,
    PhysicalDevice,
    LogicalDevice,
    MemoryAllocator,
    DescriptorSetAllocator,
    CommandBufferAllocator,
}

/// Position of a stage in the construction order.
pub open spec fn stage_rank(s: SetupStage) -> int {
    match s {
        SetupStage::Library => 0,
        SetupStage::Instance => 1,
        SetupStage::DiagnosticsSink => 2,
        SetupStage::PhysicalDevice => 3,
        SetupStage::LogicalDevice => 4,
        SetupStage::MemoryAllocator => 5,
        SetupStage::DescriptorSetAllocator => 6,
        SetupStage::CommandBufferAllocator => 7,
    }
}

/// The stage constructed right after `s`, if `s` is not the last.
pub open spec fn spec_setup_next(s: SetupStage) -> Option<SetupStage> {
    match s {
        SetupStage::Library => Some(SetupStage::Instance),
        SetupStage::Instance => Some(SetupStage::DiagnosticsSink),
        SetupStage::DiagnosticsSink => Some(SetupStage::PhysicalDevice),
        SetupStage::PhysicalDevice => Some(SetupStage::LogicalDevice),
        SetupStage::LogicalDevice => Some(SetupStage::MemoryAllocator),
        SetupStage::MemoryAllocator => Some(SetupStage::DescriptorSetAllocator),
        SetupStage::DescriptorSetAllocator => Some(SetupStage::CommandBufferAllocator),
        SetupStage::CommandBufferAllocator => None,
    }
}

/// The stage torn down right after `s`, if `s` is not the last to go.
pub open spec fn spec_teardown_next(s: SetupStage) -> Option<SetupStage> {
    match s {
        SetupStage::Library => None,
        SetupStage::Instance => Some(SetupStage::Library),
        SetupStage::DiagnosticsSink => Some(SetupStage::Instance),
        SetupStage::PhysicalDevice => Some(SetupStage::DiagnosticsSink),
        SetupStage::LogicalDevice => Some(SetupStage::PhysicalDevice),
        SetupStage::MemoryAllocator => Some(SetupStage::LogicalDevice),
        SetupStage::DescriptorSetAllocator => Some(SetupStage::MemoryAllocator),
        SetupStage::CommandBufferAllocator => Some(SetupStage::DescriptorSetAllocator),
    }
}

/// The stage to construct after `s`: construction walks ranks upward, one at
/// a time.
pub fn setup_next(s: SetupStage) -> (r: Option<SetupStage>)
    ensures
        r == spec_setup_next(s),
        r matches Some(t) ==> stage_rank(t) == stage_rank(s) + 1,
        r is None <==> stage_rank(s) == 7,
{
    match s {
        SetupStage::Library => Some(SetupStage::Instance),
        SetupStage::Instance => Some(SetupStage::DiagnosticsSink),
        SetupStage::DiagnosticsSink => Some(SetupStage::PhysicalDevice),
        SetupStage::PhysicalDevice => Some(SetupStage::LogicalDevice),
        SetupStage::LogicalDevice => Some(SetupStage::MemoryAllocator),
        SetupStage::MemoryAllocator => Some(SetupStage::DescriptorSetAllocator),
        SetupStage::DescriptorSetAllocator => Some(SetupStage::CommandBufferAllocator),
        SetupStage::CommandBufferAllocator => None,
    }
}

/// The stage to tear down after `s`: teardown walks ranks downward, one at a
/// time.
pub fn teardown_next(s: SetupStage) -> (r: Option<SetupStage>)
    ensures
        r == spec_teardown_next(s),
        r matches Some(t) ==> stage_rank(t) == stage_rank(s) - 1,
        r is None <==> stage_rank(s) == 0,
{
    match s {
        SetupStage::Library => None,
        SetupStage::Instance => Some(SetupStage::Library),
        SetupStage::DiagnosticsSink => Some(SetupStage::Instance),
        SetupStage::PhysicalDevice => Some(SetupStage::DiagnosticsSink),
        SetupStage::LogicalDevice => Some(SetupStage::PhysicalDevice),
        SetupStage::MemoryAllocator => Some(SetupStage::LogicalDevice),
        SetupStage::DescriptorSetAllocator => Some(SetupStage::MemoryAllocator),
        SetupStage::CommandBufferAllocator => Some(SetupStage::DescriptorSetAllocator),
    }
}

/// Law: teardown order is exactly reverse creation order — one stage
/// directly precedes another in construction exactly when the second is torn
/// down directly before the first.
pub proof fn lemma_teardown_reverses_setup(s: SetupStage, t: SetupStage)
    ensures
        spec_setup_next(s) == Some(t) <==> spec_teardown_next(t) == Some(s),
{
}

} // verus!
