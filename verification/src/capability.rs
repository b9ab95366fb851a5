//! Capability query: from a raw driver snapshot to the capability record the
//! selector works on.
//!
//! The driver hands the surrounding program, per physical device, a type
//! code, raw queue-family flag words, per-family presentation support (a
//! device-and-surface query, not a static flag), the enumerated extension
//! names, and the surface format / present mode counts. Deriving the
//! capability record from that snapshot is a pure function of it: the same
//! snapshot always yields the same sequence, in the same order.

use vstd::prelude::*;
use crate::errors::SelectionError;
use crate::names::{names_contain, spec_contains_name};

verus! {

/// Queue-flag bit advertising graphics work, as the driver encodes it.
pub const QUEUE_GRAPHICS_BIT: u32 = 0x1;
/// Queue-flag bit advertising compute work, as the driver encodes it.
pub const QUEUE_COMPUTE_BIT: u32 = 0x2;

/// Driver type code for an integrated GPU.
pub const DEVICE_TYPE_INTEGRATED_CODE: u32 = 1;
/// Driver type code for a discrete GPU.
pub const DEVICE_TYPE_DISCRETE_CODE: u32 = 2;

/// Device classes the ranking policy distinguishes.
#[derive(Clone, Copy, Debug, PartialEq, Eq, Structural)]
pub enum DeviceType {
    DiscreteGpu,
    IntegratedGpu,
    Other,
}

/// What one queue family of a device can do.
#[derive(Clone, Copy, Debug, PartialEq, Eq, Structural)]
pub struct QueueFamilyCaps {
    /// Position of the family in the device's family list.
    pub index: u32,
    pub supports_graphics: bool,
    pub supports_compute: bool,
    pub supports_present: bool,
}

/// Everything the selector needs to know about one physical device.
#[derive(Clone, Debug, PartialEq, Eq)]
pub struct DeviceCapability {
    /// Opaque driver handle, carried through for the caller.
    pub handle: u64,
    pub device_type: DeviceType,
    /// Ordered as the driver enumerates them; a family's `index` field
    /// equals its position here.
    pub queue_families: Vec<QueueFamilyCaps>,
    /// The swapchain device extension is present, by exact name match.
    pub supports_swapchain: bool,
    /// The device reports at least one surface format.
    pub has_surface_formats: bool,
    /// The device reports at least one present mode.
    pub has_present_modes: bool,
}

/// One queue family as the driver reports it: a flag word plus the answer of
/// the surface-specific presentation query.
#[derive(Clone, Copy, Debug, PartialEq, Eq)]
pub struct RawQueueFamily {
    pub flags: u32,
    pub present: bool,
}

/// One physical device as the driver reports it.
#[derive(Clone, Debug, PartialEq, Eq)]
pub struct RawPhysicalDevice {
    pub handle: u64,
    pub device_type_code: u32,
    pub queue_families: Vec<RawQueueFamily>,
    pub extension_names: Vec<Vec<u8>>,
    pub surface_format_count: u32,
    pub present_mode_count: u32,
}

/// Name of the swapchain device extension.
pub open spec fn spec_swapchain_extension_name() -> Seq<u8> {
    seq![86u8, 75u8, 95u8, 75u8, 72u8, 82u8, 95u8, 115u8, 119u8, 97u8, 112u8, 99u8, 104u8, 97u8,
        105u8, 110u8]
}

/// Name of the swapchain device extension, `VK_KHR_swapchain` as bytes.
pub fn swapchain_extension_name() -> (r: Vec<u8>)
    ensures
        r@ == spec_swapchain_extension_name(),
{
    let r: Vec<u8> = vec![86u8, 75u8, 95u8, 75u8, 72u8, 82u8, 95u8, 115u8, 119u8, 97u8, 112u8,
        99u8, 104u8, 97u8, 105u8, 110u8];
    proof {
        assert(r@ =~= spec_swapchain_extension_name());
    }
    r
}

/// How a driver type code maps to a device class: unknown codes are `Other`.
pub open spec fn spec_device_type_from_code(code: u32) -> DeviceType {
    if code == DEVICE_TYPE_DISCRETE_CODE {
        DeviceType::DiscreteGpu
    } else if code == DEVICE_TYPE_INTEGRATED_CODE {
        DeviceType::IntegratedGpu
    } else {
        DeviceType::Other
    }
}

/// Device class for a driver type code.
pub fn device_type_from_code(code: u32) -> (r: DeviceType)
    ensures
        r == spec_device_type_from_code(code),
{
    if code == DEVICE_TYPE_DISCRETE_CODE {
        DeviceType::DiscreteGpu
    } else if code == DEVICE_TYPE_INTEGRATED_CODE {
        DeviceType::IntegratedGpu
    } else {
        DeviceType::Other
    }
}

/// The capability record of the family at position `j`, derived from its raw
/// flag word by bitmask intersection and from the presentation query.
pub open spec fn derived_family(rf: RawQueueFamily, j: int) -> QueueFamilyCaps {
    QueueFamilyCaps {
        index: j as u32,
        supports_graphics: rf.flags & QUEUE_GRAPHICS_BIT != 0,
        supports_compute: rf.flags & QUEUE_COMPUTE_BIT != 0,
        supports_present: rf.present,
    }
}

/// The capability record `d` is exactly what the raw report `rd` derives to.
pub open spec fn derived_matches(rd: RawPhysicalDevice, d: DeviceCapability) -> bool {
    &&& d.handle == rd.handle
    &&& d.device_type == spec_device_type_from_code(rd.device_type_code)
    &&& d.queue_families@.len() == rd.queue_families@.len()
    &&& forall|j: int|
        0 <= j < rd.queue_families@.len() ==> #[trigger] d.queue_families@[j] == derived_family(
            rd.queue_families@[j],
            j,
        )
    &&& d.supports_swapchain == spec_contains_name(
        rd.extension_names@,
        spec_swapchain_extension_name(),
    )
    &&& d.has_surface_formats == (rd.surface_format_count > 0)
    &&& d.has_present_modes == (rd.present_mode_count > 0)
}

/// Field-by-field equality of two capability records.
pub open spec fn capability_eq(a: DeviceCapability, b: DeviceCapability) -> bool {
    &&& a.handle == b.handle
    &&& a.device_type == b.device_type
    &&& a.queue_families@ == b.queue_families@
    &&& a.supports_swapchain == b.supports_swapchain
    &&& a.has_surface_formats == b.has_surface_formats
    &&& a.has_present_modes == b.has_present_modes
}

/// Law: the capability query is idempotent on the library's side — the
/// derived sequence is a function of the raw snapshot alone, so two
/// sequences derived from one snapshot agree in order and content.
pub proof fn lemma_capability_query_deterministic(
    raw: Seq<RawPhysicalDevice>,
    caps1: Seq<DeviceCapability>,
    caps2: Seq<DeviceCapability>,
)
    requires
        caps1.len() == raw.len(),
        caps2.len() == raw.len(),
        forall|i: int| 0 <= i < raw.len() ==> derived_matches(raw[i], #[trigger] caps1[i]),
        forall|i: int| 0 <= i < raw.len() ==> derived_matches(raw[i], #[trigger] caps2[i]),
    ensures
        caps1.len() == caps2.len(),
        forall|i: int| 0 <= i < raw.len() ==> capability_eq(#[trigger] caps1[i], caps2[i]),
{
    assert forall|i: int| 0 <= i < raw.len() implies capability_eq(
        #[trigger] caps1[i],
        caps2[i],
    ) by {
        assert(caps1[i].queue_families@ =~= caps2[i].queue_families@);
    }
}

/// Family lists must be addressable by the 32-bit indices the driver uses.
pub open spec fn raw_snapshot_wf(raw: Seq<RawPhysicalDevice>) -> bool {
    forall|i: int| 0 <= i < raw.len() ==> (#[trigger] raw[i].queue_families)@.len() <= u32::MAX
}

/// Derive the capability record of one raw device report.
fn derive_one(rd: &RawPhysicalDevice, swapchain_name: &Vec<u8>) -> (d: DeviceCapability)
    requires
        rd.queue_families@.len() <= u32::MAX,
        swapchain_name@ == spec_swapchain_extension_name(),
    ensures
        derived_matches(*rd, d),
{
    let n = rd.queue_families.len();
    let mut families: Vec<QueueFamilyCaps> = Vec::new();
    let mut j: usize = 0;
    while j < n
        invariant
            n == rd.queue_families@.len(),
            n <= u32::MAX,
            j <= n,
            families@.len() == j,
            forall|k: int|
                0 <= k < j ==> #[trigger] families@[k] == derived_family(
                    rd.queue_families@[k],
                    k,
                ),
        decreases n - j,
    {
        let rf = rd.queue_families[j];
        families.push(
            QueueFamilyCaps {
                index: j as u32,
                supports_graphics: rf.flags & QUEUE_GRAPHICS_BIT != 0,
                supports_compute: rf.flags & QUEUE_COMPUTE_BIT != 0,
                supports_present: rf.present,
            },
        );
        j = j + 1;
    }
    DeviceCapability {
        handle: rd.handle,
        device_type: device_type_from_code(rd.device_type_code),
        queue_families: families,
        supports_swapchain: names_contain(&rd.extension_names, swapchain_name),
        has_surface_formats: rd.surface_format_count > 0,
        has_present_modes: rd.present_mode_count > 0,
    }
}

/// Derive the ordered capability sequence from a raw driver snapshot.
///
/// Fails with `NoDevicesFound` exactly when the snapshot is empty; otherwise
/// yields one capability record per device, in snapshot order, each fully
/// determined by its raw report.
pub fn derive_capabilities(raw: &Vec<RawPhysicalDevice>) -> (r: Result<
    Vec<DeviceCapability>,
    SelectionError,
>)
    requires
        raw_snapshot_wf(raw@),
    ensures
        r is Ok <==> raw@.len() > 0,
        r matches Err(e) ==> e == SelectionError::NoDevicesFound,
        r matches Ok(caps) ==> caps@.len() == raw@.len() && forall|i: int|
            0 <= i < raw@.len() ==> derived_matches(raw@[i], #[trigger] caps@[i]),
{
    if raw.len() == 0 {
        return Err(SelectionError::NoDevicesFound);
    }
    let swapchain_name = swapchain_extension_name();
    let n = raw.len();
    let mut caps: Vec<DeviceCapability> = Vec::new();
    let mut i: usize = 0;
    while i < n
        invariant
            n == raw@.len(),
            raw_snapshot_wf(raw@),
            swapchain_name@ == spec_swapchain_extension_name(),
            i <= n,
            caps@.len() == i,
            forall|k: int| 0 <= k < i ==> derived_matches(raw@[k], #[trigger] caps@[k]),
        decreases n - i,
    {
        caps.push(derive_one(&raw[i], &swapchain_name));
        i = i + 1;
    }
    Ok(caps)
}

} // verus!
