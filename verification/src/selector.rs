//! Device selector: the deterministic filter-then-rank policy.
//!
//! Given the capability sequence and a required capability set, the selector
//! first filters out devices that miss a hard requirement (no queue family
//! combination that serves the request, missing swapchain extension, or no
//! surface format / present mode when presentation is required), then ranks
//! the survivors by device class — discrete before integrated before other —
//! and picks the first device of minimal rank in enumeration order.
//!
//! When graphics and present are both required, a single family serving both
//! is preferred, since it avoids cross-queue synchronization; only when no
//! family serves both are two distinct families chosen, each the first that
//! serves its role. Distinct families oblige the consumer to share
//! cross-queue resources in concurrent mode.

use vstd::prelude::*;
use crate::capability::{DeviceCapability, DeviceType, QueueFamilyCaps};
use crate::errors::SelectionError;

verus! {

/// The capability set a caller may require of the chosen device.
#[derive(Clone, Copy, Debug, PartialEq, Eq, Structural)]
pub struct RequiredCaps {
    pub graphics: bool,
    pub compute: bool,
    pub present: bool,
    /// Require the swapchain device extension.
    pub swapchain: bool,
}

/// The selector's answer: one device and the queue families to use on it.
#[derive(Clone, Copy, Debug, PartialEq, Eq)]
pub struct SelectionResult {
    /// Position of the chosen device in the capability sequence.
    pub device_index: usize,
    /// Family serving the graphics/compute side of the request.
    pub graphics_queue_index: u32,
    /// Family serving presentation, when required; equals
    /// `graphics_queue_index` whenever one family serves both.
    pub present_queue_index: Option<u32>,
}

/// Whether one family offers every requested operation class among
/// `graphics`, `compute` and `present`.
pub open spec fn family_has(f: QueueFamilyCaps, graphics: bool, compute: bool, present: bool) -> bool {
    &&& graphics ==> f.supports_graphics
    &&& compute ==> f.supports_compute
    &&& present ==> f.supports_present
}

/// `j` is the position of the first family offering the requested classes.
pub open spec fn is_first_family_with(
    fams: Seq<QueueFamilyCaps>,
    graphics: bool,
    compute: bool,
    present: bool,
    j: int,
) -> bool {
    &&& 0 <= j < fams.len()
    &&& family_has(fams[j], graphics, compute, present)
    &&& forall|k: int| 0 <= k < j ==> !family_has(#[trigger] fams[k], graphics, compute, present)
}

/// The device passes the hard-requirement filter: some family serves the
/// graphics/compute side, presentation (when required) is served by some
/// family and backed by at least one surface format and present mode, and
/// the swapchain extension (when required) is present.
pub open spec fn device_suitable(d: DeviceCapability, req: RequiredCaps) -> bool {
    &&& exists|j: int|
        0 <= j < d.queue_families@.len() && family_has(
            #[trigger] d.queue_families@[j],
            req.graphics,
            req.compute,
            false,
        )
    &&& req.present ==> (exists|j: int|
        0 <= j < d.queue_families@.len() && family_has(
            #[trigger] d.queue_families@[j],
            false,
            false,
            true,
        )) && d.has_surface_formats && d.has_present_modes
    &&& req.swapchain ==> d.supports_swapchain
}

/// Rank of a device class: lower is preferred.
pub open spec fn rank_of(t: DeviceType) -> int {
    match t {
        DeviceType::DiscreteGpu => 0,
        DeviceType::IntegratedGpu => 1,
        DeviceType::Other => 2,
    }
}

/// The device at position `i` is suitable.
pub open spec fn suitable_at(caps: Seq<DeviceCapability>, req: RequiredCaps, i: int) -> bool {
    0 <= i < caps.len() && device_suitable(caps[i], req)
}

/// Some device in the sequence is suitable.
pub open spec fn suitable_exists(caps: Seq<DeviceCapability>, req: RequiredCaps) -> bool {
    exists|i: int| suitable_at(caps, req, i)
}

/// `i` is the selector's device choice: suitable, of minimal rank among the
/// suitable, and first in enumeration order among those of that rank.
pub open spec fn is_chosen_device(caps: Seq<DeviceCapability>, req: RequiredCaps, i: int) -> bool {
    &&& suitable_at(caps, req, i)
    &&& forall|j: int|
        suitable_at(caps, req, j) ==> rank_of(caps[i].device_type) <= rank_of(
            (#[trigger] caps[j]).device_type,
        )
    &&& forall|j: int|
        0 <= j < i && suitable_at(caps, req, j) ==> rank_of((#[trigger] caps[j]).device_type)
            > rank_of(caps[i].device_type)
}

/// The queue-family part of the policy, on the chosen device's families:
/// with presentation required, the first family serving the whole request is
/// used for both roles when one exists, and only otherwise are the two roles
/// given to distinct first-serving families; without presentation, the first
/// family serving the graphics/compute side is chosen and no present family
/// is named.
pub open spec fn is_chosen_families(
    fams: Seq<QueueFamilyCaps>,
    req: RequiredCaps,
    s: SelectionResult,
) -> bool {
    if req.present {
        if exists|j: int|
            0 <= j < fams.len() && family_has(#[trigger] fams[j], req.graphics, req.compute, true) {
            &&& is_first_family_with(
                fams,
                req.graphics,
                req.compute,
                true,
                s.graphics_queue_index as int,
            )
            &&& s.present_queue_index == Some(s.graphics_queue_index)
        } else {
            &&& is_first_family_with(
                fams,
                req.graphics,
                req.compute,
                false,
                s.graphics_queue_index as int,
            )
            &&& s.present_queue_index matches Some(p) && is_first_family_with(
                fams,
                false,
                false,
                true,
                p as int,
            )
        }
    } else {
        &&& is_first_family_with(
            fams,
            req.graphics,
            req.compute,
            false,
            s.graphics_queue_index as int,
        )
        &&& s.present_queue_index is None
    }
}

/// The whole selection policy: `s` is what the selector must return for
/// `caps` and `req`.
pub open spec fn is_selection(
    caps: Seq<DeviceCapability>,
    req: RequiredCaps,
    s: SelectionResult,
) -> bool {
    &&& is_chosen_device(caps, req, s.device_index as int)
    &&& is_chosen_families(caps[s.device_index as int].queue_families@, req, s)
}

/// Every device's family list is addressable by the 32-bit indices the
/// driver uses for queue creation.
pub open spec fn caps_wf(caps: Seq<DeviceCapability>) -> bool {
    forall|i: int| 0 <= i < caps.len() ==> (#[trigger] caps[i].queue_families)@.len() <= u32::MAX
}

/// Law: a selection only ever names a device that satisfies the required
/// capability set.
pub proof fn lemma_selection_satisfies(
    caps: Seq<DeviceCapability>,
    req: RequiredCaps,
    s: SelectionResult,
)
    requires
        is_selection(caps, req, s),
    ensures
        s.device_index < caps.len(),
        device_suitable(caps[s.device_index as int], req),
{
}

/// Law: a first-serving family position is unique — two positions that both
/// satisfy `is_first_family_with` for the same request coincide.
pub proof fn lemma_first_family_unique(
    fams: Seq<QueueFamilyCaps>,
    graphics: bool,
    compute: bool,
    present: bool,
    j1: int,
    j2: int,
)
    requires
        is_first_family_with(fams, graphics, compute, present, j1),
        is_first_family_with(fams, graphics, compute, present, j2),
    ensures
        j1 == j2,
{
}

/// Law: the ranking is stable — whenever some suitable device is a discrete
/// GPU, the selection is a discrete GPU, whatever the enumeration order put
/// before or after it.
pub proof fn lemma_discrete_preferred(
    caps: Seq<DeviceCapability>,
    req: RequiredCaps,
    s: SelectionResult,
)
    requires
        is_selection(caps, req, s),
        exists|i: int|
            suitable_at(caps, req, i) && (#[trigger] caps[i]).device_type
                == DeviceType::DiscreteGpu,
    ensures
        caps[s.device_index as int].device_type == DeviceType::DiscreteGpu,
{
    let i = choose|i: int|
        suitable_at(caps, req, i) && (#[trigger] caps[i]).device_type == DeviceType::DiscreteGpu;
    assert(rank_of(caps[s.device_index as int].device_type) <= rank_of(caps[i].device_type));
}

/// Law: when graphics and present are both required and some family of the
/// chosen device serves the whole request, a single family is returned for
/// both roles, never two distinct ones.
pub proof fn lemma_shared_family_preferred(
    caps: Seq<DeviceCapability>,
    req: RequiredCaps,
    s: SelectionResult,
)
    requires
        is_selection(caps, req, s),
        req.present,
        exists|j: int|
            0 <= j < caps[s.device_index as int].queue_families@.len() && family_has(
                #[trigger] caps[s.device_index as int].queue_families@[j],
                req.graphics,
                req.compute,
                true,
            ),
    ensures
        s.present_queue_index == Some(s.graphics_queue_index),
{
}

/// Law: the two-phase filter-then-rank policy is deterministic — for one
/// capability sequence and one required set there is exactly one selection,
/// so two results that both satisfy the policy are equal.
pub proof fn lemma_selection_deterministic(
    caps: Seq<DeviceCapability>,
    req: RequiredCaps,
    s1: SelectionResult,
    s2: SelectionResult,
)
    requires
        is_selection(caps, req, s1),
        is_selection(caps, req, s2),
    ensures
        s1 == s2,
{
    let i1 = s1.device_index as int;
    let i2 = s2.device_index as int;
    if i1 < i2 {
        assert(rank_of(caps[i1].device_type) <= rank_of(caps[i2].device_type));
        assert(rank_of(caps[i1].device_type) > rank_of(caps[i2].device_type));
    }
    if i2 < i1 {
        assert(rank_of(caps[i2].device_type) <= rank_of(caps[i1].device_type));
        assert(rank_of(caps[i2].device_type) > rank_of(caps[i1].device_type));
    }
    let fams = caps[i1].queue_families@;
    if req.present {
        if exists|j: int|
            0 <= j < fams.len() && family_has(#[trigger] fams[j], req.graphics, req.compute, true) {
            lemma_first_family_unique(
                fams,
                req.graphics,
                req.compute,
                true,
                s1.graphics_queue_index as int,
                s2.graphics_queue_index as int,
            );
        } else {
            lemma_first_family_unique(
                fams,
                req.graphics,
                req.compute,
                false,
                s1.graphics_queue_index as int,
                s2.graphics_queue_index as int,
            );
            let p1 = s1.present_queue_index->0;
            let p2 = s2.present_queue_index->0;
            lemma_first_family_unique(fams, false, false, true, p1 as int, p2 as int);
        }
    } else {
        lemma_first_family_unique(
            fams,
            req.graphics,
            req.compute,
            false,
            s1.graphics_queue_index as int,
            s2.graphics_queue_index as int,
        );
    }
}

/// First family offering the requested classes, scanning in order.
fn find_family(
    fams: &Vec<QueueFamilyCaps>,
    graphics: bool,
    compute: bool,
    present: bool,
) -> (r: Option<usize>)
    ensures
        r matches Some(j) ==> is_first_family_with(fams@, graphics, compute, present, j as int),
        r is None ==> forall|k: int|
            0 <= k < fams@.len() ==> !family_has(#[trigger] fams@[k], graphics, compute, present),
{
    let n = fams.len();
    let mut j: usize = 0;
    while j < n
        invariant
            n == fams@.len(),
            j <= n,
            forall|k: int| 0 <= k < j ==> !family_has(#[trigger] fams@[k], graphics, compute, present),
        decreases n - j,
    {
        let f = fams[j];
        if (!graphics || f.supports_graphics) && (!compute || f.supports_compute) && (!present
            || f.supports_present) {
            return Some(j);
        }
        j = j + 1;
    }
    None
}

/// Whether the device passes the hard-requirement filter.
fn is_suitable(d: &DeviceCapability, req: RequiredCaps) -> (r: bool)
    ensures
        r == device_suitable(*d, req),
{
    if find_family(&d.queue_families, req.graphics, req.compute, false).is_none() {
        return false;
    }
    if req.present {
        if find_family(&d.queue_families, false, false, true).is_none() {
            return false;
        }
        if !d.has_surface_formats || !d.has_present_modes {
            return false;
        }
    }
    if req.swapchain && !d.supports_swapchain {
        return false;
    }
    true
}

/// Rank of a device class, lower preferred.
fn rank(t: DeviceType) -> (r: u32)
    ensures
        r == rank_of(t),
{
    match t {
        DeviceType::DiscreteGpu => 0,
        DeviceType::IntegratedGpu => 1,
        DeviceType::Other => 2,
    }
}

/// Pick one device and its queue families for the required capability set.
///
/// Returns a selection exactly when some device is suitable, and then the
/// unique result the policy prescribes; fails with `NoSuitableDevice` when
/// no device passes the filter.
pub fn select_device(caps: &Vec<DeviceCapability>, req: RequiredCaps) -> (r: Result<
    SelectionResult,
    SelectionError,
>)
    requires
        caps_wf(caps@),
    ensures
        r is Ok <==> suitable_exists(caps@, req),
        r matches Ok(s) ==> is_selection(caps@, req, s),
        r matches Err(e) ==> e == SelectionError::NoSuitableDevice,
{
    let n = caps.len();
    let mut best: Option<usize> = None;
    let mut best_rank: u32 = 0;
    let mut i: usize = 0;
    while i < n
        invariant
            n == caps@.len(),
            caps_wf(caps@),
            i <= n,
            best matches Some(b) ==> suitable_at(caps@, req, b as int) && b < i && best_rank
                == rank_of(caps@[b as int].device_type),
            best matches Some(b) ==> forall|j: int|
                0 <= j < i && suitable_at(caps@, req, j) ==> best_rank <= rank_of(
                    (#[trigger] caps@[j]).device_type,
                ),
            best matches Some(b) ==> forall|j: int|
                0 <= j < b && suitable_at(caps@, req, j) ==> rank_of(
                    (#[trigger] caps@[j]).device_type,
                ) > best_rank,
            best is None ==> forall|j: int| 0 <= j < i ==> !suitable_at(caps@, req, j),
        decreases n - i,
    {
        if is_suitable(&caps[i], req) {
            let r = rank(caps[i].device_type);
            match best {
                None => {
                    best = Some(i);
                    best_rank = r;
                },
                Some(_) => {
                    if r < best_rank {
                        best = Some(i);
                        best_rank = r;
                    }
                },
            }
        }
        i = i + 1;
    }
    let chosen: usize = match best {
        Some(b) => b,
        None => {
            return Err(SelectionError::NoSuitableDevice);
        },
    };
    let fams = &caps[chosen].queue_families;
    if req.present {
        match find_family(fams, req.graphics, req.compute, true) {
            Some(shared) => Ok(
                SelectionResult {
                    device_index: chosen,
                    graphics_queue_index: shared as u32,
                    present_queue_index: Some(shared as u32),
                },
            ),
            None => {
                let g = match find_family(fams, req.graphics, req.compute, false) {
                    Some(g) => g,
                    None => {
                        proof {
                            assert(false);
                        }
                        0
                    },
                };
                let p = match find_family(fams, false, false, true) {
                    Some(p) => p,
                    None => {
                        proof {
                            assert(false);
                        }
                        0
                    },
                };
                Ok(
                    SelectionResult {
                        device_index: chosen,
                        graphics_queue_index: g as u32,
                        present_queue_index: Some(p as u32),
                    },
                )
            },
        }
    } else {
        let g = match find_family(fams, req.graphics, req.compute, false) {
            Some(g) => g,
            None => {
                proof {
                    assert(false);
                }
                0
            },
        };
        Ok(
            SelectionResult {
                device_index: chosen,
                graphics_queue_index: g as u32,
                present_queue_index: None,
            },
        )
    }
}

} // verus!
