//! Device selection: find the first enumerated physical device that exposes a
//! graphics-capable queue family, a queue family that can present to the
//! target surface, the swapchain extension, and at least one surface format
//! and present mode.

use vstd::prelude::*;
use crate::InitError;
use crate::swapchain::SurfaceFormat;

verus! {

/// What one queue family offers: whether it accepts graphics work and whether
/// it can present to the target surface.
#[derive(Clone, Copy, PartialEq, Eq, Structural, Debug)]
pub struct QueueFamily {
    pub graphics: bool,
    pub present: bool,
}

pub open spec fn has_graphics_family(fams: Seq<QueueFamily>) -> bool {
    exists|i: int| 0 <= i < fams.len() && fams[i].graphics
}

pub open spec fn has_present_family(fams: Seq<QueueFamily>) -> bool {
    exists|i: int| 0 <= i < fams.len() && fams[i].present
}

/// Scan the queue families and report which index to use for graphics work
/// and which for presentation; each is the highest index with the capability,
/// `None` when no family has it.
pub fn find_queue_families(fams: &Vec<QueueFamily>) -> (r: (Option<usize>, Option<usize>))
    ensures
        r.0 matches Some(g) ==> g < fams@.len() && fams@[g as int].graphics
            && (forall|j: int| g < j < fams@.len() ==> !fams@[j].graphics),
        r.0 is None ==> !has_graphics_family(fams@),
        r.1 matches Some(p) ==> p < fams@.len() && fams@[p as int].present
            && (forall|j: int| p < j < fams@.len() ==> !fams@[j].present),
        r.1 is None ==> !has_present_family(fams@),
{
    let mut graphics_family: Option<usize> = None;
    let mut present_family: Option<usize> = None;
    let mut i: usize = 0;
    while i < fams.len()
        invariant
            i <= fams@.len(),
            graphics_family matches Some(g) ==> g < i && fams@[g as int].graphics
                && (forall|j: int| g < j < i ==> !fams@[j].graphics),
            graphics_family is None ==> forall|j: int| 0 <= j < i ==> !fams@[j].graphics,
            present_family matches Some(p) ==> p < i && fams@[p as int].present
                && (forall|j: int| p < j < i ==> !fams@[j].present),
            present_family is None ==> forall|j: int| 0 <= j < i ==> !fams@[j].present,
        decreases fams@.len() - i,
    {
        if fams[i].graphics {
            graphics_family = Some(i);
        }
        if fams[i].present {
            present_family = Some(i);
        }
        i = i + 1;
    }
    (graphics_family, present_family)
}

/// The length of the prefix of `raw` that precedes its first zero byte
/// (the whole sequence when no byte is zero).
pub open spec fn nul_index(raw: Seq<u8>) -> int
    decreases raw.len(),
{
    if raw.len() == 0 {
        0
    } else if raw[0] == 0 {
        0
    } else {
        1 + nul_index(raw.subrange(1, raw.len() as int))
    }
}

/// An extension name as reported by the driver: a fixed-size byte field,
/// meaningful only up to its first zero byte.
pub open spec fn trimmed_name(raw: Seq<u8>) -> Seq<u8> {
    raw.take(nul_index(raw))
}

proof fn lemma_nul_index_characterization(s: Seq<u8>, i: int)
    requires
        0 <= i <= s.len(),
        forall|j: int| 0 <= j < i ==> s[j] != 0,
        i < s.len() ==> s[i] == 0,
    ensures
        nul_index(s) == i,
    decreases s.len(),
{
    if s.len() == 0 {
    } else if s[0] == 0 {
        assert(i == 0);
    } else {
        let t = s.subrange(1, s.len() as int);
        assert(forall|j: int| 0 <= j < i - 1 ==> t[j] == s[j + 1] && t[j] != 0);
        assert(i - 1 < t.len() ==> t[i - 1] == s[i]);
        lemma_nul_index_characterization(t, i - 1);
    }
}

/// Cut a driver-reported extension-name field at its first zero byte.
fn trim_extension_name(raw: &Vec<u8>) -> (r: Vec<u8>)
    ensures
        r@ == trimmed_name(raw@),
{
    let n = raw.len();
    let mut end: usize = n;
    let mut i: usize = 0;
    while i < n
        invariant_except_break
            i <= n,
            n == raw@.len(),
            end == n,
            forall|j: int| 0 <= j < i ==> raw@[j] != 0,
        ensures
            end <= n,
            n == raw@.len(),
            forall|j: int| 0 <= j < end ==> raw@[j] != 0,
            end < n ==> raw@[end as int] == 0,
        decreases n - i,
    {
        if raw[i] == 0 {
            end = i;
            break;
        }
        i = i + 1;
    }
    proof {
        lemma_nul_index_characterization(raw@, end as int);
    }
    let mut r: Vec<u8> = Vec::new();
    let mut k: usize = 0;
    while k < end
        invariant
            k <= end <= raw@.len(),
            r@ =~= raw@.take(k as int),
        decreases end - k,
    {
        r.push(raw[k]);
        k = k + 1;
    }
    proof {
        assert(r@ =~= raw@.take(nul_index(raw@)));
    }
    r
}

fn bytes_equal(a: &Vec<u8>, b: &Vec<u8>) -> (r: bool)
    ensures
        r == (a@ == b@),
{
    if a.len() != b.len() {
        assert(a@ != b@);
        return false;
    }
    let mut i: usize = 0;
    while i < a.len()
        invariant
            i <= a@.len(),
            a@.len() == b@.len(),
            forall|j: int| 0 <= j < i ==> a@[j] == b@[j],
        decreases a@.len() - i,
    {
        if a[i] != b[i] {
            assert(a@ != b@);
            return false;
        }
        i = i + 1;
    }
    proof {
        assert(a@ =~= b@);
    }
    true
}

/// The name of the presentation (swapchain) device extension, as bytes.
pub open spec fn swapchain_extension_name() -> Seq<u8> {
    seq![86u8, 75u8, 95u8, 75u8, 72u8, 82u8, 95u8, 115u8, 119u8, 97u8, 112u8, 99u8, 104u8, 97u8,
        105u8, 110u8]
}

/// Build the swapchain extension name (`VK_KHR_swapchain`) as a byte vector.
pub fn swapchain_extension_name_bytes() -> (r: Vec<u8>)
    ensures
        r@ == swapchain_extension_name(),
{
    let r: Vec<u8> = vec![86u8, 75u8, 95u8, 75u8, 72u8, 82u8, 95u8, 115u8, 119u8, 97u8, 112u8,
        99u8, 104u8, 97u8, 105u8, 110u8];
    proof {
        assert(r@ =~= swapchain_extension_name());
    }
    r
}

/// Whether some reported extension-name field, cut at its first zero byte,
/// spells exactly `wanted`.
pub open spec fn spec_supports_extension(names: Seq<Vec<u8>>, wanted: Seq<u8>) -> bool {
    exists|i: int| 0 <= i < names.len() && trimmed_name(names[i]@) == wanted
}

/// Scan the driver-reported extension-name fields for `wanted`.
pub fn supports_extension(names: &Vec<Vec<u8>>, wanted: &Vec<u8>) -> (r: bool)
    ensures
        r == spec_supports_extension(names@, wanted@),
{
    let mut i: usize = 0;
    while i < names.len()
        invariant
            i <= names@.len(),
            forall|j: int| 0 <= j < i ==> trimmed_name(names@[j]@) != wanted@,
        decreases names@.len() - i,
    {
        let t = trim_extension_name(&names[i]);
        if bytes_equal(&t, wanted) {
            assert(trimmed_name(names@[i as int]@) == wanted@);
            return true;
        }
        i = i + 1;
    }
    false
}

/// Everything about one physical device that selection looks at: its queue
/// families' capabilities, the device extensions it reports, and the surface
/// formats and present modes it supports for the target surface.
pub struct DeviceInfo {
    pub queue_families: Vec<QueueFamily>,
    pub extension_names: Vec<Vec<u8>>,
    pub formats: Vec<SurfaceFormat>,
    pub present_modes: Vec<u32>,
}

/// A device qualifies when it has a graphics-capable family, a
/// present-capable family, the swapchain extension, and at least one
/// supported surface format and present mode.
pub open spec fn spec_device_suitable(d: DeviceInfo) -> bool {
    &&& has_graphics_family(d.queue_families@)
    &&& has_present_family(d.queue_families@)
    &&& spec_supports_extension(d.extension_names@, swapchain_extension_name())
    &&& d.formats@.len() > 0
    &&& d.present_modes@.len() > 0
}

pub fn is_device_suitable(d: &DeviceInfo) -> (r: bool)
    ensures
        r == spec_device_suitable(*d),
{
    let (graphics, present) = find_queue_families(&d.queue_families);
    let wanted = swapchain_extension_name_bytes();
    let has_extension = supports_extension(&d.extension_names, &wanted);
    graphics.is_some() && present.is_some() && has_extension && d.formats.len() > 0
        && d.present_modes.len() > 0
}

/// Return the index of the first enumerated device that qualifies, or report
/// that no device can run the program. Selection only queries; it changes
/// nothing.
pub fn select_device(devices: &Vec<DeviceInfo>) -> (r: Result<usize, InitError>)
    ensures
        r matches Ok(i) ==> i < devices@.len() && spec_device_suitable(devices@[i as int])
            && (forall|j: int| 0 <= j < i ==> !spec_device_suitable(devices@[j])),
        r matches Err(e) ==> e == InitError::NoSuitableDevice
            && (forall|j: int| 0 <= j < devices@.len() ==> !spec_device_suitable(devices@[j])),
{
    let mut i: usize = 0;
    while i < devices.len()
        invariant
            i <= devices@.len(),
            forall|j: int| 0 <= j < i ==> !spec_device_suitable(devices@[j]),
        decreases devices@.len() - i,
    {
        if is_device_suitable(&devices[i]) {
            return Ok(i);
        }
        i = i + 1;
    }
    Err(InitError::NoSuitableDevice)
}

/// The queue families the logical device must create queues for: the
/// graphics family and the present family, listed once each — a single
/// entry when the two coincide.
pub fn unique_queue_families(graphics: usize, present: usize) -> (v: Vec<usize>)
    ensures
        graphics == present ==> v@ == seq![graphics],
        graphics != present ==> v@ == seq![graphics, present],
{
    let mut v: Vec<usize> = Vec::new();
    v.push(graphics);
    if graphics != present {
        v.push(present);
    }
    proof {
        if graphics == present {
            assert(v@ =~= seq![graphics]);
        } else {
            assert(v@ =~= seq![graphics, present]);
        }
    }
    v
}

/// Any device that selection accepts has a resolvable graphics-capable queue
/// family index and a resolvable present-capable queue family index for the
/// provided surface.
pub proof fn lemma_selected_device_resolves_queues(devices: Seq<DeviceInfo>, i: int)
    requires
        0 <= i < devices.len(),
        spec_device_suitable(devices[i]),
    ensures
        has_graphics_family(devices[i].queue_families@),
        has_present_family(devices[i].queue_families@),
{
}

} // verus!
