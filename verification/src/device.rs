//! Choice of the GPU and of the queue family that will take the drawing
//! commands.

use vstd::prelude::*;
use vulkano::device::DeviceExtensions;

verus! {

/// vulkano's `DeviceExtensions`: a list of the device extensions it knows,
/// each either set or not. Its fields are hidden from proofs; what is
/// set in one goes by `extension_names`.
#[verifier::external_type_specification]
#[verifier::external_body]
pub struct ExDeviceExtensions(vulkano::device::DeviceExtensions);

/// The Vulkan names (such as `VK_KHR_swapchain`) of the extensions that
/// are set in a list. It stands for the list's contents and has no
/// definition here.
pub uninterp spec fn extension_names(extensions: DeviceExtensions) -> Set<Seq<char>>;

/// Calls vulkano's `DeviceExtensions::is_superset_of`. By vulkano's source
/// it goes through every extension and holds exactly when each one that is
/// set in `required` is set in `supported` too. The contract is taken on
/// trust from that source; nothing here proves it.
#[verifier::external_body]
fn covers(supported: &DeviceExtensions, required: &DeviceExtensions) -> (all_there: bool)
    ensures
        all_there == extension_names(*required).subset_of(extension_names(*supported)),
{
    supported.is_superset_of(required)
}

/// What the selection reads of one queue family.
#[derive(Clone, Copy, Debug, PartialEq, Eq, Structural)]
pub struct QueueFamilyInfo {
    pub supports_graphics: bool,
}

/// What the selection reads of one physical device: the device extensions
/// it offers, and its queue families in the order the driver lists them.
#[derive(Debug)]
pub struct DeviceInfo {
    pub supported_extensions: DeviceExtensions,
    pub queue_families: Vec<QueueFamilyInfo>,
}

/// A device to create a logical device on, and the queue family to ask a
/// queue from. Both are positions in the lists the selection was given.
#[derive(Clone, Copy, Debug, PartialEq, Eq, Structural)]
pub struct Candidate {
    pub device: usize,
    pub family: usize,
}

/// Some family in the list can take graphics commands.
pub open spec fn has_graphics(families: Seq<QueueFamilyInfo>) -> bool {
    exists|i: int| 0 <= i < families.len() && (#[trigger] families[i]).supports_graphics
}

/// `i` is the position of the first family that can take graphics commands.
pub open spec fn is_first_graphics(families: Seq<QueueFamilyInfo>, i: int) -> bool {
    &&& 0 <= i < families.len()
    &&& families[i].supports_graphics
    &&& forall|j: int| 0 <= j < i ==> !(#[trigger] families[j]).supports_graphics
}

/// The device offers every extension in `required`.
pub open spec fn offers(device: DeviceInfo, required: DeviceExtensions) -> bool {
    extension_names(required).subset_of(extension_names(device.supported_extensions))
}

/// A device is usable when it offers the required extensions and has a
/// queue family for graphics.
pub open spec fn usable(device: DeviceInfo, required: DeviceExtensions) -> bool {
    offers(device, required) && has_graphics(device.queue_families@)
}

/// `candidate` is the first usable device at or after position `from`,
/// with its first graphics family.
pub open spec fn is_next_candidate(
    devices: Seq<DeviceInfo>,
    required: DeviceExtensions,
    from: int,
    candidate: Candidate,
) -> bool {
    &&& from <= candidate.device < devices.len()
    &&& offers(devices[candidate.device as int], required)
    &&& is_first_graphics(
        devices[candidate.device as int].queue_families@,
        candidate.family as int,
    )
    &&& forall|j: int| from <= j < candidate.device ==> !usable(#[trigger] devices[j], required)
}

/// No device at or after position `from` is usable.
pub open spec fn none_usable(
    devices: Seq<DeviceInfo>,
    required: DeviceExtensions,
    from: int,
) -> bool {
    forall|j: int|
        0 <= j && from <= j < devices.len() ==> !usable(#[trigger] devices[j], required)
}

/// Finds the first queue family that can take graphics commands.
pub fn first_graphics_family(families: &Vec<QueueFamilyInfo>) -> (found: Option<usize>)
    ensures
        match found {
            Some(i) => is_first_graphics(families@, i as int),
            None => !has_graphics(families@),
        },
{
    let mut i: usize = 0;
    while i < families.len()
        invariant
            i <= families.len(),
            forall|j: int| 0 <= j < i ==> !(#[trigger] families@[j]).supports_graphics,
        decreases families.len() - i,
    {
        if families[i].supports_graphics {
            return Some(i);
        }
        i += 1;
    }
    None
}

/// Finds the next device worth trying, starting at position `from`: the
/// first one that offers every extension in `required` and has a queue
/// family for graphics.
///
/// The caller tries to create a logical device on the candidate; where that
/// fails it asks again from the position after the candidate's, until a
/// device is created or no candidate is left.
pub fn next_candidate(
    devices: &Vec<DeviceInfo>,
    required: &DeviceExtensions,
    from: usize,
) -> (found: Option<Candidate>)
    ensures
        match found {
            Some(c) => is_next_candidate(devices@, *required, from as int, c),
            None => none_usable(devices@, *required, from as int),
        },
{
    let mut d: usize = from;
    while d < devices.len()
        invariant
            from <= d,
            forall|j: int|
                from <= j < d && j < devices.len() ==> !usable(#[trigger] devices@[j], *required),
        decreases devices.len() - d,
    {
        if covers(&devices[d].supported_extensions, required) {
            match first_graphics_family(&devices[d].queue_families) {
                Some(f) => {
                    return Some(Candidate { device: d, family: f });
                },
                None => {},
            }
        }
        d += 1;
    }
    None
}

impl Candidate {
    /// Where the search goes on when this candidate could not be used.
    pub fn resume_from(&self) -> (from: Option<usize>)
        ensures
            from == (if self.device < usize::MAX {
                Some((self.device + 1) as usize)
            } else {
                None
            }),
    {
        if self.device < usize::MAX {
            Some(self.device + 1)
        } else {
            None
        }
    }
}

/// Whoever is found first is found from every earlier starting point that
/// has no usable device in between: skipping unusable devices changes
/// nothing.
pub proof fn lemma_search_skips_unusable(
    devices: Seq<DeviceInfo>,
    required: DeviceExtensions,
    earlier: int,
    from: int,
    candidate: Candidate,
)
    requires
        0 <= earlier <= from,
        is_next_candidate(devices, required, from, candidate),
        forall|j: int| earlier <= j < from ==> !usable(#[trigger] devices[j], required),
    ensures
        is_next_candidate(devices, required, earlier, candidate),
{
}

/// The candidate found from a starting point is unique.
pub proof fn lemma_candidate_unique(
    devices: Seq<DeviceInfo>,
    required: DeviceExtensions,
    from: int,
    a: Candidate,
    b: Candidate,
)
    requires
        0 <= from,
        is_next_candidate(devices, required, from, a),
        is_next_candidate(devices, required, from, b),
    ensures
        a == b,
{
    let fa = devices[a.device as int].queue_families@;
    let fb = devices[b.device as int].queue_families@;
    assert(fa[a.family as int].supports_graphics);
    assert(fb[b.family as int].supports_graphics);
    assert(usable(devices[a.device as int], required));
    assert(usable(devices[b.device as int], required));
}

/// A search cannot both find a candidate and find that no device is
/// usable: the two outcomes exclude each other.
pub proof fn lemma_found_excludes_none(
    devices: Seq<DeviceInfo>,
    required: DeviceExtensions,
    from: int,
    candidate: Candidate,
)
    requires
        0 <= from,
        is_next_candidate(devices, required, from, candidate),
    ensures
        !none_usable(devices, required, from),
{
    let fams = devices[candidate.device as int].queue_families@;
    assert(fams[candidate.family as int].supports_graphics);
    assert(usable(devices[candidate.device as int], required));
}

} // verus!
