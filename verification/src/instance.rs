//! Instance creation decisions: the optional instance extensions, the API
//! version check, which requested names the implementation lacks, and how
//! creation errors map to the library's errors.

use vstd::prelude::*;

use crate::errors::{is_out_of_memory_code, OutOfMemoryError};
use crate::names::{
    contains_name, debug_utils_name, get_surface_capabilities2_name, lemma_names_distinct,
    lemma_push_if_contains, push_if, surface_maintenance1_name,
};
use crate::vulkan::{
    api_version_1_0, error_out_of_device_memory, error_out_of_host_memory,
};

verus! {

/// The optional instance extensions, and how many of them are set.
#[derive(Debug, Clone, Copy, PartialEq, Eq, Structural)]
pub struct InstanceOptionalExtensions {
    pub get_surface_capabilities2: bool,
    pub surface_maintenance1: bool,
    pub count: usize,
}

/// 1 for a set flag, 0 otherwise.
pub open spec fn flag_value(b: bool) -> nat {
    if b {
        1
    } else {
        0
    }
}

impl InstanceOptionalExtensions {
    /// The number of set flags.
    pub open spec fn flag_count(self) -> nat {
        flag_value(self.get_surface_capabilities2) + flag_value(self.surface_maintenance1)
    }

    /// `count` is the number of set flags.
    pub open spec fn well_formed(self) -> bool {
        self.count == self.flag_count()
    }

    /// How many flags of `self` that `wanted` lacks.
    pub open spec fn unwanted_count(self, wanted: Self) -> nat {
        flag_value(self.get_surface_capabilities2 && !wanted.get_surface_capabilities2)
            + flag_value(self.surface_maintenance1 && !wanted.surface_maintenance1)
    }

    /// The names of the set flags' extensions, in declaration order.
    pub open spec fn extension_names(self) -> Seq<Seq<char>> {
        let s = push_if(Seq::empty(), self.get_surface_capabilities2, get_surface_capabilities2_name());
        push_if(s, self.surface_maintenance1, surface_maintenance1_name())
    }

    /// `self` without the flags that `wanted` lacks, `count` lowered by one
    /// for each flag dropped.
    pub open spec fn only_wanted(self, wanted: Self) -> Self {
        InstanceOptionalExtensions {
            get_surface_capabilities2: self.get_surface_capabilities2 && wanted.get_surface_capabilities2,
            surface_maintenance1: self.surface_maintenance1 && wanted.surface_maintenance1,
            count: (self.count - self.unwanted_count(wanted)) as usize,
        }
    }

    /// The optional extensions that an implementation reporting the
    /// extension names `names` supports.
    pub open spec fn from_names(names: Seq<Seq<char>>) -> Self {
        let get_surface_capabilities2 = names.contains(get_surface_capabilities2_name());
        let surface_maintenance1 = names.contains(surface_maintenance1_name());
        InstanceOptionalExtensions {
            get_surface_capabilities2,
            surface_maintenance1,
            count: (flag_value(get_surface_capabilities2) + flag_value(surface_maintenance1)) as usize,
        }
    }

    /// Every optional extension.
    pub fn full() -> (r: Self)
        ensures
            r.get_surface_capabilities2,
            r.surface_maintenance1,
            r.count == 2,
            r.well_formed(),
    {
        Self { get_surface_capabilities2: true, surface_maintenance1: true, count: 2 }
    }

    /// The optional extensions among `names`, the instance extension names
    /// that the Vulkan implementation reports.
    pub fn mark_supported_by_names(names: &Vec<String>) -> (r: Self)
        ensures
            r == Self::from_names(names.deep_view()),
            r.well_formed(),
    {
        let mut supported = Self::default();

        let mut supported_count: usize = 0;
        if contains_name(names, &crate::names::get_surface_capabilities2()) {
            supported.get_surface_capabilities2 = true;
            supported_count += 1;
        }
        if contains_name(names, &crate::names::surface_maintenance1()) {
            supported.surface_maintenance1 = true;
            supported_count += 1;
        }

        supported.count = supported_count;
        supported
    }

    /// Keeps only the extensions that `wanted` holds too.
    pub fn filter_only_wanted(&mut self, wanted: Self)
        requires
            old(self).count >= old(self).unwanted_count(wanted),
        ensures
            *final(self) == old(self).only_wanted(wanted),
    {
        if !wanted.get_surface_capabilities2 && self.get_surface_capabilities2 {
            self.get_surface_capabilities2 = false;
            self.count -= 1;
        }
        if !wanted.surface_maintenance1 && self.surface_maintenance1 {
            self.surface_maintenance1 = false;
            self.count -= 1;
        }
    }

    /// The names of the extensions to enable, one for each set flag.
    pub fn get_extension_list(&self) -> (r: Vec<String>)
        ensures
            r.deep_view() == self.extension_names(),
    {
        let mut names: Vec<String> = Vec::new();
        assert(names.deep_view() =~= Seq::<Seq<char>>::empty());
        if self.get_surface_capabilities2 {
            names.push(crate::names::get_surface_capabilities2());
        }
        assert(names.deep_view() =~= push_if(Seq::empty(), self.get_surface_capabilities2, get_surface_capabilities2_name()));
        let ghost s1 = names.deep_view();
        if self.surface_maintenance1 {
            names.push(crate::names::surface_maintenance1());
        }
        assert(names.deep_view() =~= push_if(s1, self.surface_maintenance1, surface_maintenance1_name()));
        names
    }
}

impl Default for InstanceOptionalExtensions {
    fn default() -> (r: Self)
        ensures
            !r.get_surface_capabilities2,
            !r.surface_maintenance1,
            r.count == 0,
            r.well_formed(),
    {
        Self { get_surface_capabilities2: false, surface_maintenance1: false, count: 0 }
    }
}

/// Declares ash's result code type, carried through unread.
#[verifier::external_type_specification]
#[verifier::external_body]
pub struct ExVkResult(ash::vk::Result);

/// Why a Vulkan instance could not be created.
#[derive(Debug, Clone, PartialEq, Eq)]
pub enum InstanceCreationError {
    /// The implementation's highest API version (first) is below the
    /// application's target version (second).
    UnsupportedApiVersion(u32, u32),
    MissingExtension(String),
    MissingLayer(String),
    OutOfMemory(OutOfMemoryError),
    VulkanInitializationFailed,
}

/// Every name of `requested` is in `available`.
pub open spec fn all_available(requested: Seq<Seq<char>>, available: Seq<Seq<char>>) -> bool {
    forall|i: int| 0 <= i < requested.len() ==> available.contains(#[trigger] requested[i])
}

/// `name` is the first name of `requested` that `available` lacks.
pub open spec fn is_first_missing(
    requested: Seq<Seq<char>>,
    available: Seq<Seq<char>>,
    name: Seq<char>,
) -> bool {
    exists|i: int|
        0 <= i < requested.len() && #[trigger] requested[i] == name && !available.contains(name)
            && all_available(requested.take(i), available)
}

/// The highest API version that the implementation reported, where a
/// failed or empty report stands for Vulkan 1.0.
pub open spec fn reported_api_version(reported: Result<Option<u32>, ash::vk::Result>) -> u32 {
    match reported {
        Ok(Some(version)) => version,
        _ => 0x40_0000,
    }
}

/// The highest API version that the implementation supports, from what
/// `vkEnumerateInstanceVersion` reported: a Vulkan 1.0 implementation
/// reports nothing or fails.
pub fn max_supported_api_version(reported: &Result<Option<u32>, ash::vk::Result>) -> (r: u32)
    ensures
        r == reported_api_version(*reported),
{
    match reported {
        Ok(opt) => match opt {
            Some(version) => *version,
            None => api_version_1_0(),
        },
        Err(_) => api_version_1_0(),
    }
}

/// Checks that the implementation supports the API version
/// `target_api_version`.
pub fn check_api_version(
    reported: &Result<Option<u32>, ash::vk::Result>,
    target_api_version: u32,
) -> (r: Result<(), InstanceCreationError>)
    ensures
        r is Ok <==> reported_api_version(*reported) >= target_api_version,
        r is Err ==> r == Err::<(), InstanceCreationError>(
            InstanceCreationError::UnsupportedApiVersion(
                reported_api_version(*reported),
                target_api_version,
            ),
        ),
{
    let max_supported_version: u32 = max_supported_api_version(reported);
    if max_supported_version < target_api_version {
        return Err(
            InstanceCreationError::UnsupportedApiVersion(max_supported_version, target_api_version),
        );
    }
    Ok(())
}

/// The first name of `requested` that `available` lacks, if any.
pub fn first_missing(requested: &Vec<String>, available: &Vec<String>) -> (r: Option<String>)
    ensures
        r is None <==> all_available(requested.deep_view(), available.deep_view()),
        r matches Some(name) ==> is_first_missing(requested.deep_view(), available.deep_view(), name@),
{
    let n: usize = requested.len();
    let mut i: usize = 0;
    while i < n
        invariant
            n == requested.len(),
            i <= n,
            all_available(requested.deep_view().take(i as int), available.deep_view()),
        decreases n - i,
    {
        if !contains_name(available, &requested[i]) {
            let name = requested[i].clone();
            assert(requested.deep_view()[i as int] == name@);
            proof {
                if all_available(requested.deep_view(), available.deep_view()) {
                    assert(available.deep_view().contains(requested.deep_view()[i as int]));
                }
            }
            return Some(name);
        }
        assert forall|j: int| 0 <= j < i + 1 implies available.deep_view().contains(
            #[trigger] requested.deep_view().take(i + 1)[j],
        ) by {
            if j < i {
                assert(requested.deep_view().take(i as int)[j] == requested.deep_view().take(i + 1)[j]);
            }
        }
        i = i + 1;
    }
    assert(requested.deep_view().take(n as int) =~= requested.deep_view());
    None
}

/// Checks that every requested extension, then every requested layer, is
/// available.
pub fn check_requested(
    extensions: &Vec<String>,
    available_extensions: &Vec<String>,
    layers: &Vec<String>,
    available_layers: &Vec<String>,
) -> (r: Result<(), InstanceCreationError>)
    ensures
        r is Ok <==> all_available(extensions.deep_view(), available_extensions.deep_view())
            && all_available(layers.deep_view(), available_layers.deep_view()),
        !all_available(extensions.deep_view(), available_extensions.deep_view()) ==> (r matches Err(
            InstanceCreationError::MissingExtension(name),
        ) && is_first_missing(extensions.deep_view(), available_extensions.deep_view(), name@)),
        all_available(extensions.deep_view(), available_extensions.deep_view()) && !all_available(
            layers.deep_view(),
            available_layers.deep_view(),
        ) ==> (r matches Err(InstanceCreationError::MissingLayer(name)) && is_first_missing(
            layers.deep_view(),
            available_layers.deep_view(),
            name@,
        )),
{
    if let Some(extension) = first_missing(extensions, available_extensions) {
        return Err(InstanceCreationError::MissingExtension(extension));
    }
    if let Some(layer) = first_missing(layers, available_layers) {
        return Err(InstanceCreationError::MissingLayer(layer));
    }
    Ok(())
}

/// The instance extensions to request: the ones the surface needs, the
/// enabled optional ones, and with validation the debug utilities.
pub open spec fn requested_instance_extensions(
    surface_extensions: Seq<Seq<char>>,
    enabled: InstanceOptionalExtensions,
    debug_utils: bool,
) -> Seq<Seq<char>> {
    push_if(surface_extensions + enabled.extension_names(), debug_utils, debug_utils_name())
}

/// The optional extensions to enable, those `supported` and `wanted`, and
/// the names of all instance extensions to request: first the
/// `surface_extensions`, then the optional ones, then, when `debug_utils`
/// holds, the debug utilities extension.
pub fn instance_extensions_to_request(
    surface_extensions: Vec<String>,
    supported: InstanceOptionalExtensions,
    wanted: InstanceOptionalExtensions,
    debug_utils: bool,
) -> (r: (InstanceOptionalExtensions, Vec<String>))
    requires
        supported.count >= supported.unwanted_count(wanted),
    ensures
        r.0 == supported.only_wanted(wanted),
        r.1.deep_view() == requested_instance_extensions(
            surface_extensions.deep_view(),
            r.0,
            debug_utils,
        ),
{
    let mut optional_extensions = supported;
    optional_extensions.filter_only_wanted(wanted);
    let mut optional_extensions_list = optional_extensions.get_extension_list();
    let ghost optional_names = optional_extensions_list.deep_view();

    let mut extensions = surface_extensions;
    let ghost surface_names = extensions.deep_view();
    extensions.append(&mut optional_extensions_list);
    assert(extensions.deep_view() =~= surface_names + optional_names);
    let ghost before_debug = extensions.deep_view();
    if debug_utils {
        extensions.push(crate::names::debug_utils());
    }
    assert(extensions.deep_view() =~= push_if(before_debug, debug_utils, debug_utils_name()));
    (optional_extensions, extensions)
}

/// Whether `code` is a result code that instance creation can fail with
/// once its extensions and layers were checked.
pub open spec fn is_instance_creation_error_code(code: i32) -> bool {
    is_out_of_memory_code(code) || code == -3
}

impl InstanceCreationError {
    /// The error that the instance creation result code `code` reports.
    pub fn from_result_code(code: i32) -> (r: Self)
        requires
            is_instance_creation_error_code(code),
        ensures
            code == -1 ==> r == InstanceCreationError::OutOfMemory(OutOfMemoryError::OutOfHostMemory),
            code == -2 ==> r == InstanceCreationError::OutOfMemory(
                OutOfMemoryError::OutOfDeviceMemory,
            ),
            code == -3 ==> r == InstanceCreationError::VulkanInitializationFailed,
    {
        if code == error_out_of_host_memory() || code == error_out_of_device_memory() {
            InstanceCreationError::OutOfMemory(OutOfMemoryError::from_result_code(code))
        } else {
            InstanceCreationError::VulkanInitializationFailed
        }
    }
}

} // verus!

verus! {

/// Filtering a well-formed set keeps it well-formed, and never lowers
/// `count` below zero.
pub proof fn lemma_only_wanted_well_formed(
    e: InstanceOptionalExtensions,
    wanted: InstanceOptionalExtensions,
)
    requires
        e.well_formed(),
    ensures
        e.count >= e.unwanted_count(wanted),
        e.only_wanted(wanted).well_formed(),
{
}

/// A well-formed set names as many extensions as its `count`, none twice.
pub proof fn lemma_instance_extension_names_count(e: InstanceOptionalExtensions)
    requires
        e.well_formed(),
    ensures
        e.extension_names().len() == e.count,
        e.extension_names().no_duplicates(),
{
    lemma_names_distinct();
    let s1 = push_if(Seq::empty(), e.get_surface_capabilities2, get_surface_capabilities2_name());
    lemma_push_if_contains(Seq::empty(), e.get_surface_capabilities2, get_surface_capabilities2_name(), surface_maintenance1_name());
    crate::names::lemma_push_if_no_duplicates(Seq::empty(), e.get_surface_capabilities2, get_surface_capabilities2_name());
    crate::names::lemma_push_if_no_duplicates(s1, e.surface_maintenance1, surface_maintenance1_name());
}

/// Marking the extensions named by a well-formed set's own name list gives
/// back that set.
pub proof fn lemma_instance_names_round_trip(e: InstanceOptionalExtensions)
    requires
        e.well_formed(),
    ensures
        InstanceOptionalExtensions::from_names(e.extension_names()) == e,
{
    lemma_names_distinct();
    let s1 = push_if(Seq::empty(), e.get_surface_capabilities2, get_surface_capabilities2_name());
    lemma_push_if_contains(Seq::empty(), e.get_surface_capabilities2, get_surface_capabilities2_name(), get_surface_capabilities2_name());
    lemma_push_if_contains(Seq::empty(), e.get_surface_capabilities2, get_surface_capabilities2_name(), surface_maintenance1_name());
    lemma_push_if_contains(s1, e.surface_maintenance1, surface_maintenance1_name(), get_surface_capabilities2_name());
    lemma_push_if_contains(s1, e.surface_maintenance1, surface_maintenance1_name(), surface_maintenance1_name());
}

} // verus!

verus! {

/// The instance extensions requested are the surface extensions, in their
/// order and whatever `debug_utils` is, followed by the names of the enabled
/// optional extensions, followed by `VK_EXT_debug_utils` exactly when
/// `debug_utils` holds.
pub proof fn lemma_requested_instance_extensions(
    surface_extensions: Seq<Seq<char>>,
    enabled: InstanceOptionalExtensions,
    debug_utils: bool,
)
    ensures
        requested_instance_extensions(surface_extensions, enabled, debug_utils).len()
            == surface_extensions.len() + enabled.extension_names().len() + (if debug_utils {
            1int
        } else {
            0int
        }),
        requested_instance_extensions(surface_extensions, enabled, debug_utils).take(
            surface_extensions.len() as int,
        ) == surface_extensions,
        requested_instance_extensions(surface_extensions, enabled, debug_utils).subrange(
            surface_extensions.len() as int,
            (surface_extensions.len() + enabled.extension_names().len()) as int,
        ) == enabled.extension_names(),
        debug_utils ==> requested_instance_extensions(surface_extensions, enabled, debug_utils).last()
            == "VK_EXT_debug_utils"@,
{
    let r = requested_instance_extensions(surface_extensions, enabled, debug_utils);
    let base = surface_extensions + enabled.extension_names();
    assert(r.take(surface_extensions.len() as int) =~= surface_extensions);
    assert(r.subrange(
        surface_extensions.len() as int,
        (surface_extensions.len() + enabled.extension_names().len()) as int,
    ) =~= enabled.extension_names());
}

/// The optional instance extensions' names list names exactly the set
/// flags' extensions.
pub proof fn lemma_instance_extension_names_contains(e: InstanceOptionalExtensions, x: Seq<char>)
    ensures
        e.extension_names().contains(x) == ((e.get_surface_capabilities2 && x
            == "VK_KHR_get_surface_capabilities2"@) || (e.surface_maintenance1 && x
            == "VK_KHR_surface_maintenance1"@)),
{
    let s1 = push_if(Seq::empty(), e.get_surface_capabilities2, get_surface_capabilities2_name());
    lemma_push_if_contains(Seq::empty(), e.get_surface_capabilities2, get_surface_capabilities2_name(), x);
    lemma_push_if_contains(s1, e.surface_maintenance1, surface_maintenance1_name(), x);
}

/// An implementation is marked as supporting an optional instance extension
/// exactly when it reports that extension's name, whatever else it reports;
/// `count` is the number of those reported. Reporting one more name never
/// unmarks an extension, and reporting a name of neither extension changes
/// nothing.
pub proof fn lemma_instance_from_names(names: Seq<Seq<char>>, x: Seq<char>)
    ensures
        InstanceOptionalExtensions::from_names(names).get_surface_capabilities2 == names.contains(
            "VK_KHR_get_surface_capabilities2"@,
        ),
        InstanceOptionalExtensions::from_names(names).surface_maintenance1 == names.contains(
            "VK_KHR_surface_maintenance1"@,
        ),
        InstanceOptionalExtensions::from_names(names).count == (if names.contains(
            "VK_KHR_get_surface_capabilities2"@,
        ) {
            1int
        } else {
            0int
        }) + (if names.contains("VK_KHR_surface_maintenance1"@) {
            1int
        } else {
            0int
        }),
        InstanceOptionalExtensions::from_names(names).get_surface_capabilities2
            ==> InstanceOptionalExtensions::from_names(names.push(x)).get_surface_capabilities2,
        InstanceOptionalExtensions::from_names(names).surface_maintenance1
            ==> InstanceOptionalExtensions::from_names(names.push(x)).surface_maintenance1,
        x != "VK_KHR_get_surface_capabilities2"@ && x != "VK_KHR_surface_maintenance1"@
            ==> InstanceOptionalExtensions::from_names(names.push(x))
            == InstanceOptionalExtensions::from_names(names),
{
    lemma_push_if_contains(names, true, x, get_surface_capabilities2_name());
    lemma_push_if_contains(names, true, x, surface_maintenance1_name());
}

} // verus!

verus! {

/// Filtering by the wanted extensions keeps a flag exactly when it was set
/// and is wanted; filtering by every extension changes nothing, filtering
/// by none clears every flag, and filtering twice by the same set is
/// filtering once.
pub proof fn lemma_only_wanted(e: InstanceOptionalExtensions, wanted: InstanceOptionalExtensions)
    requires
        e.well_formed(),
    ensures
        e.only_wanted(wanted).get_surface_capabilities2 == (e.get_surface_capabilities2
            && wanted.get_surface_capabilities2),
        e.only_wanted(wanted).surface_maintenance1 == (e.surface_maintenance1
            && wanted.surface_maintenance1),
        e.only_wanted(wanted).count == (if e.get_surface_capabilities2
            && wanted.get_surface_capabilities2 {
            1int
        } else {
            0int
        }) + (if e.surface_maintenance1 && wanted.surface_maintenance1 {
            1int
        } else {
            0int
        }),
        wanted.get_surface_capabilities2 && wanted.surface_maintenance1 ==> e.only_wanted(wanted)
            == e,
        !wanted.get_surface_capabilities2 && !wanted.surface_maintenance1 ==> e.only_wanted(
            wanted,
        ).count == 0,
        e.only_wanted(wanted).only_wanted(wanted) == e.only_wanted(wanted),
{
}

/// The implementation's highest version is the one it reported, or Vulkan
/// 1.0 (`1 << 22`) when it reported none or failed.
pub proof fn lemma_reported_api_version(v: u32, err: ash::vk::Result)
    ensures
        reported_api_version(Ok(Some(v))) == v,
        reported_api_version(Ok(None)) == 0x40_0000,
        reported_api_version(Err(err)) == 0x40_0000,
{
}

/// All requested names are available exactly when each is, one by one; a
/// missing name is found exactly when not all are available, and it is
/// the only first missing name.
pub proof fn lemma_first_missing(
    requested: Seq<Seq<char>>,
    available: Seq<Seq<char>>,
    x: Seq<char>,
    n1: Seq<char>,
    n2: Seq<char>,
)
    ensures
        all_available(Seq::empty(), available),
        all_available(requested.push(x), available) == (all_available(requested, available)
            && available.contains(x)),
        is_first_missing(requested, available, n1) ==> !all_available(requested, available),
        is_first_missing(requested, available, n1) && is_first_missing(requested, available, n2)
            ==> n1 == n2,
        !all_available(requested, available) ==> exists|n: Seq<char>|
            is_first_missing(requested, available, n),
{
    let r2 = requested.push(x);
    if all_available(r2, available) {
        assert forall|i: int| 0 <= i < requested.len() implies available.contains(
            #[trigger] requested[i],
        ) by {
            assert(r2[i] == requested[i]);
        }
        assert(r2[requested.len() as int] == x);
    }
    if all_available(requested, available) && available.contains(x) {
        assert forall|i: int| 0 <= i < r2.len() implies available.contains(#[trigger] r2[i]) by {
            if i < requested.len() {
                assert(r2[i] == requested[i]);
            }
        }
    }
    if is_first_missing(requested, available, n1) {
        let i = choose|i: int|
            0 <= i < requested.len() && #[trigger] requested[i] == n1 && !available.contains(n1)
                && all_available(requested.take(i), available);
        if is_first_missing(requested, available, n2) {
            let j = choose|j: int|
                0 <= j < requested.len() && #[trigger] requested[j] == n2 && !available.contains(n2)
                    && all_available(requested.take(j), available);
            if i < j {
                assert(requested.take(j)[i] == requested[i]);
            } else if j < i {
                assert(requested.take(i)[j] == requested[j]);
            }
        }
    }
    if !all_available(requested, available) {
        lemma_first_missing_exists(requested, available);
    }
}

/// When not every requested name is available, there is a first missing one.
proof fn lemma_first_missing_exists(requested: Seq<Seq<char>>, available: Seq<Seq<char>>)
    requires
        !all_available(requested, available),
    ensures
        exists|n: Seq<char>| is_first_missing(requested, available, n),
    decreases requested.len(),
{
    let last = requested.len() - 1;
    let front = requested.take(last);
    if all_available(front, available) {
        assert(!available.contains(requested[last])) by {
            if available.contains(requested[last]) {
                assert forall|i: int| 0 <= i < requested.len() implies available.contains(
                    #[trigger] requested[i],
                ) by {
                    if i < last {
                        assert(front[i] == requested[i]);
                    }
                }
            }
        }
        assert(requested.take(last) == front);
        assert(is_first_missing(requested, available, requested[last]));
    } else {
        lemma_first_missing_exists(front, available);
        let n = choose|n: Seq<char>| is_first_missing(front, available, n);
        let i = choose|i: int|
            0 <= i < front.len() && #[trigger] front[i] == n && !available.contains(n)
                && all_available(front.take(i), available);
        assert(front.take(i) =~= requested.take(i));
        assert(requested[i] == n);
        assert(is_first_missing(requested, available, n));
    }
}

} // verus!
