//! The optional device extensions the library knows of, as a set of flags.

use vstd::prelude::*;

use crate::names::{
    contains_name, lemma_names_distinct, lemma_push_if_contains, lemma_push_if_no_duplicates, push_if, dynamic_rendering_local_read_name, memory_priority_name,
    pageable_device_local_memory_name, swapchain_maintenance1_name, swapchain_name,
};

verus! {

/// One device extension that [`DeviceExtensions`] can hold.
#[derive(Debug, Clone, Copy, PartialEq, Eq, Structural)]
pub enum DeviceExtension {
    MemoryPriority,
    PageableDeviceLocalMemory,
    Swapchain,
    SwapchainMaintenance1,
    DynamicRenderingLocalRead,
}

/// A set of device extensions, one flag each.
#[derive(Debug, Clone, Copy, PartialEq, Eq, Structural)]
pub struct DeviceExtensions {
    pub memory_priority: bool,
    pub pageable_device_local_memory: bool,
    pub swapchain: bool,
    pub swapchain_maintenance1: bool,
    pub dynamic_rendering_local_read: bool,
}

impl DeviceExtensions {
    /// Whether the flag of `e` is set.
    pub open spec fn has(self, e: DeviceExtension) -> bool {
        match e {
            DeviceExtension::MemoryPriority => self.memory_priority,
            DeviceExtension::PageableDeviceLocalMemory => self.pageable_device_local_memory,
            DeviceExtension::Swapchain => self.swapchain,
            DeviceExtension::SwapchainMaintenance1 => self.swapchain_maintenance1,
            DeviceExtension::DynamicRenderingLocalRead => self.dynamic_rendering_local_read,
        }
    }
}

impl View for DeviceExtensions {
    type V = Set<DeviceExtension>;

    open spec fn view(&self) -> Set<DeviceExtension> {
        Set::new(|e: DeviceExtension| self.has(e))
    }
}

impl DeviceExtensions {
    /// The flag set with no flag set.
    pub open spec fn none() -> Self {
        DeviceExtensions {
            memory_priority: false,
            pageable_device_local_memory: false,
            swapchain: false,
            swapchain_maintenance1: false,
            dynamic_rendering_local_read: false,
        }
    }
}

impl Default for DeviceExtensions {
    fn default() -> (r: Self)
        ensures
            r == Self::none(),
            r@ == Set::<DeviceExtension>::empty(),
    {
        let r = DeviceExtensions {
            memory_priority: false,
            pageable_device_local_memory: false,
            swapchain: false,
            swapchain_maintenance1: false,
            dynamic_rendering_local_read: false,
        };
        assert(r@ =~= Set::<DeviceExtension>::empty());
        r
    }
}


impl DeviceExtensions {
    /// Returns the extensions of `other` that are missing in `self`, or
    /// `None` when none are.
    pub fn filter_missing(&self, other: Self) -> (r: Option<Self>)
        ensures
            r is None <==> other@.subset_of(self@),
            r matches Some(missing) ==> missing@ == other@.difference(self@),
    {
        let mut none_missing = true;
        let mut missing = Self::default();

        if other.memory_priority && !self.memory_priority {
            missing.memory_priority = true;
            none_missing = false;
        }
        if other.pageable_device_local_memory && !self.pageable_device_local_memory {
            missing.pageable_device_local_memory = true;
            none_missing = false;
        }
        if other.swapchain && !self.swapchain {
            missing.swapchain = true;
            none_missing = false;
        }
        if other.swapchain_maintenance1 && !self.swapchain_maintenance1 {
            missing.swapchain_maintenance1 = true;
            none_missing = false;
        }
        if other.dynamic_rendering_local_read && !self.dynamic_rendering_local_read {
            missing.dynamic_rendering_local_read = true;
            none_missing = false;
        }

        assert(missing@ =~= other@.difference(self@));
        if none_missing {
            assert(other@.subset_of(self@));
            return None;
        }
        assert(!other@.subset_of(self@)) by {
            if other.memory_priority && !self.memory_priority {
                assert(other@.contains(DeviceExtension::MemoryPriority));
            } else if other.pageable_device_local_memory && !self.pageable_device_local_memory {
                assert(other@.contains(DeviceExtension::PageableDeviceLocalMemory));
            } else if other.swapchain && !self.swapchain {
                assert(other@.contains(DeviceExtension::Swapchain));
            } else if other.swapchain_maintenance1 && !self.swapchain_maintenance1 {
                assert(other@.contains(DeviceExtension::SwapchainMaintenance1));
            } else {
                assert(other@.contains(DeviceExtension::DynamicRenderingLocalRead));
            }
        }
        Some(missing)
    }

    /// The extensions in both `self` and `other`.
    pub fn and(&self, other: Self) -> (r: Self)
        ensures
            r@ == self@.intersect(other@),
    {
        let mut result = Self::default();

        if other.memory_priority && self.memory_priority {
            result.memory_priority = true;
        }
        if other.pageable_device_local_memory && self.pageable_device_local_memory {
            result.pageable_device_local_memory = true;
        }
        if other.swapchain && self.swapchain {
            result.swapchain = true;
        }
        if other.swapchain_maintenance1 && self.swapchain_maintenance1 {
            result.swapchain_maintenance1 = true;
        }
        if other.dynamic_rendering_local_read && self.dynamic_rendering_local_read {
            result.dynamic_rendering_local_read = true;
        }

        assert(result@ =~= self@.intersect(other@));
        result
    }

    /// The extensions in `self` or in `other`.
    pub fn or(&self, other: Self) -> (r: Self)
        ensures
            r@ == self@.union(other@),
    {
        let mut result = Self::default();

        if other.memory_priority || self.memory_priority {
            result.memory_priority = true;
        }
        if other.pageable_device_local_memory || self.pageable_device_local_memory {
            result.pageable_device_local_memory = true;
        }
        if other.swapchain || self.swapchain {
            result.swapchain = true;
        }
        if other.swapchain_maintenance1 || self.swapchain_maintenance1 {
            result.swapchain_maintenance1 = true;
        }
        if other.dynamic_rendering_local_read || self.dynamic_rendering_local_read {
            result.dynamic_rendering_local_read = true;
        }

        assert(result@ =~= self@.union(other@));
        result
    }
}


impl DeviceExtensions {
    /// The names of the set flags' extensions, in declaration order.
    pub open spec fn extension_names(self) -> Seq<Seq<char>> {
        let s = push_if(Seq::empty(), self.memory_priority, memory_priority_name());
        let s = push_if(s, self.pageable_device_local_memory, pageable_device_local_memory_name());
        let s = push_if(s, self.swapchain, swapchain_name());
        let s = push_if(s, self.swapchain_maintenance1, swapchain_maintenance1_name());
        push_if(s, self.dynamic_rendering_local_read, dynamic_rendering_local_read_name())
    }

    /// The flags that a driver reporting the extension names `names`
    /// supports. A reported `VK_KHR_dynamic_rendering_local_read` sets the
    /// `swapchain` flag; the `dynamic_rendering_local_read` flag is never set.
    pub open spec fn from_names(names: Seq<Seq<char>>) -> Self {
        DeviceExtensions {
            memory_priority: names.contains(memory_priority_name()),
            pageable_device_local_memory: names.contains(pageable_device_local_memory_name()),
            swapchain: names.contains(swapchain_name()) || names.contains(
                dynamic_rendering_local_read_name(),
            ),
            swapchain_maintenance1: names.contains(swapchain_maintenance1_name()),
            dynamic_rendering_local_read: false,
        }
    }

    /// The extensions among `names`, the extension names that a physical
    /// device reports.
    pub fn mark_supported_by_names(names: &Vec<String>) -> (r: Self)
        ensures
            r == Self::from_names(names.deep_view()),
    {
        let mut supported = Self::default();

        if contains_name(names, &crate::names::memory_priority()) {
            supported.memory_priority = true;
        }
        if contains_name(names, &crate::names::pageable_device_local_memory()) {
            supported.pageable_device_local_memory = true;
        }
        if contains_name(names, &crate::names::swapchain()) {
            supported.swapchain = true;
        }
        if contains_name(names, &crate::names::swapchain_maintenance1()) {
            supported.swapchain_maintenance1 = true;
        }
        if contains_name(names, &crate::names::dynamic_rendering_local_read()) {
            supported.swapchain = true;
        }

        supported
    }

    /// The names of the extensions to enable, one for each set flag.
    pub fn get_extension_list(&self) -> (r: Vec<String>)
        ensures
            r.deep_view() == self.extension_names(),
    {
        let mut names: Vec<String> = Vec::new();
        assert(names.deep_view() =~= Seq::<Seq<char>>::empty());
        if self.memory_priority {
            names.push(crate::names::memory_priority());
        }
        assert(names.deep_view() =~= push_if(Seq::empty(), self.memory_priority, memory_priority_name()));
        let ghost s1 = names.deep_view();
        if self.pageable_device_local_memory {
            names.push(crate::names::pageable_device_local_memory());
        }
        assert(names.deep_view() =~= push_if(s1, self.pageable_device_local_memory, pageable_device_local_memory_name()));
        let ghost s2 = names.deep_view();
        if self.swapchain {
            names.push(crate::names::swapchain());
        }
        assert(names.deep_view() =~= push_if(s2, self.swapchain, swapchain_name()));
        let ghost s3 = names.deep_view();
        if self.swapchain_maintenance1 {
            names.push(crate::names::swapchain_maintenance1());
        }
        assert(names.deep_view() =~= push_if(s3, self.swapchain_maintenance1, swapchain_maintenance1_name()));
        let ghost s4 = names.deep_view();
        if self.dynamic_rendering_local_read {
            names.push(crate::names::dynamic_rendering_local_read());
        }
        assert(names.deep_view() =~= push_if(s4, self.dynamic_rendering_local_read, dynamic_rendering_local_read_name()));
        names
    }
}

/// Two flag sets are equal exactly when their views are.
pub proof fn lemma_device_extensions_view_injective(a: DeviceExtensions, b: DeviceExtensions)
    ensures
        (a@ == b@) <==> (a == b),
{
    if a@ == b@ {
        assert(a@.contains(DeviceExtension::MemoryPriority) == b@.contains(DeviceExtension::MemoryPriority));
        assert(a@.contains(DeviceExtension::PageableDeviceLocalMemory) == b@.contains(DeviceExtension::PageableDeviceLocalMemory));
        assert(a@.contains(DeviceExtension::Swapchain) == b@.contains(DeviceExtension::Swapchain));
        assert(a@.contains(DeviceExtension::SwapchainMaintenance1) == b@.contains(DeviceExtension::SwapchainMaintenance1));
        assert(a@.contains(DeviceExtension::DynamicRenderingLocalRead) == b@.contains(DeviceExtension::DynamicRenderingLocalRead));
    }
}

} // verus!

verus! {

/// A name occurs in `e.extension_names()` exactly when it is the name of
/// one of the set flags.
pub proof fn lemma_extension_names_contains(e: DeviceExtensions, x: Seq<char>)
    ensures
        e.extension_names().contains(x) == (
        (e.memory_priority && x == memory_priority_name())
            || (e.pageable_device_local_memory && x == pageable_device_local_memory_name())
            || (e.swapchain && x == swapchain_name())
            || (e.swapchain_maintenance1 && x == swapchain_maintenance1_name())
            || (e.dynamic_rendering_local_read && x == dynamic_rendering_local_read_name())),
{
    let s0 = Seq::<Seq<char>>::empty();
    let s1 = push_if(s0, e.memory_priority, memory_priority_name());
    let s2 = push_if(s1, e.pageable_device_local_memory, pageable_device_local_memory_name());
    let s3 = push_if(s2, e.swapchain, swapchain_name());
    let s4 = push_if(s3, e.swapchain_maintenance1, swapchain_maintenance1_name());
    lemma_push_if_contains(s0, e.memory_priority, memory_priority_name(), x);
    lemma_push_if_contains(s1, e.pageable_device_local_memory, pageable_device_local_memory_name(), x);
    lemma_push_if_contains(s2, e.swapchain, swapchain_name(), x);
    lemma_push_if_contains(s3, e.swapchain_maintenance1, swapchain_maintenance1_name(), x);
    lemma_push_if_contains(s4, e.dynamic_rendering_local_read, dynamic_rendering_local_read_name(), x);
}

/// The list of names to enable never names an extension twice.
pub proof fn lemma_extension_names_no_duplicates(e: DeviceExtensions)
    ensures
        e.extension_names().no_duplicates(),
{
    lemma_names_distinct();
    let s0 = Seq::<Seq<char>>::empty();
    let s1 = push_if(s0, e.memory_priority, memory_priority_name());
    let s2 = push_if(s1, e.pageable_device_local_memory, pageable_device_local_memory_name());
    let s3 = push_if(s2, e.swapchain, swapchain_name());
    let s4 = push_if(s3, e.swapchain_maintenance1, swapchain_maintenance1_name());
    lemma_push_if_contains(s0, e.memory_priority, memory_priority_name(), pageable_device_local_memory_name());
    lemma_push_if_contains(s0, e.memory_priority, memory_priority_name(), swapchain_name());
    lemma_push_if_contains(s1, e.pageable_device_local_memory, pageable_device_local_memory_name(), swapchain_name());
    lemma_push_if_contains(s0, e.memory_priority, memory_priority_name(), swapchain_maintenance1_name());
    lemma_push_if_contains(s1, e.pageable_device_local_memory, pageable_device_local_memory_name(), swapchain_maintenance1_name());
    lemma_push_if_contains(s2, e.swapchain, swapchain_name(), swapchain_maintenance1_name());
    lemma_push_if_contains(s0, e.memory_priority, memory_priority_name(), dynamic_rendering_local_read_name());
    lemma_push_if_contains(s1, e.pageable_device_local_memory, pageable_device_local_memory_name(), dynamic_rendering_local_read_name());
    lemma_push_if_contains(s2, e.swapchain, swapchain_name(), dynamic_rendering_local_read_name());
    lemma_push_if_contains(s3, e.swapchain_maintenance1, swapchain_maintenance1_name(), dynamic_rendering_local_read_name());
    lemma_push_if_no_duplicates(s0, e.memory_priority, memory_priority_name());
    lemma_push_if_no_duplicates(s1, e.pageable_device_local_memory, pageable_device_local_memory_name());
    lemma_push_if_no_duplicates(s2, e.swapchain, swapchain_name());
    lemma_push_if_no_duplicates(s3, e.swapchain_maintenance1, swapchain_maintenance1_name());
    lemma_push_if_no_duplicates(s4, e.dynamic_rendering_local_read, dynamic_rendering_local_read_name());
}

/// Marking the extensions named by a flag set's own name list gives back
/// that flag set, for every flag set without `dynamic_rendering_local_read`
/// (whose name marks `swapchain` instead).
pub proof fn lemma_names_round_trip(e: DeviceExtensions)
    requires
        !e.dynamic_rendering_local_read,
    ensures
        DeviceExtensions::from_names(e.extension_names()) == e,
{
    lemma_names_distinct();
    lemma_extension_names_contains(e, memory_priority_name());
    lemma_extension_names_contains(e, pageable_device_local_memory_name());
    lemma_extension_names_contains(e, swapchain_name());
    lemma_extension_names_contains(e, swapchain_maintenance1_name());
    lemma_extension_names_contains(e, dynamic_rendering_local_read_name());
}

/// `filter_missing` finds nothing missing exactly when `and` leaves `other`
/// whole, and adding what it reports missing to `self` covers `other`.
pub proof fn lemma_filter_missing_and(this: DeviceExtensions, other: DeviceExtensions)
    ensures
        other@.subset_of(this@) <==> this@.intersect(other@) == other@,
        other@.subset_of(this@.union(other@.difference(this@))),
{
    if this@.intersect(other@) == other@ {
        assert forall|e: DeviceExtension| other@.contains(e) implies this@.contains(e) by {
            assert(this@.intersect(other@).contains(e));
        }
    }
    if other@.subset_of(this@) {
        assert(this@.intersect(other@) =~= other@);
    }
}

} // verus!

verus! {

/// A device is marked as supporting an extension exactly when it reports
/// that extension's name, whatever else it reports (a reported
/// `VK_KHR_dynamic_rendering_local_read` marks `swapchain`, and
/// `dynamic_rendering_local_read` is never marked). Reporting one more name
/// never unmarks an extension, and reporting a name of none of the known
/// extensions changes nothing.
pub proof fn lemma_from_names(names: Seq<Seq<char>>, x: Seq<char>)
    ensures
        DeviceExtensions::from_names(names).memory_priority == names.contains(
            "VK_EXT_memory_priority"@,
        ),
        DeviceExtensions::from_names(names).pageable_device_local_memory == names.contains(
            "VK_EXT_pageable_device_local_memory"@,
        ),
        DeviceExtensions::from_names(names).swapchain == (names.contains("VK_KHR_swapchain"@)
            || names.contains("VK_KHR_dynamic_rendering_local_read"@)),
        DeviceExtensions::from_names(names).swapchain_maintenance1 == names.contains(
            "VK_KHR_swapchain_maintenance1"@,
        ),
        !DeviceExtensions::from_names(names).dynamic_rendering_local_read,
        DeviceExtensions::from_names(names)@.subset_of(DeviceExtensions::from_names(names.push(x))@),
        x != "VK_EXT_memory_priority"@ && x != "VK_EXT_pageable_device_local_memory"@ && x
            != "VK_KHR_swapchain"@ && x != "VK_KHR_swapchain_maintenance1"@ && x
            != "VK_KHR_dynamic_rendering_local_read"@ ==> DeviceExtensions::from_names(names.push(x))
            == DeviceExtensions::from_names(names),
{
    lemma_push_if_contains(names, true, x, memory_priority_name());
    lemma_push_if_contains(names, true, x, pageable_device_local_memory_name());
    lemma_push_if_contains(names, true, x, swapchain_name());
    lemma_push_if_contains(names, true, x, swapchain_maintenance1_name());
    lemma_push_if_contains(names, true, x, dynamic_rendering_local_read_name());
}

} // verus!

verus! {

/// The view holds an extension exactly when its flag is set.
pub proof fn lemma_view_fields(e: DeviceExtensions)
    ensures
        e@.contains(DeviceExtension::MemoryPriority) == e.memory_priority,
        e@.contains(DeviceExtension::PageableDeviceLocalMemory) == e.pageable_device_local_memory,
        e@.contains(DeviceExtension::Swapchain) == e.swapchain,
        e@.contains(DeviceExtension::SwapchainMaintenance1) == e.swapchain_maintenance1,
        e@.contains(DeviceExtension::DynamicRenderingLocalRead) == e.dynamic_rendering_local_read,
{
}

/// The list of names to enable has one name per set flag.
pub proof fn lemma_extension_names_len(e: DeviceExtensions)
    ensures
        e.extension_names().len() == (if e.memory_priority { 1int } else { 0int }) + (if e.pageable_device_local_memory {
            1int
        } else {
            0int
        }) + (if e.swapchain { 1int } else { 0int }) + (if e.swapchain_maintenance1 {
            1int
        } else {
            0int
        }) + (if e.dynamic_rendering_local_read { 1int } else { 0int }),
{
}

} // verus!
