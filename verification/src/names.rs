//! Names of the Vulkan extensions that the library asks for, and lookups
//! of a name in a list of names reported by the driver.

use vstd::prelude::*;

verus! {

pub open spec fn memory_priority_name() -> Seq<char> {
    "VK_EXT_memory_priority"@
}

pub open spec fn pageable_device_local_memory_name() -> Seq<char> {
    "VK_EXT_pageable_device_local_memory"@
}

pub open spec fn swapchain_name() -> Seq<char> {
    "VK_KHR_swapchain"@
}

pub open spec fn swapchain_maintenance1_name() -> Seq<char> {
    "VK_KHR_swapchain_maintenance1"@
}

pub open spec fn dynamic_rendering_local_read_name() -> Seq<char> {
    "VK_KHR_dynamic_rendering_local_read"@
}

pub open spec fn get_surface_capabilities2_name() -> Seq<char> {
    "VK_KHR_get_surface_capabilities2"@
}

pub open spec fn surface_maintenance1_name() -> Seq<char> {
    "VK_KHR_surface_maintenance1"@
}

pub open spec fn debug_utils_name() -> Seq<char> {
    "VK_EXT_debug_utils"@
}

/// `s` with `name` appended when `cond` holds.
pub open spec fn push_if(s: Seq<Seq<char>>, cond: bool, name: Seq<char>) -> Seq<Seq<char>> {
    if cond {
        s.push(name)
    } else {
        s
    }
}

/// What a `push_if` sequence contains.
pub proof fn lemma_push_if_contains(s: Seq<Seq<char>>, cond: bool, name: Seq<char>, x: Seq<char>)
    ensures
        push_if(s, cond, name).contains(x) == (s.contains(x) || (cond && name == x)),
{
    if cond {
        let t = s.push(name);
        if s.contains(x) {
            let i: int = choose|i: int| 0 <= i < s.len() && s[i] == x;
            assert(t[i] == x);
        }
        if name == x {
            assert(t[s.len() as int] == x);
        }
        if t.contains(x) {
            let i: int = choose|i: int| 0 <= i < t.len() && t[i] == x;
            if i < s.len() {
                assert(s[i] == x);
            }
        }
    }
}

/// Appending a name that is not yet there keeps a sequence free of duplicates.
pub proof fn lemma_push_if_no_duplicates(s: Seq<Seq<char>>, cond: bool, name: Seq<char>)
    requires
        s.no_duplicates(),
        !s.contains(name),
    ensures
        push_if(s, cond, name).no_duplicates(),
{
    if cond {
        let t = s.push(name);
        assert forall|i: int, j: int| 0 <= i < t.len() && 0 <= j < t.len() && i != j implies t[i]
            != t[j] by {
            if i == s.len() {
                assert(s[j] == t[j]);
            } else if j == s.len() {
                assert(s[i] == t[i]);
            }
        }
    }
}

/// The extension names differ pairwise.
pub proof fn lemma_names_distinct()
    ensures
        memory_priority_name() != pageable_device_local_memory_name(),
        memory_priority_name() != swapchain_name(),
        memory_priority_name() != swapchain_maintenance1_name(),
        memory_priority_name() != dynamic_rendering_local_read_name(),
        pageable_device_local_memory_name() != swapchain_name(),
        pageable_device_local_memory_name() != swapchain_maintenance1_name(),
        pageable_device_local_memory_name() != dynamic_rendering_local_read_name(),
        swapchain_name() != swapchain_maintenance1_name(),
        swapchain_name() != dynamic_rendering_local_read_name(),
        swapchain_maintenance1_name() != dynamic_rendering_local_read_name(),
        get_surface_capabilities2_name() != surface_maintenance1_name(),
        get_surface_capabilities2_name() != debug_utils_name(),
        surface_maintenance1_name() != debug_utils_name(),
{
    reveal_strlit("VK_EXT_memory_priority");
    reveal_strlit("VK_EXT_pageable_device_local_memory");
    reveal_strlit("VK_KHR_swapchain");
    reveal_strlit("VK_KHR_swapchain_maintenance1");
    reveal_strlit("VK_KHR_dynamic_rendering_local_read");
    reveal_strlit("VK_KHR_get_surface_capabilities2");
    reveal_strlit("VK_KHR_surface_maintenance1");
    reveal_strlit("VK_EXT_debug_utils");
    assert(memory_priority_name().len() == 22);
    assert(pageable_device_local_memory_name().len() == 35);
    assert(swapchain_name().len() == 16);
    assert(swapchain_maintenance1_name().len() == 29);
    assert(dynamic_rendering_local_read_name().len() == 35);
    assert(get_surface_capabilities2_name().len() == 32);
    assert(surface_maintenance1_name().len() == 27);
    assert(debug_utils_name().len() == 18);
    assert(pageable_device_local_memory_name()[4] != dynamic_rendering_local_read_name()[4]);
}

/// `ash::ext::memory_priority::NAME`, which ash defines as the C string
/// `VK_EXT_memory_priority`.
#[verifier::external_body]
fn ash_memory_priority_name() -> (r: &'static str)
    ensures
        r@ == memory_priority_name(),
{
    ash::ext::memory_priority::NAME.to_str().unwrap()
}

/// `ash::ext::pageable_device_local_memory::NAME`, which ash defines as the
/// C string `VK_EXT_pageable_device_local_memory`.
#[verifier::external_body]
fn ash_pageable_device_local_memory_name() -> (r: &'static str)
    ensures
        r@ == pageable_device_local_memory_name(),
{
    ash::ext::pageable_device_local_memory::NAME.to_str().unwrap()
}

/// `ash::khr::swapchain::NAME`, which ash defines as the C string
/// `VK_KHR_swapchain`.
#[verifier::external_body]
fn ash_swapchain_name() -> (r: &'static str)
    ensures
        r@ == swapchain_name(),
{
    ash::khr::swapchain::NAME.to_str().unwrap()
}

/// `ash::khr::dynamic_rendering_local_read::NAME`, which ash defines as the
/// C string `VK_KHR_dynamic_rendering_local_read`.
#[verifier::external_body]
fn ash_dynamic_rendering_local_read_name() -> (r: &'static str)
    ensures
        r@ == dynamic_rendering_local_read_name(),
{
    ash::khr::dynamic_rendering_local_read::NAME.to_str().unwrap()
}

/// `ash::vk::KHR_GET_SURFACE_CAPABILITIES2_NAME`, which ash defines as the
/// C string `VK_KHR_get_surface_capabilities2`.
#[verifier::external_body]
fn ash_get_surface_capabilities2_name() -> (r: &'static str)
    ensures
        r@ == get_surface_capabilities2_name(),
{
    ash::vk::KHR_GET_SURFACE_CAPABILITIES2_NAME.to_str().unwrap()
}

/// `ash::ext::debug_utils::NAME`, which ash defines as the C string
/// `VK_EXT_debug_utils`.
#[verifier::external_body]
fn ash_debug_utils_name() -> (r: &'static str)
    ensures
        r@ == debug_utils_name(),
{
    ash::ext::debug_utils::NAME.to_str().unwrap()
}

/// The extension name as an owned string.
fn owned(s: &str) -> (r: String)
    ensures
        r@ == s@,
{
    s.to_owned()
}

pub fn memory_priority() -> (r: String)
    ensures
        r@ == memory_priority_name(),
{
    owned(ash_memory_priority_name())
}

pub fn pageable_device_local_memory() -> (r: String)
    ensures
        r@ == pageable_device_local_memory_name(),
{
    owned(ash_pageable_device_local_memory_name())
}

pub fn swapchain() -> (r: String)
    ensures
        r@ == swapchain_name(),
{
    owned(ash_swapchain_name())
}

pub fn swapchain_maintenance1() -> (r: String)
    ensures
        r@ == swapchain_maintenance1_name(),
{
    owned("VK_KHR_swapchain_maintenance1")
}

pub fn dynamic_rendering_local_read() -> (r: String)
    ensures
        r@ == dynamic_rendering_local_read_name(),
{
    owned(ash_dynamic_rendering_local_read_name())
}

pub fn get_surface_capabilities2() -> (r: String)
    ensures
        r@ == get_surface_capabilities2_name(),
{
    owned(ash_get_surface_capabilities2_name())
}

pub fn surface_maintenance1() -> (r: String)
    ensures
        r@ == surface_maintenance1_name(),
{
    owned("VK_KHR_surface_maintenance1")
}

pub fn debug_utils() -> (r: String)
    ensures
        r@ == debug_utils_name(),
{
    owned(ash_debug_utils_name())
}

/// Whether `name` occurs in `names`.
pub fn contains_name(names: &Vec<String>, name: &String) -> (r: bool)
    ensures
        r == names.deep_view().contains(name@),
{
    let n: usize = names.len();
    let mut i: usize = 0;
    while i < n
        invariant
            n == names.len(),
            i <= n,
            forall|j: int| 0 <= j < i ==> names.deep_view()[j] != name@,
        decreases n - i,
    {
        if names[i] == *name {
            assert(names.deep_view()[i as int] == name@);
            return true;
        }
        i = i + 1;
    }
    proof {
        if names.deep_view().contains(name@) {
            let k: int = choose|k: int| 0 <= k < names.deep_view().len() && names.deep_view()[k] == name@;
            assert(names.deep_view()[k] != name@);
        }
    }
    false
}

} // verus!
