//! The optional device features the library knows of, as a set of flags,
//! and the plain values that Vulkan's feature structures carry for them.

use vstd::prelude::*;

use crate::extensions::{DeviceExtension, DeviceExtensions};
use crate::vulkan::{vk_false, vk_true};

use ash::vk::Bool32;

verus! {

/// One device feature that [`DeviceFeatures`] can hold.
#[derive(Debug, Clone, Copy, PartialEq, Eq, Structural)]
pub enum DeviceFeature {
    Synchronization2,
    DynamicRendering,
    SwapchainMaintenance1,
}

/// `features` without those whose extension `extensions` lacks: the
/// `swapchainMaintenance1` feature needs its extension.
pub open spec fn features_with_extensions(
    features: Set<DeviceFeature>,
    extensions: Set<DeviceExtension>,
) -> Set<DeviceFeature> {
    if extensions.contains(DeviceExtension::SwapchainMaintenance1) {
        features
    } else {
        features.remove(DeviceFeature::SwapchainMaintenance1)
    }
}

/// A set of device features, one flag each.
#[derive(Debug, Clone, Copy, PartialEq, Eq, Structural)]
pub struct DeviceFeatures {
    pub synchronization2: bool,
    pub dynamic_rendering: bool,
    pub swapchain_maintenance1: bool,
}

impl DeviceFeatures {
    /// Whether the flag of `f` is set.
    pub open spec fn has(self, f: DeviceFeature) -> bool {
        match f {
            DeviceFeature::Synchronization2 => self.synchronization2,
            DeviceFeature::DynamicRendering => self.dynamic_rendering,
            DeviceFeature::SwapchainMaintenance1 => self.swapchain_maintenance1,
        }
    }

    /// The flag set with no flag set.
    pub open spec fn none() -> Self {
        DeviceFeatures { synchronization2: false, dynamic_rendering: false, swapchain_maintenance1: false }
    }

}

impl View for DeviceFeatures {
    type V = Set<DeviceFeature>;

    open spec fn view(&self) -> Set<DeviceFeature> {
        Set::new(|f: DeviceFeature| self.has(f))
    }
}

impl Default for DeviceFeatures {
    fn default() -> (r: Self)
        ensures
            r == Self::none(),
            r@ == Set::<DeviceFeature>::empty(),
    {
        let r = DeviceFeatures {
            synchronization2: false,
            dynamic_rendering: false,
            swapchain_maintenance1: false,
        };
        assert(r@ =~= Set::<DeviceFeature>::empty());
        r
    }
}

/// Two flag sets are equal exactly when their views are.
pub proof fn lemma_device_features_view_injective(a: DeviceFeatures, b: DeviceFeatures)
    ensures
        (a@ == b@) <==> (a == b),
{
    if a@ == b@ {
        assert(a@.contains(DeviceFeature::Synchronization2) == b@.contains(DeviceFeature::Synchronization2));
        assert(a@.contains(DeviceFeature::DynamicRendering) == b@.contains(DeviceFeature::DynamicRendering));
        assert(a@.contains(DeviceFeature::SwapchainMaintenance1) == b@.contains(DeviceFeature::SwapchainMaintenance1));
    }
}

impl DeviceFeatures {
    /// Returns the features of `other` that are missing in `self`, or
    /// `None` when none are.
    pub fn filter_missing(&self, other: Self) -> (r: Option<Self>)
        ensures
            r is None <==> other@.subset_of(self@),
            r matches Some(missing) ==> missing@ == other@.difference(self@),
    {
        let mut none_missing = true;
        let mut missing = Self::default();

        if other.swapchain_maintenance1 && !self.swapchain_maintenance1 {
            missing.swapchain_maintenance1 = true;
            none_missing = false;
        }
        if other.synchronization2 && !self.synchronization2 {
            missing.synchronization2 = true;
            none_missing = false;
        }
        if other.dynamic_rendering && !self.dynamic_rendering {
            missing.dynamic_rendering = true;
            none_missing = false;
        }

        assert(missing@ =~= other@.difference(self@));
        if none_missing {
            assert(other@.subset_of(self@));
            return None;
        }
        assert(!other@.subset_of(self@)) by {
            if other.swapchain_maintenance1 && !self.swapchain_maintenance1 {
                assert(other@.contains(DeviceFeature::SwapchainMaintenance1));
            } else if other.synchronization2 && !self.synchronization2 {
                assert(other@.contains(DeviceFeature::Synchronization2));
            } else {
                assert(other@.contains(DeviceFeature::DynamicRendering));
            }
        }
        Some(missing)
    }

    /// The features in both `self` and `other`.
    pub fn and(&self, other: Self) -> (r: Self)
        ensures
            r@ == self@.intersect(other@),
    {
        let mut result = Self::default();

        if other.swapchain_maintenance1 && self.swapchain_maintenance1 {
            result.swapchain_maintenance1 = true;
        }
        if other.synchronization2 && self.synchronization2 {
            result.synchronization2 = true;
        }
        if other.dynamic_rendering && self.dynamic_rendering {
            result.dynamic_rendering = true;
        }

        assert(result@ =~= self@.intersect(other@));
        result
    }

    /// The features in `self` or in `other`.
    pub fn or(&self, other: Self) -> (r: Self)
        ensures
            r@ == self@.union(other@),
    {
        let mut result = Self::default();

        if other.swapchain_maintenance1 || self.swapchain_maintenance1 {
            result.swapchain_maintenance1 = true;
        }
        if other.synchronization2 || self.synchronization2 {
            result.synchronization2 = true;
        }
        if other.dynamic_rendering || self.dynamic_rendering {
            result.dynamic_rendering = true;
        }

        assert(result@ =~= self@.union(other@));
        result
    }

    /// Drops the features whose extension is not in `extensions`.
    pub fn filter_extension_required(&mut self, extensions: &DeviceExtensions)
        ensures
            final(self)@ == features_with_extensions(old(self)@, extensions@),
    {
        if self.swapchain_maintenance1 {
            self.swapchain_maintenance1 = extensions.swapchain_maintenance1
        }
        assert(extensions@.contains(DeviceExtension::SwapchainMaintenance1) == extensions.swapchain_maintenance1);
        assert(self@ =~= features_with_extensions(old(self)@, extensions@));
    }
}

/// The `Bool32` that stands for `b`.
pub open spec fn bool32(b: bool) -> Bool32 {
    if b {
        1
    } else {
        0
    }
}

/// What the library reads of the features that a physical device reports:
/// the Vulkan 1.3 feature flags it knows of, as `Bool32`, and whether
/// `swapchainMaintenance1` was reported supported.
#[derive(Debug, Clone, Copy, PartialEq, Eq, Structural)]
pub struct PhysicalDeviceFeatures {
    pub synchronization2: Bool32,
    pub dynamic_rendering: Bool32,
    pub swapchain_maintenance1: bool,
}

impl PhysicalDeviceFeatures {
    /// The features that a query reported: the Vulkan 1.3 `synchronization2`
    /// and `dynamicRendering` values, and the `swapchainMaintenance1` value
    /// when its structure was part of the query (it is only when the device
    /// supports the extension).
    pub fn from_query(
        synchronization2: Bool32,
        dynamic_rendering: Bool32,
        swapchain_maintenance1: Option<Bool32>,
    ) -> (r: Self)
        ensures
            r.synchronization2 == synchronization2,
            r.dynamic_rendering == dynamic_rendering,
            r.swapchain_maintenance1 == (swapchain_maintenance1 == Some(1u32)),
    {
        let swapchain_maintenance1_feature_supported = match swapchain_maintenance1 {
            Some(value) => value == vk_true(),
            None => false,
        };
        PhysicalDeviceFeatures {
            synchronization2,
            dynamic_rendering,
            swapchain_maintenance1: swapchain_maintenance1_feature_supported,
        }
    }
}

/// The values that go into the feature structures handed to device
/// creation: the Vulkan 1.3 `synchronization2` and `dynamicRendering`
/// values, and the `swapchainMaintenance1` structure's value when that
/// structure is chained at all.
#[derive(Debug, Clone, Copy, PartialEq, Eq, Structural)]
pub struct SubmissionDeviceFeatures {
    pub synchronization2: Bool32,
    pub dynamic_rendering: Bool32,
    pub swapchain_maintenance1: Option<Bool32>,
}

impl DeviceFeatures {
    /// The flags of the features that `features` reports enabled.
    pub fn from_full_physical_device_features(features: &PhysicalDeviceFeatures) -> (r: Self)
        ensures
            r.synchronization2 == (features.synchronization2 == 1),
            r.dynamic_rendering == (features.dynamic_rendering == 1),
            r.swapchain_maintenance1 == features.swapchain_maintenance1,
    {
        let t: ash::vk::Bool32 = vk_true();
        Self {
            synchronization2: features.synchronization2 == t,
            dynamic_rendering: features.dynamic_rendering == t,
            swapchain_maintenance1: features.swapchain_maintenance1,
        }
    }

    /// The feature values that ask for exactly the features of `self`.
    pub fn to_full_physical_device_features(&self) -> (r: SubmissionDeviceFeatures)
        ensures
            r.synchronization2 == bool32(self.synchronization2),
            r.dynamic_rendering == bool32(self.dynamic_rendering),
            r.swapchain_maintenance1 == (if self.swapchain_maintenance1 {
                Some(1u32)
            } else {
                None
            }),
    {
        let swapchain_maintenance1 = if self.swapchain_maintenance1 {
            Some(vk_true())
        } else {
            None
        };
        SubmissionDeviceFeatures {
            synchronization2: if self.synchronization2 { vk_true() } else { vk_false() },
            dynamic_rendering: if self.dynamic_rendering { vk_true() } else { vk_false() },
            swapchain_maintenance1,
        }
    }
}

} // verus!

verus! {

/// The view holds a feature exactly when its flag is set.
pub proof fn lemma_feature_view_fields(f: DeviceFeatures)
    ensures
        f@.contains(DeviceFeature::Synchronization2) == f.synchronization2,
        f@.contains(DeviceFeature::DynamicRendering) == f.dynamic_rendering,
        f@.contains(DeviceFeature::SwapchainMaintenance1) == f.swapchain_maintenance1,
{
}

/// Restricting features to an extension set drops `swapchainMaintenance1`
/// exactly when its extension is missing, and touches no other feature.
pub proof fn lemma_features_with_extensions(
    features: DeviceFeatures,
    extensions: DeviceExtensions,
    f: DeviceFeature,
)
    ensures
        features_with_extensions(features@, extensions@).contains(f) == (features@.contains(f) && (f
            == DeviceFeature::SwapchainMaintenance1 ==> extensions.swapchain_maintenance1)),
{
}

} // verus!
