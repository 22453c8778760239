use vulkano::range_map::RangeMap;
use vulkano::swapchain::surface::{
    create_surface_from_handle, has_surface_source, DisplayHandle, SurfaceSource, WindowHandle,
};
use vulkano::sync::{AccessFlags, PipelineStages, QueueFamilyIndices};
use vulkano::{OomError, RequirementNotMet, RequiresOneOf, Version, VulkanError};

#[test]
fn success_code_is_no_error() {
    assert_eq!(VulkanError::check(0), Ok(()));
}

#[test]
fn error_codes_are_named() {
    assert_eq!(VulkanError::check(-1), Err(VulkanError::OutOfHostMemory));
    assert_eq!(VulkanError::check(-2), Err(VulkanError::OutOfDeviceMemory));
    assert_eq!(VulkanError::check(-3), Err(VulkanError::InitializationFailed));
    assert_eq!(VulkanError::check(-4), Err(VulkanError::DeviceLost));
    assert_eq!(VulkanError::check(-5), Err(VulkanError::MemoryMapFailed));
    assert_eq!(VulkanError::check(-6), Err(VulkanError::LayerNotPresent));
    assert_eq!(VulkanError::check(-7), Err(VulkanError::ExtensionNotPresent));
    assert_eq!(VulkanError::check(-8), Err(VulkanError::FeatureNotPresent));
    assert_eq!(VulkanError::check(-9), Err(VulkanError::IncompatibleDriver));
    assert_eq!(VulkanError::check(-10), Err(VulkanError::TooManyObjects));
    assert_eq!(VulkanError::check(-11), Err(VulkanError::FormatNotSupported));
    assert_eq!(VulkanError::check(-12), Err(VulkanError::FragmentedPool));
    assert_eq!(VulkanError::check(-13), Err(VulkanError::Unknown));
    assert_eq!(
        VulkanError::check(-1_000_069_000),
        Err(VulkanError::OutOfPoolMemory)
    );
    assert_eq!(
        VulkanError::check(-1_000_000_000),
        Err(VulkanError::SurfaceLost)
    );
    assert_eq!(
        VulkanError::check(-1_000_001_004),
        Err(VulkanError::OutOfDate)
    );
    assert_eq!(
        VulkanError::check(-1_000_255_000),
        Err(VulkanError::FullScreenExclusiveModeLost)
    );
}

#[test]
fn other_codes_keep_their_number() {
    assert_eq!(VulkanError::check(1), Err(VulkanError::Unnamed(1)));
    assert_eq!(VulkanError::check(5), Err(VulkanError::Unnamed(5)));
    assert_eq!(VulkanError::check(-14), Err(VulkanError::Unnamed(-14)));
    assert_eq!(
        VulkanError::check(1_000_001_003),
        Err(VulkanError::Unnamed(1_000_001_003))
    );
    assert_eq!(
        VulkanError::check(i32::MIN),
        Err(VulkanError::Unnamed(i32::MIN))
    );
    assert_eq!(VulkanError::from_code(-4), VulkanError::DeviceLost);
    assert_eq!(
        VulkanError::from_code(-1_000_012_000),
        VulkanError::InvalidShader
    );
}

#[test]
fn memory_errors_of_the_driver_are_memory_errors() {
    assert_eq!(
        OomError::from_vulkan_error(VulkanError::OutOfHostMemory),
        OomError::OutOfHostMemory
    );
    assert_eq!(
        OomError::from_vulkan_error(VulkanError::OutOfDeviceMemory),
        OomError::OutOfDeviceMemory
    );
    assert_eq!(
        OomError::OutOfHostMemory.to_string(),
        "no memory available on the host"
    );
    assert_eq!(
        OomError::OutOfDeviceMemory.to_string(),
        "no memory available on the graphical device"
    );
}

#[test]
fn versions_are_ordered_by_major_minor_patch() {
    let v = Version {
        major: 1,
        minor: 2,
        patch: 3,
    };
    assert!(v.at_least(Version::v1_1()));
    assert!(v.at_least(Version::v1_2()));
    assert!(!v.at_least(Version::v1_3()));
    assert!(v.at_least(v));
    assert!(!v.at_least(Version {
        major: 1,
        minor: 2,
        patch: 4
    }));
    assert!(!Version::major_minor(0, 9).at_least(Version::major_minor(1, 0)));
    assert!(Version::major_minor(2, 0).at_least(Version::major_minor(1, 9)));
    assert_eq!(
        Version::major_minor(1, 1),
        Version {
            major: 1,
            minor: 1,
            patch: 0
        }
    );
}

#[test]
fn requirement_keeps_what_it_is_given() {
    let requirement = RequirementNotMet::new(
        "something",
        Some(Version::v1_2()),
        &["a_feature"],
        &["an_extension", "another"],
    );
    assert_eq!(requirement.required_for, "something");
    assert_eq!(
        requirement.requires_one_of,
        RequiresOneOf {
            api_version: Some(Version::v1_2()),
            features: &["a_feature"],
            device_extensions: &["an_extension", "another"],
            instance_extensions: &[],
        }
    );
    assert_eq!(RequiresOneOf::default(), RequiresOneOf::empty());
    assert_eq!(RequiresOneOf::empty().api_version, None);
    assert!(RequiresOneOf::empty().features.is_empty());
}

#[test]
fn queue_families_are_sorted_and_kept_once() {
    let mut list = QueueFamilyIndices::from_vec(&vec![3, 1, 3, 0, 1, 7, 0]);
    assert_eq!(list.len(), 7);
    assert_eq!(list.get(0), Some(3));
    assert_eq!(list.get(6), Some(0));
    assert_eq!(list.get(7), None);
    list.sort_and_dedup();
    assert_eq!(list.to_vec(), vec![0, 1, 3, 7]);
    assert_eq!(list.len(), 4);

    let mut empty = QueueFamilyIndices::new();
    empty.sort_and_dedup();
    assert_eq!(empty.to_vec(), Vec::<u32>::new());

    let mut same = QueueFamilyIndices::from_vec(&vec![4, 4, 4]);
    same.sort_and_dedup();
    assert_eq!(same.to_vec(), vec![4]);
}

#[test]
fn stages_support_their_ways_of_access() {
    let transfer = PipelineStages {
        transfer: true,
        ..PipelineStages::empty()
    };
    let supported = transfer.supported_access();
    assert!(supported.transfer_read);
    assert!(supported.transfer_write);
    assert!(!supported.shader_read);
    assert!(supported.contains(&AccessFlags {
        transfer_write: true,
        ..AccessFlags::empty()
    }));
    assert!(!supported.contains(&AccessFlags {
        shader_read: true,
        ..AccessFlags::empty()
    }));
    assert!(PipelineStages::empty().is_empty());
    assert!(!transfer.is_empty());
    let both = transfer.union(&PipelineStages {
        host: true,
        ..PipelineStages::empty()
    });
    assert!(both.transfer && both.host);
    assert!(both.contains(&transfer));
    assert!(!transfer.contains(&both));
    assert_eq!(both.intersection(&transfer), transfer);
}

#[test]
fn range_map_splits_and_updates_ranges() {
    let mut map = RangeMap::new(100, 0u32);
    assert_eq!(map.size(), 100);
    assert_eq!(map.get(0), Some(0));
    assert_eq!(map.get(99), Some(0));
    assert_eq!(map.get(100), None);

    let add_one = |v: u32| v.wrapping_add(1);
    map.update_range(10, 20, add_one);
    map.update_range(15, 30, add_one);
    assert_eq!(map.get(9), Some(0));
    assert_eq!(map.get(10), Some(1));
    assert_eq!(map.get(14), Some(1));
    assert_eq!(map.get(15), Some(2));
    assert_eq!(map.get(19), Some(2));
    assert_eq!(map.get(20), Some(1));
    assert_eq!(map.get(29), Some(1));
    assert_eq!(map.get(30), Some(0));

    let is_two = |v: u32| v == 2;
    assert_eq!(map.first_match(0, 100, is_two), Some((15, 2)));
    assert_eq!(map.first_match(16, 100, is_two), Some((16, 2)));
    assert_eq!(map.first_match(20, 100, is_two), None);
    assert_eq!(map.first_match(0, 15, is_two), None);
    assert_eq!(map.first_match(50, 40, is_two), None);

    map.split_at(50);
    assert_eq!(map.get(49), Some(0));
    assert_eq!(map.get(50), Some(0));
    assert_eq!(map.size(), 100);

    let empty = RangeMap::new(0, 7u32);
    assert_eq!(empty.size(), 0);
    assert_eq!(empty.get(0), None);
}

#[test]
fn surface_comes_from_the_window_and_its_display() {
    assert_eq!(
        create_surface_from_handle(
            WindowHandle::Xlib { window: 77 },
            DisplayHandle::Xlib { display: 0x1000 }
        ),
        SurfaceSource::Xlib {
            display: 0x1000,
            window: 77
        }
    );
    assert_eq!(
        create_surface_from_handle(
            WindowHandle::Xcb { window: 5 },
            DisplayHandle::Xcb { connection: 0x2000 }
        ),
        SurfaceSource::Xcb {
            connection: 0x2000,
            window: 5
        }
    );
    assert_eq!(
        create_surface_from_handle(
            WindowHandle::Wayland { surface: 0x30 },
            DisplayHandle::Wayland { display: 0x40 }
        ),
        SurfaceSource::Wayland {
            display: 0x40,
            surface: 0x30
        }
    );
    assert_eq!(
        create_surface_from_handle(
            WindowHandle::Win32 {
                hinstance: 1,
                hwnd: 2
            },
            DisplayHandle::Other
        ),
        SurfaceSource::Win32 {
            hinstance: 1,
            hwnd: 2
        }
    );
    assert_eq!(
        create_surface_from_handle(
            WindowHandle::AndroidNdk { a_native_window: 9 },
            DisplayHandle::Other
        ),
        SurfaceSource::Android { window: 9 }
    );
    assert_eq!(
        create_surface_from_handle(WindowHandle::UiKit { ui_view: 3 }, DisplayHandle::Other),
        SurfaceSource::Ios { view: 3 }
    );
    assert_eq!(
        create_surface_from_handle(WindowHandle::AppKit { ns_view: 4 }, DisplayHandle::Other),
        SurfaceSource::MacOs { view: 4 }
    );
    assert!(has_surface_source(
        WindowHandle::Xlib { window: 77 },
        DisplayHandle::Xlib { display: 1 }
    ));
    assert!(!has_surface_source(
        WindowHandle::Xlib { window: 77 },
        DisplayHandle::Xcb { connection: 1 }
    ));
    assert!(!has_surface_source(
        WindowHandle::Wayland { surface: 1 },
        DisplayHandle::Other
    ));
    assert!(!has_surface_source(WindowHandle::Web, DisplayHandle::Other));
    assert!(!has_surface_source(WindowHandle::Other, DisplayHandle::Other));
}
