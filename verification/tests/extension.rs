use rusterizer::extension::{
    available_device_extensions, available_extensions, enumerate_catalogue,
    enumerate_extension_properties, find_extension, is_available, ExtensionProperties, NameError,
};
use rusterizer::result::VkResult;
use rusterizer::vk;

fn blank() -> vk::ExtensionProperties {
    vk::ExtensionProperties { extension_name: [0xaa; 256], spec_version: 0xdead }
}

fn wire(name: &str, version: u32) -> vk::ExtensionProperties {
    let mut field = [0u8; 256];
    field[..name.len()].copy_from_slice(name.as_bytes());
    vk::ExtensionProperties { extension_name: field, spec_version: version }
}

fn leak(name: String) -> &'static str {
    Box::leak(name.into_boxed_str())
}

#[test]
fn instance_catalogue_lists_the_surface_extensions() {
    let entries = available_extensions();
    assert_eq!(entries.len(), 2);
    assert_eq!(entries[0].name(), "VK_KHR_surface");
    assert_eq!(entries[0].spec_version(), 25);
    assert_eq!(entries[1].name(), "VK_KHR_xcb_surface");
    assert_eq!(entries[1].spec_version(), 5);
}

#[test]
fn device_catalogue_lists_the_swapchain() {
    let entries = available_device_extensions();
    assert_eq!(entries.len(), 1);
    assert_eq!(entries[0].name(), "VK_KHR_swapchain");
    assert_eq!(entries[0].spec_version(), 67);
}

#[test]
fn finds_names_that_are_listed_and_no_others() {
    assert!(is_available("VK_KHR_surface"));
    assert!(is_available("VK_KHR_xcb_surface"));
    assert!(!is_available("VK_KHR_swapchain"));
    assert!(!is_available("VK_KHR_surfac"));
    assert!(!is_available("VK_KHR_surface "));
    assert!(!is_available("vk_khr_surface"));
    assert!(!is_available(""));
    let device = available_device_extensions();
    assert!(find_extension(&device, "VK_KHR_swapchain"));
    assert!(!find_extension(&device, "VK_KHR_surface"));
    assert!(!find_extension(&[], "VK_KHR_surface"));
}

#[test]
fn wire_form_is_the_name_then_zeros() {
    let entry = ExtensionProperties::new("VK_KHR_surface", 25);
    let got = entry.to_vk_ffi().unwrap();
    assert_eq!(got.spec_version, 25);
    assert_eq!(&got.extension_name[..14], b"VK_KHR_surface");
    assert!(got.extension_name[14..].iter().all(|b| *b == 0));
    assert_eq!(got, wire("VK_KHR_surface", 25));
}

#[test]
fn wire_form_of_the_empty_name_is_all_zeros() {
    let got = ExtensionProperties::new("", 1).to_vk_ffi().unwrap();
    assert_eq!(got.extension_name, [0u8; 256]);
    assert_eq!(got.spec_version, 1);
}

#[test]
fn longest_name_that_fits_leaves_one_zero() {
    let name = leak("x".repeat(255));
    let got = ExtensionProperties::new(name, 3).to_vk_ffi().unwrap();
    assert!(got.extension_name[..255].iter().all(|b| *b == b'x'));
    assert_eq!(got.extension_name[255], 0);
}

#[test]
fn name_that_fills_the_field_is_too_long() {
    let name = leak("x".repeat(256));
    assert_eq!(ExtensionProperties::new(name, 3).to_vk_ffi(), Err(NameError::TooLong));
    let longer = leak("y".repeat(1000));
    assert_eq!(ExtensionProperties::new(longer, 3).to_vk_ffi(), Err(NameError::TooLong));
}

#[test]
fn length_is_counted_in_bytes() {
    // 128 characters of two bytes each: 256 bytes.
    let name = leak("é".repeat(128));
    assert_eq!(ExtensionProperties::new(name, 1).to_vk_ffi(), Err(NameError::TooLong));
    let shorter = leak("é".repeat(127));
    let got = ExtensionProperties::new(shorter, 1).to_vk_ffi().unwrap();
    assert_eq!(&got.extension_name[..254], shorter.as_bytes());
    assert_eq!(&got.extension_name[254..], &[0u8, 0u8]);
}

#[test]
fn name_with_a_zero_inside_has_no_wire_form() {
    assert_eq!(
        ExtensionProperties::new("VK\0KHR", 1).to_vk_ffi(),
        Err(NameError::InteriorNul)
    );
    let long = leak(format!("{}\0", "z".repeat(300)));
    assert_eq!(ExtensionProperties::new(long, 1).to_vk_ffi(), Err(NameError::InteriorNul));
}

#[test]
fn query_without_buffer_gives_the_size() {
    let mut count = 77;
    assert_eq!(enumerate_extension_properties(None, &mut count, None, false), VkResult::Success);
    assert_eq!(count, 2);
    let mut count = 0;
    assert_eq!(enumerate_extension_properties(None, &mut count, None, true), VkResult::Success);
    assert_eq!(count, 1);
}

#[test]
fn query_without_buffer_ignores_the_layer() {
    let mut count = 9;
    let r = enumerate_extension_properties(Some("VK_LAYER_x"), &mut count, None, false);
    assert_eq!(r, VkResult::Success);
    assert_eq!(count, 2);
}

#[test]
fn query_with_room_for_none_is_incomplete() {
    let mut count = 0;
    let mut buffer = [blank(), blank()];
    let r = enumerate_extension_properties(None, &mut count, Some(&mut buffer[..]), false);
    assert_eq!(r, VkResult::Incomplete);
    assert_eq!(count, 0);
    assert_eq!(buffer, [blank(), blank()]);
}

#[test]
fn query_with_room_for_one_of_two_is_incomplete() {
    let mut count = 1;
    let mut buffer = [blank(), blank(), blank()];
    let r = enumerate_extension_properties(None, &mut count, Some(&mut buffer[..]), false);
    assert_eq!(r, VkResult::Incomplete);
    assert_eq!(count, 1);
    assert_eq!(buffer, [wire("VK_KHR_surface", 25), blank(), blank()]);
}

#[test]
fn query_with_exact_room_gets_all() {
    let mut count = 2;
    let mut buffer = [blank(), blank()];
    let r = enumerate_extension_properties(None, &mut count, Some(&mut buffer[..]), false);
    assert_eq!(r, VkResult::Success);
    assert_eq!(count, 2);
    assert_eq!(buffer, [wire("VK_KHR_surface", 25), wire("VK_KHR_xcb_surface", 5)]);
}

#[test]
fn query_with_spare_room_gets_all_and_the_true_count() {
    let mut count = 4;
    let mut buffer = [blank(), blank(), blank(), blank()];
    let r = enumerate_extension_properties(None, &mut count, Some(&mut buffer[..]), false);
    assert_eq!(r, VkResult::Success);
    assert_eq!(count, 2);
    assert_eq!(
        buffer,
        [wire("VK_KHR_surface", 25), wire("VK_KHR_xcb_surface", 5), blank(), blank()]
    );
}

#[test]
fn device_query_with_buffer() {
    let mut count = 1;
    let mut buffer = [blank()];
    let r = enumerate_extension_properties(None, &mut count, Some(&mut buffer[..]), true);
    assert_eq!(r, VkResult::Success);
    assert_eq!(count, 1);
    assert_eq!(buffer, [wire("VK_KHR_swapchain", 67)]);

    let mut count = 0;
    let mut empty: [vk::ExtensionProperties; 0] = [];
    let r = enumerate_extension_properties(None, &mut count, Some(&mut empty[..]), true);
    assert_eq!(r, VkResult::Incomplete);
    assert_eq!(count, 0);
}

#[test]
fn layer_with_buffer_is_not_implemented() {
    let mut count = 2;
    let mut buffer = [blank(), blank()];
    let r = enumerate_extension_properties(Some("layer"), &mut count, Some(&mut buffer[..]), false);
    assert_eq!(r, VkResult::NotImplemented);
    assert_eq!(count, 2);
    assert_eq!(buffer, [blank(), blank()]);
}

#[test]
fn every_capacity_over_a_catalogue_of_three() {
    let catalogue = [
        ExtensionProperties::new("a", 1),
        ExtensionProperties::new("bb", 2),
        ExtensionProperties::new("ccc", 3),
    ];
    let wires = [wire("a", 1), wire("bb", 2), wire("ccc", 3)];
    let mut count = 0;
    assert_eq!(enumerate_catalogue(&catalogue, &mut count, None), VkResult::Success);
    assert_eq!(count, 3);
    for k in 0usize..6 {
        let mut count = k as u32;
        let mut buffer = vec![blank(); k];
        let r = enumerate_catalogue(&catalogue, &mut count, Some(&mut buffer[..]));
        let written = k.min(3);
        assert_eq!(r, if k < 3 { VkResult::Incomplete } else { VkResult::Success });
        assert_eq!(count as usize, written);
        assert_eq!(&buffer[..written], &wires[..written]);
        assert!(buffer[written..].iter().all(|e| *e == blank()));
    }
}

#[test]
fn empty_catalogue_is_always_complete() {
    let mut count = 5;
    assert_eq!(enumerate_catalogue(&[], &mut count, None), VkResult::Success);
    assert_eq!(count, 0);
    let mut count = 0;
    let mut buffer: [vk::ExtensionProperties; 0] = [];
    assert_eq!(enumerate_catalogue(&[], &mut count, Some(&mut buffer[..])), VkResult::Success);
    assert_eq!(count, 0);
}
