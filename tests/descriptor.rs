use vulkan_context::descriptor::{app_info, debug_create_info, instance_create_info, MessengerDescriptor};
use vulkan_context::lifecycle::new;
use vulkan_context::version::ApiVersion;

#[test]
fn version_packs_fields() {
    assert_eq!(ApiVersion { major: 1, minor: 3, patch: 216 }.encode(), 4206808);
    assert_eq!(ApiVersion { major: 1, minor: 0, patch: 0 }.encode(), 1 << 22);
    assert_eq!(ApiVersion::zero().encode(), 0);
    assert_eq!(ApiVersion { major: 127, minor: 1023, patch: 4095 }.encode(), 0x1fff_ffff);
}

#[test]
fn version_bounds() {
    assert!(ApiVersion { major: 127, minor: 1023, patch: 4095 }.is_valid());
    assert!(!ApiVersion { major: 128, minor: 0, patch: 0 }.is_valid());
    assert!(!ApiVersion { major: 0, minor: 1024, patch: 0 }.is_valid());
    assert!(!ApiVersion { major: 0, minor: 0, patch: 4096 }.is_valid());
}

#[test]
fn app_descriptor_fields() {
    let a = app_info("QOI-GPU-GAM", "QOI-GPU-ENG", ApiVersion { major: 1, minor: 3, patch: 216 });
    assert_eq!(a.application_name, "QOI-GPU-GAM");
    assert_eq!(a.engine_name, "QOI-GPU-ENG");
    assert_eq!(a.application_version, 0);
    assert_eq!(a.engine_version, 0);
    assert_eq!(a.api_version, 4206808);
}

#[test]
fn messenger_subscribes_to_everything() {
    assert_eq!(debug_create_info(), MessengerDescriptor { severity_mask: 0x1111, category_mask: 0x7 });
}

#[test]
fn instance_enables_validation_and_debug_utils() {
    let m = debug_create_info();
    let i = instance_create_info(m, app_info("a", "e", ApiVersion::zero()));
    assert_eq!(i.layers, vec!["VK_LAYER_KHRONOS_validation".to_string()]);
    assert_eq!(i.extensions, vec!["VK_EXT_debug_utils".to_string()]);
    assert_eq!(i.messenger, m);
    assert_eq!(i.app.application_name, "a");
}

#[test]
fn construction_holds_descriptor() {
    let c = new("T", "E", ApiVersion { major: 1, minor: 3, patch: 216 });
    assert_eq!(c.descriptor.app.application_name, "T");
    assert_eq!(c.descriptor.app.engine_name, "E");
    assert_eq!(c.descriptor.app.api_version, 4206808);
    assert_eq!(c.descriptor.messenger.severity_mask, 0x1111);
    assert_eq!(c.descriptor.extensions, vec!["VK_EXT_debug_utils".to_string()]);
}
