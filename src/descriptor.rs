use vstd::prelude::*;
use crate::version::ApiVersion;

verus! {

/// Severity levels of diagnostic messages.
#[derive(Clone, Copy, Debug, PartialEq, Eq, Structural)]
pub enum Severity {
    Verbose,
    Info,
    Warning,
    Error,
}

/// Categories of diagnostic messages.
#[derive(Clone, Copy, Debug, PartialEq, Eq, Structural)]
pub enum Category {
    General,
    Validation,
    Performance,
}

/// The bit that stands for a severity in a severity mask.
pub open spec fn severity_bit(s: Severity) -> u32 {
    match s {
        Severity::Verbose => 0x1,
        Severity::Info => 0x10,
        Severity::Warning => 0x100,
        Severity::Error => 0x1000,
    }
}

/// The bit that stands for a category in a category mask.
pub open spec fn category_bit(c: Category) -> u32 {
    match c {
        Category::General => 0x1,
        Category::Validation => 0x2,
        Category::Performance => 0x4,
    }
}

/// Relies on ash's `vk::DebugUtilsMessageSeverityFlagsEXT` constants and
/// `as_raw`: the raw bit of each severity.
#[verifier::external_body]
fn severity_flag(s: Severity) -> (r: u32)
    ensures
        r == severity_bit(s),
{
    match s {
        Severity::Verbose => ash::vk::DebugUtilsMessageSeverityFlagsEXT::VERBOSE.as_raw(),
        Severity::Info => ash::vk::DebugUtilsMessageSeverityFlagsEXT::INFO.as_raw(),
        Severity::Warning => ash::vk::DebugUtilsMessageSeverityFlagsEXT::WARNING.as_raw(),
        Severity::Error => ash::vk::DebugUtilsMessageSeverityFlagsEXT::ERROR.as_raw(),
    }
}

/// Relies on ash's `vk::DebugUtilsMessageTypeFlagsEXT` constants and
/// `as_raw`: the raw bit of each category.
#[verifier::external_body]
fn category_flag(c: Category) -> (r: u32)
    ensures
        r == category_bit(c),
{
    match c {
        Category::General => ash::vk::DebugUtilsMessageTypeFlagsEXT::GENERAL.as_raw(),
        Category::Validation => ash::vk::DebugUtilsMessageTypeFlagsEXT::VALIDATION.as_raw(),
        Category::Performance => ash::vk::DebugUtilsMessageTypeFlagsEXT::PERFORMANCE.as_raw(),
    }
}

/// Relies on ash's `extensions::ext::DebugUtils::name`: the name of the
/// debug-utilities extension, "VK_EXT_debug_utils".
#[verifier::external_body]
fn debug_utils_extension_name() -> (r: String)
    ensures
        r@ == "VK_EXT_debug_utils"@,
{
    ash::extensions::ext::DebugUtils::name().to_string_lossy().into_owned()
}

/// The validation layer that every instance enables.
pub open spec fn validation_layer() -> Seq<char> {
    "VK_LAYER_KHRONOS_validation"@
}

/// Describes the application to the driver.
pub struct AppDescriptor {
    pub application_name: String,
    pub application_version: u32,
    pub engine_name: String,
    pub engine_version: u32,
    pub api_version: u32,
}

/// Which diagnostic messages a debug messenger subscribes to.
#[derive(Clone, Copy, Debug, PartialEq, Eq, Structural)]
pub struct MessengerDescriptor {
    pub severity_mask: u32,
    pub category_mask: u32,
}

/// Everything an instance is created from: the application descriptor, the
/// messenger descriptor chained to it so that messages raised while the
/// instance is created are caught, and the layers and extensions enabled.
pub struct InstanceDescriptor {
    pub app: AppDescriptor,
    pub messenger: MessengerDescriptor,
    pub layers: Vec<String>,
    pub extensions: Vec<String>,
}

impl MessengerDescriptor {
    /// The mask requests messages of severity `s`.
    pub open spec fn requests_severity(self, s: Severity) -> bool {
        self.severity_mask & severity_bit(s) != 0
    }

    /// The mask requests messages of category `c`.
    pub open spec fn requests_category(self, c: Category) -> bool {
        self.category_mask & category_bit(c) != 0
    }
}

/// The subscription to every severity and every category.
pub open spec fn full_subscription() -> MessengerDescriptor {
    MessengerDescriptor { severity_mask: 0x1111, category_mask: 0x7 }
}

/// The application descriptor for the given names and target version; the
/// application and engine versions are 0.
pub fn app_info(app_name: &str, engine_name: &str, api: ApiVersion) -> (r: AppDescriptor)
    requires
        api.wf(),
    ensures
        r.application_name@ == app_name@,
        r.engine_name@ == engine_name@,
        r.application_version == 0,
        r.engine_version == 0,
        r.api_version as int == api.packed(),
{
    let unset = ApiVersion::zero();
    AppDescriptor {
        application_name: String::from_str(app_name),
        application_version: unset.encode(),
        engine_name: String::from_str(engine_name),
        engine_version: unset.encode(),
        api_version: api.encode(),
    }
}

/// A messenger descriptor that subscribes to all four severities and all
/// three categories.
pub fn debug_create_info() -> (r: MessengerDescriptor)
    ensures
        r == full_subscription(),
        forall|s: Severity| r.requests_severity(s),
        forall|c: Category| r.requests_category(c),
{
    let severity_mask = severity_flag(Severity::Warning) | severity_flag(Severity::Verbose)
        | severity_flag(Severity::Info) | severity_flag(Severity::Error);
    let category_mask = category_flag(Category::General) | category_flag(Category::Performance)
        | category_flag(Category::Validation);
    assert(0x100u32 | 0x1u32 | 0x10u32 | 0x1000u32 == 0x1111u32) by (bit_vector);
    assert(0x1u32 | 0x4u32 | 0x2u32 == 0x7u32) by (bit_vector);
    assert(0x1111u32 & 0x1u32 != 0 && 0x1111u32 & 0x10u32 != 0 && 0x1111u32 & 0x100u32 != 0
        && 0x1111u32 & 0x1000u32 != 0) by (bit_vector);
    assert(0x7u32 & 0x1u32 != 0 && 0x7u32 & 0x2u32 != 0 && 0x7u32 & 0x4u32 != 0) by (bit_vector);
    MessengerDescriptor { severity_mask, category_mask }
}

/// The instance descriptor: it chains `messenger`, refers to `app`, and
/// enables exactly the validation layer and the debug-utilities extension.
pub fn instance_create_info(messenger: MessengerDescriptor, app: AppDescriptor) -> (r:
    InstanceDescriptor)
    ensures
        r.messenger == messenger,
        r.app == app,
        r.layers@.len() == 1,
        r.layers@[0]@ == validation_layer(),
        r.extensions@.len() == 1,
        r.extensions@[0]@ == "VK_EXT_debug_utils"@,
{
    let layers = vec![String::from_str("VK_LAYER_KHRONOS_validation")];
    let extensions = vec![debug_utils_extension_name()];
    InstanceDescriptor { app, messenger, layers, extensions }
}

} // verus!
