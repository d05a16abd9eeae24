use vstd::prelude::*;
use crate::descriptor::{category_bit, severity_bit, Category, Severity};

verus! {

/// What ash's `Debug` impl of `vk::DebugUtilsMessageSeverityFlagsEXT` writes
/// for a raw mask.
pub uninterp spec fn severity_debug_text(raw: u32) -> Seq<char>;

/// What ash's `Debug` impl of `vk::DebugUtilsMessageTypeFlagsEXT` writes for
/// a raw mask.
pub uninterp spec fn category_debug_text(raw: u32) -> Seq<char>;

/// What `str::to_lowercase` returns.
pub uninterp spec fn lowercase_of(s: Seq<char>) -> Seq<char>;

/// The name that ash gives a single severity flag.
pub open spec fn severity_flag_name(s: Severity) -> Seq<char> {
    match s {
        Severity::Verbose => "VERBOSE"@,
        Severity::Info => "INFO"@,
        Severity::Warning => "WARNING"@,
        Severity::Error => "ERROR"@,
    }
}

/// The name that ash gives a single category flag.
pub open spec fn category_flag_name(c: Category) -> Seq<char> {
    match c {
        Category::General => "GENERAL"@,
        Category::Validation => "VALIDATION"@,
        Category::Performance => "PERFORMANCE"@,
    }
}

/// Relies on the `Debug` impl of ash's `vk::DebugUtilsMessageSeverityFlagsEXT`:
/// the names of the flags set, joined by " | ", so a single flag gives its name.
#[verifier::external_body]
fn severity_text(raw: u32) -> (r: String)
    ensures
        r@ == severity_debug_text(raw),
        forall|s: Severity| raw == severity_bit(s) ==> r@ == severity_flag_name(s),
{
    format!("{:?}", ash::vk::DebugUtilsMessageSeverityFlagsEXT::from_raw(raw))
}

/// Relies on the `Debug` impl of ash's `vk::DebugUtilsMessageTypeFlagsEXT`:
/// the names of the flags set, joined by " | ", so a single flag gives its name.
#[verifier::external_body]
fn category_text(raw: u32) -> (r: String)
    ensures
        r@ == category_debug_text(raw),
        forall|c: Category| raw == category_bit(c) ==> r@ == category_flag_name(c),
{
    format!("{:?}", ash::vk::DebugUtilsMessageTypeFlagsEXT::from_raw(raw))
}

/// Relies on `str::to_lowercase`: the result depends on the characters alone.
#[verifier::external_body]
fn lowercase(s: &str) -> (r: String)
    ensures
        r@ == lowercase_of(s@),
{
    s.to_lowercase()
}

/// A diagnostic line: `[Debug][<severity>][<category>] <message>`.
pub open spec fn line(severity: Seq<char>, category: Seq<char>, message: Seq<char>) -> Seq<char> {
    "[Debug]["@ + severity + "]["@ + category + "] "@ + message
}

/// Builds the diagnostic line from the severity and category text already
/// worded.
pub fn compose_line(severity: &str, category: &str, message: &str) -> (r: String)
    ensures
        r@ == line(severity@, category@, message@),
{
    let mut r = String::from_str("[Debug][");
    r.append(severity);
    r.append("][");
    r.append(category);
    r.append("] ");
    r.append(message);
    proof {
        assert(r@ =~= line(severity@, category@, message@));
    }
    r
}

/// The line that the diagnostic sink emits for a message: the severity and
/// category masks as ash names them, in lower case, then the text.
pub fn diagnostic_line(severity: u32, category: u32, message: &str) -> (r: String)
    ensures
        r@ == line(
            lowercase_of(severity_debug_text(severity)),
            lowercase_of(category_debug_text(category)),
            message@,
        ),
        forall|s: Severity, c: Category|
            severity == severity_bit(s) && category == category_bit(c) ==> r@ == line(
                lowercase_of(#[trigger] severity_flag_name(s)),
                lowercase_of(#[trigger] category_flag_name(c)),
                message@,
            ),
{
    let sev = lowercase(severity_text(severity).as_str());
    let cat = lowercase(category_text(category).as_str());
    compose_line(sev.as_str(), cat.as_str(), message)
}

} // verus!
