//! The identity of the crashing process and of the report itself.

use vstd::prelude::*;
use vstd::string::StringExecFns;
use crate::text::{field_line, push_field_line, push_repeated, repeat_char};

verus! {

/// Name and version of the process, the system it ran on and when it
/// crashed. `is_first_party` is 1 for software of the system's vendor.
#[derive(Debug)]
pub struct IncidentReport {
    pub name: String,
    pub app_name: String,
    pub timestamp: String,
    pub app_version: String,
    pub slice_uuid: String,
    pub build_version: String,
    pub platform: i32,
    pub share_with_app_devs: u8,
    pub is_first_party: u8,
    pub bug_type: String,
    pub os_version: String,
    pub incident_id: String,
    pub roots_installed: Option<u8>,
    pub sroute_id: Option<i32>,
    pub bundle_id: Option<String>,
}

/// A heading with a rule of 20 dashes under it.
pub open spec fn underlined(heading: Seq<char>) -> Seq<char> {
    heading + "\n"@ + repeat_char('-', 20) + "\n"@
}

/// The report's identity as text: a heading, then name, application,
/// version, system and time, one line each.
pub open spec fn incident_text(report: IncidentReport) -> Seq<char> {
    underlined("GENERAL INFO"@) + field_line(15, "Name:"@, report.name@) + field_line(
        15,
        "App Name:"@,
        report.app_name@,
    ) + field_line(15, "Version:"@, report.app_version@) + field_line(
        15,
        "OS Version:"@,
        report.os_version@,
    ) + field_line(15, "Timestamp:"@, report.timestamp@)
}

/// Appends a heading with its rule to `out`.
pub fn push_underlined(out: &mut String, heading: &str)
    ensures
        final(out)@ == old(out)@ + underlined(heading@),
{
    out.append(heading);
    out.append("\n");
    push_repeated(out, '-', 20);
    out.append("\n");
    assert(out@ =~= old(out)@ + underlined(heading@));
}

impl IncidentReport {
    /// The report's identity as text.
    pub fn to_text(&self) -> (text: String)
        ensures
            text@ == incident_text(*self),
    {
        let mut text = String::new();
        push_underlined(&mut text, "GENERAL INFO");
        push_field_line(&mut text, 15, "Name:", self.name.as_str());
        push_field_line(&mut text, 15, "App Name:", self.app_name.as_str());
        push_field_line(&mut text, 15, "Version:", self.app_version.as_str());
        push_field_line(&mut text, 15, "OS Version:", self.os_version.as_str());
        push_field_line(&mut text, 15, "Timestamp:", self.timestamp.as_str());
        assert(text@ =~= incident_text(*self));
        text
    }
}

} // verus!
