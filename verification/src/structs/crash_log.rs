//! A crash report as one value, and the text of a report file taken apart
//! into its two records.

use vstd::prelude::*;
use vstd::string::StringExecFns;
use crate::structs::crash_info::CrashInfo;
use crate::structs::incident_report::{push_underlined, underlined, IncidentReport};
use crate::text::{
    chars_of, decimal, decimal_string, field_line, push_field_line, string_of, text_or,
};

verus! {

/// The two records of a crash report.
#[derive(Debug)]
pub struct CrashLog {
    pub general_info: IncidentReport,
    pub crash_info: CrashInfo,
}

/// How many characters stand before the first `}` of `data`; the length of
/// `data` where it holds none.
pub open spec fn first_brace(data: Seq<char>) -> int
    decreases data.len(),
{
    if data.len() == 0 || data[0] == '}' {
        0
    } else {
        1 + first_brace(data.drop_first())
    }
}

/// The two records in the text of a report file: the first ends with the
/// first `}` of the text, the second is all that follows. A text without `}`
/// holds no records.
pub open spec fn report_parts(data: Seq<char>) -> Option<(Seq<char>, Seq<char>)> {
    let at = first_brace(data);
    if at < data.len() {
        Some((data.take(at + 1), data.skip(at + 1)))
    } else {
        None
    }
}

/// Takes the text of a report file apart into the text of its two records.
pub fn split_report(ips_data: &str) -> (parts: Option<(String, String)>)
    ensures
        match parts {
            Some((general, crash)) => report_parts(ips_data@) == Some((general@, crash@)),
            None => report_parts(ips_data@) is None,
        },
{
    let data = chars_of(ips_data);
    let mut at: usize = 0;
    assert(data@.skip(0) =~= data@);
    while at < data.len() && data[at] != '}'
        invariant
            at <= data.len(),
            data@ == ips_data@,
            first_brace(data@) == at + first_brace(data@.skip(at as int)),
        decreases data.len() - at,
    {
        assert(data@.skip(at as int).drop_first() =~= data@.skip(at + 1));
        at += 1;
    }
    if at == data.len() {
        return None;
    }
    let mut general: Vec<char> = Vec::new();
    let mut crash: Vec<char> = Vec::new();
    let mut i: usize = 0;
    while i < data.len()
        invariant
            i <= data.len(),
            at < data.len(),
            general@ == data@.take(if i <= at { i as int } else { at + 1 }),
            crash@ == data@.subrange(at + 1, if i <= at { at + 1 } else { i as int }),
        decreases data.len() - i,
    {
        if i <= at {
            general.push(data[i]);
            assert(general@ =~= data@.take(i + 1));
        } else {
            crash.push(data[i]);
            assert(crash@ =~= data@.subrange(at + 1, i + 1));
        }
        i += 1;
    }
    assert(crash@ =~= data@.skip(at + 1));
    Some((string_of(&general), string_of(&crash)))
}

/// The text of `s` as a string literal of Rust, in quotes and with escapes,
/// as `{:?}` writes it.
pub uninterp spec fn debug_text(s: Seq<char>) -> Seq<char>;

/// Writes `s` with `format!` and `{:?}`, that is through `Debug` for `str`,
/// which puts the text in quotes and escapes what cannot stand there. The
/// contract gives the outcome a name and claims only that it depends on the
/// text alone.
#[verifier::external_body]
fn debug_string(s: &str) -> (quoted: String)
    ensures
        quoted@ == debug_text(s@),
{
    format!("{:?}", s)
}

/// One line with label and value as string literals.
pub open spec fn quoted_line(label: Seq<char>, value: Seq<char>) -> Seq<char> {
    debug_text(label) + " "@ + debug_text(value) + "\n"@
}

/// The indicator of how the process was ended, where the report has one.
pub open spec fn termination_indicator(crash: CrashInfo) -> Option<String> {
    match crash.termination {
        Some(termination) => termination.indicator,
        None => None,
    }
}

/// The process and the system it ran on, under their heading.
pub open spec fn log_general_text(general: IncidentReport, crash: CrashInfo) -> Seq<char> {
    underlined("GENERAL INFO"@) + field_line(15, "Name:"@, general.name@) + field_line(
        15,
        "App Name:"@,
        general.app_name@,
    ) + field_line(15, "Bundle ID:"@, text_or(crash.coalition_name, ""@)) + field_line(
        15,
        "Version:"@,
        general.app_version@,
    ) + field_line(15, "OS version:"@, crash.os_version.train@) + field_line(
        15,
        "OS build:"@,
        crash.os_version.build@,
    ) + field_line(15, "OS model:"@, crash.model_code@) + field_line(15, "CPU:"@, crash.cpu_type@)
        + field_line(15, "User ID:"@, decimal(crash.user_id as nat)) + field_line(
        15,
        "Proc Path:"@,
        crash.proc_path@,
    ) + field_line(15, "Parent Proc:"@, crash.parent_proc@) + field_line(
        15,
        "Parent PID:"@,
        decimal(crash.parent_pid as nat),
    ) + field_line(15, "Timestamp:"@, general.timestamp@) + "\n"@
}

/// The exception, under its heading. Subtype and termination are written as
/// string literals.
pub open spec fn log_exception_text(crash: CrashInfo) -> Seq<char> {
    underlined("EXCEPTION INFO"@) + field_line(
        20,
        "Exception type:"@,
        crash.exception.exception_type@,
    ) + quoted_line("Exception subtype:"@, text_or(crash.exception.subtype, "None"@))
        + field_line(20, "Exception signal:"@, crash.exception.signal@) + field_line(
        20,
        "Exception codes:"@,
        crash.exception.codes@,
    ) + quoted_line("Termination:"@, text_or(termination_indicator(crash), "None"@)) + "\n"@
}

/// The report as text: the process, the exception, and the heading of the
/// registers.
pub open spec fn log_text(log: CrashLog) -> Seq<char> {
    log_general_text(log.general_info, log.crash_info) + log_exception_text(log.crash_info)
        + underlined("REGISTERS"@)
}

/// Appends one line with label and value as string literals to `out`.
fn push_quoted_line(out: &mut String, label: &str, value: &str)
    ensures
        final(out)@ == old(out)@ + quoted_line(label@, value@),
{
    let quoted_label = debug_string(label);
    let quoted_value = debug_string(value);
    out.append(quoted_label.as_str());
    out.append(" ");
    out.append(quoted_value.as_str());
    out.append("\n");
    assert(out@ =~= old(out)@ + quoted_line(label@, value@));
}

impl CrashLog {
    /// The report that the two records make up.
    pub fn new(general_info: IncidentReport, crash_info: CrashInfo) -> (log: CrashLog)
        ensures
            log.general_info == general_info,
            log.crash_info == crash_info,
    {
        CrashLog { general_info, crash_info }
    }

    /// The process and the system it ran on, under their heading.
    fn general_section(&self) -> (text: String)
        ensures
            text@ == log_general_text(self.general_info, self.crash_info),
    {
        let general = &self.general_info;
        let crash = &self.crash_info;
        let mut text = String::new();
        push_underlined(&mut text, "GENERAL INFO");
        push_field_line(&mut text, 15, "Name:", general.name.as_str());
        push_field_line(&mut text, 15, "App Name:", general.app_name.as_str());
        match &crash.coalition_name {
            Some(bundle) => push_field_line(&mut text, 15, "Bundle ID:", bundle.as_str()),
            None => push_field_line(&mut text, 15, "Bundle ID:", ""),
        }
        push_field_line(&mut text, 15, "Version:", general.app_version.as_str());
        push_field_line(&mut text, 15, "OS version:", crash.os_version.train.as_str());
        push_field_line(&mut text, 15, "OS build:", crash.os_version.build.as_str());
        push_field_line(&mut text, 15, "OS model:", crash.model_code.as_str());
        push_field_line(&mut text, 15, "CPU:", crash.cpu_type.as_str());
        let user = decimal_string(crash.user_id as u64);
        push_field_line(&mut text, 15, "User ID:", user.as_str());
        push_field_line(&mut text, 15, "Proc Path:", crash.proc_path.as_str());
        push_field_line(&mut text, 15, "Parent Proc:", crash.parent_proc.as_str());
        let parent = decimal_string(crash.parent_pid as u64);
        push_field_line(&mut text, 15, "Parent PID:", parent.as_str());
        push_field_line(&mut text, 15, "Timestamp:", general.timestamp.as_str());
        text.append("\n");
        assert(text@ =~= log_general_text(self.general_info, self.crash_info));
        text
    }

    /// The exception, under its heading.
    fn exception_section(&self) -> (text: String)
        ensures
            text@ == log_exception_text(self.crash_info),
    {
        let crash = &self.crash_info;
        let mut text = String::new();
        push_underlined(&mut text, "EXCEPTION INFO");
        push_field_line(&mut text, 20, "Exception type:", crash.exception.exception_type.as_str());
        match &crash.exception.subtype {
            Some(subtype) => push_quoted_line(&mut text, "Exception subtype:", subtype.as_str()),
            None => push_quoted_line(&mut text, "Exception subtype:", "None"),
        }
        push_field_line(&mut text, 20, "Exception signal:", crash.exception.signal.as_str());
        push_field_line(&mut text, 20, "Exception codes:", crash.exception.codes.as_str());
        let ghost before = text@;
        let ghost shown = text_or(termination_indicator(self.crash_info), "None"@);
        match &crash.termination {
            Some(termination) => match &termination.indicator {
                Some(indicator) => push_quoted_line(&mut text, "Termination:", indicator.as_str()),
                None => push_quoted_line(&mut text, "Termination:", "None"),
            },
            None => push_quoted_line(&mut text, "Termination:", "None"),
        }
        assert(text@ == before + quoted_line("Termination:"@, shown));
        text.append("\n");
        assert(text@ =~= log_exception_text(self.crash_info));
        text
    }

    /// The report as text.
    pub fn to_text(&self) -> (text: String)
        ensures
            text@ == log_text(*self),
    {
        let mut text = self.general_section();
        let exception = self.exception_section();
        text.append(exception.as_str());
        push_underlined(&mut text, "REGISTERS");
        assert(text@ =~= log_text(*self));
        text
    }
}

} // verus!
