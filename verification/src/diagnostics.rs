//! Making sense of the backend's debug messages.
//!
//! A backend with debug output switched on reports what it notices as a
//! message with a source, a type, an identifier and a severity, each a
//! numeric code. This module sorts the codes and says what is to be logged
//! and whether the session has to end.

use vstd::prelude::*;
use vstd::utf8::{decode_utf8, valid_utf8};
use crate::gl_helper_functions::{string_from_utf8, text_view};

verus! {

/// How much a debug message matters.
#[derive(Clone, Copy, Debug, PartialEq, Eq, Structural)]
pub enum DebugSeverity {
    High,
    Medium,
    Low,
    Notification,
}

/// Where a debug message comes from.
#[derive(Clone, Copy, Debug, PartialEq, Eq, Structural)]
pub enum DebugSource {
    Api,
    WindowSystem,
    ShaderCompiler,
    ThirdParty,
    Application,
    Other,
}

/// What a debug message is about.
#[derive(Clone, Copy, Debug, PartialEq, Eq, Structural)]
pub enum DebugType {
    Error,
    DeprecatedBehavior,
    UndefinedBehavior,
    Portability,
    Performance,
    Marker,
    PushGroup,
    PopGroup,
    Other,
}

/// `gl::DEBUG_SEVERITY_MEDIUM`, the constant of the `gl` crate: its value is `0x9147`.
#[verifier::external_body]
fn debug_severity_medium() -> (code: u32)
    ensures
        code == 0x9147u32,
{
    gl::DEBUG_SEVERITY_MEDIUM
}

/// `gl::DEBUG_SEVERITY_LOW`, the constant of the `gl` crate: its value is `0x9148`.
#[verifier::external_body]
fn debug_severity_low() -> (code: u32)
    ensures
        code == 0x9148u32,
{
    gl::DEBUG_SEVERITY_LOW
}

/// `gl::DEBUG_SEVERITY_NOTIFICATION`, the constant of the `gl` crate: its value is `0x826b`.
#[verifier::external_body]
fn debug_severity_notification() -> (code: u32)
    ensures
        code == 0x826bu32,
{
    gl::DEBUG_SEVERITY_NOTIFICATION
}

/// `gl::DEBUG_SEVERITY_HIGH`, the constant of the `gl` crate: its value is `0x9146`.
#[verifier::external_body]
fn debug_severity_high() -> (code: u32)
    ensures
        code == 0x9146u32,
{
    gl::DEBUG_SEVERITY_HIGH
}

/// `gl::DEBUG_SOURCE_API`, the constant of the `gl` crate: its value is `0x8246`.
#[verifier::external_body]
fn debug_source_api() -> (code: u32)
    ensures
        code == 0x8246u32,
{
    gl::DEBUG_SOURCE_API
}

/// `gl::DEBUG_SOURCE_WINDOW_SYSTEM`, the constant of the `gl` crate: its value is `0x8247`.
#[verifier::external_body]
fn debug_source_window_system() -> (code: u32)
    ensures
        code == 0x8247u32,
{
    gl::DEBUG_SOURCE_WINDOW_SYSTEM
}

/// `gl::DEBUG_SOURCE_SHADER_COMPILER`, the constant of the `gl` crate: its value is `0x8248`.
#[verifier::external_body]
fn debug_source_shader_compiler() -> (code: u32)
    ensures
        code == 0x8248u32,
{
    gl::DEBUG_SOURCE_SHADER_COMPILER
}

/// `gl::DEBUG_SOURCE_THIRD_PARTY`, the constant of the `gl` crate: its value is `0x8249`.
#[verifier::external_body]
fn debug_source_third_party() -> (code: u32)
    ensures
        code == 0x8249u32,
{
    gl::DEBUG_SOURCE_THIRD_PARTY
}

/// `gl::DEBUG_SOURCE_APPLICATION`, the constant of the `gl` crate: its value is `0x824a`.
#[verifier::external_body]
fn debug_source_application() -> (code: u32)
    ensures
        code == 0x824au32,
{
    gl::DEBUG_SOURCE_APPLICATION
}

/// `gl::DEBUG_SOURCE_OTHER`, the constant of the `gl` crate: its value is `0x824b`.
#[verifier::external_body]
fn debug_source_other() -> (code: u32)
    ensures
        code == 0x824bu32,
{
    gl::DEBUG_SOURCE_OTHER
}

/// `gl::DEBUG_TYPE_ERROR`, the constant of the `gl` crate: its value is `0x824c`.
#[verifier::external_body]
fn debug_type_error() -> (code: u32)
    ensures
        code == 0x824cu32,
{
    gl::DEBUG_TYPE_ERROR
}

/// `gl::DEBUG_TYPE_DEPRECATED_BEHAVIOR`, the constant of the `gl` crate: its value is `0x824d`.
#[verifier::external_body]
fn debug_type_deprecated_behavior() -> (code: u32)
    ensures
        code == 0x824du32,
{
    gl::DEBUG_TYPE_DEPRECATED_BEHAVIOR
}

/// `gl::DEBUG_TYPE_UNDEFINED_BEHAVIOR`, the constant of the `gl` crate: its value is `0x824e`.
#[verifier::external_body]
fn debug_type_undefined_behavior() -> (code: u32)
    ensures
        code == 0x824eu32,
{
    gl::DEBUG_TYPE_UNDEFINED_BEHAVIOR
}

/// `gl::DEBUG_TYPE_PORTABILITY`, the constant of the `gl` crate: its value is `0x824f`.
#[verifier::external_body]
fn debug_type_portability() -> (code: u32)
    ensures
        code == 0x824fu32,
{
    gl::DEBUG_TYPE_PORTABILITY
}

/// `gl::DEBUG_TYPE_PERFORMANCE`, the constant of the `gl` crate: its value is `0x8250`.
#[verifier::external_body]
fn debug_type_performance() -> (code: u32)
    ensures
        code == 0x8250u32,
{
    gl::DEBUG_TYPE_PERFORMANCE
}

/// `gl::DEBUG_TYPE_MARKER`, the constant of the `gl` crate: its value is `0x8268`.
#[verifier::external_body]
fn debug_type_marker() -> (code: u32)
    ensures
        code == 0x8268u32,
{
    gl::DEBUG_TYPE_MARKER
}

/// `gl::DEBUG_TYPE_PUSH_GROUP`, the constant of the `gl` crate: its value is `0x8269`.
#[verifier::external_body]
fn debug_type_push_group() -> (code: u32)
    ensures
        code == 0x8269u32,
{
    gl::DEBUG_TYPE_PUSH_GROUP
}

/// `gl::DEBUG_TYPE_POP_GROUP`, the constant of the `gl` crate: its value is `0x826a`.
#[verifier::external_body]
fn debug_type_pop_group() -> (code: u32)
    ensures
        code == 0x826au32,
{
    gl::DEBUG_TYPE_POP_GROUP
}

/// `gl::DEBUG_TYPE_OTHER`, the constant of the `gl` crate: its value is `0x8251`.
#[verifier::external_body]
fn debug_type_other() -> (code: u32)
    ensures
        code == 0x8251u32,
{
    gl::DEBUG_TYPE_OTHER
}

/// The severity that `code` stands for, if it is one of the four.
pub open spec fn severity_class(code: u32) -> Option<DebugSeverity> {
    if code == 0x9147u32 {
        Some(DebugSeverity::Medium)
    } else if code == 0x9148u32 {
        Some(DebugSeverity::Low)
    } else if code == 0x826bu32 {
        Some(DebugSeverity::Notification)
    } else if code == 0x9146u32 {
        Some(DebugSeverity::High)
    } else {
        None
    }
}

/// The severity that `code` stands for, if it is one of the four.
pub fn severity_of(code: u32) -> (class: Option<DebugSeverity>)
    ensures
        class == severity_class(code),
{
    if code == debug_severity_medium() {
        Some(DebugSeverity::Medium)
    } else if code == debug_severity_low() {
        Some(DebugSeverity::Low)
    } else if code == debug_severity_notification() {
        Some(DebugSeverity::Notification)
    } else if code == debug_severity_high() {
        Some(DebugSeverity::High)
    } else {
        None
    }
}

/// The source that `code` stands for, if it is one of the six.
pub open spec fn source_class(code: u32) -> Option<DebugSource> {
    if code == 0x8246u32 {
        Some(DebugSource::Api)
    } else if code == 0x8247u32 {
        Some(DebugSource::WindowSystem)
    } else if code == 0x8248u32 {
        Some(DebugSource::ShaderCompiler)
    } else if code == 0x8249u32 {
        Some(DebugSource::ThirdParty)
    } else if code == 0x824au32 {
        Some(DebugSource::Application)
    } else if code == 0x824bu32 {
        Some(DebugSource::Other)
    } else {
        None
    }
}

/// The source that `code` stands for, if it is one of the six.
pub fn source_of(code: u32) -> (class: Option<DebugSource>)
    ensures
        class == source_class(code),
{
    if code == debug_source_api() {
        Some(DebugSource::Api)
    } else if code == debug_source_window_system() {
        Some(DebugSource::WindowSystem)
    } else if code == debug_source_shader_compiler() {
        Some(DebugSource::ShaderCompiler)
    } else if code == debug_source_third_party() {
        Some(DebugSource::ThirdParty)
    } else if code == debug_source_application() {
        Some(DebugSource::Application)
    } else if code == debug_source_other() {
        Some(DebugSource::Other)
    } else {
        None
    }
}

/// The message type that `code` stands for, if it is one of the nine.
pub open spec fn kind_class(code: u32) -> Option<DebugType> {
    if code == 0x824cu32 {
        Some(DebugType::Error)
    } else if code == 0x824du32 {
        Some(DebugType::DeprecatedBehavior)
    } else if code == 0x824eu32 {
        Some(DebugType::UndefinedBehavior)
    } else if code == 0x824fu32 {
        Some(DebugType::Portability)
    } else if code == 0x8250u32 {
        Some(DebugType::Performance)
    } else if code == 0x8268u32 {
        Some(DebugType::Marker)
    } else if code == 0x8269u32 {
        Some(DebugType::PushGroup)
    } else if code == 0x826au32 {
        Some(DebugType::PopGroup)
    } else if code == 0x8251u32 {
        Some(DebugType::Other)
    } else {
        None
    }
}

/// The message type that `code` stands for, if it is one of the nine.
pub fn kind_of(code: u32) -> (class: Option<DebugType>)
    ensures
        class == kind_class(code),
{
    if code == debug_type_error() {
        Some(DebugType::Error)
    } else if code == debug_type_deprecated_behavior() {
        Some(DebugType::DeprecatedBehavior)
    } else if code == debug_type_undefined_behavior() {
        Some(DebugType::UndefinedBehavior)
    } else if code == debug_type_portability() {
        Some(DebugType::Portability)
    } else if code == debug_type_performance() {
        Some(DebugType::Performance)
    } else if code == debug_type_marker() {
        Some(DebugType::Marker)
    } else if code == debug_type_push_group() {
        Some(DebugType::PushGroup)
    } else if code == debug_type_pop_group() {
        Some(DebugType::PopGroup)
    } else if code == debug_type_other() {
        Some(DebugType::Other)
    } else {
        None
    }
}

impl DebugSeverity {
    /// The line logged for a message of this severity.
    pub open spec fn line_text(self) -> Seq<char> {
        match self {
            DebugSeverity::High => "aborting due to error (gl::DEBUG_SEVERITY_HIGH)"@,
            DebugSeverity::Medium => "Keep going. Severity level: DEBUG_SEVERITY_MEDIUM"@,
            DebugSeverity::Low => "Keep going. Severity level: DEBUG_SEVERITY_LOW"@,
            DebugSeverity::Notification => "Keep going. Severity level: DEBUG_SEVERITY_NOTIFICATION"@,
        }
    }

    /// The line logged for a message of this severity.
    pub fn line(self) -> (line: &'static str)
        ensures
            line@ == self.line_text(),
    {
        match self {
            DebugSeverity::High => "aborting due to error (gl::DEBUG_SEVERITY_HIGH)",
            DebugSeverity::Medium => "Keep going. Severity level: DEBUG_SEVERITY_MEDIUM",
            DebugSeverity::Low => "Keep going. Severity level: DEBUG_SEVERITY_LOW",
            DebugSeverity::Notification => "Keep going. Severity level: DEBUG_SEVERITY_NOTIFICATION",
        }
    }
}

impl DebugSource {
    /// The line logged for a message from this source.
    pub open spec fn line_text(self) -> Seq<char> {
        match self {
            DebugSource::Api => "Source: DEBUG_SOURCE_API"@,
            DebugSource::WindowSystem => "Source: DEBUG_SOURCE_WINDOW_SYSTEM"@,
            DebugSource::ShaderCompiler => "Source: DEBUG_SOURCE_SHADER_COMPILER"@,
            DebugSource::ThirdParty => "Source: DEBUG_SOURCE_THIRD_PARTY"@,
            DebugSource::Application => "Source: DEBUG_SOURCE_APPLICATION"@,
            DebugSource::Other => "Source: DEBUG_SOURCE_OTHER"@,
        }
    }

    /// The line logged for a message from this source.
    pub fn line(self) -> (line: &'static str)
        ensures
            line@ == self.line_text(),
    {
        match self {
            DebugSource::Api => "Source: DEBUG_SOURCE_API",
            DebugSource::WindowSystem => "Source: DEBUG_SOURCE_WINDOW_SYSTEM",
            DebugSource::ShaderCompiler => "Source: DEBUG_SOURCE_SHADER_COMPILER",
            DebugSource::ThirdParty => "Source: DEBUG_SOURCE_THIRD_PARTY",
            DebugSource::Application => "Source: DEBUG_SOURCE_APPLICATION",
            DebugSource::Other => "Source: DEBUG_SOURCE_OTHER",
        }
    }
}

impl DebugType {
    /// The line logged for a message of this type.
    pub open spec fn line_text(self) -> Seq<char> {
        match self {
            DebugType::Error => "Type: DEBUG_TYPE_ERROR"@,
            DebugType::DeprecatedBehavior => "Type: DEBUG_TYPE_DEPRECATED_BEHAVIOR"@,
            DebugType::UndefinedBehavior => "Type: DEBUG_TYPE_UNDEFINED_BEHAVIOR"@,
            DebugType::Portability => "Type: DEBUG_TYPE_PORTABILITY"@,
            DebugType::Performance => "Type: DEBUG_TYPE_PERFORMANCE"@,
            DebugType::Marker => "Type: DEBUG_TYPE_MARKER"@,
            DebugType::PushGroup => "Type: DEBUG_TYPE_PUSH_GROUP"@,
            DebugType::PopGroup => "Type: DEBUG_TYPE_POP_GROUP"@,
            DebugType::Other => "Type: DEBUG_TYPE_OTHER"@,
        }
    }

    /// The line logged for a message of this type.
    pub fn line(self) -> (line: &'static str)
        ensures
            line@ == self.line_text(),
    {
        match self {
            DebugType::Error => "Type: DEBUG_TYPE_ERROR",
            DebugType::DeprecatedBehavior => "Type: DEBUG_TYPE_DEPRECATED_BEHAVIOR",
            DebugType::UndefinedBehavior => "Type: DEBUG_TYPE_UNDEFINED_BEHAVIOR",
            DebugType::Portability => "Type: DEBUG_TYPE_PORTABILITY",
            DebugType::Performance => "Type: DEBUG_TYPE_PERFORMANCE",
            DebugType::Marker => "Type: DEBUG_TYPE_MARKER",
            DebugType::PushGroup => "Type: DEBUG_TYPE_PUSH_GROUP",
            DebugType::PopGroup => "Type: DEBUG_TYPE_POP_GROUP",
            DebugType::Other => "Type: DEBUG_TYPE_OTHER",
        }
    }
}

/// What is to be done about one debug message.
pub struct DebugReport {
    /// The severity of the message, if its code is a known one.
    pub severity: Option<DebugSeverity>,
    /// The source of the message, if its code is a known one.
    pub source: Option<DebugSource>,
    /// The type of the message, if its code is a known one.
    pub kind: Option<DebugType>,
    /// The identifier of the message.
    pub id: u32,
    /// The text of the message; `None` if its bytes are not UTF-8.
    pub message: Option<String>,
    /// Whether the session has to end once the message has been logged.
    pub fatal: bool,
}

/// What a report is, mathematically.
pub struct DebugReportModel {
    pub severity: Option<DebugSeverity>,
    pub source: Option<DebugSource>,
    pub kind: Option<DebugType>,
    pub id: u32,
    pub message: Option<Seq<char>>,
    pub fatal: bool,
}

impl View for DebugReport {
    type V = DebugReportModel;

    open spec fn view(&self) -> DebugReportModel {
        DebugReportModel {
            severity: self.severity,
            source: self.source,
            kind: self.kind,
            id: self.id,
            message: text_view(self.message),
            fatal: self.fatal,
        }
    }
}

/// The report on a message with the given codes and bytes. Only a message
/// of high severity is fatal.
pub open spec fn report_on(source: u32, gltype: u32, id: u32, severity: u32, message: Seq<u8>)
    -> DebugReportModel {
    DebugReportModel {
        severity: severity_class(severity),
        source: source_class(source),
        kind: kind_class(gltype),
        id,
        message: if valid_utf8(message) {
            Some(decode_utf8(message))
        } else {
            None
        },
        fatal: severity_class(severity) == Some(DebugSeverity::High),
    }
}

/// Reports on one debug message of the backend: sorts its source, type and
/// severity, reads its text, and says whether it is fatal.
pub fn callbackfn(source: u32, gltype: u32, id: u32, severity: u32, message: Vec<u8>) -> (report:
    DebugReport)
    ensures
        report@ == report_on(source, gltype, id, severity, message@),
{
    let class = severity_of(severity);
    let fatal = match class {
        Some(DebugSeverity::High) => true,
        _ => false,
    };
    DebugReport {
        severity: class,
        source: source_of(source),
        kind: kind_of(gltype),
        id,
        message: string_from_utf8(message),
        fatal,
    }
}

/// A message is fatal exactly if its severity is the highest, whatever its
/// other codes and its text.
pub proof fn lemma_only_high_severity_is_fatal(
    source: u32,
    gltype: u32,
    id: u32,
    severity: u32,
    message: Seq<u8>,
)
    ensures
        report_on(source, gltype, id, severity, message).fatal <==> severity == 0x9146u32,
{
}

/// The lines logged ahead of a message's identifier and text, in order:
/// one for its severity unless that is high or unknown, one for its source
/// and one for its type, each only if the code is a known one.
pub open spec fn heading_text(r: DebugReportModel) -> Seq<Seq<char>> {
    (match r.severity {
        Some(s) if s != DebugSeverity::High => seq![s.line_text()],
        _ => Seq::<Seq<char>>::empty(),
    }) + (match r.source {
        Some(s) => seq![s.line_text()],
        None => Seq::<Seq<char>>::empty(),
    }) + (match r.kind {
        Some(k) => seq![k.line_text()],
        None => Seq::<Seq<char>>::empty(),
    })
}

/// The characters of each line.
pub open spec fn lines_view(lines: Seq<&'static str>) -> Seq<Seq<char>> {
    lines.map_values(|l: &'static str| l@)
}

impl DebugReport {
    /// The lines to log ahead of the message's identifier and text.
    pub fn heading(&self) -> (lines: Vec<&'static str>)
        ensures
            lines_view(lines@) == heading_text(self@),
    {
        let mut lines: Vec<&'static str> = Vec::new();
        match self.severity {
            Some(DebugSeverity::High) => {},
            Some(s) => {
                lines.push(s.line());
            },
            None => {},
        }
        match self.source {
            Some(s) => {
                lines.push(s.line());
            },
            None => {},
        }
        match self.kind {
            Some(k) => {
                lines.push(k.line());
            },
            None => {},
        }
        assert(lines_view(lines@) =~= heading_text(self@));
        lines
    }

    /// The line to log after the message's identifier and text: the notice
    /// that the session ends, if the report is fatal.
    pub fn closing(&self) -> (line: Option<&'static str>)
        ensures
            self.fatal ==> (line matches Some(l) && l@ == DebugSeverity::High.line_text()),
            !self.fatal ==> line is None,
    {
        if self.fatal {
            Some(DebugSeverity::High.line())
        } else {
            None
        }
    }
}

} // verus!
