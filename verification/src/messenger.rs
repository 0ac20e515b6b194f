//! The debug messenger: what it is registered with, the state it is in, and
//! what its callback makes of a message.

use crate::config::ValidationConfig;
use crate::handles::DebugMessengerHandle;
use crate::vulkan::{category_bit, severity_bit, Category, Severity};
use vstd::prelude::*;
use vstd::string::*;

verus! {

/// What a debug messenger is registered with: the severities and the
/// categories of the messages that it wants, as bit masks.
#[derive(Clone, Copy, Debug, PartialEq, Eq, Structural)]
pub struct MessengerDescriptor {
    pub severities: u32,
    pub categories: u32,
}

impl MessengerDescriptor {
    /// Whether messages of the given severity are wanted.
    pub open spec fn reports(self, severity: Severity) -> bool {
        self.severities & severity.bit() == severity.bit()
    }

    /// Whether messages of the given category are wanted.
    pub open spec fn covers(self, category: Category) -> bool {
        self.categories & category.bit() == category.bit()
    }
}

/// The descriptor of this library's messenger: warnings, errors and verbose
/// messages, of every category.
pub open spec fn messenger_descriptor() -> MessengerDescriptor {
    MessengerDescriptor {
        severities: Severity::Warning.bit() | Severity::Error.bit() | Severity::Verbose.bit(),
        categories: Category::General.bit() | Category::Performance.bit()
            | Category::Validation.bit(),
    }
}

/// The messenger reports every severity but `Info`, covers every category, and
/// sets no other bit.
pub proof fn lemma_messenger_descriptor(severity: Severity, category: Category)
    ensures
        messenger_descriptor().severities == 0x1101,
        messenger_descriptor().categories == 0x7,
        messenger_descriptor().reports(severity) <==> severity != Severity::Info,
        messenger_descriptor().covers(category),
{
    assert(0x100u32 | 0x1000u32 | 0x1u32 == 0x1101u32) by (bit_vector);
    assert(0x1u32 | 0x4u32 | 0x2u32 == 0x7u32) by (bit_vector);
    assert(0x1101u32 & 0x1u32 == 0x1u32) by (bit_vector);
    assert(0x1101u32 & 0x10u32 != 0x10u32) by (bit_vector);
    assert(0x1101u32 & 0x100u32 == 0x100u32) by (bit_vector);
    assert(0x1101u32 & 0x1000u32 == 0x1000u32) by (bit_vector);
    assert(0x7u32 & 0x1u32 == 0x1u32) by (bit_vector);
    assert(0x7u32 & 0x2u32 == 0x2u32) by (bit_vector);
    assert(0x7u32 & 0x4u32 == 0x4u32) by (bit_vector);
}

/// Builds the descriptor that the messenger is registered with, both on its
/// own and chained to the instance's creation.
pub fn debug_create_info() -> (descriptor: MessengerDescriptor)
    ensures
        descriptor == messenger_descriptor(),
{
    MessengerDescriptor {
        severities: severity_bit(Severity::Warning) | severity_bit(Severity::Error) | severity_bit(
            Severity::Verbose,
        ),
        categories: category_bit(Category::General) | category_bit(Category::Performance)
            | category_bit(Category::Validation),
    }
}

/// Decides whether a messenger is registered once the instance exists: with
/// validation enabled the descriptor to register it with, else nothing.
pub fn setup_debug_utils(config: &ValidationConfig) -> (request: Option<MessengerDescriptor>)
    ensures
        request == if config@.enabled {
            Some(messenger_descriptor())
        } else {
            None
        },
{
    if config.enabled {
        Some(debug_create_info())
    } else {
        None
    }
}

/// The state of the debug messenger of a context.
#[derive(Clone, Copy, Debug, PartialEq, Eq, Structural)]
pub enum DebugMessenger {
    /// Validation is off: there is no messenger, and nothing to destroy.
    Disabled,
    /// Validation is on and the messenger is registered under this handle.
    Created(DebugMessengerHandle),
    /// The messenger was destroyed.
    Destroyed,
}

impl DebugMessenger {
    /// The state after teardown. Only a registered messenger changes.
    pub open spec fn torn_down(self) -> DebugMessenger {
        match self {
            DebugMessenger::Created(_) => DebugMessenger::Destroyed,
            other => other,
        }
    }

    /// The handle under which the messenger is registered, if it is: the one
    /// that teardown has to destroy.
    pub open spec fn registered(self) -> Option<DebugMessengerHandle> {
        match self {
            DebugMessenger::Created(handle) => Some(handle),
            _ => None,
        }
    }

    /// The handle under which the messenger is registered, if it is.
    pub fn handle(&self) -> (handle: Option<DebugMessengerHandle>)
        ensures
            handle == self.registered(),
    {
        match self {
            DebugMessenger::Created(handle) => Some(*handle),
            _ => None,
        }
    }

    /// Tears the messenger down and hands out the handle to destroy. Without a
    /// registered messenger nothing changes and nothing is handed out.
    pub fn destroy(&mut self) -> (handle: Option<DebugMessengerHandle>)
        ensures
            *final(self) == old(self).torn_down(),
            handle == old(self).registered(),
    {
        match *self {
            DebugMessenger::Created(handle) => {
                *self = DebugMessenger::Destroyed;
                Some(handle)
            },
            _ => None,
        }
    }
}

/// The tag that a line carries for a severity.
pub open spec fn severity_label(message_severity: u32) -> Seq<char> {
    if message_severity == Severity::Verbose.bit() {
        "[Verbose]"@
    } else if message_severity == Severity::Warning.bit() {
        "[Warning]"@
    } else if message_severity == Severity::Error.bit() {
        "[Error]"@
    } else if message_severity == Severity::Info.bit() {
        "[Info]"@
    } else {
        "[Unknown]"@
    }
}

/// The tag that a line carries for a category.
pub open spec fn category_label(message_type: u32) -> Seq<char> {
    if message_type == Category::General.bit() {
        "[General]"@
    } else if message_type == Category::Performance.bit() {
        "[Performance]"@
    } else if message_type == Category::Validation.bit() {
        "[Validation]"@
    } else {
        "[Unknown]"@
    }
}

/// The line that is written for a message.
pub open spec fn diagnostic_line(
    message_severity: u32,
    message_type: u32,
    message: Seq<char>,
) -> Seq<char> {
    "[Debug]"@ + severity_label(message_severity) + category_label(message_type) + message
}

/// What the callback answers: the line for the diagnostic sink, and whether the
/// call that triggered the message is to be aborted.
#[derive(Debug, PartialEq, Eq)]
pub struct Diagnostic {
    pub line: String,
    pub abort: bool,
}

/// Names the severity of a message. A mask of several severities, or of none,
/// is unknown.
pub fn severity_tag(message_severity: u32) -> (tag: &'static str)
    ensures
        tag@ == severity_label(message_severity),
{
    if message_severity == severity_bit(Severity::Verbose) {
        "[Verbose]"
    } else if message_severity == severity_bit(Severity::Warning) {
        "[Warning]"
    } else if message_severity == severity_bit(Severity::Error) {
        "[Error]"
    } else if message_severity == severity_bit(Severity::Info) {
        "[Info]"
    } else {
        "[Unknown]"
    }
}

/// Names the category of a message. A mask of several categories, or of none,
/// is unknown.
pub fn category_tag(message_type: u32) -> (tag: &'static str)
    ensures
        tag@ == category_label(message_type),
{
    if message_type == category_bit(Category::General) {
        "[General]"
    } else if message_type == category_bit(Category::Performance) {
        "[Performance]"
    } else if message_type == category_bit(Category::Validation) {
        "[Validation]"
    } else {
        "[Unknown]"
    }
}

/// The messenger's callback: formats the message for the diagnostic sink and
/// never asks for the triggering call to be aborted.
pub fn debug_callback(message_severity: u32, message_type: u32, message: &str) -> (report:
    Diagnostic)
    ensures
        report.line@ == diagnostic_line(message_severity, message_type, message@),
        !report.abort,
{
    let mut line = String::from_str("[Debug]");
    line.append(severity_tag(message_severity));
    line.append(category_tag(message_type));
    line.append(message);
    Diagnostic { line, abort: false }
}

} // verus!
