//! Machine identity: a three-tier fallback from the operating system's own
//! identifier, to an identifier cached in the application's configuration
//! directory, to a freshly generated one that is then cached.
//!
//! The resolver performs no input or output. It names what is to be read or
//! written next (`Request`) and decides, from what came back, how to go on
//! (`Step`). The caller carries the requests out.

use crate::ioreg::{parse_platform_uuid, platform_uuid};
use crate::text::{
    is_blank, lemma_trim_empty_iff_blank, option_text, outcome_text, result_text, trim, trim_str,
};
use vstd::prelude::*;
use vstd::utf8::{decode_utf8, valid_utf8};

verus! {

/// The operating system that the application runs on.
#[derive(Clone, Copy, PartialEq, Eq, Debug, Structural)]
pub enum Platform {
    Windows,
    Linux,
    MacOs,
    Other,
}

/// A place where an operating system keeps an identifier of the machine.
#[derive(Clone, Copy, PartialEq, Eq, Debug, Structural)]
pub enum OsSource {
    /// The registry value `MachineGuid` of the cryptography service.
    MachineGuid,
    /// The file `/etc/machine-id`.
    EtcMachineId,
    /// The file `/var/lib/dbus/machine-id`.
    DbusMachineId,
    /// The output of `ioreg` for the platform expert device.
    PlatformDevice,
}

/// How an operating-system source is read.
#[derive(PartialEq, Eq, Debug)]
pub enum Probe {
    /// A string value of a key below `HKEY_LOCAL_MACHINE`.
    RegistryValue { key: &'static str, name: &'static str },
    /// A file, by its absolute path.
    File { path: &'static str },
    /// A program of the search path with its arguments; its standard output
    /// is the reading.
    Command { program: &'static str, arguments: Vec<&'static str> },
}

/// What reading a source gave.
#[derive(PartialEq, Eq, Debug)]
pub enum Reading {
    /// The source is absent or could not be read.
    Unavailable,
    /// The contents of a file, or a registry value.
    Text(String),
    /// A program ran: whether it reported success, and its standard output.
    Output { success: bool, stdout: Vec<u8> },
}

/// What the resolver asks its caller to do next.
#[derive(PartialEq, Eq, Debug)]
pub enum Request {
    /// Read an operating-system source.
    ReadOs(OsSource),
    /// Read the identifier file of the configuration directory.
    ReadCache,
    /// Create the configuration directory with its parents, and write this
    /// identifier to the identifier file, replacing what it held.
    Store(String),
}

/// Where a resolution stands.
#[derive(PartialEq, Eq, Debug)]
pub enum Step {
    /// The request is to be carried out and its outcome reported back.
    Ask(Request),
    /// The resolution has ended, with the identifier or with the reason
    /// why none could be stored.
    Done(Result<String, String>),
}

/// A `Probe` with its texts as sequences of characters.
pub enum ProbeView {
    RegistryValue { key: Seq<char>, name: Seq<char> },
    File { path: Seq<char> },
    Command { program: Seq<char>, arguments: Seq<Seq<char>> },
}

/// A `Reading` with its text as a sequence of characters and its bytes as
/// a sequence of bytes.
pub enum ReadingView {
    Unavailable,
    Text(Seq<char>),
    Output { success: bool, stdout: Seq<u8> },
}

/// A `Request` with its identifier as a sequence of characters.
pub enum RequestView {
    ReadOs(OsSource),
    ReadCache,
    Store(Seq<char>),
}

/// A `Step` with its texts as sequences of characters.
pub enum StepView {
    Ask(RequestView),
    Done(Result<Seq<char>, Seq<char>>),
}

impl View for Probe {
    type V = ProbeView;

    open spec fn view(&self) -> ProbeView {
        match self {
            Probe::RegistryValue { key, name } => ProbeView::RegistryValue {
                key: key@,
                name: name@,
            },
            Probe::File { path } => ProbeView::File { path: path@ },
            Probe::Command { program, arguments } => ProbeView::Command {
                program: program@,
                arguments: arguments@.map_values(|argument: &'static str| argument@),
            },
        }
    }
}

impl View for Reading {
    type V = ReadingView;

    open spec fn view(&self) -> ReadingView {
        match self {
            Reading::Unavailable => ReadingView::Unavailable,
            Reading::Text(text) => ReadingView::Text(text@),
            Reading::Output { success, stdout } => ReadingView::Output {
                success: *success,
                stdout: stdout@,
            },
        }
    }
}

impl View for Request {
    type V = RequestView;

    open spec fn view(&self) -> RequestView {
        match self {
            Request::ReadOs(source) => RequestView::ReadOs(*source),
            Request::ReadCache => RequestView::ReadCache,
            Request::Store(id) => RequestView::Store(id@),
        }
    }
}

impl View for Step {
    type V = StepView;

    open spec fn view(&self) -> StepView {
        match self {
            Step::Ask(request) => StepView::Ask(request@),
            Step::Done(result) => StepView::Done(result_text(*result)),
        }
    }
}

/// Whether `c` is a decimal digit or one of the letters `a` to `f`.
pub open spec fn is_lower_hex(c: char) -> bool {
    let u = c as u32;
    0x30 <= u <= 0x39 || 0x61 <= u <= 0x66
}

/// Whether `s` is the hyphenated lower-case form of a version 4 (random)
/// UUID of the RFC 9562 variant: 36 characters, hyphens at positions 8, 13,
/// 18 and 23, hexadecimal digits elsewhere, the version digit `4` at
/// position 14, and one of `8`, `9`, `a`, `b` at position 19.
pub open spec fn is_uuid_v4_text(s: Seq<char>) -> bool {
    &&& s.len() == 36
    &&& forall|i: int|
        0 <= i < 36 ==> if i == 8 || i == 13 || i == 18 || i == 23 {
            #[trigger] s[i] == '-'
        } else {
            is_lower_hex(s[i])
        }
    &&& s[14] == '4'
    &&& (s[19] == '8' || s[19] == '9' || s[19] == 'a' || s[19] == 'b')
}

/// Where each operating-system source is found.
pub open spec fn probe_of(source: OsSource) -> ProbeView {
    match source {
        OsSource::MachineGuid => ProbeView::RegistryValue {
            key: "SOFTWARE\\Microsoft\\Cryptography"@,
            name: "MachineGuid"@,
        },
        OsSource::EtcMachineId => ProbeView::File { path: "/etc/machine-id"@ },
        OsSource::DbusMachineId => ProbeView::File { path: "/var/lib/dbus/machine-id"@ },
        OsSource::PlatformDevice => ProbeView::Command {
            program: "ioreg"@,
            arguments: seq!["-rd1"@, "-c"@, "IOPlatformExpertDevice"@],
        },
    }
}

/// The name of the identifier file in the configuration directory.
pub open spec fn cache_file() -> Seq<char> {
    "machine_id.txt"@
}

/// The text that a reading holds: the text itself, or the standard output
/// of a program that reported success, if it is UTF-8.
pub open spec fn reading_text(reading: ReadingView) -> Option<Seq<char>> {
    match reading {
        ReadingView::Unavailable => None,
        ReadingView::Text(text) => Some(text),
        ReadingView::Output { success, stdout } => if success && valid_utf8(stdout) {
            Some(decode_utf8(stdout))
        } else {
            None
        },
    }
}

/// The identifier that an operating-system source gives:
/// the registry value as it stands, unless it is blank;
/// the trimmed contents of a machine-id file, unless they are empty;
/// the platform UUID in the output of `ioreg`.
pub open spec fn os_machine_id(source: OsSource, reading: ReadingView) -> Option<Seq<char>> {
    match reading_text(reading) {
        None => None,
        Some(text) => match source {
            OsSource::MachineGuid => if trim(text).len() > 0 {
                Some(text)
            } else {
                None
            },
            OsSource::EtcMachineId | OsSource::DbusMachineId => if trim(text).len() > 0 {
                Some(trim(text))
            } else {
                None
            },
            OsSource::PlatformDevice => platform_uuid(text),
        },
    }
}

/// The identifier that the identifier file gives: its trimmed contents,
/// unless they are empty.
pub open spec fn cached_machine_id(reading: ReadingView) -> Option<Seq<char>> {
    match reading_text(reading) {
        Some(text) if trim(text).len() > 0 => Some(trim(text)),
        _ => None,
    }
}

/// The first operating-system source of a platform, if it has one.
pub open spec fn first_source(platform: Platform) -> Option<OsSource> {
    match platform {
        Platform::Windows => Some(OsSource::MachineGuid),
        Platform::Linux => Some(OsSource::EtcMachineId),
        Platform::MacOs => Some(OsSource::PlatformDevice),
        Platform::Other => None,
    }
}

/// The source to fall back on when `source` gave no identifier.
pub open spec fn next_source(source: OsSource) -> Option<OsSource> {
    match source {
        OsSource::EtcMachineId => Some(OsSource::DbusMachineId),
        _ => None,
    }
}

/// The request that reads `source`, or the identifier file when the
/// operating-system sources are exhausted.
pub open spec fn read_request(source: Option<OsSource>) -> RequestView {
    match source {
        Some(s) => RequestView::ReadOs(s),
        None => RequestView::ReadCache,
    }
}

/// How a resolution goes on after an operating-system source was read.
pub open spec fn os_step(source: OsSource, reading: ReadingView) -> StepView {
    match os_machine_id(source, reading) {
        Some(id) => StepView::Done(Ok(id)),
        None => StepView::Ask(read_request(next_source(source))),
    }
}

/// How a resolution goes on after the identifier file was read, where
/// `fresh` is the identifier to store if the file gives none.
pub open spec fn cache_step(reading: ReadingView, fresh: Seq<char>) -> StepView {
    match cached_machine_id(reading) {
        Some(id) => StepView::Done(Ok(id)),
        None => StepView::Ask(RequestView::Store(fresh)),
    }
}

/// How a resolution ends after `id` was to be stored.
pub open spec fn store_step(id: Seq<char>, outcome: Result<(), Seq<char>>) -> StepView {
    match outcome {
        Ok(_) => StepView::Done(Ok(id)),
        Err(message) => StepView::Done(Err(message)),
    }
}

/// An upper bound on the requests that a resolution still makes.
pub open spec fn steps_left(step: StepView) -> nat {
    match step {
        StepView::Done(_) => 0,
        StepView::Ask(RequestView::Store(_)) => 1,
        StepView::Ask(RequestView::ReadCache) => 2,
        StepView::Ask(RequestView::ReadOs(OsSource::EtcMachineId)) => 4,
        StepView::Ask(RequestView::ReadOs(_)) => 3,
    }
}

/// `std::str::from_utf8`: the text is `Some` exactly when the bytes are
/// valid UTF-8, and then holds the characters that they encode.
#[verifier::external_body]
fn utf8_text(bytes: &[u8]) -> (text: Option<&str>)
    ensures
        text is Some <==> valid_utf8(bytes@),
        text matches Some(t) ==> t@ == decode_utf8(bytes@),
{
    std::str::from_utf8(bytes).ok()
}

/// `uuid::Uuid::new_v4`, rendered by the identifier's `to_string`: a random
/// version 4 UUID in hyphenated lower-case form. Nothing is claimed of the
/// random digits. The call stops the program when the operating system
/// cannot supply random bytes.
#[verifier::external_body]
fn new_uuid_v4_text() -> (id: String)
    ensures
        is_uuid_v4_text(id@),
{
    uuid::Uuid::new_v4().to_string()
}

/// The text that a reading holds.
fn text_of_reading(reading: &Reading) -> (text: Option<&str>)
    ensures
        match text {
            Some(t) => reading_text(reading@) == Some(t@),
            None => reading_text(reading@) is None,
        },
{
    match reading {
        Reading::Unavailable => None,
        Reading::Text(text) => Some(text.as_str()),
        Reading::Output { success, stdout } => {
            if *success {
                utf8_text(stdout.as_slice())
            } else {
                None
            }
        },
    }
}

impl OsSource {
    /// How this source is read.
    pub fn probe(self) -> (probe: Probe)
        ensures
            probe@ == probe_of(self),
    {
        match self {
            OsSource::MachineGuid => Probe::RegistryValue {
                key: "SOFTWARE\\Microsoft\\Cryptography",
                name: "MachineGuid",
            },
            OsSource::EtcMachineId => Probe::File { path: "/etc/machine-id" },
            OsSource::DbusMachineId => Probe::File { path: "/var/lib/dbus/machine-id" },
            OsSource::PlatformDevice => {
                let mut arguments: Vec<&'static str> = Vec::new();
                arguments.push("-rd1");
                arguments.push("-c");
                arguments.push("IOPlatformExpertDevice");
                assert(arguments@.map_values(|argument: &'static str| argument@) =~= seq![
                    "-rd1"@,
                    "-c"@,
                    "IOPlatformExpertDevice"@,
                ]);
                Probe::Command { program: "ioreg", arguments }
            },
        }
    }
}

/// The name of the identifier file in the configuration directory.
pub fn cache_file_name() -> (name: &'static str)
    ensures
        name@ == cache_file(),
{
    "machine_id.txt"
}

/// Begins a resolution: asks for the platform's first operating-system
/// source, or for the identifier file where the platform has none.
pub fn get_machine_id(platform: Platform) -> (step: Step)
    ensures
        step@ == StepView::Ask(read_request(first_source(platform))),
{
    match platform {
        Platform::Windows => Step::Ask(Request::ReadOs(OsSource::MachineGuid)),
        Platform::Linux => Step::Ask(Request::ReadOs(OsSource::EtcMachineId)),
        Platform::MacOs => Step::Ask(Request::ReadOs(OsSource::PlatformDevice)),
        Platform::Other => Step::Ask(Request::ReadCache),
    }
}

/// The identifier that an operating-system source gives, if any. A source
/// that is unavailable, unreadable or empty gives none, and so does a
/// program that failed or whose output is not UTF-8.
pub fn read_os_machine_id(source: OsSource, reading: &Reading) -> (id: Option<String>)
    ensures
        option_text(id) == os_machine_id(source, reading@),
{
    match text_of_reading(reading) {
        None => None,
        Some(text) => match source {
            OsSource::MachineGuid => {
                if trim_str(text).is_empty() {
                    None
                } else {
                    Some(text.to_owned())
                }
            },
            OsSource::EtcMachineId | OsSource::DbusMachineId => {
                let trimmed = trim_str(text);
                if trimmed.is_empty() {
                    None
                } else {
                    Some(trimmed.to_owned())
                }
            },
            OsSource::PlatformDevice => parse_platform_uuid(text),
        },
    }
}

/// Goes on after an operating-system source was read: the resolution ends
/// with the identifier that the source gives, or else asks for the next
/// source, or for the identifier file when no source is left.
pub fn resume_os(source: OsSource, reading: &Reading) -> (step: Step)
    ensures
        step@ == os_step(source, reading@),
        steps_left(step@) < steps_left(StepView::Ask(RequestView::ReadOs(source))),
{
    match read_os_machine_id(source, reading) {
        Some(id) => Step::Done(Ok(id)),
        None => match source {
            OsSource::EtcMachineId => Step::Ask(Request::ReadOs(OsSource::DbusMachineId)),
            _ => Step::Ask(Request::ReadCache),
        },
    }
}

/// Goes on after the identifier file was read: the resolution ends with the
/// trimmed contents of the file, or, where the file is absent, unreadable,
/// empty or blank, asks to store a newly generated version 4 UUID.
pub fn load_or_create_app_uuid(cached: &Reading) -> (step: Step)
    ensures
        match cached_machine_id(cached@) {
            Some(id) => step@ == StepView::Done(Ok(id)),
            None => step@ matches StepView::Ask(RequestView::Store(fresh)) && is_uuid_v4_text(
                fresh,
            ) && step@ == cache_step(cached@, fresh),
        },
        cached@ matches ReadingView::Text(contents) && is_blank(contents) ==> (step@ matches
            StepView::Ask(RequestView::Store(fresh)) && is_uuid_v4_text(fresh)),
        steps_left(step@) < steps_left(StepView::Ask(RequestView::ReadCache)),
{
    proof {
        if let ReadingView::Text(contents) = cached@ {
            lemma_trim_empty_iff_blank(contents);
        }
    }
    match text_of_reading(cached) {
        None => Step::Ask(Request::Store(new_uuid_v4_text())),
        Some(text) => {
            let trimmed = trim_str(text);
            if trimmed.is_empty() {
                Step::Ask(Request::Store(new_uuid_v4_text()))
            } else {
                Step::Done(Ok(trimmed.to_owned()))
            }
        },
    }
}

/// Ends a resolution after `id` was to be stored: with `id` if it was, and
/// otherwise with the reason why not.
pub fn finish_store(id: String, outcome: Result<(), String>) -> (step: Step)
    ensures
        step@ == store_step(id@, outcome_text(outcome)),
        steps_left(step@) < steps_left(StepView::Ask(RequestView::Store(id@))),
{
    match outcome {
        Ok(_) => Step::Done(Ok(id)),
        Err(message) => Step::Done(Err(message)),
    }
}

} // verus!
