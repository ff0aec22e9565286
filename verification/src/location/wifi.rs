//! Finding the name of the Wi-Fi network the device is on.
//!
//! Three tools can tell, and none of them is always there. They are tried in
//! a fixed order, and the first name found is the answer. This module reads
//! what the tools print and decides which tool to try next; running a tool
//! is left to the owner of the detection.

use vstd::prelude::*;
use crate::location::error::LocationConnectivityError;
use crate::location::json::{
    json_document,
    parse_json,
    parse_system_profiler_json,
    spec_parse_system_profiler_json,
};
use crate::location::text::{
    chars_of,
    contains,
    find,
    find_line_end,
    lemma_line_end_bounds,
    line_at,
    line_end,
    lines,
    lines_from,
    matches_at,
    remove_all,
    starts_with,
    string_of,
    take_line,
    text_of,
    trim,
    trim_bounds,
    trimmed,
    without,
};

verus! {

/// What `networksetup` prints in front of the name of the network.
pub const NETWORKSETUP_PREFIX: &'static str = "Current Wi-Fi Network:";

/// What `airport` prints in front of the name of the network.
pub const AIRPORT_PREFIX: &'static str = "SSID:";

/// The number of interfaces `networksetup` is asked for.
pub const NETWORK_INTERFACE_COUNT: u8 = 3;

/// The number of places `airport` is looked for in.
pub const AIRPORT_PATH_COUNT: u8 = 2;

/// The lower-case form of a text that `str::to_lowercase` gives.
pub uninterp spec fn lowercase(text: Seq<char>) -> Seq<char>;

/// `str::to_lowercase`: the lower-case form of the text, by the rules of
/// Unicode.
#[verifier::external_body]
fn to_lowercase(text: &str) -> (lower: String)
    ensures
        lower@ == lowercase(text@),
{
    text.to_lowercase()
}

/// Whether a text in lower case reads like the complaint of a tool rather
/// than the name of a network.
pub open spec fn spec_has_error_indicator(lower: Seq<char>) -> bool {
    ||| contains(lower, "not associated"@)
    ||| contains(lower, "not connected"@)
    ||| contains(lower, "no network"@)
    ||| contains(lower, "airport"@)
    ||| contains(lower, "error"@)
    ||| starts_with(lower, "unable"@)
    ||| starts_with(lower, "failed"@)
}

/// Whether a text in lower case reads like the complaint of a tool.
pub fn has_error_indicator(lower: &str) -> (indicated: bool)
    ensures
        indicated == spec_has_error_indicator(lower@),
{
    let text = chars_of(lower);
    find(&text, &chars_of("not associated")) || find(&text, &chars_of("not connected")) || find(
        &text,
        &chars_of("no network"),
    ) || find(&text, &chars_of("airport")) || find(&text, &chars_of("error")) || matches_at(
        &text,
        &chars_of("unable"),
        0,
    ) || matches_at(&text, &chars_of("failed"), 0)
}

/// Whether a text, whatever its case, reads like the complaint of a tool.
pub fn is_error_message(text: &str) -> (indicated: bool)
    ensures
        indicated == spec_has_error_indicator(lowercase(text@)),
{
    let lower = to_lowercase(text);
    has_error_indicator(lower.as_str())
}

/// The two tools whose output is read line by line.
#[derive(Clone, Copy, Debug, PartialEq, Eq, Structural)]
pub enum LineTool {
    Networksetup,
    Airport,
}

/// What is left of a line once the tool's prefix is taken out of it and the
/// white space around the rest is taken off.
pub open spec fn line_payload(tool: LineTool, line: Seq<char>) -> Seq<char> {
    match tool {
        LineTool::Networksetup => trimmed(without(line, NETWORKSETUP_PREFIX@)),
        LineTool::Airport => trimmed(without(line, AIRPORT_PREFIX@)),
    }
}

/// Whether the line is the one on which the tool names the network. A line
/// of `networksetup` must begin with the prefix; one of `airport` may be
/// indented.
pub open spec fn names_network(tool: LineTool, line: Seq<char>) -> bool {
    match tool {
        LineTool::Networksetup => starts_with(line, NETWORKSETUP_PREFIX@),
        LineTool::Airport => starts_with(trimmed(line), AIRPORT_PREFIX@),
    }
}

/// The name of the network a line gives: the payload of a line that names
/// the network, unless it is empty or, for `networksetup`, reads like a
/// complaint.
pub open spec fn line_ssid(tool: LineTool, line: Seq<char>) -> Option<Seq<char>> {
    let payload = line_payload(tool, line);
    if !names_network(tool, line) || payload.len() == 0 {
        None
    } else if tool == LineTool::Networksetup && spec_has_error_indicator(lowercase(payload)) {
        None
    } else {
        Some(payload)
    }
}

/// The name the first line gives that gives one.
pub open spec fn first_ssid(tool: LineTool, lines: Seq<Seq<char>>) -> Option<Seq<char>>
    decreases lines.len(),
{
    if lines.len() == 0 {
        None
    } else {
        match line_ssid(tool, lines[0]) {
            Some(ssid) => Some(ssid),
            None => first_ssid(tool, lines.skip(1)),
        }
    }
}

/// The name of the network that the output of `networksetup` gives.
pub open spec fn spec_parse_networksetup_output(output: Seq<char>) -> Option<Seq<char>> {
    first_ssid(LineTool::Networksetup, lines(output))
}

/// The name of the network that the output of `airport` gives.
pub open spec fn spec_parse_airport_output(output: Seq<char>) -> Option<Seq<char>> {
    first_ssid(LineTool::Airport, lines(output))
}

/// The lines from a position on are the line at the position and the lines
/// after it.
proof fn lemma_lines_unfold(text: Seq<char>, from: int)
    requires
        0 <= from < text.len(),
    ensures
        lines_from(text, from).len() > 0,
        lines_from(text, from)[0] == line_at(text, from),
        lines_from(text, from).skip(1) == if line_end(text, from) < text.len() {
            lines_from(text, line_end(text, from) + 1)
        } else {
            Seq::<Seq<char>>::empty()
        },
{
    lemma_line_end_bounds(text, from);
    let rest = if line_end(text, from) < text.len() {
        lines_from(text, line_end(text, from) + 1)
    } else {
        Seq::<Seq<char>>::empty()
    };
}

fn ssid_of_line(tool: LineTool, line: &Vec<char>) -> (ssid: Option<String>)
    ensures
        text_of(ssid) == line_ssid(tool, line@),
{
    let (prefix, named) = match tool {
        LineTool::Networksetup => {
            let prefix = chars_of(NETWORKSETUP_PREFIX);
            let named = matches_at(line, &prefix, 0);
            (prefix, named)
        },
        LineTool::Airport => {
            let prefix = chars_of(AIRPORT_PREFIX);
            let named = matches_at(&trim(line), &prefix, 0);
            (prefix, named)
        },
    };
    if !named {
        return None;
    }
    let rest = remove_all(line, &prefix);
    let (start, end) = trim_bounds(&rest);
    if start == end {
        return None;
    }
    let ssid = string_of(&rest, start, end);
    match tool {
        LineTool::Networksetup => {
            if is_error_message(ssid.as_str()) {
                None
            } else {
                Some(ssid)
            }
        },
        LineTool::Airport => Some(ssid),
    }
}

fn parse_lines(tool: LineTool, output: &str) -> (ssid: Option<String>)
    ensures
        text_of(ssid) == first_ssid(tool, lines(output@)),
{
    let text = chars_of(output);
    let n = text.len();
    let mut from: usize = 0;
    while from < n
        invariant
            n == text@.len(),
            text@ == output@,
            from <= n,
            first_ssid(tool, lines_from(text@, from as int)) == first_ssid(tool, lines(text@)),
        decreases n - from,
    {
        proof {
            lemma_line_end_bounds(text@, from as int);
            lemma_lines_unfold(text@, from as int);
        }
        let end = find_line_end(&text, from);
        let line = take_line(&text, from, end);
        let ssid = ssid_of_line(tool, &line);
        if ssid.is_some() {
            return ssid;
        }
        if end < n {
            from = end + 1;
        } else {
            from = n;
        }
    }
    None
}

/// Reads the name of the network from the output of `networksetup`: from
/// the first line that begins with the prefix and goes on with a name that
/// is not empty and does not read like a complaint.
pub fn parse_networksetup_output(output: &str) -> (ssid: Option<String>)
    ensures
        text_of(ssid) == spec_parse_networksetup_output(output@),
{
    parse_lines(LineTool::Networksetup, output)
}

/// Reads the name of the network from the output of `airport`: from the
/// first line that, indented or not, begins with the prefix and goes on
/// with a name that is not empty.
pub fn parse_airport_output(output: &str) -> (ssid: Option<String>)
    ensures
        text_of(ssid) == spec_parse_airport_output(output@),
{
    parse_lines(LineTool::Airport, output)
}

/// A tool to run.
#[derive(Clone, Copy, Debug, PartialEq, Eq, Structural)]
pub enum ProbeCommand {
    /// `networksetup -getairportnetwork` for the interface of this number,
    /// counted from 0: `en0`, `en1`, `en2`.
    Networksetup { interface: u8 },
    /// `airport -I`, looked for in the place of this number, counted from 0.
    Airport { path: u8 },
    /// `system_profiler SPAirPortDataType -json`.
    SystemProfiler,
}

/// The place `airport` is looked for in first.
pub const AIRPORT_SYSTEM_PATH: &'static str =
    "/System/Library/PrivateFrameworks/Apple80211.framework/Versions/Current/Resources/airport";

/// The place `airport` is looked for in second.
pub const AIRPORT_LOCAL_PATH: &'static str = "/usr/local/bin/airport";

impl ProbeCommand {
    /// The program to run.
    pub open spec fn spec_program(&self) -> Seq<char> {
        match *self {
            ProbeCommand::Networksetup { interface } => "networksetup"@,
            ProbeCommand::Airport { path } => if path == 0 {
                AIRPORT_SYSTEM_PATH@
            } else {
                AIRPORT_LOCAL_PATH@
            },
            ProbeCommand::SystemProfiler => "system_profiler"@,
        }
    }

    /// The arguments to run the program with.
    pub open spec fn spec_arguments(&self) -> Seq<Seq<char>> {
        match *self {
            ProbeCommand::Networksetup { interface } => seq![
                "-getairportnetwork"@,
                if interface == 0 {
                    "en0"@
                } else if interface == 1 {
                    "en1"@
                } else {
                    "en2"@
                },
            ],
            ProbeCommand::Airport { path } => seq!["-I"@],
            ProbeCommand::SystemProfiler => seq!["SPAirPortDataType"@, "-json"@],
        }
    }

    pub fn program(&self) -> (program: &'static str)
        ensures
            program@ == self.spec_program(),
    {
        match *self {
            ProbeCommand::Networksetup { interface: _ } => "networksetup",
            ProbeCommand::Airport { path } => if path == 0 {
                AIRPORT_SYSTEM_PATH
            } else {
                AIRPORT_LOCAL_PATH
            },
            ProbeCommand::SystemProfiler => "system_profiler",
        }
    }

    pub fn arguments(&self) -> (arguments: Vec<&'static str>)
        ensures
            arguments@.len() == self.spec_arguments().len(),
            forall|i: int|
                0 <= i < arguments@.len() ==> (#[trigger] arguments@[i])@
                    == self.spec_arguments()[i],
    {
        let mut arguments: Vec<&'static str> = Vec::new();
        match *self {
            ProbeCommand::Networksetup { interface } => {
                arguments.push("-getairportnetwork");
                arguments.push(
                    if interface == 0 {
                        "en0"
                    } else if interface == 1 {
                        "en1"
                    } else {
                        "en2"
                    },
                );
            },
            ProbeCommand::Airport { path: _ } => {
                arguments.push("-I");
            },
            ProbeCommand::SystemProfiler => {
                arguments.push("SPAirPortDataType");
                arguments.push("-json");
            },
        }
        arguments
    }
}

/// How the run of a tool ended.
pub enum ProbeOutcome {
    /// The tool could not be run.
    NotLaunched,
    /// The tool ran, ended well or not, and printed this.
    Exited { success: bool, stdout: String },
}

/// Where a detection stands: the tool it waits on, or the end.
#[derive(Clone, Copy, Debug, PartialEq, Eq, Structural)]
pub enum WifiProbe {
    Pending(ProbeCommand),
    Done,
}

/// The tool that follows `command` where `command` gave no name. A
/// `networksetup` that could not be run is given up for every interface.
pub open spec fn next_probe(command: ProbeCommand, launched: bool) -> WifiProbe {
    match command {
        ProbeCommand::Networksetup { interface } => if launched && interface + 1
            < NETWORK_INTERFACE_COUNT {
            WifiProbe::Pending(ProbeCommand::Networksetup { interface: (interface + 1) as u8 })
        } else {
            WifiProbe::Pending(ProbeCommand::Airport { path: 0 })
        },
        ProbeCommand::Airport { path } => if path + 1 < AIRPORT_PATH_COUNT {
            WifiProbe::Pending(ProbeCommand::Airport { path: (path + 1) as u8 })
        } else {
            WifiProbe::Pending(ProbeCommand::SystemProfiler)
        },
        ProbeCommand::SystemProfiler => WifiProbe::Done,
    }
}

/// The name that the output of a tool that ended well gives.
pub open spec fn probe_ssid(command: ProbeCommand, stdout: Seq<char>) -> Option<Seq<char>> {
    match command {
        ProbeCommand::Networksetup { interface } => spec_parse_networksetup_output(stdout),
        ProbeCommand::Airport { path } => spec_parse_airport_output(stdout),
        ProbeCommand::SystemProfiler => match json_document(stdout) {
            Some(json) => spec_parse_system_profiler_json(json),
            None => None,
        },
    }
}

/// A detection of the current network.
pub struct WifiDetector {
    pub probe: WifiProbe,
    pub found: Option<String>,
}

/// What a detection is, as a value.
pub struct DetectorView {
    pub probe: WifiProbe,
    pub found: Option<Seq<char>>,
}

impl View for WifiDetector {
    type V = DetectorView;

    open spec fn view(&self) -> DetectorView {
        DetectorView { probe: self.probe, found: text_of(self.found) }
    }
}

impl DetectorView {
    /// A detection at its first tool.
    pub open spec fn start() -> DetectorView {
        DetectorView {
            probe: WifiProbe::Pending(ProbeCommand::Networksetup { interface: 0 }),
            found: None,
        }
    }

    /// The detection after the pending tool could not be run.
    pub open spec fn not_launched(self) -> DetectorView {
        match self.probe {
            WifiProbe::Pending(command) => DetectorView {
                probe: next_probe(command, false),
                ..self
            },
            WifiProbe::Done => self,
        }
    }

    /// The detection after the pending tool ran and printed `stdout`.
    pub open spec fn exited(self, success: bool, stdout: Seq<char>) -> DetectorView {
        match self.probe {
            WifiProbe::Pending(command) => if success && probe_ssid(command, stdout) is Some {
                DetectorView { probe: WifiProbe::Done, found: probe_ssid(command, stdout) }
            } else {
                DetectorView { probe: next_probe(command, true), ..self }
            },
            WifiProbe::Done => self,
        }
    }

    /// An upper bound on the tools still to run.
    pub open spec fn remaining(self) -> nat {
        match self.probe {
            WifiProbe::Pending(ProbeCommand::Networksetup { interface }) => if interface
                < NETWORK_INTERFACE_COUNT {
                (6 - interface) as nat
            } else {
                4
            },
            WifiProbe::Pending(ProbeCommand::Airport { path }) => if path < AIRPORT_PATH_COUNT {
                (3 - path) as nat
            } else {
                2
            },
            WifiProbe::Pending(ProbeCommand::SystemProfiler) => 1,
            WifiProbe::Done => 0,
        }
    }
}

impl WifiDetector {
    /// A detection at its first tool.
    pub fn new() -> (detector: WifiDetector)
        ensures
            detector@ == DetectorView::start(),
    {
        WifiDetector {
            probe: WifiProbe::Pending(ProbeCommand::Networksetup { interface: 0 }),
            found: None,
        }
    }

    /// The tool to run next, or `None` at the end.
    pub fn pending(&self) -> (command: Option<ProbeCommand>)
        ensures
            match command {
                Some(command) => self.probe == WifiProbe::Pending(command),
                None => self.probe == WifiProbe::Done,
            },
    {
        match self.probe {
            WifiProbe::Pending(command) => Some(command),
            WifiProbe::Done => None,
        }
    }

    fn following(command: ProbeCommand, launched: bool) -> (probe: WifiProbe)
        ensures
            probe == next_probe(command, launched),
    {
        match command {
            ProbeCommand::Networksetup { interface } => {
                if launched && interface < NETWORK_INTERFACE_COUNT - 1 {
                    WifiProbe::Pending(ProbeCommand::Networksetup { interface: interface + 1 })
                } else {
                    WifiProbe::Pending(ProbeCommand::Airport { path: 0 })
                }
            },
            ProbeCommand::Airport { path } => {
                if path < AIRPORT_PATH_COUNT - 1 {
                    WifiProbe::Pending(ProbeCommand::Airport { path: path + 1 })
                } else {
                    WifiProbe::Pending(ProbeCommand::SystemProfiler)
                }
            },
            ProbeCommand::SystemProfiler => WifiProbe::Done,
        }
    }

    /// Takes the outcome of the pending tool. A name ends the detection;
    /// anything else moves it to the next tool, and after the last tool to
    /// its end without a name.
    pub fn advance(&mut self, outcome: ProbeOutcome)
        ensures
            final(self)@ == match outcome {
                ProbeOutcome::NotLaunched => old(self)@.not_launched(),
                ProbeOutcome::Exited { success, stdout } => old(self)@.exited(success, stdout@),
            },
            old(self).probe != WifiProbe::Done ==> final(self)@.remaining() < old(
                self,
            )@.remaining(),
    {
        let command = match self.probe {
            WifiProbe::Pending(command) => command,
            WifiProbe::Done => {
                return ;
            },
        };
        match outcome {
            ProbeOutcome::NotLaunched => {
                self.probe = Self::following(command, false);
            },
            ProbeOutcome::Exited { success, stdout } => {
                let ssid = if success {
                    match command {
                        ProbeCommand::Networksetup { interface: _ } => parse_networksetup_output(
                            stdout.as_str(),
                        ),
                        ProbeCommand::Airport { path: _ } => parse_airport_output(stdout.as_str()),
                        ProbeCommand::SystemProfiler => match parse_json(stdout.as_str()) {
                            Some(json) => parse_system_profiler_json(&json),
                            None => None,
                        },
                    }
                } else {
                    None
                };
                if ssid.is_some() {
                    self.found = ssid;
                    self.probe = WifiProbe::Done;
                } else {
                    self.probe = Self::following(command, true);
                }
            },
        }
    }
}

/// The answer of a detection: the name it found, or `None` where it found
/// none. The detection of a network never fails; a tool that cannot be run
/// or that prints nothing of use only passes the turn to the next.
pub fn get_wifi_ssid(detector: &WifiDetector) -> (ssid: Result<
    Option<String>,
    LocationConnectivityError,
>)
    ensures
        ssid matches Ok(found) && text_of(found) == detector@.found,
{
    match &detector.found {
        Some(name) => Ok(Some(name.clone())),
        None => Ok(None),
    }
}

} // verus!
