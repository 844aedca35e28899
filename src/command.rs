//! The external commands that list directories and copy files.

use vstd::prelude::*;
use vstd::string::StringExecFns;

use crate::config::Config;
use crate::listing::{decode_lossy, lossy_text};

verus! {

/// Which way a file is copied.
#[derive(Clone, Copy, Debug, PartialEq, Eq, Structural)]
pub enum TransferDirection {
    /// From the device to the PC (`adb pull`).
    PhoneToPc,
    /// From the PC to the device (`adb push`).
    PcToPhone,
}

/// A program and its arguments, to be run by the caller.
pub struct CommandLine {
    pub program: String,
    pub args: Vec<String>,
}

fn owned(s: &str) -> (r: String)
    ensures
        r@ == s@,
{
    String::from_str(s)
}

/// Checks that a device answers: `adb.exe shell` with no command.
pub fn probe_command() -> (r: CommandLine)
    ensures
        r.program@ == "adb.exe"@,
        r.args.deep_view() == seq!["shell"@],
{
    let mut args: Vec<String> = Vec::new();
    args.push(owned("shell"));
    assert(args.deep_view() =~= seq!["shell"@]);
    CommandLine { program: owned("adb.exe"), args }
}

/// Lists the directory that files are copied from: the device directory with
/// `adb.exe shell ls`, or the PC directory with PowerShell's `ls -n`.
pub fn listing_command(config: &Config, direction: TransferDirection) -> (r: CommandLine)
    ensures
        direction == TransferDirection::PhoneToPc ==> {
            &&& r.program@ == "adb.exe"@
            &&& r.args.deep_view() == seq!["shell"@, "ls"@, config.phone_path@]
        },
        direction == TransferDirection::PcToPhone ==> {
            &&& r.program@ == "powershell.exe"@
            &&& r.args.deep_view() == seq!["ls -n '"@ + config.pc_path@ + "'"@]
        },
{
    let mut args: Vec<String> = Vec::new();
    match direction {
        TransferDirection::PhoneToPc => {
            args.push(owned("shell"));
            args.push(owned("ls"));
            args.push(config.phone_path.clone());
            assert(args.deep_view() =~= seq!["shell"@, "ls"@, config.phone_path@]);
            CommandLine { program: owned("adb.exe"), args }
        },
        TransferDirection::PcToPhone => {
            args.push(owned("ls -n '").concat(config.pc_path.as_str()).concat("'"));
            assert(args.deep_view() =~= seq!["ls -n '"@ + config.pc_path@ + "'"@]);
            CommandLine { program: owned("powershell.exe"), args }
        },
    }
}

/// Copies `file` from one root directory to the other: `adb.exe pull` from
/// the device directory into the PC directory, or `adb.exe push` the other
/// way. The source is the root path and the file name joined as they stand.
pub fn transfer_command(config: &Config, file: &str, direction: TransferDirection) -> (r:
    CommandLine)
    ensures
        r.program@ == "adb.exe"@,
        direction == TransferDirection::PhoneToPc ==> r.args.deep_view() == seq![
            "pull"@,
            config.phone_path@ + file@,
            config.pc_path@,
        ],
        direction == TransferDirection::PcToPhone ==> r.args.deep_view() == seq![
            "push"@,
            config.pc_path@ + file@,
            config.phone_path@,
        ],
{
    let mut args: Vec<String> = Vec::new();
    match direction {
        TransferDirection::PhoneToPc => {
            args.push(owned("pull"));
            args.push(config.phone_path.clone().concat(file));
            args.push(config.pc_path.clone());
            assert(args.deep_view() =~= seq![
                "pull"@,
                config.phone_path@ + file@,
                config.pc_path@,
            ]);
        },
        TransferDirection::PcToPhone => {
            args.push(owned("push"));
            args.push(config.pc_path.clone().concat(file));
            args.push(config.phone_path.clone());
            assert(args.deep_view() =~= seq![
                "push"@,
                config.pc_path@ + file@,
                config.phone_path@,
            ]);
        },
    }
    CommandLine { program: owned("adb.exe"), args }
}

/// Where a file goes, as the confirmation question names it.
pub fn destination_label(direction: TransferDirection) -> (r: &'static str)
    ensures
        direction == TransferDirection::PhoneToPc ==> r@ == "PC"@,
        direction == TransferDirection::PcToPhone ==> r@ == "Phone"@,
{
    match direction {
        TransferDirection::PhoneToPc => "PC",
        TransferDirection::PcToPhone => "Phone",
    }
}

/// What to show once a copy command has run.
pub struct TransferReport {
    /// Whether the command exited successfully; decides how `output` is shown.
    pub succeeded: bool,
    /// The command's standard output, as text.
    pub output: String,
    /// The command's standard error, shown as a diagnostic wherever the
    /// command wrote some.
    pub diagnostic: Option<String>,
}

/// The report on a copy command from its exit status and its two streams.
pub fn transfer_report(success: bool, stdout: &[u8], stderr: &[u8]) -> (r: TransferReport)
    ensures
        r.succeeded == success,
        r.output@ == lossy_text(stdout@),
        r.diagnostic is Some <==> stderr@.len() > 0,
        r.diagnostic matches Some(d) ==> d@ == lossy_text(stderr@),
{
    let output = decode_lossy(stdout);
    let diagnostic = if stderr.len() > 0 {
        Some(decode_lossy(stderr))
    } else {
        None
    };
    TransferReport { succeeded: success, output, diagnostic }
}

} // verus!
