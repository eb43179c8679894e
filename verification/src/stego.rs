//! The rules of the bridge to the steganography script: where the script is
//! looked for, and the arguments it is given.

use vstd::prelude::*;
use vstd::string::StringExecFns;

verus! {

/// Where the steganography script is taken from.
#[derive(Debug, Clone, Copy, PartialEq, Eq, Structural)]
pub enum ScriptLocation {
    /// `python/stego.py` next to the executable.
    BesideExecutable,
    /// `python/stego.py` under the working directory.
    WorkingDirectory,
    /// `../share/stegrust/python/stego.py` from the executable's directory.
    SharedData,
    /// No candidate exists: `python/stego.py` under the working directory,
    /// which the caller then reports as missing.
    Fallback,
}

/// Picks the script location from what exists, in order of preference: beside
/// the executable, in the working directory, in the shared data directory.
/// The candidates that depend on the executable are `None` when its path is
/// unknown.
pub fn select_script(beside_executable: Option<bool>, in_working_directory: bool, in_shared_data: Option<bool>) -> (res: ScriptLocation)
    ensures
        res == (if beside_executable == Some(true) {
            ScriptLocation::BesideExecutable
        } else if in_working_directory {
            ScriptLocation::WorkingDirectory
        } else if in_shared_data == Some(true) {
            ScriptLocation::SharedData
        } else {
            ScriptLocation::Fallback
        }),
{
    if beside_executable == Some(true) {
        ScriptLocation::BesideExecutable
    } else if in_working_directory {
        ScriptLocation::WorkingDirectory
    } else if in_shared_data == Some(true) {
        ScriptLocation::SharedData
    } else {
        ScriptLocation::Fallback
    }
}

/// The relative path of the script at a location: from the executable's
/// directory for the first and third, from the working directory otherwise.
pub fn script_relative_path(location: ScriptLocation) -> (res: &'static str)
    ensures
        res@ == (if location == ScriptLocation::SharedData {
            "../share/stegrust/python/stego.py"@
        } else {
            "python/stego.py"@
        }),
{
    match location {
        ScriptLocation::SharedData => "../share/stegrust/python/stego.py",
        _ => "python/stego.py",
    }
}

/// The script's arguments, after its path, to hide a payload read from
/// standard input in `input` and write the result to `output`.
pub fn encode_arguments(input: &str, output: &str) -> (res: Vec<String>)
    ensures
        res@.map_values(|s: String| s@) == seq!["--encode"@, "--input"@, input@, "--output"@, output@],
{
    let mut args: Vec<String> = Vec::new();
    args.push(String::from_str("--encode"));
    args.push(String::from_str("--input"));
    args.push(String::from_str(input));
    args.push(String::from_str("--output"));
    args.push(String::from_str(output));
    assert(args@.map_values(|s: String| s@) =~= seq!["--encode"@, "--input"@, input@, "--output"@, output@]);
    args
}

/// The script's arguments, after its path, to extract the payload hidden in
/// `input` to standard output.
pub fn decode_arguments(input: &str) -> (res: Vec<String>)
    ensures
        res@.map_values(|s: String| s@) == seq!["--decode"@, "--input"@, input@],
{
    let mut args: Vec<String> = Vec::new();
    args.push(String::from_str("--decode"));
    args.push(String::from_str("--input"));
    args.push(String::from_str(input));
    assert(args@.map_values(|s: String| s@) =~= seq!["--decode"@, "--input"@, input@]);
    args
}

} // verus!
