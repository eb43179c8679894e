use stegrust::stego::{decode_arguments, encode_arguments, script_relative_path, select_script, ScriptLocation};

#[test]
fn script_location_preference() {
    assert_eq!(select_script(Some(true), true, Some(true)), ScriptLocation::BesideExecutable);
    assert_eq!(select_script(Some(false), true, Some(true)), ScriptLocation::WorkingDirectory);
    assert_eq!(select_script(None, true, None), ScriptLocation::WorkingDirectory);
    assert_eq!(select_script(Some(false), false, Some(true)), ScriptLocation::SharedData);
    assert_eq!(select_script(None, false, None), ScriptLocation::Fallback);
    assert_eq!(select_script(Some(false), false, Some(false)), ScriptLocation::Fallback);
}

#[test]
fn script_paths() {
    assert_eq!(script_relative_path(ScriptLocation::BesideExecutable), "python/stego.py");
    assert_eq!(script_relative_path(ScriptLocation::WorkingDirectory), "python/stego.py");
    assert_eq!(script_relative_path(ScriptLocation::SharedData), "../share/stegrust/python/stego.py");
    assert_eq!(script_relative_path(ScriptLocation::Fallback), "python/stego.py");
}

#[test]
fn script_arguments() {
    assert_eq!(encode_arguments("cover.png", "stego.png"), vec!["--encode", "--input", "cover.png", "--output", "stego.png"]);
    assert_eq!(decode_arguments("stego.png"), vec!["--decode", "--input", "stego.png"]);
}
