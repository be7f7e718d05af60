use mo2_mode::MO2Command;

#[test]
fn test_basic_command_without_args() {
    let cmd = MO2Command::new(
        r"C:\Modding\MO2\ModOrganizer.exe",
        r"d:\programs\xedit\xedit64.exe",
    )
    .build();

    assert_eq!(
        cmd,
        r#""C:\Modding\MO2\ModOrganizer.exe" run "d:\programs\xedit\xedit64.exe""#
    );
}

#[test]
fn test_command_with_simple_args() {
    let cmd = MO2Command::new(
        r"C:\Modding\MO2\ModOrganizer.exe",
        r"d:\programs\xedit\xedit64.exe",
    )
    .arg("-sse")
    .arg("-autoexit")
    .build();

    assert_eq!(
        cmd,
        r#""C:\Modding\MO2\ModOrganizer.exe" run "d:\programs\xedit\xedit64.exe" -a "-sse -autoexit""#
    );
}

#[test]
fn test_command_with_quoted_plugin_name() {
    let cmd = MO2Command::new(
        r"C:\Modding\MO2\ModOrganizer.exe",
        r"d:\programs\xedit\xedit64.exe",
    )
    .arg("-sse")
    .arg("-autoexit")
    .arg("-autoload")
    .arg(r#""MyPlugin.esp""#)
    .build();

    assert_eq!(
        cmd,
        r#""C:\Modding\MO2\ModOrganizer.exe" run "d:\programs\xedit\xedit64.exe" -a "-sse -autoexit -autoload \"MyPlugin.esp\"""#
    );
}

#[test]
fn test_command_with_multiple_args_at_once() {
    let cmd = MO2Command::new(
        r"C:\Modding\MO2\ModOrganizer.exe",
        r"d:\programs\xedit\xedit64.exe",
    )
    .args(&["-sse", "-autoexit", "-autoload"])
    .build();

    assert_eq!(
        cmd,
        r#""C:\Modding\MO2\ModOrganizer.exe" run "d:\programs\xedit\xedit64.exe" -a "-sse -autoexit -autoload""#
    );
}

#[test]
fn test_xedit_cleaning_command() {
    let plugin_name = "MyPlugin.esp";
    let args = format!(r#"-qac -autoexit -autoload "{}""#, plugin_name);

    let cmd = MO2Command::new(
        r"C:\Modding\MO2\ModOrganizer.exe",
        r"d:\programs\xedit\SSEEdit64.exe",
    )
    .arg(&args)
    .build();

    assert_eq!(
        cmd,
        r#""C:\Modding\MO2\ModOrganizer.exe" run "d:\programs\xedit\SSEEdit64.exe" -a "-qac -autoexit -autoload \"MyPlugin.esp\"""#
    );
}

#[test]
fn test_escaping_complex_quotes() {
    let cmd = MO2Command::new(r"C:\MO2\ModOrganizer.exe", r"C:\tools\program.exe")
        .arg(r#"-flag "value with spaces""#)
        .arg(r#""another quoted value""#)
        .build();

    assert_eq!(
        cmd,
        r#""C:\MO2\ModOrganizer.exe" run "C:\tools\program.exe" -a "-flag \"value with spaces\" \"another quoted value\"""#
    );
}

#[test]
fn test_execute_creates_proper_command() {
    let mo2_cmd = MO2Command::new(
        r"C:\Modding\MO2\ModOrganizer.exe",
        r"d:\programs\xedit\xedit64.exe",
    )
    .arg("-sse")
    .arg("-autoexit")
    .arg(r#""MyPlugin.esp""#);

    assert_eq!(mo2_cmd.launcher_path(), r"C:\Modding\MO2\ModOrganizer.exe");

    let args = mo2_cmd.process_args();
    assert_eq!(args.len(), 4);
    assert_eq!(args[0], "run");
    assert_eq!(args[1], r"d:\programs\xedit\xedit64.exe");
    assert_eq!(args[2], "-a");
    assert_eq!(args[3], r#"-sse -autoexit "MyPlugin.esp""#);
}

#[test]
fn test_execute_without_args() {
    let mo2_cmd = MO2Command::new(r"C:\Modding\MO2\ModOrganizer.exe", r"C:\tools\notepad++.exe");

    let args = mo2_cmd.process_args();
    assert_eq!(args.len(), 2);
    assert_eq!(args[0], "run");
    assert_eq!(args[1], r"C:\tools\notepad++.exe");
}
