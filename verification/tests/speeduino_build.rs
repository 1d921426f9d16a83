use libretune::speeduino_build::{
    archive_entry_is, arduino_cli_exe_name, avr_core_install_plan, avr_core_install_result,
    avr_core_present_result, avrdude_exe_name, choose_hex_path, core_list_reports_avr, find_dir_containing_ino,
    find_sketch_root, first_subdir, hex_file_name, latest_release_url, missing_libraries_from_headers,
    not_in_archive_error, parse_missing_libraries, pick_tool, require_arduino_cli, select_cli_asset,
    source_archive_url, source_dir_name, source_zip_name, speeduino_release, toolchain_info, CompileAction,
    CompileSession, DirSnapshot, HostOs, ReleaseAsset, SubdirInfo, ToolCandidate, UploadAction,
    UploadSession, ARDUINO_CLI_REPO, SPEEDUINO_REPO,
};

fn strings(items: &[&str]) -> Vec<String> {
    items.iter().map(|s| s.to_string()).collect()
}

fn args_of_compile(a: &CompileAction) -> Vec<String> {
    match a {
        CompileAction::RunCompile { args } => args.clone(),
        CompileAction::InstallLibrary { args } => args.clone(),
        CompileAction::Finish => Vec::new(),
    }
}

#[test]
fn test_parse_missing_libraries_extracts_names_without_path_or_extension() {
    let output = "\
src/speeduino.ino:12:10: fatal error: PID_v1.h: No such file or directory
 #include <PID_v1.h>
          ^~~~~~~~~~
compilation terminated.
";
    let missing = parse_missing_libraries(output);
    assert_eq!(missing, vec!["PID_v1".to_string()]);
}

#[test]
fn test_parse_missing_libraries_dedupes_and_strips_directory_prefix() {
    let output = "\
fatal error: some/nested/Wire.h: No such file or directory
fatal error: Wire.h: No such file or directory
";
    let missing = parse_missing_libraries(output);
    assert_eq!(missing, vec!["Wire".to_string()]);
}

#[test]
fn test_parse_missing_libraries_returns_empty_when_no_match() {
    let output = "Sketch uses 45000 bytes of program storage space.\n";
    assert!(parse_missing_libraries(output).is_empty());
}

#[test]
fn parse_missing_libraries_keeps_first_mention_order() {
    let output = "a.ino: fatal error: b\\Servo.h: No such file or directory\n\
                  fatal error: EEPROM.h: No such file or directory\n\
                  fatal error: lib/Servo.h: No such file or directory\n";
    assert_eq!(parse_missing_libraries(output), strings(&["Servo", "EEPROM"]));
}

#[test]
fn library_names_from_captured_headers() {
    let headers = vec![Some("x/y/Wire".to_string()), None, Some("Wire".to_string()), Some("SPI".to_string())];
    assert_eq!(missing_libraries_from_headers(&headers), strings(&["Wire", "SPI"]));
}

#[test]
fn exe_names_follow_the_host() {
    assert_eq!(arduino_cli_exe_name(HostOs::Windows), "arduino-cli.exe");
    assert_eq!(arduino_cli_exe_name(HostOs::Linux), "arduino-cli");
    assert_eq!(avrdude_exe_name(HostOs::Windows), "avrdude.exe");
    assert_eq!(avrdude_exe_name(HostOs::MacOs), "avrdude");
}

#[test]
fn own_tool_copy_comes_before_path() {
    let candidates = vec![
        ToolCandidate { path: "/base/tools/arduino-cli".to_string(), is_file: true },
        ToolCandidate { path: "/usr/bin/arduino-cli".to_string(), is_file: true },
    ];
    assert_eq!(pick_tool(&candidates), Some("/base/tools/arduino-cli".to_string()));
    let candidates = vec![
        ToolCandidate { path: "/base/tools/arduino-cli".to_string(), is_file: false },
        ToolCandidate { path: "/opt/x/arduino-cli".to_string(), is_file: false },
        ToolCandidate { path: "/usr/bin/arduino-cli".to_string(), is_file: true },
    ];
    assert_eq!(pick_tool(&candidates), Some("/usr/bin/arduino-cli".to_string()));
    assert_eq!(pick_tool(&vec![]), None);
}

#[test]
fn core_list_detection() {
    assert!(core_list_reports_avr(Some("ID Installed Latest Name\narduino:avr 1.8.6 1.8.6 Arduino AVR Boards\n")));
    assert!(!core_list_reports_avr(Some("ID Installed\nesp32:esp32 2.0.0\n")));
    assert!(!core_list_reports_avr(None));
}

#[test]
fn toolchain_info_needs_the_cli() {
    let info = toolchain_info(Some("/t/arduino-cli".to_string()), Some("arduino:avr 1.8.6"));
    assert_eq!(info.arduino_cli_path, Some("/t/arduino-cli".to_string()));
    assert!(info.avr_core_installed);
    let info = toolchain_info(None, None);
    assert!(info.arduino_cli_path.is_none());
    assert!(!info.avr_core_installed);
}

#[test]
fn archive_entries_match_by_base_name_ignoring_case() {
    assert!(archive_entry_is("arduino-cli_1.0/Arduino-CLI.EXE", "arduino-cli.exe"));
    assert!(archive_entry_is("dir\\arduino-cli.exe", "arduino-cli.exe"));
    assert!(!archive_entry_is("arduino-cli.exe/README", "arduino-cli.exe"));
    assert_eq!(not_in_archive_error("arduino-cli"), "arduino-cli not found in archive");
}

#[test]
fn release_urls_and_names() {
    assert_eq!(
        latest_release_url(ARDUINO_CLI_REPO),
        "https://api.github.com/repos/arduino/arduino-cli/releases/latest"
    );
    assert_eq!(
        latest_release_url(SPEEDUINO_REPO),
        "https://api.github.com/repos/noisymime/speeduino/releases/latest"
    );
    assert_eq!(
        source_archive_url("202501.7"),
        "https://github.com/noisymime/speeduino/archive/refs/tags/202501.7.zip"
    );
    assert_eq!(source_zip_name("202501.7"), "speeduino_202501.7.zip");
    assert_eq!(source_dir_name("202501.7"), "speeduino_202501.7");
}

#[test]
fn release_summary_defaults() {
    let r = speeduino_release(Some("202501.7"), Some("2025-01-20T00:00:00Z"));
    assert_eq!(r.version, "202501.7");
    assert_eq!(r.published_at, "2025-01-20T00:00:00Z");
    let r = speeduino_release(None, None);
    assert_eq!(r.version, "unknown");
    assert_eq!(r.published_at, "");
}

fn asset(name: Option<&str>, url: Option<&str>) -> ReleaseAsset {
    ReleaseAsset { name: name.map(|s| s.to_string()), browser_download_url: url.map(|s| s.to_string()) }
}

#[test]
fn cli_asset_selection() {
    let assets = vec![
        asset(Some("arduino-cli_1.1.1_checksums.txt"), Some("u0")),
        asset(Some("arduino-cli_1.1.1_Linux_64bit.deb"), Some("u1")),
        asset(Some("arduino-cli_1.1.1_Linux_64bit.tar.gz"), Some("u2")),
        asset(Some("arduino-cli_1.1.1_Windows_64bit.zip"), Some("u3")),
        asset(Some("arduino-cli_1.1.1_macOS_64bit.tar.gz"), None),
    ];
    let linux = select_cli_asset(Some(&assets), HostOs::Linux).unwrap();
    assert_eq!(linux.download_url, "u2");
    assert_eq!(linux.asset_name, "arduino-cli_1.1.1_Linux_64bit.tar.gz");
    assert!(!linux.is_zip);
    let windows = select_cli_asset(Some(&assets), HostOs::Windows).unwrap();
    assert_eq!(windows.download_url, "u3");
    assert!(windows.is_zip);
    assert_eq!(select_cli_asset(Some(&assets), HostOs::MacOs).unwrap_err(), "Asset missing download URL");
    assert_eq!(
        select_cli_asset(Some(&vec![asset(None, Some("u"))]), HostOs::Linux).unwrap_err(),
        "Could not find a Linux_64bit arduino-cli release asset"
    );
    assert_eq!(select_cli_asset(None, HostOs::Linux).unwrap_err(), "No assets in arduino-cli release");
}

fn snapshot(path: &str, has_ino: bool, subdirs: &[(&str, bool)]) -> DirSnapshot {
    DirSnapshot {
        path: path.to_string(),
        has_ino,
        subdirs: subdirs.iter().map(|(p, h)| SubdirInfo { path: p.to_string(), has_ino: *h }).collect(),
    }
}

#[test]
fn sketch_root_inside_github_release_layout() {
    let extract = snapshot("/x/extracted", false, &[("/x/extracted/speeduino-202501.7", false)]);
    assert_eq!(first_subdir(&extract), Some("/x/extracted/speeduino-202501.7".to_string()));
    let top = snapshot(
        "/x/extracted/speeduino-202501.7",
        false,
        &[("/x/extracted/speeduino-202501.7/reference", false), ("/x/extracted/speeduino-202501.7/speeduino", true)],
    );
    assert_eq!(
        find_sketch_root(&extract, Some(&top)),
        Some("/x/extracted/speeduino-202501.7/speeduino".to_string())
    );
}

#[test]
fn sketch_root_absent_without_ino() {
    let extract = snapshot("/x/extracted", false, &[("/x/extracted/speeduino-202501.7", false)]);
    let top = snapshot("/x/extracted/speeduino-202501.7", false, &[("/x/extracted/speeduino-202501.7/docs", false)]);
    assert_eq!(find_sketch_root(&extract, Some(&top)), None);
}

#[test]
fn sketch_root_falls_back_to_the_tree() {
    let extract = snapshot("/x/e", true, &[("/x/e/a", false), ("/x/e/b", true)]);
    assert_eq!(first_subdir(&extract), None);
    assert_eq!(find_sketch_root(&extract, None), Some("/x/e".to_string()));
    let extract = snapshot("/x/e", false, &[("/x/e/a", false), ("/x/e/b", true)]);
    assert_eq!(find_dir_containing_ino(&extract), Some("/x/e/b".to_string()));
}

#[test]
fn hex_path_choice() {
    assert_eq!(hex_file_name(Some("speeduino")), "speeduino.ino.hex");
    assert_eq!(hex_file_name(None), "speeduino.ino.hex");
    assert_eq!(choose_hex_path("/b/s.ino.hex".to_string(), true, Some("/b/o.hex".to_string())), "/b/s.ino.hex");
    assert_eq!(choose_hex_path("/b/s.ino.hex".to_string(), false, Some("/b/o.hex".to_string())), "/b/o.hex");
    assert_eq!(choose_hex_path("/b/s.ino.hex".to_string(), false, None), "/b/s.ino.hex");
}

#[test]
fn cli_is_required() {
    assert_eq!(require_arduino_cli(Some("/t/cli".to_string())).unwrap(), "/t/cli");
    assert_eq!(require_arduino_cli(None).unwrap_err(), "arduino-cli not found — download it first");
}

#[test]
fn avr_core_results() {
    let present = avr_core_present_result();
    assert!(present.success);
    assert_eq!(present.log, strings(&["arduino:avr core already installed."]));
    let (notice, args) = avr_core_install_plan();
    assert_eq!(notice, "Installing arduino:avr core (this may take a minute)...");
    assert_eq!(args, strings(&["core", "install", "arduino:avr"]));
    let r = avr_core_install_result(notice.clone(), strings(&["Downloading..."]), 0);
    assert!(r.success);
    assert!(r.hex_path.is_none());
    assert_eq!(r.log, strings(&["Installing arduino:avr core (this may take a minute)...", "Downloading..."]));
    assert!(!avr_core_install_result(notice, vec![], 1).success);
}

#[test]
fn compile_succeeds_first_time() {
    let (mut session, step) = CompileSession::start("/b/build", "/s/speeduino");
    assert_eq!(step.notes, strings(&["Compiling for Arduino Mega 2560..."]));
    assert_eq!(
        args_of_compile(&step.action),
        strings(&["compile", "--fqbn", "arduino:avr:mega", "--output-dir", "/b/build", "/s/speeduino"])
    );
    let step = session.compile_finished(strings(&["Sketch uses 1 bytes"]), 0);
    assert!(step.notes.is_empty());
    assert!(matches!(step.action, CompileAction::Finish));
    let (result, notes) = session.into_result("/b/build/speeduino.ino.hex", true);
    assert!(result.success);
    assert_eq!(result.hex_path, Some("/b/build/speeduino.ino.hex".to_string()));
    assert_eq!(notes, strings(&["Compiled: /b/build/speeduino.ino.hex"]));
    assert_eq!(
        result.log,
        strings(&["Compiling for Arduino Mega 2560...", "Sketch uses 1 bytes", "Compiled: /b/build/speeduino.ino.hex"])
    );
}

#[test]
fn compile_installs_missing_libraries_and_retries() {
    let (mut session, _) = CompileSession::start("/b", "/s");
    let step = session.compile_finished(
        strings(&[
            "fatal error: PID_v1.h: No such file or directory",
            "fatal error: x/Servo.h: No such file or directory",
        ]),
        1,
    );
    assert_eq!(step.notes, strings(&["Missing library detected: PID_v1.h -> installing 'PID_v1'..."]));
    assert_eq!(args_of_compile(&step.action), strings(&["lib", "install", "PID_v1"]));
    let step = session.library_installed(strings(&["installed"]), 2);
    assert_eq!(
        step.notes,
        strings(&[
            "  Warning: could not auto-install 'PID_v1' — you may need to install it manually.",
            "Missing library detected: Servo.h -> installing 'Servo'...",
        ])
    );
    assert_eq!(args_of_compile(&step.action), strings(&["lib", "install", "Servo"]));
    let step = session.library_installed(vec![], 0);
    assert_eq!(step.notes, strings(&["Retrying compile (attempt 2)..."]));
    assert_eq!(
        args_of_compile(&step.action),
        strings(&["compile", "--fqbn", "arduino:avr:mega", "--output-dir", "/b", "/s"])
    );
    let step = session.compile_finished(vec![], 0);
    assert!(matches!(step.action, CompileAction::Finish));
    let (result, notes) = session.into_result("/b/s.ino.hex", false);
    assert!(!result.success);
    assert!(result.hex_path.is_none());
    assert!(notes.is_empty());
    assert_eq!(result.log.len(), 8);
}

#[test]
fn compile_without_missing_libraries_gives_up() {
    let (mut session, _) = CompileSession::start("/b", "/s");
    let step = session.compile_finished(strings(&["error: expected ';'"]), 1);
    assert_eq!(step.notes, strings(&["Compile failed — no missing libraries detected. See output above."]));
    assert!(matches!(step.action, CompileAction::Finish));
    let (result, _) = session.into_result("/b/s.ino.hex", true);
    assert!(!result.success);
}

#[test]
fn compile_stops_after_ten_attempts() {
    let (mut session, _) = CompileSession::start("/b", "/s");
    let mut compiles = 1;
    loop {
        let step = session.compile_finished(strings(&["fatal error: Gone.h: No such file or directory"]), 1);
        assert!(matches!(step.action, CompileAction::InstallLibrary { .. }));
        let step = session.library_installed(vec![], 0);
        match step.action {
            CompileAction::RunCompile { .. } => {
                compiles += 1;
                assert_eq!(step.notes, vec![format!("Retrying compile (attempt {compiles})...")]);
            }
            CompileAction::Finish => break,
            CompileAction::InstallLibrary { .. } => panic!("only one library was missing"),
        }
    }
    assert_eq!(compiles, 10);
    let (result, _) = session.into_result("/b/s.ino.hex", true);
    assert!(!result.success);
}

fn args_of_upload(a: &UploadAction) -> Vec<String> {
    match a {
        UploadAction::RunUpload { args } | UploadAction::RunAvrdude { args } => args.clone(),
        _ => Vec::new(),
    }
}

#[test]
fn upload_through_arduino_cli() {
    let (mut session, step) = UploadSession::start("/dev/ttyACM0", "/b", "/s", true);
    assert_eq!(step.notes, strings(&["Uploading to /dev/ttyACM0 via arduino-cli..."]));
    assert_eq!(
        args_of_upload(&step.action),
        strings(&["upload", "--fqbn", "arduino:avr:mega", "-p", "/dev/ttyACM0", "--input-dir", "/b", "/s"])
    );
    let step = session.upload_finished(strings(&["done"]), 0);
    assert_eq!(step.notes, strings(&["Upload successful."]));
    let result = session.into_result();
    assert!(result.success);
    assert!(result.hex_path.is_none());
    assert_eq!(result.log, strings(&["Uploading to /dev/ttyACM0 via arduino-cli...", "done", "Upload successful."]));
}

#[test]
fn upload_falls_back_to_avrdude() {
    let (mut session, _) = UploadSession::start("COM3", "/b", "/s", true);
    let step = session.upload_finished(vec![], -1);
    assert_eq!(step.notes, strings(&["arduino-cli upload failed (exit -1) — trying avrdude directly."]));
    assert!(matches!(step.action, UploadAction::LocateAvrdude));
    let step = session.avrdude_located(true);
    assert!(matches!(step.action, UploadAction::LocateHex));
    let step = session.hex_located(Some("/b/s.ino.hex"), Some("/t/avrdude.conf"));
    let expected = strings(&[
        "-C", "/t/avrdude.conf", "-p", "atmega2560", "-c", "wiring", "-P", "COM3", "-b", "115200", "-D", "-U",
        "flash:w:/b/s.ino.hex:i", "-v",
    ]);
    assert_eq!(args_of_upload(&step.action), expected);
    assert_eq!(step.notes, vec![format!("Running: avrdude {}", expected.join(" "))]);
    let step = session.flash_finished(strings(&["avrdude: 1 bytes written"]), 1);
    assert_eq!(step.notes, strings(&["Flash failed (exit 1)."]));
    let result = session.into_result();
    assert!(!result.success);
    assert_eq!(result.hex_path, Some("/b/s.ino.hex".to_string()));
    assert_eq!(result.log.len(), 5);
}

#[test]
fn upload_without_any_tool_fails() {
    let (mut session, step) = UploadSession::start("COM3", "/b", "/s", false);
    assert_eq!(step.notes, strings(&["arduino-cli not found — trying avrdude directly."]));
    let step = session.avrdude_located(false);
    match step.action {
        UploadAction::Fail { message } => {
            assert_eq!(message, "Neither arduino-cli nor avrdude is available. Download arduino-cli first.")
        }
        _ => panic!("expected a failure"),
    }
}

#[test]
fn upload_without_image_fails_and_flash_without_conf() {
    let (mut session, _) = UploadSession::start("COM3", "/b", "/s", false);
    session.avrdude_located(true);
    let step = session.hex_located(None, None);
    match step.action {
        UploadAction::Fail { message } => assert_eq!(message, "No compiled .hex found in the build directory"),
        _ => panic!("expected a failure"),
    }
    let (mut session, _) = UploadSession::start("COM3", "/b", "/s", false);
    session.avrdude_located(true);
    let step = session.hex_located(Some("/b/a.hex"), None);
    assert_eq!(args_of_upload(&step.action)[0], "-p");
    let step = session.flash_finished(vec![], 0);
    assert_eq!(step.notes, strings(&["Flash successful."]));
    assert!(session.into_result().success);
}

#[test]
fn downloaded_copy_wins_over_path() {
    let candidates = vec![
        ToolCandidate { path: "/base/tools/avrdude".to_string(), is_file: true },
        ToolCandidate { path: "/usr/local/bin/avrdude".to_string(), is_file: true },
        ToolCandidate { path: "/usr/bin/avrdude".to_string(), is_file: false },
    ];
    assert_eq!(pick_tool(&candidates), Some("/base/tools/avrdude".to_string()));
}
