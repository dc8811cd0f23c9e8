use godot_bindings::error::BuildError;
use godot_bindings::locate::{choose_executable, locate_executable, search_executable, Tool};
use godot_bindings::paths::{parent_dir, ArtifactLayout};
use godot_bindings::patch::{check_patch_outcome, patch_command};
use godot_bindings::process::{check_exit, execution_log, output_text, ProcessOutput};
use godot_bindings::trigger::RebuildTrigger;
use godot_bindings::version::{check_engine_version, has_version_changed, parse_engine_version, read_engine_version, EngineVersion};
use godot_bindings::patch::patch_root_dir;
use godot_bindings::process::labelled;

fn output(stdout: &[u8], stderr: &[u8], success: bool, status: &str) -> ProcessOutput {
    ProcessOutput {
        stdout: stdout.to_vec(),
        stderr: stderr.to_vec(),
        success,
        status: status.to_string(),
    }
}

#[test]
fn override_path_is_returned_unchanged() {
    let tool = Tool::engine();
    let r = choose_executable(&tool, Some("/does/not/exist/engine".to_string()), None);
    assert_eq!(r.ok(), Some("/does/not/exist/engine".to_string()));
    let r = choose_executable(&tool, Some("relative/engine".to_string()), Some("/usr/bin/engine4".to_string()));
    assert_eq!(r.ok(), Some("relative/engine".to_string()));
    let r = locate_executable(&tool, Some("/nowhere/engine4".to_string()));
    assert_eq!(r.ok(), Some("/nowhere/engine4".to_string()));
}

#[test]
fn search_result_is_used_without_override() {
    let tool = Tool::vcs();
    let r = choose_executable(&tool, None, Some("/usr/bin/git".to_string()));
    assert_eq!(r.ok(), Some("/usr/bin/git".to_string()));
}

#[test]
fn missing_tool_names_variable_and_program() {
    let tool = Tool::engine();
    let e = choose_executable(&tool, None, None).err().unwrap();
    match &e {
        BuildError::ToolNotFound { env_var, program } => {
            assert_eq!(env_var, "ENGINE_BIN");
            assert_eq!(program, "engine4");
        }
        _ => panic!("wrong error"),
    }
    let m = e.message();
    assert!(m.contains("ENGINE_BIN"));
    assert!(m.contains("engine4"));
    let e = choose_executable(&Tool::vcs(), None, None).err().unwrap();
    let m = e.message();
    assert!(m.contains("VCS_BIN"));
    assert!(m.contains("git"));
}

#[test]
fn search_for_absent_program_finds_nothing() {
    assert_eq!(search_executable("no-such-program-d41d8cd98f00b204"), None);
    let r = locate_executable(&Tool { env_var: "X_BIN".to_string(), program: "no-such-program-d41d8cd98f00b204".to_string(), watch_env: false }, None);
    assert!(matches!(r, Err(BuildError::ToolNotFound { .. })));
}

#[test]
fn failed_command_keeps_output_verbatim() {
    let stdout: Vec<u8> = vec![b'o', b'k', 0xff, 0x00, b'\n'];
    let stderr: Vec<u8> = vec![0xc3, 0x28, b'e', b'r', b'r'];
    let out = output(&stdout, &stderr, false, "exit status: 2");
    match check_exit(out, "dump engine API") {
        Err(BuildError::ProcessExitFailure { context, log }) => {
            assert_eq!(context, "dump engine API");
            let mut expected = b"[stdout] ".to_vec();
            expected.extend_from_slice(&stdout);
            expected.extend_from_slice(b"\n[stderr] ");
            expected.extend_from_slice(&stderr);
            expected.extend_from_slice(b"\n[status] exit status: 2");
            assert_eq!(log, expected);
        }
        _ => panic!("expected a failure"),
    }
}

#[test]
fn successful_command_passes_through() {
    let out = output(b"a", b"b", true, "exit status: 0");
    let r = check_exit(out, "x").ok().unwrap();
    assert_eq!(r.stdout, b"a".to_vec());
    assert_eq!(execution_log(&r), b"[stdout] a\n[stderr] b\n[status] exit status: 0".to_vec());
}

#[test]
fn output_text_decodes_or_fails() {
    assert_eq!(output_text("héllo".as_bytes().to_vec(), "c").ok(), Some("héllo".to_string()));
    match output_text(vec![0xff, 0xfe], "some command") {
        Err(BuildError::EncodingFailure { context }) => assert_eq!(context, "some command"),
        _ => panic!("expected an encoding failure"),
    }
}

#[test]
fn version_4_1_2_parses_and_passes() {
    let v = parse_engine_version("4.1.2.stable").unwrap();
    assert_eq!((v.major, v.minor, v.patch), (4, 1, 2));
    assert_eq!(v.full_string, "4.1.2.stable");
    let v = check_engine_version(v).ok().unwrap();
    assert_eq!(v.major, 4);
    assert_eq!(read_engine_version(b"4.1.2.stable\n".to_vec(), false).ok(), Some("4.1.2.stable".to_string()));
}

#[test]
fn version_3_fails_citing_major_3() {
    match read_engine_version(b"3.5.0.stable\n".to_vec(), false) {
        Err(e) => {
            match &e {
                BuildError::VersionIncompatible { version, major } => {
                    assert_eq!(*major, 3);
                    assert_eq!(version, "3.5.0.stable");
                }
                _ => panic!("wrong error"),
            }
            assert!(e.message().contains("3.5.0.stable"));
        }
        Ok(_) => panic!("major 3 must be refused"),
    }
    let v = EngineVersion { major: 3, minor: 5, patch: 0, full_string: "3.5.0.stable".to_string() };
    assert!(matches!(check_engine_version(v), Err(BuildError::VersionIncompatible { major: 3, .. })));
}

#[test]
fn version_forms() {
    let v = parse_engine_version("  4.2.stable.official.abc123\r\n").unwrap();
    assert_eq!((v.major, v.minor, v.patch), (4, 2, 0));
    assert_eq!(v.full_string, "4.2.stable.official.abc123");
    let v = parse_engine_version("10.0.11.rc1").unwrap();
    assert_eq!((v.major, v.minor, v.patch), (10, 0, 11));
    assert!(parse_engine_version("").is_none());
    assert!(parse_engine_version("4.1").is_none());
    assert!(parse_engine_version("4.1.2").is_none());
    assert!(parse_engine_version("4.1.2.Stable").is_none());
    assert!(parse_engine_version("v4.1.2.stable").is_none());
    assert!(parse_engine_version("4..2.stable").is_none());
    let v = parse_engine_version("123456789012345678.1.stable").unwrap();
    assert_eq!(v.major, 123456789012345678);
    assert!(parse_engine_version("1234567890123456789.1.stable").is_none());
}

#[test]
fn unparsable_version_policy() {
    match read_engine_version(b"Godot Engine\n".to_vec(), false) {
        Err(BuildError::VersionUnparsable { output }) => assert_eq!(output, "Godot Engine\n"),
        _ => panic!("expected a parse failure"),
    }
    assert_eq!(read_engine_version(b" Godot Engine\n".to_vec(), true).ok(), Some("Godot Engine".to_string()));
    assert!(matches!(read_engine_version(vec![0x34, 0xff], false), Err(BuildError::EncodingFailure { .. })));
}

#[test]
fn skipped_patch_fails_despite_success() {
    let out = output(b"", b"Checking patch x.h...\nSkipped patch 'x.h'.\n", true, "exit status: 0");
    match check_patch_outcome(out, "/repo/res/tweak.patch") {
        Err(BuildError::PatchSkipped { patch }) => assert_eq!(patch, "/repo/res/tweak.patch"),
        _ => panic!("a skipped patch must fail"),
    }
}

#[test]
fn applied_patch_succeeds() {
    let out = output(b"", b"Checking patch x.h...\nApplied patch x.h cleanly.\n", true, "exit status: 0");
    assert!(check_patch_outcome(out, "p").is_ok());
    let out = output(b"", b"skipped in lower case", true, "exit status: 0");
    assert!(check_patch_outcome(out, "p").is_ok());
}

#[test]
fn patch_tool_failure_and_bad_output() {
    let out = output(b"", b"error: patch failed", false, "exit status: 1");
    assert!(matches!(check_patch_outcome(out, "p"), Err(BuildError::ProcessExitFailure { .. })));
    let out = output(b"", &[0xff], true, "exit status: 0");
    assert!(matches!(check_patch_outcome(out, "p"), Err(BuildError::EncodingFailure { .. })));
}

#[test]
fn patch_runs_from_two_levels_above_header() {
    let cmd = patch_command("/usr/bin/git", "/repo/target/godot-gen/gdextension_interface.h", "/repo/res/tweak.patch").ok().unwrap();
    assert_eq!(cmd.program, "/usr/bin/git");
    assert_eq!(cmd.args, vec!["apply".to_string(), "-v".to_string(), "/repo/res/tweak.patch".to_string()]);
    assert_eq!(cmd.cwd, Some("/repo/target".to_string()));
    match patch_command("git", "x.h", "p") {
        Err(BuildError::FileIoFailure { path }) => assert_eq!(path, "x.h"),
        _ => panic!("expected a failure"),
    }
}

#[test]
fn parent_directories() {
    assert_eq!(parent_dir("a/b/c.h"), Some("a/b".to_string()));
    assert_eq!(parent_dir("/a"), Some("/".to_string()));
    assert_eq!(parent_dir("/"), None);
    assert_eq!(parent_dir("c.h"), None);
    assert_eq!(parent_dir(""), None);
    assert_eq!(parent_dir("x/y/"), Some("x".to_string()));
    assert_eq!(parent_dir("/a/b//"), Some("/a".to_string()));
    assert_eq!(parent_dir("/a/"), Some("/".to_string()));
    assert_eq!(parent_dir("x/"), None);
}

#[test]
fn layout_paths() {
    let l = ArtifactLayout { generated_root: "/b/target".to_string(), resource_root: "/src/bindings".to_string() };
    assert_eq!(l.version_file(), "/b/target/godot-gen/godot_version.txt");
    assert_eq!(l.json_file(), "/b/target/godot-gen/extension_api.json");
    assert_eq!(l.header_file(), "/b/target/godot-gen/gdextension_interface.h");
    assert_eq!(l.patch_file(), "/src/bindings/res/tweak.patch");
}

#[test]
fn trigger_directives() {
    assert_eq!(RebuildTrigger::File("/a/b.h".to_string()).directive(), "cargo:rerun-if-changed=/a/b.h");
    assert_eq!(RebuildTrigger::EnvVar("ENGINE_BIN".to_string()).directive(), "cargo:rerun-if-env-changed=ENGINE_BIN");
}

#[test]
fn error_messages() {
    assert_eq!(
        BuildError::ProcessSpawnFailure { context: "apply patch".to_string(), program: "/usr/bin/git".to_string() }.message(),
        "failed to execute command: apply patch ('/usr/bin/git')"
    );
    assert_eq!(BuildError::ProcessExitFailure { context: "c".to_string(), log: vec![] }.message(), "command returned error: c");
    assert_eq!(BuildError::PatchSkipped { patch: "p".to_string() }.message(), "patch was skipped: p");
    assert_eq!(BuildError::FileIoFailure { path: "/x".to_string() }.message(), "failed to access file /x");
    assert_eq!(BuildError::VersionUnparsable { output: "zz".to_string() }.message(), "failed to parse engine version 'zz'");
    assert_eq!(BuildError::EncodingFailure { context: "q".to_string() }.message(), "output is not valid UTF-8: q");
}

#[test]
fn version_change_detection() {
    let current = "4.2.0.stable".to_string();
    assert!(!has_version_changed(&current, Some("4.2.0.stable".to_string())));
    assert!(has_version_changed(&current, Some("4.1.2.stable".to_string())));
    assert!(has_version_changed(&current, None));
}

#[test]
fn patch_root_of_headers() {
    assert_eq!(patch_root_dir("/r/t/g/h.h"), Some("/r/t".to_string()));
    assert_eq!(patch_root_dir("g/h.h"), None);
    assert_eq!(patch_root_dir("h"), None);
}

#[test]
fn labelled_bytes() {
    assert_eq!(labelled("v: ", &vec![0xff, b'4']), vec![b'v', b':', b' ', 0xff, b'4']);
}
