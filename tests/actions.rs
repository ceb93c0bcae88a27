use openvair_installer::actions::package_listed;
use openvair_installer::failure::{decimal_text, signed_decimal_text, Failure};
use openvair_installer::step::{
    ArchDetectionStep, OsTypeDetectionStep, PythonPathStep, PythonRequirementsStep,
    VenvCreationStep,
};
use openvair_installer::text::{blank, contains_text, same_text, starts_with_text, trim_char_text};

const OS_RELEASE: &str = "PRETTY_NAME=\"Ubuntu 22.04.3 LTS\"\nNAME=\"Ubuntu\"\nVERSION_ID=\"22.04\"\nID=\"Ubuntu\"\nID_LIKE=debian\n";

#[test]
fn os_id_from_release_file() {
    assert_eq!(OsTypeDetectionStep.os_from_release(OS_RELEASE), Some("ubuntu".to_string()));
    assert_eq!(OsTypeDetectionStep.os_from_release("ID=debian\r\nVERSION=12\n"), Some("debian".to_string()));
    assert_eq!(OsTypeDetectionStep.os_from_release("NAME=x\nID=\"\"\n"), Some("".to_string()));
}

#[test]
fn os_id_absent() {
    assert_eq!(OsTypeDetectionStep.os_from_release(""), None);
    assert_eq!(OsTypeDetectionStep.os_from_release("NAME=Arch\nID_LIKE=arch\n"), None);
    assert_eq!(OsTypeDetectionStep.os_from_release(" ID=x\n"), None);
}

#[test]
fn os_id_from_lsb_output() {
    assert_eq!(OsTypeDetectionStep.os_from_lsb("Ubuntu\n"), "ubuntu");
    assert_eq!(OsTypeDetectionStep.os_from_lsb("  Debian \n"), "debian");
}

#[test]
fn os_fallback_without_release_id() {
    assert_eq!(OsTypeDetectionStep.os_fallback(Some("Debian\n")), "debian");
    assert_eq!(OsTypeDetectionStep.os_fallback(None), "unknown");
}

#[test]
fn arch_mapping() {
    assert_eq!(ArchDetectionStep.arch_from_uname("aarch64\n"), "arm64");
    assert_eq!(ArchDetectionStep.arch_from_uname("  aarch64  "), "arm64");
    assert_eq!(ArchDetectionStep.arch_from_uname("x86_64\n"), "amd64");
    assert_eq!(ArchDetectionStep.arch_from_uname("aarch6"), "amd64");
    assert_eq!(ArchDetectionStep.arch_from_uname(""), "amd64");
}

#[test]
fn package_listing_matches_whole_words() {
    let listing = "ii  tmux 3.2a-4 amd64 terminal multiplexer\nii  python3-pip 22.0 all installer\n";
    assert!(package_listed(listing, "tmux"));
    assert!(package_listed(listing, "python3-pip"));
    assert!(!package_listed(listing, "pip"));
    assert!(!package_listed(listing, "libpq-dev"));
    assert!(!package_listed("", "tmux"));
}

#[test]
fn venv_paths_and_commands() {
    assert_eq!(VenvCreationStep.venv_path("/opt/aero/openvair"), "/opt/aero/openvair/venv");
    assert_eq!(
        VenvCreationStep.create_command("/opt/aero/openvair"),
        "cd /opt/aero/openvair && python3 -m venv venv"
    );
    assert_eq!(
        PythonRequirementsStep.requirements_path("/p"),
        "/p/requirements.txt"
    );
    assert_eq!(
        PythonRequirementsStep.install_command("/p"),
        "/p/venv/bin/pip install -r /p/requirements.txt"
    );
}

#[test]
fn pythonpath_configuration_is_idempotent() {
    let project = "/opt/aero/openvair";
    assert_eq!(PythonPathStep.activate_path(project), "/opt/aero/openvair/venv/bin/activate");
    let line = PythonPathStep.export_line(project);
    assert_eq!(line, "export PYTHONPATH=\"/opt/aero/openvair:$PYTHONPATH\"\n");
    let script = "# activate\nVIRTUAL_ENV=/opt/aero/openvair/venv\n".to_string();
    assert!(!PythonPathStep.is_configured(&script, project));
    let appended = format!("{}{}", script, line);
    assert!(PythonPathStep.is_configured(&appended, project));
    assert!(!PythonPathStep.is_configured(&appended, "/opt/other"));
}

#[test]
fn failure_messages() {
    assert_eq!(
        Failure::LoginTooShort { length: 2 }.message(),
        "User login is too short. Minimum length is 4 characters. Current length: 2"
    );
    assert_eq!(
        Failure::LoginInvalid.message(),
        "User login is not valid or not specified. Installation script stopped"
    );
    assert_eq!(
        Failure::PasswordTooShort { length: 0 }.message(),
        "User password is too short. Minimum length is 4 characters. Current length: 0"
    );
    assert_eq!(
        Failure::ActivateScriptMissing { path: "/x/venv/bin/activate".to_string() }.message(),
        "Virtual environment activate script not found: /x/venv/bin/activate"
    );
    assert_eq!(
        Failure::CommandFailed {
            operation: "Enable libvirt daemon".to_string(),
            exit_code: -1,
            stderr: "boom".to_string()
        }
        .message(),
        "Enable libvirt daemon: Command failed with exit code -1: boom"
    );
    assert_eq!(
        Failure::CommandFailed { operation: "x".to_string(), exit_code: 100, stderr: "".to_string() }
            .message(),
        "x: Command failed with exit code 100: "
    );
    assert_eq!(
        Failure::Io { operation: "Reading /etc/os-release".to_string(), detail: "not found".to_string() }
            .message(),
        "Reading /etc/os-release: not found"
    );
}

#[test]
fn decimal_notation() {
    assert_eq!(decimal_text(0), "0");
    assert_eq!(decimal_text(7), "7");
    assert_eq!(decimal_text(10), "10");
    assert_eq!(decimal_text(1234567890), "1234567890");
    assert_eq!(decimal_text(u64::MAX), u64::MAX.to_string());
    assert_eq!(signed_decimal_text(i32::MIN), i32::MIN.to_string());
    assert_eq!(signed_decimal_text(-42), "-42");
    assert_eq!(signed_decimal_text(0), "0");
}

#[test]
fn text_helpers() {
    assert!(blank(""));
    assert!(blank(" \t\n"));
    assert!(!blank(" a "));
    assert!(blank("\u{3000}\u{a0}\u{2003}\u{85}"));
    assert!(!blank("\u{200b}"));
    assert!(contains_text("hello world", "o w"));
    assert!(contains_text("abc", ""));
    assert!(!contains_text("ab", "abc"));
    assert!(starts_with_text("ID=x", "ID="));
    assert!(!starts_with_text("ID", "ID="));
    assert!(same_text("localhost", "localhost"));
    assert!(!same_text("localhost", "localhos"));
    assert_eq!(trim_char_text("\"ubuntu\"", '"'), "ubuntu");
    assert_eq!(trim_char_text("\"\"a\"b\"\"", '"'), "a\"b");
    assert_eq!(trim_char_text("\"\"\"", '"'), "");
    assert_eq!(trim_char_text("plain", '"'), "plain");
}
