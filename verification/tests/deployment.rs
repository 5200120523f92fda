use gui_demo::deploy::{
    binary_path, bundle_paths, command_line, contains_bytes, deploy_step, has_booted_device,
    info_plist_content, CmdResult, DeployPhase, DeployStep, SimCommand,
};

#[test]
fn contains_bytes_basics() {
    assert!(contains_bytes(b"hello world", b"o w"));
    assert!(contains_bytes(b"hello world", b"hello world"));
    assert!(contains_bytes(b"hello world", b""));
    assert!(contains_bytes(b"", b""));
    assert!(!contains_bytes(b"", b"a"));
    assert!(!contains_bytes(b"hello world", b"worlds"));
    assert!(contains_bytes(b"aaab", b"aab"));
}

#[test]
fn contains_bytes_needle_at_the_edges() {
    assert!(contains_bytes(b"abc", b"ab"));
    assert!(contains_bytes(b"abc", b"bc"));
    assert!(!contains_bytes(b"abc", b"ca"));
}

#[test]
fn booted_device_is_seen() {
    let json = r#"{ "devices" : { "iOS 17.0" : [ { "state" : "Booted", "name" : "iPhone 15 Pro" } ] } }"#;
    assert!(has_booted_device(json));
}

#[test]
fn shutdown_devices_are_not_booted() {
    let json = r#"{ "devices" : { "iOS 17.0" : [ { "state" : "Shutdown", "name" : "iPhone 15 Pro" } ] } }"#;
    assert!(!has_booted_device(json));
}

#[test]
fn booted_marker_is_exact() {
    // The helper matches the pretty-printed form, spaces around the colon.
    assert!(!has_booted_device(r#"{"state": "Booted"}"#));
    assert!(has_booted_device(r#"{"state" : "Booted"}"#));
}

#[test]
fn paths_are_joined() {
    let p = binary_path("/work/target", "aarch64-apple-ios-sim", "debug", "rust-ios-test");
    assert_eq!(p, "/work/target/aarch64-apple-ios-sim/debug/rust-ios-test");
}

#[test]
fn bundle_files() {
    let p = bundle_paths("/work/project");
    assert_eq!(p.bundle_dir, "/work/project/RustApp.app");
    assert_eq!(p.binary, "/work/project/RustApp.app/rust-ios-test");
    assert_eq!(p.info_plist, "/work/project/RustApp.app/Info.plist");
}

#[test]
fn plist_names_the_bundle() {
    let plist = info_plist_content();
    assert!(plist.starts_with("<?xml version=\"1.0\" encoding=\"UTF-8\"?>"));
    assert!(plist.contains("<string>com.example.rustiostest</string>"));
    assert!(plist.contains("<string>rust-ios-test</string>"));
    assert!(plist.contains("<key>MinimumOSVersion</key>"));
    assert!(plist.ends_with("</plist>\n"));
}

fn ok() -> CmdResult {
    CmdResult::Ran { success: true }
}

fn failed() -> CmdResult {
    CmdResult::Ran { success: false }
}

const BOOTED: &str = r#""state" : "Booted""#;

#[test]
fn listing_with_a_booted_device_installs() {
    let next = deploy_step(DeployPhase::ListingDevices, ok(), BOOTED);
    assert_eq!(
        next,
        DeployStep {
            phase: DeployPhase::Installing,
            command: Some(SimCommand::InstallBooted),
            wait_before_secs: 0,
        }
    );
}

#[test]
fn listing_without_a_booted_device_boots() {
    let next = deploy_step(DeployPhase::ListingDevices, ok(), "{}");
    assert_eq!(
        next,
        DeployStep {
            phase: DeployPhase::Booting,
            command: Some(SimCommand::BootDefault),
            wait_before_secs: 0,
        }
    );
}

#[test]
fn failed_listing_gives_up() {
    let next = deploy_step(DeployPhase::ListingDevices, failed(), "");
    assert_eq!(next, DeployStep { phase: DeployPhase::Done, command: None, wait_before_secs: 0 });
    let next = deploy_step(DeployPhase::ListingDevices, CmdResult::SpawnFailed, BOOTED);
    assert_eq!(next.phase, DeployPhase::Done);
}

#[test]
fn install_then_launch_then_open() {
    let next = deploy_step(DeployPhase::Installing, ok(), "");
    assert_eq!(next.phase, DeployPhase::Launching);
    assert_eq!(next.command, Some(SimCommand::LaunchApp));
    let next = deploy_step(DeployPhase::Launching, ok(), "");
    assert_eq!(next.phase, DeployPhase::Opening);
    assert_eq!(next.command, Some(SimCommand::OpenSimulator));
    let next = deploy_step(DeployPhase::Opening, ok(), "");
    assert_eq!(next, DeployStep { phase: DeployPhase::Done, command: None, wait_before_secs: 0 });
}

#[test]
fn failed_install_or_launch_gives_up() {
    assert_eq!(deploy_step(DeployPhase::Installing, failed(), "").phase, DeployPhase::Done);
    assert_eq!(deploy_step(DeployPhase::Launching, CmdResult::SpawnFailed, "").phase, DeployPhase::Done);
}

#[test]
fn fresh_boot_waits_before_installing() {
    let next = deploy_step(DeployPhase::Booting, ok(), "");
    assert_eq!(
        next,
        DeployStep {
            phase: DeployPhase::InstallingAfterBoot,
            command: Some(SimCommand::InstallBooted),
            wait_before_secs: 2,
        }
    );
}

#[test]
fn failed_boot_gives_up() {
    assert_eq!(deploy_step(DeployPhase::Booting, failed(), "").phase, DeployPhase::Done);
}

#[test]
fn after_boot_the_launch_outcome_is_ignored() {
    let next = deploy_step(DeployPhase::InstallingAfterBoot, ok(), "");
    assert_eq!(next.phase, DeployPhase::LaunchingAfterBoot);
    assert_eq!(next.command, Some(SimCommand::LaunchApp));
    // However the launch went, the window is still brought up.
    let next = deploy_step(DeployPhase::LaunchingAfterBoot, failed(), "");
    assert_eq!(next.phase, DeployPhase::OpeningAfterBoot);
    assert_eq!(next.command, Some(SimCommand::OpenSimulator));
    let next = deploy_step(DeployPhase::OpeningAfterBoot, CmdResult::SpawnFailed, "");
    assert_eq!(next.phase, DeployPhase::Done);
    assert_eq!(next.command, None);
}

#[test]
fn every_run_reaches_done() {
    // Whatever the outcomes, the helper stops within a handful of steps.
    for booted in [BOOTED, "{}"] {
        for outcome in [ok(), failed(), CmdResult::SpawnFailed] {
            let mut phase = DeployPhase::ListingDevices;
            let mut command = Some(SimCommand::ListDevices);
            let mut steps = 0;
            while command.is_some() {
                let next = deploy_step(phase, outcome, booted);
                phase = next.phase;
                command = next.command;
                steps += 1;
                assert!(steps <= 5, "deployment helper did not stop");
            }
            assert_eq!(phase, DeployPhase::Done);
        }
    }
}

#[test]
fn done_stays_done() {
    let next = deploy_step(DeployPhase::Done, ok(), BOOTED);
    assert_eq!(next, DeployStep { phase: DeployPhase::Done, command: None, wait_before_secs: 0 });
}

#[test]
fn command_lines() {
    let c = command_line(SimCommand::ListDevices, "/b");
    assert_eq!(c.program, "xcrun");
    assert_eq!(c.args, vec!["simctl", "list", "devices", "--json"]);

    let c = command_line(SimCommand::InstallBooted, "/work/RustApp.app");
    assert_eq!(c.program, "xcrun");
    assert_eq!(c.args, vec!["simctl", "install", "booted", "/work/RustApp.app"]);

    let c = command_line(SimCommand::LaunchApp, "/b");
    assert_eq!(c.program, "xcrun");
    assert_eq!(c.args, vec!["simctl", "launch", "booted", "com.example.rustiostest"]);

    let c = command_line(SimCommand::BootDefault, "/b");
    assert_eq!(c.program, "xcrun");
    assert_eq!(c.args, vec!["simctl", "boot", "iPhone 15 Pro"]);

    let c = command_line(SimCommand::OpenSimulator, "/b");
    assert_eq!(c.program, "open");
    assert_eq!(c.args, vec!["-a", "Simulator"]);
}
