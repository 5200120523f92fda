//! The decision logic of the simulator deployment helper: where the app
//! bundle lives, the manifest it carries, the command lines it runs, how a
//! booted simulator is recognised in the device list, and which step
//! follows which outcome. The shell runs the commands, sleeps, and writes
//! the files; every choice it makes comes from here.

use vstd::prelude::*;

use vstd::utf8::encode_utf8;

verus! {

/// Holds when `needle` occurs in `hay` starting at `i`.
pub open spec fn matches_at(hay: Seq<u8>, needle: Seq<u8>, i: int) -> bool {
    &&& 0 <= i
    &&& i + needle.len() <= hay.len()
    &&& forall|j: int| 0 <= j < needle.len() ==> hay[i + j] == needle[j]
}

/// Holds when `needle` occurs somewhere in `hay`.
pub open spec fn contains_seq(hay: Seq<u8>, needle: Seq<u8>) -> bool {
    exists|i: int| matches_at(hay, needle, i)
}

fn bytes_match_at(hay: &[u8], needle: &[u8], i: usize) -> (r: bool)
    requires
        i + needle@.len() <= hay@.len(),
    ensures
        r == matches_at(hay@, needle@, i as int),
{
    let n = needle.len();
    let h = hay.len();
    let mut j: usize = 0;
    while j < n
        invariant
            j <= n,
            n == needle@.len(),
            h == hay@.len(),
            i + n <= hay@.len(),
            forall|k: int| 0 <= k < j ==> hay@[i + k] == needle@[k],
        decreases n - j,
    {
        if hay[i + j] != needle[j] {
            proof {
                assert(!matches_at(hay@, needle@, i as int)) by {
                    assert(hay@[i + j] != needle@[j as int]);
                }
            }
            return false;
        }
        j = j + 1;
    }
    true
}

/// Whether `hay` contains `needle` as a contiguous run of bytes.
pub fn contains_bytes(hay: &[u8], needle: &[u8]) -> (found: bool)
    ensures
        found == contains_seq(hay@, needle@),
{
    let h = hay.len();
    let n = needle.len();
    if n > h {
        proof {
            assert forall|i: int| !matches_at(hay@, needle@, i) by {}
        }
        return false;
    }
    let last = h - n;
    let mut i: usize = 0;
    while i <= last
        invariant
            h == hay@.len(),
            n == needle@.len(),
            n <= h,
            last == h - n,
            i <= last + 1,
            forall|k: int| 0 <= k < i ==> !matches_at(hay@, needle@, k),
        decreases last + 1 - i,
    {
        if bytes_match_at(hay, needle, i) {
            return true;
        }
        i = i + 1;
    }
    proof {
        assert forall|k: int| !matches_at(hay@, needle@, k) by {
            if 0 <= k < i {
            } else if k > last {
                assert(k + needle@.len() > hay@.len());
            }
        }
    }
    false
}

/// The marker the device list prints for a simulator that is booted.
pub open spec fn booted_marker() -> Seq<char> {
    "\"state\" : \"Booted\""@
}

/// Whether the JSON device list reports any booted simulator. The helper
/// does not parse the JSON; it looks for the state marker, byte for byte.
pub fn has_booted_device(devices_json: &str) -> (r: bool)
    ensures
        r == contains_seq(encode_utf8(devices_json@), encode_utf8(booted_marker())),
{
    contains_bytes(devices_json.as_bytes(), "\"state\" : \"Booted\"".as_bytes())
}

/// The path of the built binary under the target directory.
pub fn binary_path(target_dir: &str, target: &str, profile: &str, binary_name: &str) -> (r: String)
    ensures
        r@ == target_dir@ + "/"@ + target@ + "/"@ + profile@ + "/"@ + binary_name@,
{
    let mut r = String::from_str(target_dir);
    r.append("/");
    r.append(target);
    r.append("/");
    r.append(profile);
    r.append("/");
    r.append(binary_name);
    proof {
        assert(r@ =~= target_dir@ + "/"@ + target@ + "/"@ + profile@ + "/"@ + binary_name@);
    }
    r
}

/// The files of the app bundle.
pub struct BundlePaths {
    pub bundle_dir: String,
    pub binary: String,
    pub info_plist: String,
}

/// The bundle directory and its two files, under the package directory.
pub fn bundle_paths(package_dir: &str) -> (p: BundlePaths)
    ensures
        p.bundle_dir@ == package_dir@ + "/RustApp.app"@,
        p.binary@ == package_dir@ + "/RustApp.app"@ + "/rust-ios-test"@,
        p.info_plist@ == package_dir@ + "/RustApp.app"@ + "/Info.plist"@,
{
    let mut bundle_dir = String::from_str(package_dir);
    bundle_dir.append("/RustApp.app");
    let mut binary = bundle_dir.clone();
    binary.append("/rust-ios-test");
    let mut info_plist = bundle_dir.clone();
    info_plist.append("/Info.plist");
    BundlePaths { bundle_dir, binary, info_plist }
}

/// The identifier the bundle manifest declares and the launch command uses.
pub open spec fn app_bundle_id() -> Seq<char> {
    "com.example.rustiostest"@
}

/// The property-list manifest written into the bundle.
pub open spec fn info_plist_text() -> Seq<char> {
    r#"<?xml version="1.0" encoding="UTF-8"?>
<!DOCTYPE plist PUBLIC "-//Apple//DTD PLIST 1.0//EN" "http://www.apple.com/DTDs/PropertyList-1.0.dtd">
<plist version="1.0">
<dict>
    <key>CFBundleExecutable</key>
    <string>rust-ios-test</string>
    <key>CFBundleIdentifier</key>
    <string>com.example.rustiostest</string>
    <key>CFBundleName</key>
    <string>Rust iOS Test</string>
    <key>CFBundleDisplayName</key>
    <string>Rust GUI</string>
    <key>CFBundleVersion</key>
    <string>1.0</string>
    <key>CFBundleShortVersionString</key>
    <string>1.0</string>
    <key>CFBundlePackageType</key>
    <string>APPL</string>
    <key>CFBundleSupportedPlatforms</key>
    <array>
        <string>iPhoneOS</string>
        <string>iPhoneSimulator</string>
    </array>
    <key>UIDeviceFamily</key>
    <array>
        <integer>1</integer>
        <integer>2</integer>
    </array>
    <key>UISupportedInterfaceOrientations</key>
    <array>
        <string>UIInterfaceOrientationPortrait</string>
        <string>UIInterfaceOrientationLandscapeLeft</string>
        <string>UIInterfaceOrientationLandscapeRight</string>
        <string>UIInterfaceOrientationPortraitUpsideDown</string>
    </array>
    <key>UIRequiredDeviceCapabilities</key>
    <array>
        <string>arm64</string>
    </array>
    <key>MinimumOSVersion</key>
    <string>12.0</string>
    <key>UIApplicationSceneManifest</key>
    <dict>
        <key>UIApplicationSupportsMultipleScenes</key>
        <false/>
        <key>UISceneConfigurations</key>
        <dict>
            <key>UIWindowSceneSessionRoleApplication</key>
            <array>
                <dict>
                    <key>UISceneConfigurationName</key>
                    <string>Default Configuration</string>
                    <key>UISceneDelegateClassName</key>
                    <string>SceneDelegate</string>
                </dict>
            </array>
        </dict>
    </dict>
</dict>
</plist>
"#@
}

/// The manifest the helper writes when the bundle lacks one.
pub fn info_plist_content() -> (r: String)
    ensures
        r@ == info_plist_text(),
{
    String::from_str(
        r#"<?xml version="1.0" encoding="UTF-8"?>
<!DOCTYPE plist PUBLIC "-//Apple//DTD PLIST 1.0//EN" "http://www.apple.com/DTDs/PropertyList-1.0.dtd">
<plist version="1.0">
<dict>
    <key>CFBundleExecutable</key>
    <string>rust-ios-test</string>
    <key>CFBundleIdentifier</key>
    <string>com.example.rustiostest</string>
    <key>CFBundleName</key>
    <string>Rust iOS Test</string>
    <key>CFBundleDisplayName</key>
    <string>Rust GUI</string>
    <key>CFBundleVersion</key>
    <string>1.0</string>
    <key>CFBundleShortVersionString</key>
    <string>1.0</string>
    <key>CFBundlePackageType</key>
    <string>APPL</string>
    <key>CFBundleSupportedPlatforms</key>
    <array>
        <string>iPhoneOS</string>
        <string>iPhoneSimulator</string>
    </array>
    <key>UIDeviceFamily</key>
    <array>
        <integer>1</integer>
        <integer>2</integer>
    </array>
    <key>UISupportedInterfaceOrientations</key>
    <array>
        <string>UIInterfaceOrientationPortrait</string>
        <string>UIInterfaceOrientationLandscapeLeft</string>
        <string>UIInterfaceOrientationLandscapeRight</string>
        <string>UIInterfaceOrientationPortraitUpsideDown</string>
    </array>
    <key>UIRequiredDeviceCapabilities</key>
    <array>
        <string>arm64</string>
    </array>
    <key>MinimumOSVersion</key>
    <string>12.0</string>
    <key>UIApplicationSceneManifest</key>
    <dict>
        <key>UIApplicationSupportsMultipleScenes</key>
        <false/>
        <key>UISceneConfigurations</key>
        <dict>
            <key>UIWindowSceneSessionRoleApplication</key>
            <array>
                <dict>
                    <key>UISceneConfigurationName</key>
                    <string>Default Configuration</string>
                    <key>UISceneDelegateClassName</key>
                    <string>SceneDelegate</string>
                </dict>
            </array>
        </dict>
    </dict>
</dict>
</plist>
"#,
    )
}

/// A command the helper runs.
#[derive(Clone, Copy, Debug, PartialEq, Eq, Structural)]
pub enum SimCommand {
    /// List the simulators, as JSON.
    ListDevices,
    /// Install the bundle on the booted simulator.
    InstallBooted,
    /// Launch the installed app on the booted simulator.
    LaunchApp,
    /// Boot the default simulator.
    BootDefault,
    /// Bring the simulator window to the front.
    OpenSimulator,
}

/// How running a command went: it ran and exited well or badly, or it
/// could not be started at all.
#[derive(Clone, Copy, Debug, PartialEq, Eq, Structural)]
pub enum CmdResult {
    Ran { success: bool },
    SpawnFailed,
}

/// Whether the command ran and exited successfully.
pub open spec fn ran_ok(r: CmdResult) -> bool {
    match r {
        CmdResult::Ran { success } => success,
        CmdResult::SpawnFailed => false,
    }
}

/// Where the helper stands between commands.
#[derive(Clone, Copy, Debug, PartialEq, Eq, Structural)]
pub enum DeployPhase {
    /// Asking which simulators exist and which is booted.
    ListingDevices,
    /// Installing on a simulator that was already booted.
    Installing,
    /// Launching after that install.
    Launching,
    /// Bringing the simulator window up after a launch.
    Opening,
    /// Booting the default simulator because none was booted.
    Booting,
    /// Installing on the freshly booted simulator.
    InstallingAfterBoot,
    /// Launching after the install on the freshly booted simulator;
    /// how this launch exits is not inspected.
    LaunchingAfterBoot,
    /// Bringing the simulator window up on the fallback path.
    OpeningAfterBoot,
    /// Nothing further to do.
    Done,
}

/// One step of the helper: the phase it moves to, the command to run next
/// (none when it is finished), and the seconds to sleep first.
#[derive(Clone, Copy, Debug, PartialEq, Eq)]
pub struct DeployStep {
    pub phase: DeployPhase,
    pub command: Option<SimCommand>,
    pub wait_before_secs: u16,
}

/// The step that follows `phase` once its command ended with `result`;
/// `booted` is what the device list showed, read only while listing.
/// A fresh boot gets two seconds to settle before the install. On the
/// fallback path the launch goes on to opening the window however it
/// exited; everywhere else a failure ends the run.
pub open spec fn deploy_step_spec(phase: DeployPhase, result: CmdResult, booted: bool) -> DeployStep {
    match phase {
        DeployPhase::ListingDevices => if ran_ok(result) {
            if booted {
                DeployStep {
                    phase: DeployPhase::Installing,
                    command: Some(SimCommand::InstallBooted),
                    wait_before_secs: 0,
                }
            } else {
                DeployStep {
                    phase: DeployPhase::Booting,
                    command: Some(SimCommand::BootDefault),
                    wait_before_secs: 0,
                }
            }
        } else {
            DeployStep { phase: DeployPhase::Done, command: None, wait_before_secs: 0 }
        },
        DeployPhase::Installing => if ran_ok(result) {
            DeployStep {
                phase: DeployPhase::Launching,
                command: Some(SimCommand::LaunchApp),
                wait_before_secs: 0,
            }
        } else {
            DeployStep { phase: DeployPhase::Done, command: None, wait_before_secs: 0 }
        },
        DeployPhase::Launching => if ran_ok(result) {
            DeployStep {
                phase: DeployPhase::Opening,
                command: Some(SimCommand::OpenSimulator),
                wait_before_secs: 0,
            }
        } else {
            DeployStep { phase: DeployPhase::Done, command: None, wait_before_secs: 0 }
        },
        DeployPhase::Opening => DeployStep {
            phase: DeployPhase::Done,
            command: None,
            wait_before_secs: 0,
        },
        DeployPhase::Booting => if ran_ok(result) {
            DeployStep {
                phase: DeployPhase::InstallingAfterBoot,
                command: Some(SimCommand::InstallBooted),
                wait_before_secs: 2,
            }
        } else {
            DeployStep { phase: DeployPhase::Done, command: None, wait_before_secs: 0 }
        },
        DeployPhase::InstallingAfterBoot => if ran_ok(result) {
            DeployStep {
                phase: DeployPhase::LaunchingAfterBoot,
                command: Some(SimCommand::LaunchApp),
                wait_before_secs: 0,
            }
        } else {
            DeployStep { phase: DeployPhase::Done, command: None, wait_before_secs: 0 }
        },
        DeployPhase::LaunchingAfterBoot => DeployStep {
            phase: DeployPhase::OpeningAfterBoot,
            command: Some(SimCommand::OpenSimulator),
            wait_before_secs: 0,
        },
        DeployPhase::OpeningAfterBoot => DeployStep {
            phase: DeployPhase::Done,
            command: None,
            wait_before_secs: 0,
        },
        DeployPhase::Done => DeployStep {
            phase: DeployPhase::Done,
            command: None,
            wait_before_secs: 0,
        },
    }
}

/// How many commands the helper can still run from `phase`.
pub open spec fn phase_rank(phase: DeployPhase) -> nat {
    match phase {
        DeployPhase::ListingDevices => 5,
        DeployPhase::Booting => 4,
        DeployPhase::Installing => 3,
        DeployPhase::InstallingAfterBoot => 3,
        DeployPhase::Launching => 2,
        DeployPhase::LaunchingAfterBoot => 2,
        DeployPhase::Opening => 1,
        DeployPhase::OpeningAfterBoot => 1,
        DeployPhase::Done => 0,
    }
}

/// The helper always finishes: every step either reaches `Done` or moves
/// to a phase of strictly smaller rank, and it hands out a command exactly
/// as long as it is not done. A shell that runs command after command
/// therefore stops after at most five of them.
pub proof fn deploy_steps_terminate(phase: DeployPhase, result: CmdResult, booted: bool)
    ensures
        deploy_step_spec(phase, result, booted).phase is Done || phase_rank(
            deploy_step_spec(phase, result, booted).phase,
        ) < phase_rank(phase),
        deploy_step_spec(phase, result, booted).command is None <==> deploy_step_spec(
            phase,
            result,
            booted,
        ).phase is Done,
{
}

/// Decides the next step from the outcome of the last command; while
/// listing, `stdout` is searched for the booted-state marker.
pub fn deploy_step(phase: DeployPhase, result: CmdResult, stdout: &str) -> (next: DeployStep)
    ensures
        next == deploy_step_spec(
            phase,
            result,
            contains_seq(encode_utf8(stdout@), encode_utf8(booted_marker())),
        ),
{
    let ok = match result {
        CmdResult::Ran { success } => success,
        CmdResult::SpawnFailed => false,
    };
    match phase {
        DeployPhase::ListingDevices => {
            if ok {
                if has_booted_device(stdout) {
                    DeployStep {
                        phase: DeployPhase::Installing,
                        command: Some(SimCommand::InstallBooted),
                        wait_before_secs: 0,
                    }
                } else {
                    DeployStep {
                        phase: DeployPhase::Booting,
                        command: Some(SimCommand::BootDefault),
                        wait_before_secs: 0,
                    }
                }
            } else {
                DeployStep { phase: DeployPhase::Done, command: None, wait_before_secs: 0 }
            }
        },
        DeployPhase::Installing => {
            if ok {
                DeployStep {
                    phase: DeployPhase::Launching,
                    command: Some(SimCommand::LaunchApp),
                    wait_before_secs: 0,
                }
            } else {
                DeployStep { phase: DeployPhase::Done, command: None, wait_before_secs: 0 }
            }
        },
        DeployPhase::Launching => {
            if ok {
                DeployStep {
                    phase: DeployPhase::Opening,
                    command: Some(SimCommand::OpenSimulator),
                    wait_before_secs: 0,
                }
            } else {
                DeployStep { phase: DeployPhase::Done, command: None, wait_before_secs: 0 }
            }
        },
        DeployPhase::Opening => DeployStep {
            phase: DeployPhase::Done,
            command: None,
            wait_before_secs: 0,
        },
        DeployPhase::Booting => {
            if ok {
                DeployStep {
                    phase: DeployPhase::InstallingAfterBoot,
                    command: Some(SimCommand::InstallBooted),
                    wait_before_secs: 2,
                }
            } else {
                DeployStep { phase: DeployPhase::Done, command: None, wait_before_secs: 0 }
            }
        },
        DeployPhase::InstallingAfterBoot => {
            if ok {
                DeployStep {
                    phase: DeployPhase::LaunchingAfterBoot,
                    command: Some(SimCommand::LaunchApp),
                    wait_before_secs: 0,
                }
            } else {
                DeployStep { phase: DeployPhase::Done, command: None, wait_before_secs: 0 }
            }
        },
        DeployPhase::LaunchingAfterBoot => DeployStep {
            phase: DeployPhase::OpeningAfterBoot,
            command: Some(SimCommand::OpenSimulator),
            wait_before_secs: 0,
        },
        DeployPhase::OpeningAfterBoot => DeployStep {
            phase: DeployPhase::Done,
            command: None,
            wait_before_secs: 0,
        },
        DeployPhase::Done => DeployStep {
            phase: DeployPhase::Done,
            command: None,
            wait_before_secs: 0,
        },
    }
}

/// A program and its arguments, ready to run.
pub struct CommandLine {
    pub program: String,
    pub args: Vec<String>,
}

/// Holds when `c` is the command line for `cmd`, installing from
/// `bundle_dir`.
pub open spec fn command_line_is(cmd: SimCommand, bundle_dir: Seq<char>, c: CommandLine) -> bool {
    match cmd {
        SimCommand::ListDevices => {
            &&& c.program@ == "xcrun"@
            &&& c.args@.len() == 4
            &&& c.args@[0]@ == "simctl"@
            &&& c.args@[1]@ == "list"@
            &&& c.args@[2]@ == "devices"@
            &&& c.args@[3]@ == "--json"@
        },
        SimCommand::InstallBooted => {
            &&& c.program@ == "xcrun"@
            &&& c.args@.len() == 4
            &&& c.args@[0]@ == "simctl"@
            &&& c.args@[1]@ == "install"@
            &&& c.args@[2]@ == "booted"@
            &&& c.args@[3]@ == bundle_dir
        },
        SimCommand::LaunchApp => {
            &&& c.program@ == "xcrun"@
            &&& c.args@.len() == 4
            &&& c.args@[0]@ == "simctl"@
            &&& c.args@[1]@ == "launch"@
            &&& c.args@[2]@ == "booted"@
            &&& c.args@[3]@ == app_bundle_id()
        },
        SimCommand::BootDefault => {
            &&& c.program@ == "xcrun"@
            &&& c.args@.len() == 3
            &&& c.args@[0]@ == "simctl"@
            &&& c.args@[1]@ == "boot"@
            &&& c.args@[2]@ == "iPhone 15 Pro"@
        },
        SimCommand::OpenSimulator => {
            &&& c.program@ == "open"@
            &&& c.args@.len() == 2
            &&& c.args@[0]@ == "-a"@
            &&& c.args@[1]@ == "Simulator"@
        },
    }
}

/// Builds the command line for `cmd`; installs read the bundle from
/// `bundle_dir`.
pub fn command_line(cmd: SimCommand, bundle_dir: &str) -> (c: CommandLine)
    ensures
        command_line_is(cmd, bundle_dir@, c),
{
    match cmd {
        SimCommand::ListDevices => {
            let mut args: Vec<String> = Vec::new();
            args.push(String::from_str("simctl"));
            args.push(String::from_str("list"));
            args.push(String::from_str("devices"));
            args.push(String::from_str("--json"));
            CommandLine { program: String::from_str("xcrun"), args }
        },
        SimCommand::InstallBooted => {
            let mut args: Vec<String> = Vec::new();
            args.push(String::from_str("simctl"));
            args.push(String::from_str("install"));
            args.push(String::from_str("booted"));
            args.push(String::from_str(bundle_dir));
            CommandLine { program: String::from_str("xcrun"), args }
        },
        SimCommand::LaunchApp => {
            let mut args: Vec<String> = Vec::new();
            args.push(String::from_str("simctl"));
            args.push(String::from_str("launch"));
            args.push(String::from_str("booted"));
            args.push(String::from_str("com.example.rustiostest"));
            CommandLine { program: String::from_str("xcrun"), args }
        },
        SimCommand::BootDefault => {
            let mut args: Vec<String> = Vec::new();
            args.push(String::from_str("simctl"));
            args.push(String::from_str("boot"));
            args.push(String::from_str("iPhone 15 Pro"));
            CommandLine { program: String::from_str("xcrun"), args }
        },
        SimCommand::OpenSimulator => {
            let mut args: Vec<String> = Vec::new();
            args.push(String::from_str("-a"));
            args.push(String::from_str("Simulator"));
            CommandLine { program: String::from_str("open"), args }
        },
    }
}

} // verus!
