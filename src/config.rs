use vstd::prelude::*;
use vstd::string::*;
use base64::engine::general_purpose::STANDARD;
use base64::Engine;

use crate::key::{EncryptionKey, KEY_LEN};

verus! {

/// Number of upload attempts used when none is configured.
pub const DEFAULT_RETRY_COUNT: u32 = 3;

/// Pause between failed upload attempts, in milliseconds, when none is configured.
pub const DEFAULT_BACKOFF_MS: u64 = 1000;

/// The retry settings in force: each configured value, or its default.
pub fn load_sftp_retry_config(retry_count: Option<u32>, backoff_ms: Option<u64>) -> (r: (u32, u64))
    ensures
        r.0 == (match retry_count { Some(n) => n, None => DEFAULT_RETRY_COUNT }),
        r.1 == (match backoff_ms { Some(n) => n, None => DEFAULT_BACKOFF_MS }),
{
    let count = match retry_count {
        Some(n) => n,
        None => DEFAULT_RETRY_COUNT,
    };
    let backoff = match backoff_ms {
        Some(n) => n,
        None => DEFAULT_BACKOFF_MS,
    };
    (count, backoff)
}

/// Directory for artifacts when none is configured.
pub const DEFAULT_ENCRYPTED_DIR: &'static str = "encrypted";

/// Directory for recovered plaintext when none is configured.
pub const DEFAULT_DECRYPTED_DIR: &'static str = "decrypted";

/// The directory that artifacts are written to: the configured one, or `encrypted`.
pub fn encrypted_output_dir(configured: Option<String>) -> (r: String)
    ensures
        r@ == (match configured { Some(d) => d@, None => DEFAULT_ENCRYPTED_DIR@ }),
{
    match configured {
        Some(d) => d,
        None => String::from_str(DEFAULT_ENCRYPTED_DIR),
    }
}

/// The directory that recovered plaintext is written to: the configured one, or `decrypted`.
pub fn decrypted_output_dir(configured: Option<String>) -> (r: String)
    ensures
        r@ == (match configured { Some(d) => d@, None => DEFAULT_DECRYPTED_DIR@ }),
{
    match configured {
        Some(d) => d,
        None => String::from_str(DEFAULT_DECRYPTED_DIR),
    }
}

/// Why the configured key cannot be used.
#[derive(Clone, Copy, Debug, PartialEq, Eq)]
pub enum ConfigError {
    /// The key text is not standard base64.
    KeyNotBase64,
    /// The key decodes to a number of bytes other than 32.
    KeyWrongLength,
}

/// The bytes that the standard, padded base64 alphabet decodes `text` to, if it is valid.
pub uninterp spec fn base64_decoded(text: Seq<char>) -> Option<Seq<u8>>;

/// Relies on base64's `STANDARD.decode`: the bytes that the text encodes, if it is valid
/// standard base64.
#[verifier::external_body]
fn decode_base64(text: &str) -> (r: Option<Vec<u8>>)
    ensures
        r is Some <==> base64_decoded(text@) is Some,
        r matches Some(v) ==> base64_decoded(text@) == Some(v@),
{
    STANDARD.decode(text).ok()
}

/// What a decoded key text gives: a key where it decoded to exactly 32 bytes.
pub open spec fn key_result(decoded: Option<Seq<u8>>) -> Result<Seq<u8>, ConfigError> {
    match decoded {
        None => Err(ConfigError::KeyNotBase64),
        Some(b) => if b.len() == KEY_LEN { Ok(b) } else { Err(ConfigError::KeyWrongLength) },
    }
}

/// The bytes held, if any.
pub open spec fn bytes_view(o: Option<Vec<u8>>) -> Option<Seq<u8>> {
    match o {
        Some(v) => Some(v@),
        None => None,
    }
}

/// The key that a decoded key text gives.
pub fn key_from_decoded(decoded: Option<Vec<u8>>) -> (r: Result<EncryptionKey, ConfigError>)
    ensures
        r matches Ok(k) ==> key_result(bytes_view(decoded)) == Ok::<Seq<u8>, ConfigError>(k@),
        r matches Err(e) ==> key_result(bytes_view(decoded)) == Err::<Seq<u8>, ConfigError>(e),
{
    match decoded {
        None => Err(ConfigError::KeyNotBase64),
        Some(bytes) => match EncryptionKey::from_bytes(bytes.as_slice()) {
            Some(k) => Ok(k),
            None => Err(ConfigError::KeyWrongLength),
        },
    }
}

/// The key that the base64 text `encoded` stands for.
pub fn load_encryption_key(encoded: &str) -> (r: Result<EncryptionKey, ConfigError>)
    ensures
        r matches Ok(k) ==> key_result(base64_decoded(encoded@)) == Ok::<Seq<u8>, ConfigError>(k@),
        r matches Err(e) ==> key_result(base64_decoded(encoded@)) == Err::<Seq<u8>, ConfigError>(e),
{
    let decoded = decode_base64(encoded);
    proof {
        assert(bytes_view(decoded) == base64_decoded(encoded@));
    }
    key_from_decoded(decoded)
}

/// The operating systems that autostart knows how to register with.
#[derive(Clone, Copy, Debug, PartialEq, Eq)]
pub enum Platform {
    Windows,
    MacOs,
    Linux,
}

/// How to register the agent to start at login: make sure `directory` exists (where
/// `create_directory` says so); if `destination` is absent, copy `source` there and run
/// `command` (no command where it is empty).
pub struct AutostartPlan {
    pub directory: String,
    pub create_directory: bool,
    pub destination: String,
    pub source: String,
    pub command: Vec<String>,
}

pub const WINDOWS_STARTUP_DIR: &'static str = "AppData/Roaming/Microsoft/Windows/Start Menu/Programs/Startup";
pub const WINDOWS_SHORTCUT: &'static str = "VaultSync.lnk";
pub const WINDOWS_SHORTCUT_SOURCE: &'static str = "autostart/VaultSync.lnk";
pub const MACOS_AGENTS_DIR: &'static str = "Library/LaunchAgents";
pub const MACOS_PLIST: &'static str = "com.vaultsync.autostart.plist";
pub const MACOS_PLIST_SOURCE: &'static str = "autostart/com.vaultsync.autostart.plist";
pub const LINUX_UNITS_DIR: &'static str = ".config/systemd/user";
pub const LINUX_UNIT: &'static str = "vaultsync.service";
pub const LINUX_UNIT_SOURCE: &'static str = "autostart/vaultsync.service";

/// `rel` under the directory `base`, with a `/` between them where `base` does not end in one.
pub open spec fn joined(base: Seq<char>, rel: Seq<char>) -> Seq<char> {
    if base.len() == 0 {
        rel
    } else if base.last() == '/' {
        base + rel
    } else {
        base + seq!['/'] + rel
    }
}

/// The texts of a list of strings.
pub open spec fn texts(v: Seq<String>) -> Seq<Seq<char>> {
    v.map_values(|s: String| s@)
}

/// The directory, file, bundled source and registration command of each platform.
pub open spec fn platform_dir(platform: Platform) -> Seq<char> {
    match platform {
        Platform::Windows => WINDOWS_STARTUP_DIR@,
        Platform::MacOs => MACOS_AGENTS_DIR@,
        Platform::Linux => LINUX_UNITS_DIR@,
    }
}

pub open spec fn platform_file(platform: Platform) -> Seq<char> {
    match platform {
        Platform::Windows => WINDOWS_SHORTCUT@,
        Platform::MacOs => MACOS_PLIST@,
        Platform::Linux => LINUX_UNIT@,
    }
}

pub open spec fn platform_source(platform: Platform) -> Seq<char> {
    match platform {
        Platform::Windows => WINDOWS_SHORTCUT_SOURCE@,
        Platform::MacOs => MACOS_PLIST_SOURCE@,
        Platform::Linux => LINUX_UNIT_SOURCE@,
    }
}

pub open spec fn platform_command(platform: Platform, destination: Seq<char>) -> Seq<Seq<char>> {
    match platform {
        Platform::Windows => seq![],
        Platform::MacOs => seq!["launchctl"@, "load"@, destination],
        Platform::Linux => seq!["systemctl"@, "--user"@, "enable"@, LINUX_UNIT@],
    }
}

/// Whether `plan` is the registration for `platform` under the home directory `home`.
pub open spec fn is_plan_for(platform: Platform, home: Seq<char>, plan: AutostartPlan) -> bool {
    &&& plan.directory@ == joined(home, platform_dir(platform))
    &&& plan.create_directory == (platform != Platform::Windows)
    &&& plan.destination@ == joined(plan.directory@, platform_file(platform))
    &&& plan.source@ == platform_source(platform)
    &&& texts(plan.command@) == platform_command(platform, plan.destination@)
}

/// `rel` under the directory `base`.
pub fn join_path(base: &str, rel: &str) -> (r: String)
    ensures
        r@ == joined(base@, rel@),
{
    let len = base.unicode_len();
    if len == 0 {
        return String::from_str(rel);
    }
    let owned = String::from_str(base);
    if base.get_char(len - 1) == '/' {
        owned.concat(rel)
    } else {
        let with_sep = owned.concat("/");
        proof {
            reveal_strlit("/");
        }
        assert("/"@ =~= seq!['/']);
        with_sep.concat(rel)
    }
}

/// Registration of a Windows startup shortcut under the home directory `home`.
pub fn setup_autostart_windows(home: &str) -> (r: AutostartPlan)
    ensures
        is_plan_for(Platform::Windows, home@, r),
{
    let directory = join_path(home, WINDOWS_STARTUP_DIR);
    let destination = join_path(directory.as_str(), WINDOWS_SHORTCUT);
    let command: Vec<String> = Vec::new();
    assert(texts(command@) =~= seq![]);
    AutostartPlan {
        directory,
        create_directory: false,
        destination,
        source: String::from_str(WINDOWS_SHORTCUT_SOURCE),
        command,
    }
}

/// Registration of a macOS launch agent under the home directory `home`, loaded with
/// `launchctl load`.
pub fn setup_autostart_macos(home: &str) -> (r: AutostartPlan)
    ensures
        is_plan_for(Platform::MacOs, home@, r),
{
    let directory = join_path(home, MACOS_AGENTS_DIR);
    let destination = join_path(directory.as_str(), MACOS_PLIST);
    let command = vec![String::from_str("launchctl"), String::from_str("load"), destination.clone()];
    assert(texts(command@) =~= seq!["launchctl"@, "load"@, destination@]);
    AutostartPlan {
        directory,
        create_directory: true,
        destination,
        source: String::from_str(MACOS_PLIST_SOURCE),
        command,
    }
}

/// Registration of a systemd user unit under the home directory `home`, enabled with
/// `systemctl --user enable`.
pub fn setup_autostart_linux(home: &str) -> (r: AutostartPlan)
    ensures
        is_plan_for(Platform::Linux, home@, r),
{
    let directory = join_path(home, LINUX_UNITS_DIR);
    let destination = join_path(directory.as_str(), LINUX_UNIT);
    let command = vec![
        String::from_str("systemctl"),
        String::from_str("--user"),
        String::from_str("enable"),
        String::from_str(LINUX_UNIT),
    ];
    assert(texts(command@) =~= seq!["systemctl"@, "--user"@, "enable"@, LINUX_UNIT@]);
    AutostartPlan {
        directory,
        create_directory: true,
        destination,
        source: String::from_str(LINUX_UNIT_SOURCE),
        command,
    }
}

/// The autostart registration for `platform`; none where the home directory is unknown.
pub fn setup_autostart(platform: Platform, home: Option<&str>) -> (r: Option<AutostartPlan>)
    ensures
        r is Some <==> home is Some,
        r matches Some(plan) ==> is_plan_for(platform, home.unwrap()@, plan),
{
    match home {
        None => None,
        Some(h) => Some(match platform {
            Platform::Windows => setup_autostart_windows(h),
            Platform::MacOs => setup_autostart_macos(h),
            Platform::Linux => setup_autostart_linux(h),
        }),
    }
}

} // verus!
