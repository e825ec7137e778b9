//! Plain records the application exchanges with its user interface about
//! updates, usage, memory files, commands, agents and known projects.
use vstd::prelude::*;

verus! {

/// Whether an update is available, and which.
pub struct UpdateInfo {
    pub available: bool,
    pub version: Option<String>,
    pub body: Option<String>,
    pub date: Option<String>,
}

/// Token counts of one response.
pub struct UsageData {
    pub input_tokens: Option<u64>,
    pub cache_read_input_tokens: Option<u64>,
    pub output_tokens: Option<u64>,
}

/// One usage entry of a project's session files.
pub struct ProjectUsageRecord {
    pub uuid: String,
    pub timestamp: String,
    pub model: Option<String>,
    pub usage: Option<UsageData>,
}

/// A memory file and whether it exists.
pub struct MemoryFile {
    pub path: String,
    pub content: String,
    pub exists: bool,
}

/// A slash-command file.
pub struct CommandFile {
    pub name: String,
    pub content: String,
    pub exists: bool,
}

/// An agent definition file.
pub struct AgentFile {
    pub name: String,
    pub content: String,
    pub exists: bool,
}

/// A project the application keeps track of.
pub struct ProjectRegistryEntry {
    pub project_path: String,
    pub title: String,
    pub last_used_at: u64,
    pub inherit_from_global: bool,
    pub parent_global_config_id: Option<String>,
}

pub open spec fn os_display_name(os: Seq<char>) -> Seq<char> {
    if os == "macos"@ {
        "macOS"@
    } else if os == "windows"@ {
        "Windows"@
    } else if os == "linux"@ {
        "Linux"@
    } else {
        "Unknown"@
    }
}

/// The display name of an operating system, given the name Rust's standard
/// library reports for it (`std::env::consts::OS`).
pub fn get_os_name(os: &str) -> (r: String)
    ensures
        r@ == os_display_name(os@),
{
    if crate::json::str_eq(os, "macos") {
        String::from_str("macOS")
    } else if crate::json::str_eq(os, "windows") {
        String::from_str("Windows")
    } else if crate::json::str_eq(os, "linux") {
        String::from_str("Linux")
    } else {
        String::from_str("Unknown")
    }
}

} // verus!
