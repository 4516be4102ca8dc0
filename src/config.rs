//! The launcher settings that the host stores between runs.

use vstd::prelude::*;

verus! {

/// The two settings handed to the worker: its data directory and the path
/// of its environment file.
pub struct LauncherConfig {
    pub data_dir: String,
    pub env_file: String,
}

/// The settings as plain text.
pub struct ConfigView {
    pub data_dir: Seq<char>,
    pub env_file: Seq<char>,
}

impl View for LauncherConfig {
    type V = ConfigView;

    open spec fn view(&self) -> ConfigView {
        ConfigView { data_dir: self.data_dir@, env_file: self.env_file@ }
    }
}

impl Clone for LauncherConfig {
    fn clone(&self) -> (r: Self)
        ensures
            r@ == self@,
    {
        LauncherConfig { data_dir: self.data_dir.clone(), env_file: self.env_file.clone() }
    }
}

impl LauncherConfig {
    pub fn new(data_dir: String, env_file: String) -> (r: Self)
        ensures
            r.data_dir == data_dir,
            r.env_file == env_file,
    {
        LauncherConfig { data_dir, env_file }
    }

}

/// What the settings file held when it was looked for.
pub enum StoredConfig {
    /// No settings file exists.
    Missing,
    /// The file exists but could not be read.
    Unreadable,
    /// The file was read but does not hold the two settings.
    Malformed,
    /// The file holds these settings.
    Present(LauncherConfig),
}

/// The settings that a read of the store yields, if any.
pub open spec fn stored_settings(stored: StoredConfig) -> Option<LauncherConfig> {
    match stored {
        StoredConfig::Present(c) => Some(c),
        _ => None,
    }
}

/// The settings that the store yields: a missing, unreadable or malformed
/// file all read as absent, never as a failure.
pub fn read_launcher_config(stored: StoredConfig) -> (r: Option<LauncherConfig>)
    ensures
        r == stored_settings(stored),
{
    match stored {
        StoredConfig::Present(c) => Some(c),
        _ => None,
    }
}

/// Whether the host must ask for settings first: the store yields none.
pub fn needs_setup(stored: &StoredConfig) -> (r: bool)
    ensures
        r == stored_settings(*stored).is_none(),
{
    match stored {
        StoredConfig::Present(_) => false,
        _ => true,
    }
}

/// A store that was never written reads as absent and asks for setup.
pub proof fn lemma_unwritten_store_needs_setup()
    ensures
        stored_settings(StoredConfig::Missing).is_none(),
{
}

} // verus!
