//! The options given on the command line, as plain values.
use vstd::prelude::*;

verus! {

/// The command-line options: script paths per theme for shell and Lua
/// scripts, a configuration file, quiet mode and the notification service.
#[derive(Debug, Clone, PartialEq, Eq)]
pub struct Args {
    pub light_script: Option<String>,
    pub dark_script: Option<String>,
    pub any_script: Option<String>,
    pub lua_light: Option<String>,
    pub lua_dark: Option<String>,
    pub lua_any: Option<String>,
    pub config: Option<String>,
    pub quiet: bool,
    pub ipc: bool,
}

impl Args {
    /// Whether a shell script was named.
    pub fn has_scripts(&self) -> (r: bool)
        ensures
            r == (self.light_script is Some || self.dark_script is Some
                || self.any_script is Some),
    {
        self.light_script.is_some() || self.dark_script.is_some() || self.any_script.is_some()
    }

    /// Whether a Lua script was named.
    pub fn has_lua_scripts(&self) -> (r: bool)
        ensures
            r == (self.lua_light is Some || self.lua_dark is Some || self.lua_any is Some),
    {
        self.lua_light.is_some() || self.lua_dark.is_some() || self.lua_any.is_some()
    }
}

} // verus!
