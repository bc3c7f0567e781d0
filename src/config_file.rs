//! The contents of the configuration file, as plain values.
use vstd::prelude::*;

verus! {

/// A whole configuration file; a missing section takes its default.
#[derive(Debug, Clone)]
pub struct Config {
    pub general: GeneralConfig,
    pub scripts: ScriptsConfig,
    pub lua_scripts: LuaScriptsConfig,
}

#[derive(Debug, Clone)]
pub struct GeneralConfig {
    pub quiet: bool,
    pub log_file: Option<String>,
}

/// Shell scripts per theme.
#[derive(Debug, Clone)]
pub struct ScriptsConfig {
    pub light: Vec<String>,
    pub dark: Vec<String>,
    pub any: Vec<String>,
}

/// Lua scripts per theme.
#[derive(Debug, Clone)]
pub struct LuaScriptsConfig {
    pub light: Vec<String>,
    pub dark: Vec<String>,
    pub any: Vec<String>,
}

impl Default for GeneralConfig {
    fn default() -> (r: Self)
        ensures
            !r.quiet,
            r.log_file is None,
    {
        GeneralConfig { quiet: false, log_file: None }
    }
}

impl Default for ScriptsConfig {
    fn default() -> (r: Self)
        ensures
            r.light@.len() == 0,
            r.dark@.len() == 0,
            r.any@.len() == 0,
    {
        ScriptsConfig { light: Vec::new(), dark: Vec::new(), any: Vec::new() }
    }
}

impl Default for LuaScriptsConfig {
    fn default() -> (r: Self)
        ensures
            r.light@.len() == 0,
            r.dark@.len() == 0,
            r.any@.len() == 0,
    {
        LuaScriptsConfig { light: Vec::new(), dark: Vec::new(), any: Vec::new() }
    }
}

impl Default for Config {
    fn default() -> (r: Self)
        ensures
            !r.general.quiet,
            r.general.log_file is None,
            r.scripts.light@.len() == 0,
            r.scripts.dark@.len() == 0,
            r.scripts.any@.len() == 0,
            r.lua_scripts.light@.len() == 0,
            r.lua_scripts.dark@.len() == 0,
            r.lua_scripts.any@.len() == 0,
    {
        Config {
            general: GeneralConfig::default(),
            scripts: ScriptsConfig::default(),
            lua_scripts: LuaScriptsConfig::default(),
        }
    }
}

impl Config {
    /// Whether some list of shell scripts is non-empty.
    pub fn has_scripts(&self) -> (r: bool)
        ensures
            r == (self.scripts.light@.len() > 0 || self.scripts.dark@.len() > 0
                || self.scripts.any@.len() > 0),
    {
        !self.scripts.light.is_empty() || !self.scripts.dark.is_empty()
            || !self.scripts.any.is_empty()
    }

    /// Whether some list of Lua scripts is non-empty.
    pub fn has_lua_scripts(&self) -> (r: bool)
        ensures
            r == (self.lua_scripts.light@.len() > 0 || self.lua_scripts.dark@.len() > 0
                || self.lua_scripts.any@.len() > 0),
    {
        !self.lua_scripts.light.is_empty() || !self.lua_scripts.dark.is_empty()
            || !self.lua_scripts.any.is_empty()
    }
}

} // verus!
