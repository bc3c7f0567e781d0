//! The consumer that runs Lua scripts, each in an interpreter of its own.
use vstd::prelude::*;
use crate::{Theme, theme_name, theme_upper_name};
use crate::handlers::{Action, ScriptLists, ThemeHandler, lua_runs, selected_scripts};

verus! {

/// A value bound in a Lua interpreter.
#[derive(Debug, Clone, PartialEq, Eq)]
pub enum LuaValue {
    Text(String),
    Flag(bool),
}

fn text_binding(name: &str, value: String) -> (r: (String, LuaValue))
    ensures
        r.0@ == name@,
        r.1 == LuaValue::Text(value),
{
    (String::from_str(name), LuaValue::Text(value))
}

fn flag_binding(name: &str, value: bool) -> (r: (String, LuaValue))
    ensures
        r.0@ == name@,
        r.1 == LuaValue::Flag(value),
{
    (String::from_str(name), LuaValue::Flag(value))
}

/// The globals that a Lua script run for `theme` sees: the theme's token as
/// `THEME`, its uppercase token as `THEME_UPPER`, and the flags `IS_DARK` and
/// `IS_LIGHT`.
pub fn theme_globals(theme: Theme) -> (r: Vec<(String, LuaValue)>)
    ensures
        r@.len() == 4,
        r@[0].0@ == "THEME"@,
        (r@[0].1 matches LuaValue::Text(t) && t@ == theme_name(theme)),
        r@[1].0@ == "THEME_UPPER"@,
        (r@[1].1 matches LuaValue::Text(t) && t@ == theme_upper_name(theme)),
        r@[2].0@ == "IS_DARK"@ && r@[2].1 == LuaValue::Flag(theme == Theme::Dark),
        r@[3].0@ == "IS_LIGHT"@ && r@[3].1 == LuaValue::Flag(theme == Theme::Light),
{
    let mut r: Vec<(String, LuaValue)> = Vec::new();
    r.push(text_binding("THEME", theme.name()));
    r.push(text_binding("THEME_UPPER", theme.upper_name()));
    r.push(flag_binding("IS_DARK", theme.is_dark()));
    r.push(flag_binding("IS_LIGHT", theme.is_light()));
    r
}

/// The fields of the `theme_switcher` module that describe `theme`: its token
/// as `current_theme`, and the flags `is_dark` and `is_light`.
pub fn theme_module_fields(theme: Theme) -> (r: Vec<(String, LuaValue)>)
    ensures
        r@.len() == 3,
        r@[0].0@ == "current_theme"@,
        (r@[0].1 matches LuaValue::Text(t) && t@ == theme_name(theme)),
        r@[1].0@ == "is_dark"@ && r@[1].1 == LuaValue::Flag(theme == Theme::Dark),
        r@[2].0@ == "is_light"@ && r@[2].1 == LuaValue::Flag(theme == Theme::Light),
{
    let mut r: Vec<(String, LuaValue)> = Vec::new();
    r.push(text_binding("current_theme", theme.name()));
    r.push(flag_binding("is_dark", theme.is_dark()));
    r.push(flag_binding("is_light", theme.is_light()));
    r
}

/// Appends one `RunLua` action per script to `out`.
fn push_lua_runs(out: &mut Vec<Action>, scripts: &Vec<String>, theme: Theme)
    ensures
        final(out)@ == old(out)@ + lua_runs(scripts@, theme),
{
    let ghost start = out@;
    let mut i: usize = 0;
    while i < scripts.len()
        invariant
            i <= scripts.len(),
            out@ == start + lua_runs(scripts@.take(i as int), theme),
        decreases scripts.len() - i,
    {
        out.push(Action::RunLua { script: scripts[i].clone(), theme });
        proof {
            assert(scripts@.take(i + 1) == scripts@.take(i as int).push(scripts@[i as int]));
        }
        i = i + 1;
        proof {
            assert(out@ =~= start + lua_runs(scripts@.take(i as int), theme));
        }
    }
    proof {
        assert(scripts@.take(i as int) == scripts@);
    }
}

/// The consumer that runs Lua scripts: those for the new theme, then those
/// for any change.
pub struct LuaHandler {
    light_scripts: Vec<String>,
    dark_scripts: Vec<String>,
    any_change_scripts: Vec<String>,
}

impl View for LuaHandler {
    type V = ScriptLists;

    closed spec fn view(&self) -> ScriptLists {
        ScriptLists {
            light: self.light_scripts@,
            dark: self.dark_scripts@,
            any: self.any_change_scripts@,
        }
    }
}

impl LuaHandler {
    pub fn new() -> (r: Self)
        ensures
            r@.light.len() == 0,
            r@.dark.len() == 0,
            r@.any.len() == 0,
    {
        LuaHandler {
            light_scripts: Vec::new(),
            dark_scripts: Vec::new(),
            any_change_scripts: Vec::new(),
        }
    }

    pub fn with_light_script(self, path: String) -> (r: Self)
        ensures
            r@ == (ScriptLists { light: self@.light.push(path), ..self@ }),
    {
        let mut s = self;
        s.light_scripts.push(path);
        s
    }

    pub fn with_dark_script(self, path: String) -> (r: Self)
        ensures
            r@ == (ScriptLists { dark: self@.dark.push(path), ..self@ }),
    {
        let mut s = self;
        s.dark_scripts.push(path);
        s
    }

    pub fn with_any_change_script(self, path: String) -> (r: Self)
        ensures
            r@ == (ScriptLists { any: self@.any.push(path), ..self@ }),
    {
        let mut s = self;
        s.any_change_scripts.push(path);
        s
    }

    pub fn with_light_scripts(self, paths: Vec<String>) -> (r: Self)
        ensures
            r@ == (ScriptLists { light: self@.light + paths@, ..self@ }),
    {
        let mut s = self;
        let mut p = paths;
        s.light_scripts.append(&mut p);
        s
    }

    pub fn with_dark_scripts(self, paths: Vec<String>) -> (r: Self)
        ensures
            r@ == (ScriptLists { dark: self@.dark + paths@, ..self@ }),
    {
        let mut s = self;
        let mut p = paths;
        s.dark_scripts.append(&mut p);
        s
    }

    pub fn with_any_change_scripts(self, paths: Vec<String>) -> (r: Self)
        ensures
            r@ == (ScriptLists { any: self@.any + paths@, ..self@ }),
    {
        let mut s = self;
        let mut p = paths;
        s.any_change_scripts.append(&mut p);
        s
    }

    /// True when some list holds a script.
    pub fn has_scripts(&self) -> (r: bool)
        ensures
            r == (self@.light.len() > 0 || self@.dark.len() > 0 || self@.any.len() > 0),
    {
        self.light_scripts.len() > 0 || self.dark_scripts.len() > 0
            || self.any_change_scripts.len() > 0
    }
}

impl Default for LuaHandler {
    fn default() -> (r: Self)
        ensures
            r@.light.len() == 0,
            r@.dark.len() == 0,
            r@.any.len() == 0,
    {
        LuaHandler::new()
    }
}

impl ThemeHandler for LuaHandler {
    open spec fn plan(&self, theme: Theme) -> Seq<Action> {
        lua_runs(selected_scripts(self@, theme), theme)
    }

    fn on_theme_change(&self, theme: Theme) -> (r: Vec<Action>) {
        let mut r: Vec<Action> = Vec::new();
        match theme {
            Theme::Light => push_lua_runs(&mut r, &self.light_scripts, theme),
            Theme::Dark => push_lua_runs(&mut r, &self.dark_scripts, theme),
        }
        push_lua_runs(&mut r, &self.any_change_scripts, theme);
        proof {
            let l = selected_scripts(self@, theme);
            assert(r@ =~= lua_runs(l, theme));
        }
        r
    }
}

} // verus!
