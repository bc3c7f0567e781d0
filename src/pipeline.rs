//! Assembly of the consumer set from the command line and the configuration
//! file.
use vstd::prelude::*;
use crate::cli::Args;
use crate::config_file::{Config, LuaScriptsConfig, ScriptsConfig};
use crate::handlers::{CompositeThemeHandler, Consumer, LoggingThemeHandler, ScriptHandler, ScriptLists};
use crate::ipc::IpcHandler;
use crate::lua_handler::LuaHandler;

verus! {

/// A consumer as the assembly sees it: its kind, and its script lists.
pub enum ConsumerModel {
    Logging,
    Script(ScriptLists),
    Lua(ScriptLists),
    Ipc,
}

pub open spec fn model_of(c: Consumer) -> ConsumerModel {
    match c {
        Consumer::Logging(_) => ConsumerModel::Logging,
        Consumer::Script(h) => ConsumerModel::Script(h@),
        Consumer::Lua(h) => ConsumerModel::Lua(h@),
        Consumer::Ipc(_) => ConsumerModel::Ipc,
    }
}

pub open spec fn models(cs: Seq<Consumer>) -> Seq<ConsumerModel> {
    cs.map_values(|c: Consumer| model_of(c))
}

pub open spec fn opt_seq(o: Option<String>) -> Seq<String> {
    match o {
        Some(s) => seq![s],
        None => Seq::empty(),
    }
}

pub open spec fn no_scripts() -> ScriptLists {
    ScriptLists { light: Seq::empty(), dark: Seq::empty(), any: Seq::empty() }
}

/// Quiet when the command line or the configuration asks for it.
pub open spec fn quiet_of(args: Args, config: Option<Config>) -> bool {
    args.quiet || (config matches Some(c) && c.general.quiet)
}

/// The shell scripts: those of the command line, then those of the
/// configuration, per list.
pub open spec fn shell_lists(args: Args, config: Option<Config>) -> ScriptLists {
    let c = match config {
        Some(c) => ScriptLists { light: c.scripts.light@, dark: c.scripts.dark@, any: c.scripts.any@ },
        None => no_scripts(),
    };
    ScriptLists {
        light: opt_seq(args.light_script) + c.light,
        dark: opt_seq(args.dark_script) + c.dark,
        any: opt_seq(args.any_script) + c.any,
    }
}

/// The Lua scripts: those of the command line, then those of the
/// configuration, per list.
pub open spec fn lua_lists(args: Args, config: Option<Config>) -> ScriptLists {
    let c = match config {
        Some(c) => ScriptLists {
            light: c.lua_scripts.light@,
            dark: c.lua_scripts.dark@,
            any: c.lua_scripts.any@,
        },
        None => no_scripts(),
    };
    ScriptLists {
        light: opt_seq(args.lua_light) + c.light,
        dark: opt_seq(args.lua_dark) + c.dark,
        any: opt_seq(args.lua_any) + c.any,
    }
}

pub open spec fn has_any(l: ScriptLists) -> bool {
    l.light.len() > 0 || l.dark.len() > 0 || l.any.len() > 0
}

/// The consumer set, in registration order: reporting unless quiet, the
/// notification service if asked for, shell scripts if any were given, Lua
/// scripts if any were given.
pub open spec fn expected_consumers(args: Args, config: Option<Config>) -> Seq<ConsumerModel> {
    let shell = shell_lists(args, config);
    let lua = lua_lists(args, config);
    (if quiet_of(args, config) { Seq::empty() } else { seq![ConsumerModel::Logging] })
        + (if args.ipc { seq![ConsumerModel::Ipc] } else { Seq::empty() })
        + (if has_any(shell) { seq![ConsumerModel::Script(shell)] } else { Seq::empty() })
        + (if has_any(lua) { seq![ConsumerModel::Lua(lua)] } else { Seq::empty() })
}

/// Whether output is quiet: the command line's flag, or the configuration's.
pub fn quiet_setting(args: &Args, config: &Option<Config>) -> (r: bool)
    ensures
        r == quiet_of(*args, *config),
{
    args.quiet || match config {
        Some(c) => c.general.quiet,
        None => false,
    }
}

pub open spec fn or_empty(v: Option<Vec<String>>) -> Seq<String> {
    match v {
        Some(v) => v@,
        None => Seq::empty(),
    }
}

/// The script given on the command line, if any, then those of the
/// configuration, if any.
fn gather(cli: Option<String>, configured: Option<Vec<String>>) -> (r: Vec<String>)
    ensures
        r@ == opt_seq(cli) + or_empty(configured),
{
    let mut r: Vec<String> = Vec::new();
    if let Some(p) = cli {
        r.push(p);
    }
    if let Some(mut v) = configured {
        r.append(&mut v);
    }
    proof {
        assert(r@ =~= opt_seq(cli) + or_empty(configured));
    }
    r
}

/// Builds the dispatcher for the given command line and configuration.
pub fn build_dispatcher(args: Args, config: Option<Config>) -> (r: CompositeThemeHandler)
    ensures
        models(r@) == expected_consumers(args, config),
{
    let ghost a0 = args;
    let ghost c0 = config;
    let ghost shell_l = shell_lists(a0, c0);
    let ghost lua_l = lua_lists(a0, c0);
    let quiet = quiet_setting(&args, &config);
    let mut composite = CompositeThemeHandler::new();
    if !quiet {
        composite.add_handler(Consumer::Logging(LoggingThemeHandler));
    }
    let ghost after_log = models(composite@);
    if args.ipc {
        composite.add_handler(Consumer::Ipc(IpcHandler::new()));
    }
    let ghost after_ipc = models(composite@);
    proof {
        assert(after_ipc =~= (if quiet_of(a0, c0) { Seq::empty() } else { seq![ConsumerModel::Logging] })
            + (if a0.ipc { seq![ConsumerModel::Ipc] } else { Seq::empty() }));
    }
    let (sl, sd, sa, ll, ld, la): (
        Option<Vec<String>>,
        Option<Vec<String>>,
        Option<Vec<String>>,
        Option<Vec<String>>,
        Option<Vec<String>>,
        Option<Vec<String>>,
    ) = match config {
        Some(c) => (
            Some(c.scripts.light),
            Some(c.scripts.dark),
            Some(c.scripts.any),
            Some(c.lua_scripts.light),
            Some(c.lua_scripts.dark),
            Some(c.lua_scripts.any),
        ),
        None => (None, None, None, None, None, None),
    };
    let Args { light_script, dark_script, any_script, lua_light, lua_dark, lua_any, .. } = args;

    let shell = ScriptHandler::new();
    let shell = shell.with_light_scripts(gather(light_script, sl));
    let shell = shell.with_dark_scripts(gather(dark_script, sd));
    let shell = shell.with_any_change_scripts(gather(any_script, sa));
    proof {
        assert(shell@.light =~= shell_l.light);
        assert(shell@.dark =~= shell_l.dark);
        assert(shell@.any =~= shell_l.any);
    }
    if shell.has_scripts() {
        composite.add_handler(Consumer::Script(shell));
    }
    let ghost after_shell = models(composite@);
    proof {
        assert(after_shell =~= after_ipc + (if has_any(shell_l) { seq![ConsumerModel::Script(shell_l)] } else { Seq::empty() }));
    }

    let lua = LuaHandler::new();
    let lua = lua.with_light_scripts(gather(lua_light, ll));
    let lua = lua.with_dark_scripts(gather(lua_dark, ld));
    let lua = lua.with_any_change_scripts(gather(lua_any, la));
    proof {
        assert(lua@.light =~= lua_l.light);
        assert(lua@.dark =~= lua_l.dark);
        assert(lua@.any =~= lua_l.any);
    }
    if lua.has_scripts() {
        composite.add_handler(Consumer::Lua(lua));
    }
    proof {
        assert(models(composite@) =~= after_shell + (if has_any(lua_l) { seq![ConsumerModel::Lua(lua_l)] } else { Seq::empty() }));
    }
    composite
}

} // verus!
