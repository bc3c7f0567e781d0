use theme_switcher::error::ThemeSwitcherError;
use theme_switcher::handlers::{
    script_env, Action, CompositeThemeHandler, Consumer, Invocation, LoggingThemeHandler,
    ScriptHandler, ThemeHandler,
};
use theme_switcher::ipc::IpcHandler;
use theme_switcher::lua_handler::{theme_globals, theme_module_fields, LuaHandler, LuaValue};
use theme_switcher::Theme;

fn run(script: &str, theme: Theme) -> Action {
    Action::RunScript { script: script.to_string(), theme }
}

fn lua(script: &str, theme: Theme) -> Action {
    Action::RunLua { script: script.to_string(), theme }
}

fn abc_scripts() -> ScriptHandler {
    ScriptHandler::new()
        .with_light_script("a.sh".to_string())
        .with_dark_script("b.sh".to_string())
        .with_any_change_script("c.sh".to_string())
}

#[test]
fn theme_tokens() {
    assert_eq!(Theme::Light.name(), "light");
    assert_eq!(Theme::Dark.name(), "dark");
    assert_eq!(Theme::Light.upper_name(), "LIGHT");
    assert_eq!(Theme::Dark.upper_name(), "DARK");
    assert_eq!(Theme::Dark.to_line(), "dark\n");
    assert_eq!(Theme::Light.to_line(), "light\n");
    assert!(Theme::Dark.is_dark() && !Theme::Dark.is_light());
    assert!(Theme::Light.is_light() && !Theme::Light.is_dark());
}

#[test]
fn error_messages() {
    let e = ThemeSwitcherError::MonitorError("no observer".to_string());
    assert_eq!(e.message(), "Monitor error: no observer");
    assert_eq!(
        ThemeSwitcherError::unsupported_platform().message(),
        "Platform error: This platform is not currently supported"
    );
}

#[test]
fn script_consumer_light_runs_light_then_any() {
    let h = abc_scripts();
    assert_eq!(h.on_theme_change(Theme::Light), vec![run("a.sh", Theme::Light), run("c.sh", Theme::Light)]);
    let env = script_env(Theme::Light);
    assert_eq!(
        env,
        vec![
            ("THEME_SWITCHER_THEME".to_string(), "light".to_string()),
            ("THEME_SWITCHER_THEME_UPPER".to_string(), "LIGHT".to_string()),
        ]
    );
}

#[test]
fn script_consumer_dark_runs_dark_then_any() {
    let h = abc_scripts();
    assert_eq!(h.on_theme_change(Theme::Dark), vec![run("b.sh", Theme::Dark), run("c.sh", Theme::Dark)]);
    let env = script_env(Theme::Dark);
    assert_eq!(env[0].1, "dark");
    assert_eq!(env[1].1, "DARK");
}

#[test]
fn script_lists_keep_order() {
    let h = ScriptHandler::new()
        .with_light_script("1".to_string())
        .with_light_scripts(vec!["2".to_string(), "3".to_string()])
        .with_dark_scripts(vec![])
        .with_any_change_scripts(vec!["4".to_string()]);
    assert!(h.has_scripts());
    assert_eq!(
        h.on_theme_change(Theme::Light),
        vec![run("1", Theme::Light), run("2", Theme::Light), run("3", Theme::Light), run("4", Theme::Light)]
    );
    assert_eq!(h.on_theme_change(Theme::Dark), vec![run("4", Theme::Dark)]);
    assert!(!ScriptHandler::new().has_scripts());
    assert!(ScriptHandler::new().on_theme_change(Theme::Dark).is_empty());
}

#[test]
fn lua_consumer_selects_like_script_consumer() {
    let h = LuaHandler::new()
        .with_light_scripts(vec!["l.lua".to_string()])
        .with_dark_script("d.lua".to_string())
        .with_any_change_script("x.lua".to_string())
        .with_dark_scripts(vec!["d2.lua".to_string()]);
    assert_eq!(h.on_theme_change(Theme::Light), vec![lua("l.lua", Theme::Light), lua("x.lua", Theme::Light)]);
    assert_eq!(
        h.on_theme_change(Theme::Dark),
        vec![lua("d.lua", Theme::Dark), lua("d2.lua", Theme::Dark), lua("x.lua", Theme::Dark)]
    );
    let e = LuaHandler::new().with_any_change_scripts(vec!["only.lua".to_string()]);
    assert!(e.has_scripts());
}

#[test]
fn logging_and_ipc_plans() {
    assert_eq!(LoggingThemeHandler.on_theme_change(Theme::Dark), vec![Action::Announce(Theme::Dark)]);
    assert_eq!(
        IpcHandler::new().on_theme_change(Theme::Light),
        vec![Action::StoreCurrent(Theme::Light), Action::Publish(Theme::Light)]
    );
}

fn three_consumers() -> CompositeThemeHandler {
    let mut c = CompositeThemeHandler::new();
    c.add_handler(Consumer::Logging(LoggingThemeHandler));
    c.add_handler(Consumer::Ipc(IpcHandler::new()));
    c.add_handler(Consumer::Script(abc_scripts()));
    c
}

#[test]
fn composite_concatenates_plans_in_registration_order() {
    let c = three_consumers();
    assert_eq!(c.len(), 3);
    assert_eq!(
        c.on_theme_change(Theme::Dark),
        vec![
            Action::Announce(Theme::Dark),
            Action::StoreCurrent(Theme::Dark),
            Action::Publish(Theme::Dark),
            run("b.sh", Theme::Dark),
            run("c.sh", Theme::Dark),
        ]
    );
    assert!(CompositeThemeHandler::new().on_theme_change(Theme::Light).is_empty());
}

#[test]
fn every_consumer_observes_every_event_in_order() {
    let c = three_consumers();
    let events = [Theme::Dark, Theme::Dark, Theme::Light, Theme::Dark];
    let mut seen: Vec<Vec<Theme>> = vec![Vec::new(); c.len()];
    for e in events {
        for inv in c.dispatch_order(e) {
            seen[inv.consumer].push(inv.theme);
        }
    }
    for s in seen {
        assert_eq!(s, events.to_vec());
    }
}

#[test]
fn failing_consumer_does_not_stop_others() {
    // Consumer 1 is taken to fail on the first change: the hand-overs of
    // both changes still reach every consumer.
    let c = three_consumers();
    let mut handed: Vec<Invocation> = Vec::new();
    for e in [Theme::Light, Theme::Dark] {
        handed.extend(c.dispatch_order(e));
    }
    assert_eq!(
        handed,
        vec![
            Invocation { consumer: 0, theme: Theme::Light },
            Invocation { consumer: 1, theme: Theme::Light },
            Invocation { consumer: 2, theme: Theme::Light },
            Invocation { consumer: 0, theme: Theme::Dark },
            Invocation { consumer: 1, theme: Theme::Dark },
            Invocation { consumer: 2, theme: Theme::Dark },
        ]
    );
    assert!(matches!(c.handler(2), Consumer::Script(_)));
    assert!(matches!(c.handler(1), Consumer::Ipc(_)));
}

#[test]
fn lua_bindings_carry_the_theme() {
    let text = |s: &str| LuaValue::Text(s.to_string());
    assert_eq!(
        theme_globals(Theme::Dark),
        vec![
            ("THEME".to_string(), text("dark")),
            ("THEME_UPPER".to_string(), text("DARK")),
            ("IS_DARK".to_string(), LuaValue::Flag(true)),
            ("IS_LIGHT".to_string(), LuaValue::Flag(false)),
        ]
    );
    assert_eq!(
        theme_module_fields(Theme::Light),
        vec![
            ("current_theme".to_string(), text("light")),
            ("is_dark".to_string(), LuaValue::Flag(false)),
            ("is_light".to_string(), LuaValue::Flag(true)),
        ]
    );
}
