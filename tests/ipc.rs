use theme_switcher::handlers::Action;
use theme_switcher::ipc::{
    is_quit_command, join, setup_steps, socket_dir, socket_path, Connection, ConnectionAction,
    ConnectionEvent, SetupStep, ThemeCell,
};
use theme_switcher::Theme;

fn send(s: &str) -> ConnectionAction {
    ConnectionAction::Send(s.to_string())
}

#[test]
fn late_joiner_receives_current_theme_first() {
    let mut cell = ThemeCell::new();
    assert_eq!(cell.get(), None);
    assert_eq!(Connection::greeting(cell.get()), None);
    cell.apply(&Action::StoreCurrent(Theme::Dark));
    cell.apply(&Action::Publish(Theme::Dark));
    assert_eq!(cell.get(), Some(Theme::Dark));
    assert_eq!(Connection::greeting(cell.get()), Some("dark\n".to_string()));
    cell.set(Theme::Light);
    assert_eq!(Connection::greeting(cell.get()), Some("light\n".to_string()));
    cell.apply(&Action::Announce(Theme::Dark));
    assert_eq!(cell.get(), Some(Theme::Light));
}

#[test]
fn published_theme_is_forwarded_as_line() {
    let mut c = Connection::new();
    assert_eq!(c.handle(ConnectionEvent::Published(Theme::Light)), send("light\n"));
    assert_eq!(c.handle(ConnectionEvent::Published(Theme::Dark)), send("dark\n"));
    assert!(c.is_open());
}

#[test]
fn two_clients_receive_same_lines_in_order() {
    let mut fast = Connection::new();
    let mut slow = Connection::new();
    let mut fast_out = Vec::new();
    let mut slow_out = Vec::new();
    let published = [Theme::Dark, Theme::Light, Theme::Light, Theme::Dark];
    for t in published {
        if let ConnectionAction::Send(s) = fast.handle(ConnectionEvent::Published(t)) {
            fast_out.push(s);
        }
    }
    for (i, t) in published.iter().enumerate() {
        if i % 2 == 0 {
            assert_eq!(slow.handle(ConnectionEvent::Line("hello\n".to_string())), ConnectionAction::Wait);
        }
        if let ConnectionAction::Send(s) = slow.handle(ConnectionEvent::Published(*t)) {
            slow_out.push(s);
        }
    }
    assert_eq!(fast_out, vec!["dark\n", "light\n", "light\n", "dark\n"]);
    assert_eq!(fast_out, slow_out);
}

#[test]
fn lagging_client_resumes_and_others_go_on() {
    let mut lagging = Connection::new();
    let mut other = Connection::new();
    for i in 0..20 {
        let t = if i % 2 == 0 { Theme::Dark } else { Theme::Light };
        assert!(matches!(other.handle(ConnectionEvent::Published(t)), ConnectionAction::Send(_)));
    }
    assert_eq!(lagging.handle(ConnectionEvent::Lagged(4)), ConnectionAction::Wait);
    assert!(lagging.is_open());
    assert_eq!(lagging.handle(ConnectionEvent::Published(Theme::Light)), send("light\n"));
    assert_eq!(other.handle(ConnectionEvent::Published(Theme::Light)), send("light\n"));
}

#[test]
fn quit_closes_only_that_connection() {
    let mut a = Connection::new();
    let mut b = Connection::new();
    assert_eq!(a.handle(ConnectionEvent::Line("quit\n".to_string())), ConnectionAction::Close);
    assert!(!a.is_open());
    assert!(b.is_open());
    assert_eq!(b.handle(ConnectionEvent::Published(Theme::Dark)), send("dark\n"));
}

#[test]
fn terminal_events_close() {
    for ev in [
        ConnectionEvent::PeerClosed,
        ConnectionEvent::ReadFailed,
        ConnectionEvent::WriteFailed,
        ConnectionEvent::ChannelClosed,
    ] {
        let mut c = Connection::new();
        assert_eq!(c.handle(ev), ConnectionAction::Close);
        assert!(!c.is_open());
    }
    let mut c = Connection::new();
    assert_eq!(c.handle(ConnectionEvent::Line("status\n".to_string())), ConnectionAction::Wait);
    assert!(c.is_open());
}

#[test]
fn quit_command_is_trimmed() {
    assert!(is_quit_command("quit"));
    assert!(is_quit_command("quit\n"));
    assert!(is_quit_command("\t quit \r\n"));
    assert!(is_quit_command("\u{3000}quit\u{a0}"));
    assert!(!is_quit_command("qu it"));
    assert!(!is_quit_command("QUIT"));
    assert!(!is_quit_command("quitx\n"));
    assert!(!is_quit_command(""));
    assert!(!is_quit_command("   \n"));
    assert!(!is_quit_command("qui"));
}

#[test]
fn socket_directory_fallbacks() {
    assert_eq!(
        socket_dir(Some("/run/user/1000".to_string()), Some("/home/u".to_string()), "/tmp".to_string()),
        "/run/user/1000"
    );
    assert_eq!(socket_dir(None, Some("/home/u".to_string()), "/tmp".to_string()), "/home/u/.local/run");
    assert_eq!(socket_dir(None, Some("/home/u/".to_string()), "/tmp".to_string()), "/home/u/.local/run");
    assert_eq!(socket_dir(None, None, "/tmp".to_string()), "/tmp");
}

#[test]
fn socket_path_joins_file_name() {
    assert_eq!(socket_path("/run/user/1000"), "/run/user/1000/theme-switcher.sock");
    assert_eq!(socket_path("/tmp/"), "/tmp/theme-switcher.sock");
    assert_eq!(socket_path(""), "theme-switcher.sock");
    assert_eq!(join("a", "b"), "a/b");
}

#[test]
fn stale_socket_is_removed_before_bind() {
    let steps = setup_steps("/tmp".to_string(), "/tmp/theme-switcher.sock".to_string());
    let p = "/tmp/theme-switcher.sock".to_string();
    assert_eq!(
        steps,
        vec![
            SetupStep::CreateDir("/tmp".to_string()),
            SetupStep::RemoveStale(p.clone()),
            SetupStep::Bind(p.clone()),
            SetupStep::RestrictToOwner(p),
        ]
    );
}
