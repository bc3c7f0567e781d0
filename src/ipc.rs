//! Decisions of the local notification service: the consumer that feeds it,
//! the cell that remembers the latest theme, and the life of one connection.
use vstd::prelude::*;
use crate::{Theme, theme_line};
use crate::handlers::{Action, Consumer, ThemeHandler, consumers_plan, trace};

verus! {

/// The consumer that feeds the notification service: it first replaces the
/// shared current theme, then publishes the change to the subscribers.
pub struct IpcHandler;

impl IpcHandler {
    pub fn new() -> (r: Self) {
        IpcHandler
    }
}

impl ThemeHandler for IpcHandler {
    open spec fn plan(&self, theme: Theme) -> Seq<Action> {
        seq![Action::StoreCurrent(theme), Action::Publish(theme)]
    }

    fn on_theme_change(&self, theme: Theme) -> (r: Vec<Action>) {
        let mut r: Vec<Action> = Vec::new();
        r.push(Action::StoreCurrent(theme));
        r.push(Action::Publish(theme));
        r
    }
}

/// The shared current-theme cell: the latest theme observed, if any, so that
/// a client that connects between two changes learns the present one.
pub struct ThemeCell {
    current: Option<Theme>,
}

impl View for ThemeCell {
    type V = Option<Theme>;

    closed spec fn view(&self) -> Option<Theme> {
        self.current
    }
}

impl ThemeCell {
    /// A cell that holds no theme yet.
    pub fn new() -> (r: Self)
        ensures
            r@ == None::<Theme>,
    {
        ThemeCell { current: None }
    }

    /// Replaces the held theme by `theme`.
    pub fn set(&mut self, theme: Theme)
        ensures
            final(self)@ == Some(theme),
    {
        self.current = Some(theme);
    }

    pub fn get(&self) -> (r: Option<Theme>)
        ensures
            r == self@,
    {
        self.current
    }

    /// Carries out on the cell what an action asks of it.
    pub fn apply(&mut self, action: &Action)
        ensures
            final(self)@ == match *action {
                Action::StoreCurrent(t) => Some(t),
                _ => old(self)@,
            },
    {
        match action {
            Action::StoreCurrent(t) => self.current = Some(*t),
            _ => {},
        }
    }
}

/// What a cell holding `c` holds once `actions` are carried out in order.
pub open spec fn cell_after(c: Option<Theme>, actions: Seq<Action>) -> Option<Theme>
    decreases actions.len(),
{
    if actions.len() == 0 {
        c
    } else {
        match actions.last() {
            Action::StoreCurrent(t) => Some(t),
            _ => cell_after(c, actions.drop_last()),
        }
    }
}

/// The first message of a new connection: the line of the held theme, if
/// the cell holds one.
pub open spec fn greeting_of(current: Option<Theme>) -> Option<Seq<char>> {
    match current {
        Some(t) => Some(theme_line(t)),
        None => None,
    }
}

/// What one connection is told by its own subscriber cursor or by its peer.
#[derive(Debug, Clone, PartialEq, Eq)]
pub enum ConnectionEvent {
    /// The next value published on the channel.
    Published(Theme),
    /// The cursor fell behind and this many values were dropped for it.
    Lagged(u64),
    /// No publisher remains.
    ChannelClosed,
    /// A line read from the peer, with its line ending if it had one.
    Line(String),
    /// The peer closed its side: a read of zero bytes.
    PeerClosed,
    /// Reading from the peer failed.
    ReadFailed,
    /// Writing to the peer failed.
    WriteFailed,
}

/// What the host does for a connection after an event.
#[derive(Debug, Clone, PartialEq, Eq)]
pub enum ConnectionAction {
    /// Write this text to the peer, then wait for the next event.
    Send(String),
    /// Wait for the next event.
    Wait,
    /// Close the connection and release its cursor.
    Close,
}

/// Whether `c` is white space in Unicode's sense, as `char::is_whitespace`
/// has it.
pub open spec fn is_white(c: char) -> bool {
    let u = c as u32;
    (9 <= u <= 13) || u == 32 || u == 0x85 || u == 0xa0 || u == 0x1680 || (0x2000 <= u
        <= 0x200a) || u == 0x2028 || u == 0x2029 || u == 0x202f || u == 0x205f || u == 0x3000
}

pub open spec fn trim_start(s: Seq<char>) -> Seq<char>
    decreases s.len(),
{
    if s.len() > 0 && is_white(s[0]) {
        trim_start(s.drop_first())
    } else {
        s
    }
}

pub open spec fn trim_end(s: Seq<char>) -> Seq<char>
    decreases s.len(),
{
    if s.len() > 0 && is_white(s.last()) {
        trim_end(s.drop_last())
    } else {
        s
    }
}

/// `s` without white space at either end.
pub open spec fn trimmed(s: Seq<char>) -> Seq<char> {
    trim_end(trim_start(s))
}

/// Whether a line from a peer is the command that ends its connection.
pub open spec fn is_quit(line: Seq<char>) -> bool {
    trimmed(line) == seq!['q', 'u', 'i', 't']
}

/// Whether an event ends the connection.
pub open spec fn closes(ev: ConnectionEvent) -> bool {
    match ev {
        ConnectionEvent::Published(_) => false,
        ConnectionEvent::Lagged(_) => false,
        ConnectionEvent::Line(l) => is_quit(l@),
        _ => true,
    }
}

/// The text that an event has the connection write to its peer, if any.
pub open spec fn reply(ev: ConnectionEvent) -> Option<Seq<char>> {
    match ev {
        ConnectionEvent::Published(t) => Some(theme_line(t)),
        _ => None,
    }
}

/// Whether `a` is the action that the event asks for.
pub open spec fn answers(a: ConnectionAction, ev: ConnectionEvent) -> bool {
    match a {
        ConnectionAction::Send(text) => reply(ev) == Some(text@),
        ConnectionAction::Wait => !closes(ev) && reply(ev) is None,
        ConnectionAction::Close => closes(ev),
    }
}

fn is_white_char(c: char) -> (r: bool)
    ensures
        r == is_white(c),
{
    let u = c as u32;
    (9 <= u && u <= 13) || u == 32 || u == 0x85 || u == 0xa0 || u == 0x1680 || (0x2000 <= u && u
        <= 0x200a) || u == 0x2028 || u == 0x2029 || u == 0x202f || u == 0x205f || u == 0x3000
}

/// Whether `line`, trimmed of white space at both ends, reads `quit`.
pub fn is_quit_command(line: &str) -> (r: bool)
    ensures
        r == is_quit(line@),
{
    let n = line.unicode_len();
    let ghost s = line@;
    let mut a: usize = 0;
    proof {
        assert(s.subrange(0, n as int) =~= s);
    }
    while a < n && is_white_char(line.get_char(a))
        invariant
            a <= n,
            n == s.len(),
            s == line@,
            trim_start(s) == trim_start(s.subrange(a as int, n as int)),
        decreases n - a,
    {
        proof {
            let t = s.subrange(a as int, n as int);
            assert(t.drop_first() =~= s.subrange(a + 1, n as int));
        }
        a = a + 1;
    }
    proof {
        let t = s.subrange(a as int, n as int);
        if a < n {
            assert(t[0] == s[a as int]);
        }
        assert(trim_start(t) == t);
    }
    let mut b: usize = n;
    while b > a && is_white_char(line.get_char(b - 1))
        invariant
            a <= b <= n,
            n == s.len(),
            s == line@,
            trimmed(s) == trim_end(s.subrange(a as int, b as int)),
        decreases b,
    {
        proof {
            let t = s.subrange(a as int, b as int);
            assert(t.drop_last() =~= s.subrange(a as int, b - 1));
            assert(t.last() == s[b - 1]);
        }
        b = b - 1;
    }
    proof {
        let t = s.subrange(a as int, b as int);
        if b > a {
            assert(t.last() == s[b - 1]);
        }
        assert(trim_end(t) == t);
        assert(trimmed(s) == t);
        reveal_strlit("quit");
    }
    if b - a != 4 {
        proof {
            assert(trimmed(s).len() != 4);
        }
        return false;
    }
    let r = line.get_char(a) == 'q' && line.get_char(a + 1) == 'u' && line.get_char(a + 2)
        == 'i' && line.get_char(a + 3) == 't';
    proof {
        let t = s.subrange(a as int, b as int);
        if r {
            assert(t =~= seq!['q', 'u', 'i', 't']);
        } else {
            if t == seq!['q', 'u', 'i', 't'] {
                assert(t[0] == s[a as int]);
                assert(t[1] == s[a + 1]);
                assert(t[2] == s[a + 2]);
                assert(t[3] == s[a + 3]);
            }
        }
    }
    r
}

/// One client connection of the notification service.
///
/// A lagging cursor is resynchronised rather than dropped: the values it
/// missed are skipped and it goes on with the next one published.
pub struct Connection {
    open: bool,
}

impl View for Connection {
    type V = bool;

    /// Whether the connection is still open.
    closed spec fn view(&self) -> bool {
        self.open
    }
}

impl Connection {
    /// A connection just accepted, open.
    pub fn new() -> (r: Self)
        ensures
            r@,
    {
        Connection { open: true }
    }

    pub fn is_open(&self) -> (r: bool)
        ensures
            r == self@,
    {
        self.open
    }

    /// The first message to write to a new connection, given the shared
    /// current theme at the moment it was accepted.
    pub fn greeting(current: Option<Theme>) -> (r: Option<String>)
        ensures
            r matches Some(text) ==> greeting_of(current) == Some(text@),
            r is None ==> greeting_of(current) is None,
    {
        match current {
            Some(t) => Some(t.to_line()),
            None => None,
        }
    }

    /// Decides what an event means for an open connection: forward a
    /// published theme as its line, end on `quit`, on the peer's end, on a
    /// failed read or write or on the channel's end, and go on otherwise.
    pub fn handle(&mut self, event: ConnectionEvent) -> (r: ConnectionAction)
        requires
            old(self)@,
        ensures
            answers(r, event),
            final(self)@ == !closes(event),
    {
        match event {
            ConnectionEvent::Published(t) => ConnectionAction::Send(t.to_line()),
            ConnectionEvent::Lagged(_) => ConnectionAction::Wait,
            ConnectionEvent::Line(l) => {
                if is_quit_command(l.as_str()) {
                    self.open = false;
                    ConnectionAction::Close
                } else {
                    ConnectionAction::Wait
                }
            },
            _ => {
                self.open = false;
                ConnectionAction::Close
            },
        }
    }
}

proof fn lemma_cell_after_append(c: Option<Theme>, a: Seq<Action>, b: Seq<Action>)
    ensures
        cell_after(c, a + b) == cell_after(cell_after(c, a), b),
    decreases b.len(),
{
    if b.len() == 0 {
        assert(a + b =~= a);
    } else {
        lemma_cell_after_append(c, a, b.drop_last());
        assert((a + b).drop_last() =~= a + b.drop_last());
        assert((a + b).last() == b.last());
    }
}

proof fn lemma_cell_after_no_store(c: Option<Theme>, acts: Seq<Action>)
    requires
        forall|k: int| 0 <= k < acts.len() ==> !(acts[k] is StoreCurrent),
    ensures
        cell_after(c, acts) == c,
    decreases acts.len(),
{
    if acts.len() > 0 {
        lemma_cell_after_no_store(c, acts.drop_last());
    }
}

/// Whether some consumer of `cs` feeds the notification service.
pub open spec fn has_notifier(cs: Seq<Consumer>) -> bool {
    exists|i: int| 0 <= i < cs.len() && cs[i] is Ipc
}

proof fn lemma_cell_after_consumer(c: Option<Theme>, x: Consumer, t: Theme)
    ensures
        cell_after(c, x.plan(t)) == if x is Ipc {
            Some(t)
        } else {
            c
        },
{
    let p = x.plan(t);
    match x {
        Consumer::Ipc(_) => {
            assert(p.last() == Action::StoreCurrent(t) || p.last() == Action::Publish(t));
            assert(p.drop_last() =~= seq![Action::StoreCurrent(t)]);
            assert(p.drop_last().last() == Action::StoreCurrent(t));
            assert(cell_after(c, p.drop_last()) == Some(t));
            assert(p.last() == Action::Publish(t));
        },
        _ => {
            lemma_cell_after_no_store(c, p);
        },
    }
}

proof fn lemma_cell_after_round(c: Option<Theme>, cs: Seq<Consumer>, t: Theme)
    ensures
        cell_after(c, consumers_plan(cs, t)) == if has_notifier(cs) {
            Some(t)
        } else {
            c
        },
    decreases cs.len(),
{
    if cs.len() > 0 {
        let prev = cs.drop_last();
        lemma_cell_after_round(c, prev, t);
        lemma_cell_after_append(c, consumers_plan(prev, t), cs.last().plan(t));
        lemma_cell_after_consumer(cell_after(c, consumers_plan(prev, t)), cs.last(), t);
        if has_notifier(prev) {
            let i = choose|i: int| 0 <= i < prev.len() && prev[i] is Ipc;
            assert(cs[i] is Ipc);
        }
        if has_notifier(cs) && !(cs.last() is Ipc) {
            let i = choose|i: int| 0 <= i < cs.len() && cs[i] is Ipc;
            assert(prev[i] is Ipc);
        }
        if cs.last() is Ipc {
            assert(cs[cs.len() - 1] is Ipc);
        }
    }
}

/// Once the consumers' work for a non-empty sequence of changes has been
/// carried out on the shared cell, with a notification consumer among them,
/// a client that connects is greeted first with the line of the last change,
/// whatever the cell held before.
pub proof fn lemma_late_joiner_greeted_with_latest(
    cs: Seq<Consumer>,
    before: Option<Theme>,
    events: Seq<Theme>,
)
    requires
        events.len() > 0,
        has_notifier(cs),
    ensures
        greeting_of(cell_after(before, trace(cs, events))) == Some(theme_line(events.last())),
{
    let prev = events.drop_last();
    lemma_cell_after_append(before, trace(cs, prev), consumers_plan(cs, events.last()));
    lemma_cell_after_round(cell_after(before, trace(cs, prev)), cs, events.last());
}

/// The values published among `evs`, in order.
pub open spec fn published(evs: Seq<ConnectionEvent>) -> Seq<Theme>
    decreases evs.len(),
{
    if evs.len() == 0 {
        Seq::empty()
    } else {
        match evs.last() {
            ConnectionEvent::Published(t) => published(evs.drop_last()).push(t),
            _ => published(evs.drop_last()),
        }
    }
}

/// The texts that a connection writes to its peer while it meets `evs`.
pub open spec fn replies(evs: Seq<ConnectionEvent>) -> Seq<Seq<char>>
    decreases evs.len(),
{
    if evs.len() == 0 {
        Seq::empty()
    } else {
        match reply(evs.last()) {
            Some(text) => replies(evs.drop_last()).push(text),
            None => replies(evs.drop_last()),
        }
    }
}

proof fn lemma_replies_are_published_lines(evs: Seq<ConnectionEvent>)
    ensures
        replies(evs) == published(evs).map_values(|t: Theme| theme_line(t)),
    decreases evs.len(),
{
    if evs.len() > 0 {
        lemma_replies_are_published_lines(evs.drop_last());
        let p = published(evs.drop_last());
        match evs.last() {
            ConnectionEvent::Published(t) => {
                assert(p.push(t).map_values(|t: Theme| theme_line(t)) =~= p.map_values(
                    |t: Theme| theme_line(t),
                ).push(theme_line(t)));
            },
            _ => {},
        }
    }
}

/// A connection that meets no closing event writes the line of every value
/// published to it, once each and in publication order,
/// whatever lines its peer sends and however far its cursor lags; so two such
/// connections handed the same published values write the same lines.
pub proof fn lemma_connections_forward_in_order(a: Seq<ConnectionEvent>, b: Seq<ConnectionEvent>)
    requires
        forall|k: int| 0 <= k < a.len() ==> !closes(#[trigger] a[k]),
        forall|k: int| 0 <= k < b.len() ==> !closes(#[trigger] b[k]),
        published(a) == published(b),
    ensures
        replies(a) == published(a).map_values(|t: Theme| theme_line(t)),
        replies(a) == replies(b),
{
    lemma_replies_are_published_lines(a);
    lemma_replies_are_published_lines(b);
}

/// `name` appended to the directory `dir` as a path component: with a `/`
/// between them unless `dir` is empty or already ends with one.
pub open spec fn join_path(dir: Seq<char>, name: Seq<char>) -> Seq<char> {
    if dir.len() == 0 || dir.last() == '/' {
        dir + name
    } else {
        dir + seq!['/'] + name
    }
}

/// Appends `name` to `dir` as a path component.
pub fn join(dir: &str, name: &str) -> (r: String)
    ensures
        r@ == join_path(dir@, name@),
{
    let n = dir.unicode_len();
    let mut r = String::from_str(dir);
    if n > 0 && dir.get_char(n - 1) != '/' {
        proof {
            reveal_strlit("/");
        }
        r.append("/");
    }
    r.append(name);
    r
}

/// The directory that holds the socket: the runtime directory if there is
/// one, else `.local/run` under the home directory, else the temporary
/// directory.
pub open spec fn socket_dir_of(
    runtime: Option<Seq<char>>,
    home: Option<Seq<char>>,
    temp: Seq<char>,
) -> Seq<char> {
    match runtime {
        Some(d) => d,
        None => match home {
            Some(h) => join_path(h, ".local/run"@),
            None => temp,
        },
    }
}

pub open spec fn opt_view(o: Option<String>) -> Option<Seq<char>> {
    match o {
        Some(s) => Some(s@),
        None => None,
    }
}

/// Picks the directory of the socket from what the environment offers.
pub fn socket_dir(runtime_dir: Option<String>, home_dir: Option<String>, temp_dir: String) -> (r:
    String)
    ensures
        r@ == socket_dir_of(opt_view(runtime_dir), opt_view(home_dir), temp_dir@),
{
    match runtime_dir {
        Some(d) => d,
        None => match home_dir {
            Some(h) => join(h.as_str(), ".local/run"),
            None => temp_dir,
        },
    }
}

/// The file name of the socket.
pub open spec fn socket_file_name() -> Seq<char> {
    "theme-switcher.sock"@
}

/// The path of the socket in `dir`.
pub fn socket_path(dir: &str) -> (r: String)
    ensures
        r@ == join_path(dir@, socket_file_name()),
{
    join(dir, "theme-switcher.sock")
}

/// One step of bringing the notification service up.
#[derive(Debug, Clone, PartialEq, Eq)]
pub enum SetupStep {
    /// Create the directory and its parents, if missing.
    CreateDir(String),
    /// Remove a file left at the path by an earlier run, if any; its absence
    /// is no failure.
    RemoveStale(String),
    /// Bind the listening socket at the path.
    Bind(String),
    /// Let only the owning user read and write the socket.
    RestrictToOwner(String),
}

/// The start-up of the service in `dir` at `path`: the directory is made,
/// a socket file left by an unclean shutdown is removed before the new one is
/// bound, and the bound socket is then restricted to its owner. A failed
/// step other than the removal stops the start-up.
pub fn setup_steps(dir: String, path: String) -> (r: Vec<SetupStep>)
    ensures
        r@ == seq![
            SetupStep::CreateDir(dir),
            SetupStep::RemoveStale(path),
            SetupStep::Bind(path),
            SetupStep::RestrictToOwner(path),
        ],
{
    let mut r: Vec<SetupStep> = Vec::new();
    r.push(SetupStep::CreateDir(dir));
    r.push(SetupStep::RemoveStale(path.clone()));
    r.push(SetupStep::Bind(path.clone()));
    r.push(SetupStep::RestrictToOwner(path));
    proof {
        assert(r@ =~= seq![
            SetupStep::CreateDir(dir),
            SetupStep::RemoveStale(path),
            SetupStep::Bind(path),
            SetupStep::RestrictToOwner(path),
        ]);
    }
    r
}

} // verus!
