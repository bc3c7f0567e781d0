//! Consumers of theme changes and the dispatcher that fans each change out
//! to them.
//!
//! A consumer does not perform its work itself: for each change it yields the
//! ordered list of [`Action`]s to perform, which the host carries out one by
//! one, reporting a failed action and going on with the next.
use vstd::prelude::*;
use crate::{Theme, theme_name, theme_upper_name};
use crate::ipc::IpcHandler;
use crate::lua_handler::LuaHandler;

verus! {

/// One unit of work that a consumer asks for in reaction to a change.
#[derive(Debug, Clone, PartialEq, Eq)]
pub enum Action {
    /// Report the change on the informational channel.
    Announce(Theme),
    /// Run `script` through `sh -c` in a new process whose environment holds
    /// the theme's tokens.
    RunScript { script: String, theme: Theme },
    /// Run the Lua file `script` in a fresh interpreter with the theme bound.
    RunLua { script: String, theme: Theme },
    /// Replace the shared current theme.
    StoreCurrent(Theme),
    /// Publish the theme to every live subscriber.
    Publish(Theme),
}

/// The three ordered lists of scripts of a script-running consumer.
pub struct ScriptLists {
    pub light: Seq<String>,
    pub dark: Seq<String>,
    pub any: Seq<String>,
}

/// One `RunScript` action per script, in list order.
pub open spec fn shell_runs(scripts: Seq<String>, theme: Theme) -> Seq<Action> {
    scripts.map_values(|s: String| Action::RunScript { script: s, theme: theme })
}

/// One `RunLua` action per script, in list order.
pub open spec fn lua_runs(scripts: Seq<String>, theme: Theme) -> Seq<Action> {
    scripts.map_values(|s: String| Action::RunLua { script: s, theme: theme })
}

/// The scripts that a change to `theme` selects: first those of the matching
/// list, then those for any change.
pub open spec fn selected_scripts(lists: ScriptLists, theme: Theme) -> Seq<String> {
    match theme {
        Theme::Light => lists.light + lists.any,
        Theme::Dark => lists.dark + lists.any,
    }
}

/// A reactor to theme changes.
pub trait ThemeHandler {
    /// The work that a change to `theme` asks of this handler, in order.
    spec fn plan(&self, theme: Theme) -> Seq<Action>;

    fn on_theme_change(&self, theme: Theme) -> (r: Vec<Action>)
        ensures
            r@ == self.plan(theme),
    ;
}

/// The consumer that reports each change.
pub struct LoggingThemeHandler;

impl ThemeHandler for LoggingThemeHandler {
    open spec fn plan(&self, theme: Theme) -> Seq<Action> {
        seq![Action::Announce(theme)]
    }

    fn on_theme_change(&self, theme: Theme) -> (r: Vec<Action>) {
        let mut r: Vec<Action> = Vec::new();
        r.push(Action::Announce(theme));
        r
    }
}

/// The environment of a script run for `theme`: the theme's token under
/// `THEME_SWITCHER_THEME` and its uppercase token under
/// `THEME_SWITCHER_THEME_UPPER`.
pub fn script_env(theme: Theme) -> (r: Vec<(String, String)>)
    ensures
        r@.len() == 2,
        r@[0].0@ == "THEME_SWITCHER_THEME"@,
        r@[0].1@ == theme_name(theme),
        r@[1].0@ == "THEME_SWITCHER_THEME_UPPER"@,
        r@[1].1@ == theme_upper_name(theme),
{
    let mut r: Vec<(String, String)> = Vec::new();
    r.push((String::from_str("THEME_SWITCHER_THEME"), theme.name()));
    r.push((String::from_str("THEME_SWITCHER_THEME_UPPER"), theme.upper_name()));
    r
}

/// Appends one `RunScript` action per script to `out`.
fn push_shell_runs(out: &mut Vec<Action>, scripts: &Vec<String>, theme: Theme)
    ensures
        final(out)@ == old(out)@ + shell_runs(scripts@, theme),
{
    let ghost start = out@;
    let mut i: usize = 0;
    while i < scripts.len()
        invariant
            i <= scripts.len(),
            out@ == start + shell_runs(scripts@.take(i as int), theme),
        decreases scripts.len() - i,
    {
        out.push(Action::RunScript { script: scripts[i].clone(), theme });
        proof {
            assert(scripts@.take(i + 1) == scripts@.take(i as int).push(scripts@[i as int]));
        }
        i = i + 1;
        proof {
            assert(out@ =~= start + shell_runs(scripts@.take(i as int), theme));
        }
    }
    proof {
        assert(scripts@.take(i as int) == scripts@);
    }
}

/// The consumer that runs shell scripts: those for the new theme, then those
/// for any change.
pub struct ScriptHandler {
    light_scripts: Vec<String>,
    dark_scripts: Vec<String>,
    any_change_scripts: Vec<String>,
}

impl View for ScriptHandler {
    type V = ScriptLists;

    closed spec fn view(&self) -> ScriptLists {
        ScriptLists {
            light: self.light_scripts@,
            dark: self.dark_scripts@,
            any: self.any_change_scripts@,
        }
    }
}

impl ScriptHandler {
    pub fn new() -> (r: Self)
        ensures
            r@.light.len() == 0,
            r@.dark.len() == 0,
            r@.any.len() == 0,
    {
        ScriptHandler {
            light_scripts: Vec::new(),
            dark_scripts: Vec::new(),
            any_change_scripts: Vec::new(),
        }
    }

    pub fn with_light_script(self, path: String) -> (r: Self)
        ensures
            r@ == (ScriptLists { light: self@.light.push(path), ..self@ }),
    {
        let mut s = self;
        s.light_scripts.push(path);
        s
    }

    pub fn with_dark_script(self, path: String) -> (r: Self)
        ensures
            r@ == (ScriptLists { dark: self@.dark.push(path), ..self@ }),
    {
        let mut s = self;
        s.dark_scripts.push(path);
        s
    }

    pub fn with_any_change_script(self, path: String) -> (r: Self)
        ensures
            r@ == (ScriptLists { any: self@.any.push(path), ..self@ }),
    {
        let mut s = self;
        s.any_change_scripts.push(path);
        s
    }

    pub fn with_light_scripts(self, paths: Vec<String>) -> (r: Self)
        ensures
            r@ == (ScriptLists { light: self@.light + paths@, ..self@ }),
    {
        let mut s = self;
        let mut p = paths;
        s.light_scripts.append(&mut p);
        s
    }

    pub fn with_dark_scripts(self, paths: Vec<String>) -> (r: Self)
        ensures
            r@ == (ScriptLists { dark: self@.dark + paths@, ..self@ }),
    {
        let mut s = self;
        let mut p = paths;
        s.dark_scripts.append(&mut p);
        s
    }

    pub fn with_any_change_scripts(self, paths: Vec<String>) -> (r: Self)
        ensures
            r@ == (ScriptLists { any: self@.any + paths@, ..self@ }),
    {
        let mut s = self;
        let mut p = paths;
        s.any_change_scripts.append(&mut p);
        s
    }

    /// True when some list holds a script.
    pub fn has_scripts(&self) -> (r: bool)
        ensures
            r == (self@.light.len() > 0 || self@.dark.len() > 0 || self@.any.len() > 0),
    {
        self.light_scripts.len() > 0 || self.dark_scripts.len() > 0
            || self.any_change_scripts.len() > 0
    }
}

impl Default for ScriptHandler {
    fn default() -> (r: Self)
        ensures
            r@.light.len() == 0,
            r@.dark.len() == 0,
            r@.any.len() == 0,
    {
        ScriptHandler::new()
    }
}

impl ThemeHandler for ScriptHandler {
    open spec fn plan(&self, theme: Theme) -> Seq<Action> {
        shell_runs(selected_scripts(self@, theme), theme)
    }

    fn on_theme_change(&self, theme: Theme) -> (r: Vec<Action>) {
        let mut r: Vec<Action> = Vec::new();
        match theme {
            Theme::Light => push_shell_runs(&mut r, &self.light_scripts, theme),
            Theme::Dark => push_shell_runs(&mut r, &self.dark_scripts, theme),
        }
        push_shell_runs(&mut r, &self.any_change_scripts, theme);
        proof {
            let l = selected_scripts(self@, theme);
            assert(r@ =~= shell_runs(l, theme));
        }
        r
    }
}

/// One registered consumer, of one of the four kinds.
pub enum Consumer {
    Logging(LoggingThemeHandler),
    Script(ScriptHandler),
    Lua(LuaHandler),
    Ipc(IpcHandler),
}

impl ThemeHandler for Consumer {
    open spec fn plan(&self, theme: Theme) -> Seq<Action> {
        match self {
            Consumer::Logging(h) => h.plan(theme),
            Consumer::Script(h) => h.plan(theme),
            Consumer::Lua(h) => h.plan(theme),
            Consumer::Ipc(h) => h.plan(theme),
        }
    }

    fn on_theme_change(&self, theme: Theme) -> (r: Vec<Action>) {
        match self {
            Consumer::Logging(h) => h.on_theme_change(theme),
            Consumer::Script(h) => h.on_theme_change(theme),
            Consumer::Lua(h) => h.on_theme_change(theme),
            Consumer::Ipc(h) => h.on_theme_change(theme),
        }
    }
}

/// The hand-over of one change to one consumer, named by its registration
/// index.
#[derive(Debug, Clone, Copy, PartialEq, Eq, Structural)]
pub struct Invocation {
    pub consumer: usize,
    pub theme: Theme,
}

/// The hand-overs of one change: every consumer in registration order.
pub open spec fn round(n: nat, theme: Theme) -> Seq<Invocation> {
    Seq::new(n, |k: int| Invocation { consumer: k as usize, theme: theme })
}

/// The hand-overs of a sequence of changes: one round per change, in the
/// order of the changes.
pub open spec fn schedule(n: nat, events: Seq<Theme>) -> Seq<Invocation>
    decreases events.len(),
{
    if events.len() == 0 {
        Seq::empty()
    } else {
        schedule(n, events.drop_last()) + round(n, events.last())
    }
}

/// The changes that consumer `i` is handed in a sequence of hand-overs.
pub open spec fn observed(invs: Seq<Invocation>, i: nat) -> Seq<Theme>
    decreases invs.len(),
{
    if invs.len() == 0 {
        Seq::empty()
    } else {
        let rest = observed(invs.drop_last(), i);
        if invs.last().consumer as nat == i {
            rest.push(invs.last().theme)
        } else {
            rest
        }
    }
}

/// The work of a sequence of consumers for one change: each one's plan, in
/// registration order.
pub open spec fn consumers_plan(cs: Seq<Consumer>, theme: Theme) -> Seq<Action>
    decreases cs.len(),
{
    if cs.len() == 0 {
        Seq::empty()
    } else {
        consumers_plan(cs.drop_last(), theme) + cs.last().plan(theme)
    }
}

/// The dispatcher: an ordered set of consumers, each handed every change in
/// registration order.
pub struct CompositeThemeHandler {
    handlers: Vec<Consumer>,
}

impl View for CompositeThemeHandler {
    type V = Seq<Consumer>;

    closed spec fn view(&self) -> Seq<Consumer> {
        self.handlers@
    }
}

impl CompositeThemeHandler {
    pub fn new() -> (r: Self)
        ensures
            r@.len() == 0,
    {
        CompositeThemeHandler { handlers: Vec::new() }
    }

    /// Registers `handler` after those already registered.
    pub fn add_handler(&mut self, handler: Consumer)
        ensures
            final(self)@ == old(self)@.push(handler),
    {
        self.handlers.push(handler);
    }

    pub fn len(&self) -> (r: usize)
        ensures
            r == self@.len(),
    {
        self.handlers.len()
    }

    /// The consumer registered at `index`.
    pub fn handler(&self, index: usize) -> (r: &Consumer)
        requires
            index < self@.len(),
        ensures
            *r == self@[index as int],
    {
        &self.handlers[index]
    }

    /// The hand-overs of one change: every consumer, in registration order,
    /// whatever any of them does with it.
    pub fn dispatch_order(&self, theme: Theme) -> (r: Vec<Invocation>)
        ensures
            r@ == round(self@.len(), theme),
    {
        let mut r: Vec<Invocation> = Vec::new();
        let n = self.handlers.len();
        let mut i: usize = 0;
        while i < n
            invariant
                i <= n,
                n == self@.len(),
                r@ =~= round(i as nat, theme),
            decreases n - i,
        {
            r.push(Invocation { consumer: i, theme });
            i = i + 1;
        }
        r
    }
}

impl Default for CompositeThemeHandler {
    fn default() -> (r: Self)
        ensures
            r@.len() == 0,
    {
        CompositeThemeHandler::new()
    }
}

impl ThemeHandler for CompositeThemeHandler {
    open spec fn plan(&self, theme: Theme) -> Seq<Action> {
        consumers_plan(self@, theme)
    }

    fn on_theme_change(&self, theme: Theme) -> (r: Vec<Action>) {
        let mut r: Vec<Action> = Vec::new();
        let mut i: usize = 0;
        while i < self.handlers.len()
            invariant
                i <= self.handlers.len(),
                r@ == consumers_plan(self.handlers@.take(i as int), theme),
            decreases self.handlers.len() - i,
        {
            let mut p = self.handlers[i].on_theme_change(theme);
            r.append(&mut p);
            proof {
                let t = self.handlers@.take(i + 1);
                assert(t.drop_last() =~= self.handlers@.take(i as int));
            }
            i = i + 1;
        }
        proof {
            assert(self.handlers@.take(i as int) =~= self.handlers@);
        }
        r
    }
}

proof fn lemma_observed_append(a: Seq<Invocation>, b: Seq<Invocation>, i: nat)
    ensures
        observed(a + b, i) == observed(a, i) + observed(b, i),
    decreases b.len(),
{
    if b.len() == 0 {
        assert(a + b =~= a);
        assert(observed(b, i) =~= Seq::<Theme>::empty());
        assert(observed(a, i) + observed(b, i) =~= observed(a, i));
    } else {
        lemma_observed_append(a, b.drop_last(), i);
        assert((a + b).drop_last() =~= a + b.drop_last());
        assert((a + b).last() == b.last());
        let lhs = observed(a + b, i);
        if b.last().consumer as nat == i {
            assert(lhs =~= observed(a, i) + observed(b, i));
        } else {
            assert(lhs =~= observed(a, i) + observed(b, i));
        }
    }
}

proof fn lemma_observed_round(n: nat, theme: Theme, i: nat)
    requires
        i < n,
        n <= usize::MAX + 1,
    ensures
        observed(round(n, theme), i) == seq![theme],
    decreases n,
{
    let r = round(n, theme);
    assert(r.drop_last() =~= round((n - 1) as nat, theme));
    if i == n - 1 {
        lemma_observed_none(round((n - 1) as nat, theme), i);
        assert(observed(r, i) =~= seq![theme]);
    } else {
        lemma_observed_round((n - 1) as nat, theme, i);
    }
}

proof fn lemma_observed_none(invs: Seq<Invocation>, i: nat)
    requires
        forall|k: int| 0 <= k < invs.len() ==> invs[k].consumer as nat != i,
    ensures
        observed(invs, i) == Seq::<Theme>::empty(),
    decreases invs.len(),
{
    if invs.len() > 0 {
        lemma_observed_none(invs.drop_last(), i);
    }
}

/// Every registered consumer is handed every change, once, in the order in
/// which the changes came: none is skipped, repeated or reordered.
pub proof fn lemma_each_consumer_observes_every_change(n: nat, events: Seq<Theme>, i: nat)
    requires
        i < n,
        n <= usize::MAX,
    ensures
        observed(schedule(n, events), i) == events,
    decreases events.len(),
{
    if events.len() > 0 {
        lemma_each_consumer_observes_every_change(n, events.drop_last(), i);
        lemma_observed_append(schedule(n, events.drop_last()), round(n, events.last()), i);
        lemma_observed_round(n, events.last(), i);
        assert(events.drop_last().push(events.last()) =~= events);
    }
}

proof fn lemma_schedule_len(n: nat, events: Seq<Theme>)
    ensures
        schedule(n, events).len() == events.len() * n,
    decreases events.len(),
{
    if events.len() > 0 {
        lemma_schedule_len(n, events.drop_last());
        assert((events.len() - 1) * n + n == events.len() * n) by (nonlinear_arith);
    }
}

/// The hand-overs are fixed by the number of consumers and the changes
/// alone, never by what a consumer did with an earlier one: the `j`-th
/// consumer is handed the `k`-th change at position `k * n + j`, so a
/// consumer that failed on change `k` is still handed change `k + 1`, and the
/// others are still handed change `k`.
pub proof fn lemma_failures_are_isolated(n: nat, events: Seq<Theme>, k: nat, j: nat)
    requires
        k < events.len(),
        j < n,
        n <= usize::MAX,
    ensures
        schedule(n, events).len() == events.len() * n,
        schedule(n, events)[(k * n + j) as int] == (Invocation { consumer: j as usize, theme: events[k as int] }),
    decreases events.len(),
{
    lemma_schedule_len(n, events);
    let prev = events.drop_last();
    lemma_schedule_len(n, prev);
    let s = schedule(n, events);
    if k == events.len() - 1 {
        assert(k * n + j == prev.len() * n + j);
        assert(s[(k * n + j) as int] == round(n, events.last())[j as int]);
    } else {
        lemma_failures_are_isolated(n, prev, k, j);
        assert(k * n + j < prev.len() * n) by (nonlinear_arith)
            requires
                k < prev.len(),
                j < n,
        ;
        assert(s[(k * n + j) as int] == schedule(n, prev)[(k * n + j) as int]);
    }
}

/// The work of the consumers `cs` for a sequence of changes: for each change
/// in turn, every consumer's plan in registration order.
pub open spec fn trace(cs: Seq<Consumer>, events: Seq<Theme>) -> Seq<Action>
    decreases events.len(),
{
    if events.len() == 0 {
        Seq::empty()
    } else {
        trace(cs, events.drop_last()) + consumers_plan(cs, events.last())
    }
}

} // verus!
