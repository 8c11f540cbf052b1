use vstd::prelude::*;

use crate::config::{is_truthy, truthy};
use crate::text::{derive_tab_name, derived_name, starts_with, trim, trimmed};

verus! {

/// The host's input modes.
#[derive(Clone, Copy, Debug, PartialEq, Eq, Structural)]
pub enum InputMode {
    Normal,
    Locked,
    Resize,
    Pane,
    Tab,
    Scroll,
    EnterSearch,
    Search,
    RenameTab,
    RenamePane,
    Session,
    Move,
    Prompt,
    Tmux,
}

/// What the reconciler reads of a pane.
#[derive(Debug, PartialEq, Eq)]
pub struct PaneInfo {
    pub title: String,
    pub is_focused: bool,
}

/// What the reconciler reads of a tab.
#[derive(Debug, PartialEq, Eq)]
pub struct TabInfo {
    pub name: String,
}

/// For each tab position, the panes of that tab, in the host's order.
pub type PaneSnapshot = Vec<(usize, Vec<PaneInfo>)>;

/// The notifications that the host delivers.
pub enum Event {
    ModeUpdate(InputMode),
    PaneUpdate(PaneSnapshot),
    TabUpdate(Vec<TabInfo>),
    Timer,
}

/// What the reconciler asks of the host.
#[derive(Debug, PartialEq, Eq)]
pub enum Command {
    /// Arm a one-shot timer for the configured interval.
    SetTimeout,
    /// Rename the tab at 1-based position `position` to `name`.
    RenameTab { position: usize, name: String },
}

/// A command as the contracts speak of it.
pub enum CommandView {
    SetTimeout,
    RenameTab { position: nat, name: Seq<char> },
}

impl View for Command {
    type V = CommandView;

    open spec fn view(&self) -> CommandView {
        match self {
            Command::SetTimeout => CommandView::SetTimeout,
            Command::RenameTab { position, name } => CommandView::RenameTab {
                position: *position as nat,
                name: name@,
            },
        }
    }
}

/// The commands of `cmds`, as the contracts speak of them.
pub open spec fn commands_view(cmds: Seq<Command>) -> Seq<CommandView> {
    cmds.map_values(|c: Command| c@)
}

/// The session state of the reconciler.
pub struct State {
    pub is_enabled: bool,
    pub mode: InputMode,
    pub panes: PaneSnapshot,
    pub tab_keep_prefix: String,
    pub tabs: Vec<TabInfo>,
    pub timer_running: bool,
}

/// The renames asked for the focused panes among `panes`, in order, on behalf
/// of the tab at 1-based position `position`.
pub open spec fn pane_renames(position: nat, panes: Seq<PaneInfo>) -> Seq<CommandView>
    decreases panes.len(),
{
    if panes.len() == 0 {
        Seq::empty()
    } else {
        let p = panes.last();
        let rest = pane_renames(position, panes.drop_last());
        if p.is_focused && derived_name(p.title@) is Some {
            rest.push(CommandView::RenameTab { position, name: derived_name(p.title@)->0 })
        } else {
            rest
        }
    }
}

/// Whether the tab at 0-based position `i` exists and carries no name pinned
/// by the keep-prefix.
pub open spec fn renamable(tabs: Seq<TabInfo>, prefix: Seq<char>, i: int) -> bool {
    0 <= i < tabs.len() && !prefix.is_prefix_of(tabs[i].name@)
}

/// The renames asked for the entries of `panes`, in order.
pub open spec fn tick_renames(
    panes: Seq<(usize, Vec<PaneInfo>)>,
    tabs: Seq<TabInfo>,
    prefix: Seq<char>,
) -> Seq<CommandView>
    decreases panes.len(),
{
    if panes.len() == 0 {
        Seq::empty()
    } else {
        let (i, tab_panes) = panes.last();
        let rest = tick_renames(panes.drop_last(), tabs, prefix);
        if renamable(tabs, prefix, i as int) {
            rest + pane_renames((i + 1) as nat, tab_panes@)
        } else {
            rest
        }
    }
}

/// What a timer event asks of the host in state `s`: the timer armed again,
/// then the renames, unless a tab is being renamed by hand.
pub open spec fn timer_commands(s: State) -> Seq<CommandView> {
    if s.mode == InputMode::RenameTab {
        seq![CommandView::SetTimeout]
    } else {
        seq![CommandView::SetTimeout] + tick_renames(s.panes@, s.tabs@, s.tab_keep_prefix@)
    }
}

impl Default for State {
    fn default() -> (s: State)
        ensures
            s.is_enabled,
            s.mode == InputMode::Normal,
            s.panes@.len() == 0,
            s.tab_keep_prefix@ == "!"@,
            s.tabs@.len() == 0,
            !s.timer_running,
    {
        State {
            is_enabled: true,
            mode: InputMode::Normal,
            panes: Vec::new(),
            tab_keep_prefix: "!".to_owned(),
            tabs: Vec::new(),
            timer_running: false,
        }
    }
}

impl State {
    /// Takes the `enable` and `tab_keep_prefix` settings, where given.
    pub fn load_configuration(&mut self, enable: Option<&str>, tab_keep_prefix: Option<&str>)
        ensures
            final(self).is_enabled == match enable {
                Some(e) => truthy(e@),
                None => old(self).is_enabled,
            },
            final(self).tab_keep_prefix@ == match tab_keep_prefix {
                Some(p) => trimmed(p@),
                None => old(self).tab_keep_prefix@,
            },
            final(self).mode == old(self).mode,
            final(self).panes == old(self).panes,
            final(self).tabs == old(self).tabs,
            final(self).timer_running == old(self).timer_running,
    {
        if let Some(e) = enable {
            self.is_enabled = is_truthy(e);
        }
        if let Some(p) = tab_keep_prefix {
            self.tab_keep_prefix = trim(p);
        }
    }

    /// Arms the timer once, if the reconciler is enabled; returns whether the
    /// host is to be asked for it.
    pub fn start_timer(&mut self) -> (armed: bool)
        ensures
            armed == (old(self).is_enabled && !old(self).timer_running),
            final(self).timer_running == (old(self).timer_running || armed),
            final(self).is_enabled == old(self).is_enabled,
            final(self).mode == old(self).mode,
            final(self).panes == old(self).panes,
            final(self).tab_keep_prefix == old(self).tab_keep_prefix,
            final(self).tabs == old(self).tabs,
    {
        if self.is_enabled && !self.timer_running {
            self.timer_running = true;
            true
        } else {
            false
        }
    }

    /// Reads the configuration and arms the timer if enabled; returns what
    /// is asked of the host.
    pub fn load(&mut self, enable: Option<&str>, tab_keep_prefix: Option<&str>) -> (cmds: Vec<
        Command,
    >)
        ensures
            final(self).is_enabled == match enable {
                Some(e) => truthy(e@),
                None => old(self).is_enabled,
            },
            final(self).tab_keep_prefix@ == match tab_keep_prefix {
                Some(p) => trimmed(p@),
                None => old(self).tab_keep_prefix@,
            },
            final(self).timer_running == (old(self).timer_running || final(self).is_enabled),
            final(self).mode == old(self).mode,
            final(self).panes == old(self).panes,
            final(self).tabs == old(self).tabs,
            commands_view(cmds@) == if final(self).is_enabled && !old(self).timer_running {
                seq![CommandView::SetTimeout]
            } else {
                Seq::<CommandView>::empty()
            },
    {
        self.load_configuration(enable, tab_keep_prefix);
        let mut cmds: Vec<Command> = Vec::new();
        if self.start_timer() {
            cmds.push(Command::SetTimeout);
        }
        proof {
            assert(commands_view(cmds@) =~= if self.is_enabled && !old(self).timer_running {
                seq![CommandView::SetTimeout]
            } else {
                Seq::<CommandView>::empty()
            });
        }
        cmds
    }

    /// The renames for the focused panes of `panes`, appended to `cmds`.
    fn push_pane_renames(cmds: &mut Vec<Command>, position: usize, panes: &Vec<PaneInfo>)
        ensures
            commands_view(final(cmds)@) == commands_view(old(cmds)@) + pane_renames(
                position as nat,
                panes@,
            ),
    {
        let mut j: usize = 0;
        while j < panes.len()
            invariant
                j <= panes@.len(),
                commands_view(cmds@) == commands_view(old(cmds)@) + pane_renames(
                    position as nat,
                    panes@.subrange(0, j as int),
                ),
            decreases panes@.len() - j,
        {
            let pane = &panes[j];
            assert(panes@.subrange(0, j + 1).drop_last() =~= panes@.subrange(0, j as int));
            let ghost before = cmds@;
            if pane.is_focused {
                let name = derive_tab_name(pane.title.as_str());
                if let Some(name) = name {
                    cmds.push(Command::RenameTab { position, name });
                    assert(commands_view(cmds@) =~= commands_view(before).push(
                        CommandView::RenameTab {
                            position: position as nat,
                            name: derived_name(pane.title@)->0,
                        },
                    ));
                }
            }
            j = j + 1;
        }
        assert(panes@.subrange(0, j as int) =~= panes@);
    }

    /// The renames that the current snapshots call for, in order.
    pub fn renames(&self) -> (cmds: Vec<Command>)
        ensures
            commands_view(cmds@) == tick_renames(self.panes@, self.tabs@, self.tab_keep_prefix@),
    {
        let mut cmds: Vec<Command> = Vec::new();
        let mut k: usize = 0;
        while k < self.panes.len()
            invariant
                k <= self.panes@.len(),
                commands_view(cmds@) == tick_renames(
                    self.panes@.subrange(0, k as int),
                    self.tabs@,
                    self.tab_keep_prefix@,
                ),
            decreases self.panes@.len() - k,
        {
            let entry = &self.panes[k];
            let i = entry.0;
            assert(self.panes@.subrange(0, k + 1).drop_last() =~= self.panes@.subrange(
                0,
                k as int,
            ));
            if i < self.tabs.len() && !starts_with(
                self.tabs[i].name.as_str(),
                self.tab_keep_prefix.as_str(),
            ) {
                Self::push_pane_renames(&mut cmds, i + 1, &entry.1);
            }
            k = k + 1;
        }
        assert(self.panes@.subrange(0, k as int) =~= self.panes@);
        cmds
    }

    /// Handles one event from the host; returns what is asked of the host.
    pub fn update(&mut self, event: Event) -> (cmds: Vec<Command>)
        ensures
            match event {
                Event::ModeUpdate(m) => {
                    &&& *final(self) == (State { mode: m, ..*old(self) })
                    &&& cmds@.len() == 0
                },
                Event::PaneUpdate(p) => {
                    &&& *final(self) == (State { panes: p, ..*old(self) })
                    &&& cmds@.len() == 0
                },
                Event::TabUpdate(t) => {
                    &&& *final(self) == (State { tabs: t, ..*old(self) })
                    &&& cmds@.len() == 0
                },
                Event::Timer => {
                    &&& *final(self) == *old(self)
                    &&& commands_view(cmds@) == timer_commands(*old(self))
                },
            },
    {
        match event {
            Event::ModeUpdate(m) => {
                self.mode = m;
                Vec::new()
            },
            Event::PaneUpdate(p) => {
                self.panes = p;
                Vec::new()
            },
            Event::TabUpdate(t) => {
                self.tabs = t;
                Vec::new()
            },
            Event::Timer => {
                let mut cmds: Vec<Command> = Vec::new();
                cmds.push(Command::SetTimeout);
                if self.mode != InputMode::RenameTab {
                    let mut renames = self.renames();
                    let ghost r = renames@;
                    cmds.append(&mut renames);
                    assert(commands_view(cmds@) =~= seq![CommandView::SetTimeout]
                        + commands_view(r));
                } else {
                    assert(commands_view(cmds@) =~= seq![CommandView::SetTimeout]);
                }
                cmds
            },
        }
    }
}

} // verus!
