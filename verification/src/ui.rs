//! State and input handling of the terminal dashboard, and the text it draws.

use vstd::prelude::*;
use vstd::string::StringExecFns;
use crate::models::{
    ConnectedUsersToChannel, Message, StreamLeaderboard, StreamersEventsLeaderboard, opt_text,
};
use crate::text::{
    clock_max_millis, clock_min_millis, clock_text, decimal_text, format_clock, i32_text, join_lines,
    joined_lines,
};

verus! {

/// The pane that has the keyboard focus.
#[derive(Clone, Copy, PartialEq, Eq, Structural, Debug)]
pub enum Focus {
    Sidebar,
    MainChat,
    RightBar,
}

impl Focus {
    /// The pane after this one, going right and wrapping around.
    pub open spec fn after(self) -> Focus {
        match self {
            Focus::Sidebar => Focus::MainChat,
            Focus::MainChat => Focus::RightBar,
            Focus::RightBar => Focus::Sidebar,
        }
    }

    /// The pane before this one, going left and wrapping around.
    pub open spec fn before(self) -> Focus {
        match self {
            Focus::Sidebar => Focus::RightBar,
            Focus::MainChat => Focus::Sidebar,
            Focus::RightBar => Focus::MainChat,
        }
    }
}

/// A key press, as far as the dashboard tells keys apart.
#[derive(Clone, Copy, PartialEq, Eq, Structural, Debug)]
pub enum Key {
    Char(char),
    Tab,
    BackTab,
    Up,
    Down,
    Enter,
    Left,
    Right,
    /// Any other key.
    Other,
}

/// The index of the tab after tab `tab` of `count` tabs, wrapping from the last to the
/// first.
pub open spec fn next_tab_index(tab: int, count: int) -> int {
    (tab + 1) % count
}

/// The index of the tab before tab `tab` of `count` tabs, wrapping from the first to the
/// last.
pub open spec fn previous_tab_index(tab: int, count: int) -> int {
    if tab == 0 {
        count - 1
    } else {
        tab - 1
    }
}

/// The channel selected after pressing up: the one above, if the sidebar has the focus
/// and the selection is not at the top.
pub open spec fn channel_after_up(selected: int, sidebar_focused: bool) -> int {
    if sidebar_focused && selected > 0 {
        selected - 1
    } else {
        selected
    }
}

/// The channel selected after pressing down in a list of `count` channels: the one below,
/// if the sidebar has the focus and the selection is not at the bottom.
pub open spec fn channel_after_down(selected: int, count: int, sidebar_focused: bool) -> int {
    if sidebar_focused && selected < count - 1 {
        selected + 1
    } else {
        selected
    }
}

/// The state of the dashboard.
pub struct App {
    /// Titles of the tabs of the right bar.
    pub tabs: Vec<&'static str>,
    pub active_tab: u32,
    /// The channels of the sidebar, busiest first.
    pub active_channels: Vec<StreamersEventsLeaderboard>,
    pub active_channel: usize,
    /// The latest messages of the selected channel.
    pub chat_messages: Vec<Message>,
    /// The chatters present in the selected channel.
    pub connected_users: Vec<ConnectedUsersToChannel>,
    /// The chatters of the selected channel, by messages sent.
    pub rankings: Vec<StreamLeaderboard>,
    pub focused: Focus,
}

impl App {
    /// The tab index is one of the tabs, and the selected channel is one of the channels,
    /// or the first place when there is none.
    pub open spec fn wf(self) -> bool {
        &&& self.tabs_wf()
        &&& if self.active_channels.len() == 0 {
            self.active_channel == 0
        } else {
            self.active_channel < self.active_channels.len()
        }
    }

    /// The tab index is one of the tabs.
    pub open spec fn tabs_wf(self) -> bool {
        &&& 0 < self.tabs.len() <= u32::MAX
        &&& self.active_tab < self.tabs.len()
    }

    /// True when the two states hold the same tabs and data and differ at most in the
    /// focus, the selected tab and the selected channel.
    pub open spec fn same_data(self, other: App) -> bool {
        &&& self.tabs == other.tabs
        &&& self.active_channels == other.active_channels
        &&& self.chat_messages == other.chat_messages
        &&& self.connected_users == other.connected_users
        &&& self.rankings == other.rankings
    }

    /// The tab after the selected one, wrapping from the last to the first.
    pub open spec fn tab_after(self) -> int {
        next_tab_index(self.active_tab as int, self.tabs.len() as int)
    }

    /// The tab before the selected one, wrapping from the first to the last.
    pub open spec fn tab_before(self) -> int {
        previous_tab_index(self.active_tab as int, self.tabs.len() as int)
    }

    /// The channel selected after pressing up.
    pub open spec fn channel_above(self) -> int {
        channel_after_up(self.active_channel as int, self.focused == Focus::Sidebar)
    }

    /// The channel selected after pressing down.
    pub open spec fn channel_below(self) -> int {
        channel_after_down(
            self.active_channel as int,
            self.active_channels.len() as int,
            self.focused == Focus::Sidebar,
        )
    }

    /// The state the dashboard starts in: the tabs "Connected Users" and "Rankings", the
    /// first one selected; the home channel alone in the sidebar, selected; one blank
    /// message; one chatter "User1" in the home channel; one blank ranking row; the
    /// sidebar focused.
    pub fn new() -> (res: App)
        ensures
            res.wf(),
            res.tabs@.len() == 2,
            res.tabs@[0]@ == "Connected Users"@,
            res.tabs@[1]@ == "Rankings"@,
            res.active_tab == 0,
            res.active_channels.len() == 1,
            res.active_channels@[0].streamer_id@ == "danielhe4rt"@,
            res.active_channels@[0].day == 0,
            res.active_channels@[0].events_count == 0,
            res.active_channel == 0,
            res.chat_messages.len() == 1,
            res.chat_messages@[0].is_blank(),
            res.connected_users.len() == 1,
            res.connected_users@[0].streamer_id@ == "danielhe4rt"@,
            opt_text(res.connected_users@[0].chatter_id) == Some("User1"@),
            res.connected_users@[0].joined_at is None,
            res.rankings.len() == 1,
            res.rankings@[0].streamer_id@ == Seq::<char>::empty(),
            res.rankings@[0].chatter_id@ == Seq::<char>::empty(),
            res.rankings@[0].chatter_username@ == Seq::<char>::empty(),
            res.rankings@[0].messages_count == 0,
            res.focused == Focus::Sidebar,
    {
        let mut tabs: Vec<&'static str> = Vec::new();
        tabs.push("Connected Users");
        tabs.push("Rankings");
        let mut active_channels: Vec<StreamersEventsLeaderboard> = Vec::new();
        active_channels.push(
            StreamersEventsLeaderboard {
                streamer_id: "danielhe4rt".to_owned(),
                day: 0,
                events_count: 0,
            },
        );
        let mut chat_messages: Vec<Message> = Vec::new();
        chat_messages.push(Message::default());
        let mut connected_users: Vec<ConnectedUsersToChannel> = Vec::new();
        connected_users.push(
            ConnectedUsersToChannel {
                streamer_id: "danielhe4rt".to_owned(),
                chatter_id: Some("User1".to_owned()),
                joined_at: None,
            },
        );
        let mut rankings: Vec<StreamLeaderboard> = Vec::new();
        rankings.push(StreamLeaderboard::default());
        App {
            tabs,
            active_tab: 0,
            active_channels,
            active_channel: 0,
            chat_messages,
            connected_users,
            rankings,
            focused: Focus::Sidebar,
        }
    }

    /// Selects the next tab, wrapping from the last to the first.
    pub fn next_tab(&mut self)
        requires
            old(self).tabs_wf(),
        ensures
            final(self).tabs_wf(),
            old(self).wf() ==> final(self).wf(),
            final(self).same_data(*old(self)),
            final(self).active_tab == old(self).tab_after(),
            final(self).active_channel == old(self).active_channel,
            final(self).focused == old(self).focused,
    {
        self.active_tab = (self.active_tab + 1) % (self.tabs.len() as u32);
    }

    /// Selects the previous tab, wrapping from the first to the last.
    pub fn previous_tab(&mut self)
        requires
            old(self).tabs_wf(),
        ensures
            final(self).tabs_wf(),
            old(self).wf() ==> final(self).wf(),
            final(self).same_data(*old(self)),
            final(self).active_tab == old(self).tab_before(),
            final(self).active_channel == old(self).active_channel,
            final(self).focused == old(self).focused,
    {
        if self.active_tab == 0 {
            self.active_tab = (self.tabs.len() as u32) - 1;
        } else {
            self.active_tab = self.active_tab - 1;
        }
    }

    /// Moves the focus to the next pane.
    pub fn focus_next(&mut self)
        ensures
            final(self).same_data(*old(self)),
            final(self).focused == old(self).focused.after(),
            final(self).active_tab == old(self).active_tab,
            final(self).active_channel == old(self).active_channel,
    {
        self.focused = match self.focused {
            Focus::Sidebar => Focus::MainChat,
            Focus::MainChat => Focus::RightBar,
            Focus::RightBar => Focus::Sidebar,
        };
    }

    /// Moves the focus to the previous pane.
    pub fn focus_previous(&mut self)
        ensures
            final(self).same_data(*old(self)),
            final(self).focused == old(self).focused.before(),
            final(self).active_tab == old(self).active_tab,
            final(self).active_channel == old(self).active_channel,
    {
        self.focused = match self.focused {
            Focus::Sidebar => Focus::RightBar,
            Focus::MainChat => Focus::Sidebar,
            Focus::RightBar => Focus::MainChat,
        };
    }
}

impl App {
    /// The channel whose data the dashboard shows: the selected one.
    pub fn selected_channel(&self) -> (res: StreamersEventsLeaderboard)
        requires
            self.active_channel < self.active_channels.len(),
        ensures
            res == self.active_channels@[self.active_channel as int],
    {
        self.active_channels[self.active_channel].clone()
    }

    /// Replaces the data of the dashboard with freshly fetched data. The selection
    /// returns to the first channel when the number of channels changed, and stays
    /// otherwise.
    pub fn apply_fetched(
        &mut self,
        connected_users: Vec<ConnectedUsersToChannel>,
        chat_messages: Vec<Message>,
        rankings: Vec<StreamLeaderboard>,
        active_channels: Vec<StreamersEventsLeaderboard>,
    )
        requires
            old(self).wf(),
        ensures
            final(self).wf(),
            final(self).connected_users == connected_users,
            final(self).chat_messages == chat_messages,
            final(self).rankings == rankings,
            final(self).active_channels == active_channels,
            final(self).active_channel == if old(self).active_channels.len()
                != active_channels.len() {
                0
            } else {
                old(self).active_channel
            },
            final(self).tabs == old(self).tabs,
            final(self).active_tab == old(self).active_tab,
            final(self).focused == old(self).focused,
    {
        self.connected_users = connected_users;
        self.chat_messages = chat_messages;
        if self.active_channels.len() != active_channels.len() {
            self.active_channel = 0;
        }
        self.rankings = rankings;
        self.active_channels = active_channels;
    }
}

/// The color of a pane's border.
#[derive(Clone, Copy, PartialEq, Eq, Structural, Debug)]
pub enum Tint {
    Yellow,
    White,
}

/// What the lower part of the right bar shows.
#[derive(Clone, Copy, PartialEq, Eq, Structural, Debug)]
pub enum RightPane {
    ConnectedUsers,
    Rankings,
    Nothing,
}

/// A line of the sidebar.
pub struct SidebarRow {
    pub text: String,
    /// Whether it is the selected channel.
    pub highlighted: bool,
}

/// The sidebar text of a channel: its id and its event count in brackets.
pub open spec fn sidebar_text(channel: StreamersEventsLeaderboard) -> Seq<char> {
    channel.streamer_id@ + " ("@ + decimal_text(channel.events_count as int) + ") "@
}

/// The clock text shown for a message: its time of day, or a placeholder when it has
/// no time or one outside the dates that `chrono` represents.
pub open spec fn sent_at_text(sent_at: Option<i64>) -> Seq<char> {
    match sent_at {
        Some(ms) => if clock_min_millis() <= ms <= clock_max_millis() {
            clock_text(ms as int)
        } else {
            "[Unknown time]"@
        },
        None => "[Unknown time]"@,
    }
}

/// The chat line of a message: `[time] chatter: content`, with placeholders for what
/// the message lacks.
pub open spec fn chat_line_text(message: Message) -> Seq<char> {
    let chatter = match opt_text(message.chatter_username) {
        Some(c) => c,
        None => "[Unknown]"@,
    };
    let content = match opt_text(message.content) {
        Some(c) => c,
        None => "[No content]"@,
    };
    "["@ + sent_at_text(message.sent_at) + "] "@ + chatter + ": "@ + content
}

/// The chat line of a message.
pub fn chat_line(message: &Message) -> (res: String)
    ensures
        res@ == chat_line_text(*message),
{
    let sent = match message.sent_at {
        Some(ms) => match format_clock(ms) {
            Some(t) => t,
            None => "[Unknown time]".to_owned(),
        },
        None => "[Unknown time]".to_owned(),
    };
    let chatter: &str = match &message.chatter_username {
        Some(c) => c.as_str(),
        None => "[Unknown]",
    };
    let content: &str = match &message.content {
        Some(c) => c.as_str(),
        None => "[No content]",
    };
    let mut line = "[".to_owned();
    line.append(sent.as_str());
    line.append("] ");
    line.append(chatter);
    line.append(": ");
    line.append(content);
    line
}

impl App {
    /// The border color of a pane that can hold the focus: yellow when it has it.
    pub fn border_tint(&self, pane: Focus) -> (res: Tint)
        ensures
            res == (if self.focused == pane {
                Tint::Yellow
            } else {
                Tint::White
            }),
    {
        if self.focused == pane {
            Tint::Yellow
        } else {
            Tint::White
        }
    }

    /// The pane shown under the tabs: the chatters for the first tab, the ranking for
    /// the second, nothing otherwise.
    pub fn right_pane(&self) -> (res: RightPane)
        ensures
            res == (if self.active_tab == 0 {
                RightPane::ConnectedUsers
            } else if self.active_tab == 1 {
                RightPane::Rankings
            } else {
                RightPane::Nothing
            }),
    {
        match self.active_tab {
            0 => RightPane::ConnectedUsers,
            1 => RightPane::Rankings,
            _ => RightPane::Nothing,
        }
    }

    /// The lines of the sidebar, one per channel in order, the selected one highlighted.
    pub fn sidebar_rows(&self) -> (res: Vec<SidebarRow>)
        ensures
            res.len() == self.active_channels.len(),
            forall|i: int|
                0 <= i < res.len() ==> (#[trigger] res@[i]).text@ == sidebar_text(
                    self.active_channels@[i],
                ) && res@[i].highlighted == (i == self.active_channel),
    {
        let mut rows: Vec<SidebarRow> = Vec::new();
        let mut i: usize = 0;
        while i < self.active_channels.len()
            invariant
                i <= self.active_channels.len(),
                rows.len() == i,
                forall|k: int|
                    0 <= k < i ==> (#[trigger] rows@[k]).text@ == sidebar_text(
                        self.active_channels@[k],
                    ) && rows@[k].highlighted == (k == self.active_channel),
            decreases self.active_channels.len() - i,
        {
            let channel = &self.active_channels[i];
            let mut text = channel.streamer_id.clone();
            text.append(" (");
            let count = i32_text(channel.events_count);
            text.append(count.as_str());
            text.append(") ");
            rows.push(SidebarRow { text, highlighted: i == self.active_channel });
            i = i + 1;
        }
        rows
    }

    /// The text of the chat pane: the line of each message, in order, one per line.
    pub fn chat_text(&self) -> (res: String)
        ensures
            res@ == joined_lines(self.chat_messages@.map_values(|m: Message| chat_line_text(m))),
    {
        let mut lines: Vec<String> = Vec::new();
        let mut i: usize = 0;
        while i < self.chat_messages.len()
            invariant
                i <= self.chat_messages.len(),
                lines.len() == i,
                forall|k: int| 0 <= k < i ==> (#[trigger] lines@[k])@ == chat_line_text(
                    self.chat_messages@[k],
                ),
            decreases self.chat_messages.len() - i,
        {
            lines.push(chat_line(&self.chat_messages[i]));
            i = i + 1;
        }
        let res = join_lines(&lines);
        assert(lines@.map_values(|l: String| l@) =~= self.chat_messages@.map_values(
            |m: Message| chat_line_text(m),
        ));
        res
    }

    /// The rows of the chatter list: the id of each present chatter, empty where unknown.
    pub fn chatter_rows(&self) -> (res: Vec<String>)
        ensures
            res.len() == self.connected_users.len(),
            forall|i: int|
                0 <= i < res.len() ==> (#[trigger] res@[i])@ == match opt_text(
                    self.connected_users@[i].chatter_id,
                ) {
                    Some(c) => c,
                    None => Seq::<char>::empty(),
                },
    {
        let mut rows: Vec<String> = Vec::new();
        let mut i: usize = 0;
        while i < self.connected_users.len()
            invariant
                i <= self.connected_users.len(),
                rows.len() == i,
                forall|k: int|
                    0 <= k < i ==> (#[trigger] rows@[k])@ == match opt_text(
                        self.connected_users@[k].chatter_id,
                    ) {
                        Some(c) => c,
                        None => Seq::<char>::empty(),
                    },
            decreases self.connected_users.len() - i,
        {
            let name = match &self.connected_users[i].chatter_id {
                Some(c) => c.clone(),
                None => String::new(),
            };
            rows.push(name);
            i = i + 1;
        }
        rows
    }

    /// The rows of the ranking: each chatter's name and, in the second column, the fixed
    /// text `msg.to_string()`.
    pub fn ranking_rows(&self) -> (res: Vec<(String, String)>)
        ensures
            res.len() == self.rankings.len(),
            forall|i: int|
                0 <= i < res.len() ==> (#[trigger] res@[i]).0@ == self.rankings@[i].chatter_username@
                    && res@[i].1@ == "msg.to_string()"@,
    {
        let mut rows: Vec<(String, String)> = Vec::new();
        let mut i: usize = 0;
        while i < self.rankings.len()
            invariant
                i <= self.rankings.len(),
                rows.len() == i,
                forall|k: int|
                    0 <= k < i ==> (#[trigger] rows@[k]).0@ == self.rankings@[k].chatter_username@
                        && rows@[k].1@ == "msg.to_string()"@,
            decreases self.rankings.len() - i,
        {
            rows.push((self.rankings[i].chatter_username.clone(), "msg.to_string()".to_owned()));
            i = i + 1;
        }
        rows
    }
}

impl App {
    /// True when `next` is this state after the key press `key`: tab and shift-tab move
    /// the focus forward and back; up and down move the selected channel; left and right
    /// select the previous and next tab; the data stays as it is.
    pub open spec fn key_applied(self, next: App, key: Key) -> bool {
        &&& next.same_data(self)
        &&& next.focused == (match key {
            Key::Tab => self.focused.after(),
            Key::BackTab => self.focused.before(),
            _ => self.focused,
        })
        &&& next.active_tab == (match key {
            Key::Left => self.tab_before(),
            Key::Right => self.tab_after(),
            _ => self.active_tab as int,
        })
        &&& next.active_channel == (match key {
            Key::Up => self.channel_above(),
            Key::Down => self.channel_below(),
            _ => self.active_channel as int,
        })
    }
}

/// Applies a key press to the dashboard and tells whether it asks to quit: `q` quits;
/// tab and shift-tab move the focus forward and back; up and down move the selected
/// channel within the list while the sidebar has the focus; left and right select the
/// previous and next tab; any other key changes nothing. Pressing down with the sidebar
/// focused needs a channel in the list.
pub fn handle(app: &mut App, key: Key) -> (quit: bool)
    requires
        old(app).wf(),
        key == Key::Down && old(app).focused == Focus::Sidebar ==> old(app).active_channels.len() > 0,
    ensures
        final(app).wf(),
        old(app).key_applied(*final(app), key),
        quit == (key == Key::Char('q')),
{
    match key {
        Key::Char('q') => true,
        Key::Tab => {
            app.focus_next();
            false
        },
        Key::BackTab => {
            app.focus_previous();
            false
        },
        Key::Up => {
            if app.focused == Focus::Sidebar && app.active_channel > 0 {
                app.active_channel = app.active_channel - 1;
            }
            false
        },
        Key::Down => {
            if app.focused == Focus::Sidebar && app.active_channel < app.active_channels.len() - 1 {
                app.active_channel = app.active_channel + 1;
            }
            false
        },
        Key::Enter => false,
        Key::Left => {
            app.previous_tab();
            false
        },
        Key::Right => {
            app.next_tab();
            false
        },
        _ => false,
    }
}

/// What happens to the running dashboard.
#[derive(Clone, Copy, PartialEq, Eq, Structural, Debug)]
pub enum TerminalEvent {
    /// The redraw timer fired.
    Tick,
    /// A key was pressed.
    Pressed(Key),
    /// The database refresh timer fired.
    DatabaseTick,
    /// Every source of events has closed.
    Closed,
}

/// What the running dashboard does next.
#[derive(Clone, Copy, PartialEq, Eq, Structural, Debug)]
pub enum LoopAction {
    /// Draw the panes from the current state.
    Redraw,
    /// Fetch the selected channel's data and apply it.
    Refresh,
    /// Wait for the next event.
    Continue,
    /// Restore the terminal and stop.
    Stop,
}

/// The dashboard's reaction to an event: a timer tick redraws, a database tick
/// refreshes, a key press is applied and stops the dashboard when it asks to quit, and
/// the end of all events stops it. Only key presses change the state.
pub fn react(app: &mut App, event: TerminalEvent) -> (action: LoopAction)
    requires
        old(app).wf(),
        event == TerminalEvent::Pressed(Key::Down) && old(app).focused == Focus::Sidebar
            ==> old(app).active_channels.len() > 0,
    ensures
        final(app).wf(),
        match event {
            TerminalEvent::Pressed(key) => old(app).key_applied(*final(app), key) && action == if key
                == Key::Char('q') {
                LoopAction::Stop
            } else {
                LoopAction::Continue
            },
            _ => *final(app) == *old(app) && action == (match event {
                TerminalEvent::Tick => LoopAction::Redraw,
                TerminalEvent::DatabaseTick => LoopAction::Refresh,
                _ => LoopAction::Stop,
            }),
        },
{
    match event {
        TerminalEvent::Tick => LoopAction::Redraw,
        TerminalEvent::Pressed(key) => {
            if handle(app, key) {
                LoopAction::Stop
            } else {
                LoopAction::Continue
            }
        },
        TerminalEvent::DatabaseTick => LoopAction::Refresh,
        TerminalEvent::Closed => LoopAction::Stop,
    }
}

/// A chat line is `[`, the message's time of day (see `clock_text_reads_as_time_of_day`),
/// `] `, its sender's login, `: ` and its text; a time outside the dates chrono places
/// or a missing one shows `[Unknown time]`, a missing sender `[Unknown]`, a missing text
/// `[No content]`.
pub proof fn chat_line_shows_time_sender_and_text(message: Message)
    ensures
        chat_line_text(message) == seq!['['] + (match message.sent_at {
            Some(ms) => if clock_min_millis() <= ms <= clock_max_millis() {
                clock_text(ms as int)
            } else {
                "[Unknown time]"@
            },
            None => "[Unknown time]"@,
        }) + seq![']', ' '] + (match message.chatter_username {
            Some(c) => c@,
            None => "[Unknown]"@,
        }) + seq![':', ' '] + (match message.content {
            Some(c) => c@,
            None => "[No content]"@,
        }),
{
    reveal_strlit("[");
    reveal_strlit("] ");
    reveal_strlit(": ");
    assert("["@ =~= seq!['[']);
    assert("] "@ =~= seq![']', ' ']);
    assert(": "@ =~= seq![':', ' ']);
}

/// A sidebar line shows the channel's id, then its event count in brackets, written in
/// decimal (see `decimal_text_spells_the_number`), then a space.
pub proof fn sidebar_line_shows_id_and_count(channel: StreamersEventsLeaderboard)
    ensures
        sidebar_text(channel) == channel.streamer_id@ + seq![' ', '('] + decimal_text(
            channel.events_count as int,
        ) + seq![')', ' '],
{
    reveal_strlit(" (");
    reveal_strlit(") ");
    assert(" ("@ =~= seq![' ', '(']);
    assert(") "@ =~= seq![')', ' ']);
}

/// Moving the focus forward and then back, or back and then forward, returns it to the
/// pane it started on.
pub proof fn focus_moves_undo(focus: Focus)
    ensures
        focus.after().before() == focus,
        focus.before().after() == focus,
{
}

/// Moving the focus forward three times, or back three times, visits every pane once and
/// returns to the first.
pub proof fn focus_cycles_through_three_panes(focus: Focus)
    ensures
        focus.after().after().after() == focus,
        focus.before().before().before() == focus,
        focus.after() != focus,
        focus.after().after() != focus,
{
}

/// Selecting the next tab and then the previous one, or the previous and then the next,
/// returns to the tab selected at first; either step stays among the tabs.
pub proof fn tab_moves_undo(tab: int, count: int)
    requires
        0 <= tab < count,
    ensures
        0 <= next_tab_index(tab, count) < count,
        0 <= previous_tab_index(tab, count) < count,
        previous_tab_index(next_tab_index(tab, count), count) == tab,
        next_tab_index(previous_tab_index(tab, count), count) == tab,
{
    if tab + 1 < count {
        assert((tab + 1) % count == tab + 1) by (nonlinear_arith)
            requires
                0 <= tab + 1 < count,
        ;
    } else {
        assert((tab + 1) % count == 0) by (nonlinear_arith)
            requires
                tab + 1 == count,
                count > 0,
        ;
    }
    if tab == 0 {
        assert(count % count == 0) by (nonlinear_arith)
            requires
                count > 0,
        ;
    } else {
        assert(tab % count == tab) by (nonlinear_arith)
            requires
                0 <= tab < count,
        ;
    }
}

/// With the sidebar focused, pressing up and then down, where up moved the selection,
/// returns to the channel selected at first; so does down and then up, where down moved
/// it. Either key keeps the selection among the channels.
pub proof fn channel_moves_undo(selected: int, count: int)
    requires
        0 <= selected < count,
    ensures
        0 <= channel_after_up(selected, true) < count,
        0 <= channel_after_down(selected, count, true) < count,
        selected > 0 ==> channel_after_down(channel_after_up(selected, true), count, true)
            == selected,
        selected < count - 1 ==> channel_after_up(channel_after_down(selected, count, true), true)
            == selected,
{
}

/// Up and down move the selection only while the sidebar has the focus.
pub proof fn channel_moves_need_sidebar(selected: int, count: int)
    ensures
        channel_after_up(selected, false) == selected,
        channel_after_down(selected, count, false) == selected,
{
}

} // verus!
