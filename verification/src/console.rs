//! The console's key handling: a key press and the console's state give the
//! next state and the one piece of outside work to do (start a doctor run,
//! open a folder, reload, quit, ...), which the terminal loop performs.
use vstd::prelude::*;
use crate::dash::{Page, TraceRate};
use crate::doctor::DoctorMode;
use crate::filters::FilterState;
use crate::key_bindings::{
    action_for, action_of, control_only, ctrl, lemma_enter_activates, lemma_global_shortcuts_everywhere, preserves_arm, stroke_matches, Action,
    KeyCode, KeyContext, KeyMods, KeyStroke, unmodified,
};
use crate::reload::WorktreeSelection;
use crate::text::{parse_unsigned, parse_unsigned_chars, push_char};

verus! {

/// How long a first ctrl+q waits for the second, in milliseconds.
pub const QUIT_CONFIRM_WINDOW_MS: u64 = 3000;

/// The dashboard's rows, top to bottom.
#[derive(Clone, Copy, PartialEq, Eq, Structural, Debug)]
pub enum Row {
    Tray,
    Web,
    Plugins,
    Emu,
    Doctor,
    Disk,
    Logs,
    Trace,
}

/// How many rows the dashboard has.
pub const DASHBOARD_ROWS: usize = 8;

/// The dashboard row at `i`.
pub open spec fn row_of(i: int) -> Row {
    if i == 0 {
        Row::Tray
    } else if i == 1 {
        Row::Web
    } else if i == 2 {
        Row::Plugins
    } else if i == 3 {
        Row::Emu
    } else if i == 4 {
        Row::Doctor
    } else if i == 5 {
        Row::Disk
    } else if i == 6 {
        Row::Logs
    } else {
        Row::Trace
    }
}

/// The dashboard row at `i` (see `row_of`).
pub fn row_at(i: usize) -> (r: Row)
    ensures
        r == row_of(i as int),
{
    if i == 0 {
        Row::Tray
    } else if i == 1 {
        Row::Web
    } else if i == 2 {
        Row::Plugins
    } else if i == 3 {
        Row::Emu
    } else if i == 4 {
        Row::Doctor
    } else if i == 5 {
        Row::Disk
    } else if i == 6 {
        Row::Logs
    } else {
        Row::Trace
    }
}

/// The outside work a key press asks for.
#[derive(Clone, Copy, PartialEq, Eq, Structural, Debug)]
pub enum Effect {
    /// Nothing beyond the state change.
    Nothing,
    /// Leave the console.
    Quit,
    /// Run the armed reload (a rebuild and handoff).
    Reload,
    /// The feature flags panel opened: keep its selection on a flag.
    FeatureFlagsOpened,
    /// The worktrees panel opened: list the worktrees.
    WorktreesOpened,
    /// The key belongs to the open feature flags panel.
    FeatureFlagsKey,
    /// The key belongs to the open worktrees panel.
    WorktreesKey,
    /// The key belongs to the open filter panel.
    FilterKey,
    /// Ask the tray to recompile, then to reload its plugins.
    Rebuild,
    /// Ask the tray to recompile.
    RebuildTray,
    /// Ask the tray to reload its plugins.
    ReloadPlugins,
    /// Open the website.
    OpenWebsite,
    /// Start a doctor run.
    StartDoctor(DoctorMode),
    /// Scan disk usage, unless a scan runs.
    ScanDisk,
    /// Clean the disk.
    CleanDisk,
    /// Act on the selected sandbox row, armed or not.
    ActEmu(bool),
    /// Link or unlink the selected plugin.
    ActPlugin,
    /// Open the selected sandbox's detail page.
    OpenEmuDetail,
    /// The detail page of a sandbox was left.
    CloseEmuDetail,
    /// Start the trace stream.
    StartTrace,
    /// The trace's detail setting changed: restart the stream.
    TraceDetailsToggled,
    /// The trace's rate changed: tell the user.
    TraceRateToggled,
    /// Copy the selected doctor row's detail.
    CopyDoctorDetail,
    /// Copy the newest lines of the page.
    CopyLines(usize),
    OpenLogFolder,
    OpenLogEditor,
    OpenLogRaw,
    OpenEmuDir,
    RunSandboxFlow,
    VerifySandboxImage,
}

/// What the key handling reads of the rest of the console.
#[derive(Clone, Copy, Debug)]
pub struct ViewFacts {
    /// Rows of the plugins page.
    pub plugin_rows: usize,
    /// Selectable rows of the sandboxes page.
    pub emu_rows: usize,
    /// Rows of the doctor page.
    pub doctor_rows: usize,
    /// The selected doctor row has a detail.
    pub doctor_has_detail: bool,
    /// Filters of the page shown.
    pub page_filters: usize,
    /// A disk scan has finished.
    pub disk_scanned: bool,
    /// The sandbox detail page shows cleanup warnings.
    pub emu_warnings: bool,
    /// Lines of the tray log.
    pub logs_len: usize,
    /// Lines of the trace.
    pub trace_len: usize,
    /// Lines of the sandbox detail page.
    pub emu_detail_len: usize,
    /// Lines of the disk page.
    pub disk_len: usize,
    /// Lines of the endpoints page.
    pub endpoints_len: usize,
    /// How many lanes a flow may start with at most.
    pub max_flow_lanes: u32,
}

/// The console's navigation state.
pub struct Console {
    pub page: Page,
    /// The dashboard's selected row.
    pub cursor: usize,
    pub plugin_cursor: usize,
    pub doctor_cursor: usize,
    pub emu_cursor: usize,
    /// How far a stream page is scrolled back from its newest line (or down
    /// from the top on the disk and endpoints pages).
    pub scroll_offset: usize,
    /// Lines a page shows at once.
    pub log_height: usize,
    /// The next action is armed.
    pub armed: bool,
    /// The worktree a reload targets.
    pub worktree_selection: WorktreeSelection,
    /// When the first ctrl+q was pressed, in milliseconds.
    pub quit_prompt_at: Option<u64>,
    pub keys_hidden: bool,
    /// Saved settings changed.
    pub state_dirty: bool,
    /// A copy is being sized.
    pub copying: bool,
    /// The line count typed for the copy.
    pub copy_count: String,
    pub doctor_detail_open: bool,
    pub filter_state: FilterState,
    pub filter_index: usize,
    pub feature_panel_open: bool,
    pub worktree_panel_open: bool,
    pub trace_details: bool,
    pub trace_rate: TraceRate,
    pub sandbox_flow_lanes: u32,
    /// Refresh the sandboxes soon.
    pub poke_emu: bool,
    /// Refresh the doctor soon.
    pub poke_doctor: bool,
    /// Refresh the plugin links soon.
    pub poke_links: bool,
}

/// The filter panel's state as plain values.
#[derive(Clone, Copy, PartialEq, Eq, Structural, Debug)]
pub enum FilterPhase {
    Closed,
    Managing,
    Editing,
}

/// The console's state as plain values.
#[verifier::ext_equal]
pub struct ConsoleModel {
    pub page: Page,
    pub cursor: nat,
    pub plugin_cursor: nat,
    pub doctor_cursor: nat,
    pub emu_cursor: nat,
    pub scroll_offset: nat,
    pub log_height: nat,
    pub armed: bool,
    /// `None` when following the marker, else the pinned branch (`None` for base).
    pub pin: Option<Option<Seq<char>>>,
    pub quit_prompt_at: Option<u64>,
    pub keys_hidden: bool,
    pub state_dirty: bool,
    pub copying: bool,
    pub copy_count: Seq<char>,
    pub doctor_detail_open: bool,
    pub filter: FilterPhase,
    pub filter_index: nat,
    pub feature_panel_open: bool,
    pub worktree_panel_open: bool,
    pub trace_details: bool,
    pub trace_rate: TraceRate,
    pub sandbox_flow_lanes: nat,
    pub poke_emu: bool,
    pub poke_doctor: bool,
    pub poke_links: bool,
}

/// The plain values of the console's state; an edited filter shows only as
/// being edited, as the key handling never changes one.
pub open spec fn model(c: Console) -> ConsoleModel {
    ConsoleModel {
        page: c.page,
        cursor: c.cursor as nat,
        plugin_cursor: c.plugin_cursor as nat,
        doctor_cursor: c.doctor_cursor as nat,
        emu_cursor: c.emu_cursor as nat,
        scroll_offset: c.scroll_offset as nat,
        log_height: c.log_height as nat,
        armed: c.armed,
        pin: match c.worktree_selection {
            WorktreeSelection::Follow => None,
            WorktreeSelection::Pin(b) => Some(
                match b {
                    Some(s) => Some(s@),
                    None => None,
                },
            ),
        },
        quit_prompt_at: c.quit_prompt_at,
        keys_hidden: c.keys_hidden,
        state_dirty: c.state_dirty,
        copying: c.copying,
        copy_count: c.copy_count@,
        doctor_detail_open: c.doctor_detail_open,
        filter: match c.filter_state {
            FilterState::Closed => FilterPhase::Closed,
            FilterState::Managing => FilterPhase::Managing,
            FilterState::Editing { .. } => FilterPhase::Editing,
        },
        filter_index: c.filter_index as nat,
        feature_panel_open: c.feature_panel_open,
        worktree_panel_open: c.worktree_panel_open,
        trace_details: c.trace_details,
        trace_rate: c.trace_rate,
        sandbox_flow_lanes: c.sandbox_flow_lanes as nat,
        poke_emu: c.poke_emu,
        poke_doctor: c.poke_doctor,
        poke_links: c.poke_links,
    }
}

/// The console's invariant: the dashboard cursor is on a row, and an edited
/// filter is kept as it is (the model does not see its text).
pub open spec fn console_wf(c: Console) -> bool {
    c.cursor < DASHBOARD_ROWS
}

/// The usize that `x` saturates to.
pub open spec fn sat(x: int) -> nat {
    if x < 0 {
        0
    } else if x > usize::MAX {
        usize::MAX as nat
    } else {
        x as nat
    }
}

/// Disarmed: the arm and any pinned worktree are dropped.
pub open spec fn disarmed(m: ConsoleModel) -> ConsoleModel {
    ConsoleModel { armed: false, pin: None, ..m }
}

/// The first ctrl+q was pressed less than the confirm window ago.
pub open spec fn quit_active(m: ConsoleModel, now: u64) -> bool {
    m.quit_prompt_at matches Some(t) && (if now >= t { now - t } else { 0 }) < QUIT_CONFIRM_WINDOW_MS
}

/// The feature flags panel toggled: closed if open, else opened with the
/// other panels, the copy and the arm closed.
pub open spec fn feature_toggle(m: ConsoleModel) -> (ConsoleModel, Effect) {
    if m.feature_panel_open {
        (ConsoleModel { feature_panel_open: false, ..m }, Effect::Nothing)
    } else {
        (
            ConsoleModel {
                filter: FilterPhase::Closed,
                worktree_panel_open: false,
                copying: false,
                armed: false,
                feature_panel_open: true,
                ..m
            },
            Effect::FeatureFlagsOpened,
        )
    }
}

/// The worktrees panel toggled: closed if open, else opened with the other
/// panels and the copy closed.
pub open spec fn worktree_toggle(m: ConsoleModel) -> (ConsoleModel, Effect) {
    if m.worktree_panel_open {
        (ConsoleModel { worktree_panel_open: false, ..m }, Effect::Nothing)
    } else {
        (
            ConsoleModel {
                filter: FilterPhase::Closed,
                feature_panel_open: false,
                copying: false,
                worktree_panel_open: true,
                ..m
            },
            Effect::WorktreesOpened,
        )
    }
}

/// A cursor over `total` rows moved one up or down, kept on the rows.
pub open spec fn cursor_moved(c: nat, total: nat, up: bool) -> nat {
    if up {
        sat(c - 1)
    } else {
        let last = sat(total - 1);
        if c + 1 < last { (c + 1) as nat } else { last }
    }
}

/// One line up or down: the disk and endpoints pages scroll from the top,
/// the pages with a cursor move it, the stream pages scroll back from the
/// newest line.
pub open spec fn scrolled(m: ConsoleModel, f: ViewFacts, up: bool) -> ConsoleModel {
    match m.page {
        Page::Disk | Page::Endpoints => ConsoleModel {
            scroll_offset: if up { sat(m.scroll_offset - 1) } else { sat(m.scroll_offset + 1int) },
            ..m
        },
        Page::Dashboard => ConsoleModel { cursor: cursor_moved(m.cursor, DASHBOARD_ROWS as nat, up), ..m },
        Page::Emu => ConsoleModel { emu_cursor: cursor_moved(m.emu_cursor, f.emu_rows as nat, up), ..m },
        Page::Plugins => ConsoleModel { plugin_cursor: cursor_moved(m.plugin_cursor, f.plugin_rows as nat, up), ..m },
        Page::Doctor => ConsoleModel { doctor_cursor: cursor_moved(m.doctor_cursor, f.doctor_rows as nat, up), ..m },
        _ => ConsoleModel {
            scroll_offset: if up { sat(m.scroll_offset + 1int) } else { sat(m.scroll_offset - 1) },
            ..m
        },
    }
}

/// The sandboxes page opened (and its inventory refreshed soon).
pub open spec fn opened_emu(m: ConsoleModel) -> ConsoleModel {
    ConsoleModel { page: Page::Emu, scroll_offset: 0, poke_emu: true, ..m }
}

/// The doctor page opened on its first row, details closed.
pub open spec fn opened_doctor(m: ConsoleModel) -> ConsoleModel {
    ConsoleModel {
        page: Page::Doctor,
        scroll_offset: 0,
        doctor_cursor: 0,
        doctor_detail_open: false,
        poke_doctor: true,
        ..m
    }
}

/// The disk page opened; a scan starts when none has finished yet.
pub open spec fn opened_disk(m: ConsoleModel, f: ViewFacts) -> (ConsoleModel, Effect) {
    (ConsoleModel { page: Page::Disk, scroll_offset: 0, ..m }, if f.disk_scanned {
        Effect::Nothing
    } else {
        Effect::ScanDisk
    })
}

/// Enter on a dashboard row (armed when `modified`).
pub open spec fn row_activated(m: ConsoleModel, modified: bool) -> (ConsoleModel, Effect) {
    match row_of(m.cursor as int) {
        Row::Tray => (m, if modified { Effect::Nothing } else { Effect::RebuildTray }),
        Row::Web => (m, if modified { Effect::Nothing } else { Effect::OpenWebsite }),
        Row::Plugins => (m, if modified { Effect::Nothing } else { Effect::ReloadPlugins }),
        Row::Emu => if modified { (m, Effect::Nothing) } else { (opened_emu(m), Effect::Nothing) },
        Row::Doctor => (m, Effect::StartDoctor(if modified { DoctorMode::Fix } else { DoctorMode::Check })),
        Row::Disk => (m, if modified { Effect::CleanDisk } else { Effect::ScanDisk }),
        Row::Logs | Row::Trace => (m, Effect::Nothing),
    }
}

/// → on a dashboard row: the row's page.
pub open spec fn row_dived(m: ConsoleModel, f: ViewFacts) -> (ConsoleModel, Effect) {
    match row_of(m.cursor as int) {
        Row::Tray => (m, Effect::Nothing),
        Row::Web => (ConsoleModel { page: Page::Endpoints, scroll_offset: 0, ..m }, Effect::Nothing),
        Row::Plugins => (
            ConsoleModel { page: Page::Plugins, scroll_offset: 0, plugin_cursor: 0, poke_links: true, ..m },
            Effect::Nothing,
        ),
        Row::Emu => (opened_emu(m), Effect::Nothing),
        Row::Doctor => (opened_doctor(m), Effect::Nothing),
        Row::Disk => opened_disk(m, f),
        Row::Logs => (ConsoleModel { page: Page::Logs, scroll_offset: 0, ..m }, Effect::Nothing),
        Row::Trace => (ConsoleModel { page: Page::Trace, scroll_offset: 0, ..m }, Effect::StartTrace),
    }
}

/// Whether a page's lines can be filtered.
pub open spec fn filterable(p: Page) -> bool {
    p is Logs || p is Trace || p is EmuDetail
}

/// ctrl+k: the keys panel hidden or shown, a setting that is saved.
pub open spec fn keys_toggled(m: ConsoleModel) -> ConsoleModel {
    ConsoleModel { keys_hidden: !m.keys_hidden, state_dirty: true, ..m }
}

/// Space: armed, or disarmed when it was.
pub open spec fn arm_toggled(m: ConsoleModel) -> ConsoleModel {
    if m.armed {
        disarmed(m)
    } else {
        ConsoleModel { armed: true, ..m }
    }
}

/// The trace's detail setting flipped (and saved).
pub open spec fn trace_details_toggled(m: ConsoleModel) -> ConsoleModel {
    ConsoleModel { trace_details: !m.trace_details, state_dirty: true, ..m }
}

/// The trace's rate flipped (and saved).
pub open spec fn trace_rate_toggled(m: ConsoleModel) -> ConsoleModel {
    ConsoleModel {
        trace_rate: if m.trace_rate == TraceRate::Relaxed { TraceRate::Realtime } else { TraceRate::Relaxed },
        state_dirty: true,
        ..m
    }
}

/// Enter on the page shown.
pub open spec fn activated(m: ConsoleModel, f: ViewFacts, modified: bool) -> (ConsoleModel, Effect) {
    match m.page {
        Page::Dashboard => row_activated(m, modified),
        Page::Emu => (m, Effect::ActEmu(modified)),
        Page::Plugins => (m, Effect::ActPlugin),
        Page::Disk => (m, if modified { Effect::CleanDisk } else { Effect::ScanDisk }),
        Page::Doctor => (ConsoleModel {
            doctor_detail_open: if m.doctor_detail_open { false } else { f.doctor_has_detail },
            ..m
        }, Effect::Nothing),
        _ => (m, Effect::Nothing),
    }
}

/// → on the page shown.
pub open spec fn dived(m: ConsoleModel, f: ViewFacts) -> (ConsoleModel, Effect) {
    match m.page {
        Page::Dashboard => row_dived(m, f),
        Page::Emu => (m, Effect::OpenEmuDetail),
        _ => (m, Effect::Nothing),
    }
}

/// ← or esc: back to the sandboxes from a sandbox's detail, else to the
/// dashboard, with details and filters closed and the scroll reset.
pub open spec fn went_back(m: ConsoleModel) -> ConsoleModel {
    ConsoleModel {
        doctor_detail_open: false,
        page: if m.page == Page::EmuDetail { Page::Emu } else { Page::Dashboard },
        scroll_offset: 0,
        filter_index: 0,
        filter: FilterPhase::Closed,
        ..m
    }
}

/// A page up, a page down (a page being the visible lines, at least one), or
/// back to following the newest line.
pub open spec fn paged(m: ConsoleModel, action: Action) -> ConsoleModel {
    let page_rows = if m.log_height > 1 { m.log_height } else { 1 };
    match action {
        Action::PageUp => ConsoleModel { scroll_offset: sat(m.scroll_offset + page_rows as int), ..m },
        Action::PageDown => ConsoleModel { scroll_offset: sat(m.scroll_offset - page_rows as int), ..m },
        _ => ConsoleModel { scroll_offset: 0, ..m },
    }
}

/// `/`: the filter panel opens on a filterable page, its selection kept on a filter.
pub open spec fn filter_opened(m: ConsoleModel, f: ViewFacts) -> ConsoleModel {
    if filterable(m.page) {
        ConsoleModel {
            filter: FilterPhase::Managing,
            filter_index: if m.filter_index < sat(f.page_filters - 1) { m.filter_index } else { sat(f.page_filters - 1) },
            ..m
        }
    } else {
        m
    }
}

/// `c`: on the doctor page the selected row's detail is copied; on a
/// filterable page a copy starts being sized.
pub open spec fn copy_started(m: ConsoleModel, f: ViewFacts) -> (ConsoleModel, Effect) {
    if m.page == Page::Doctor {
        (m, if f.doctor_has_detail { Effect::CopyDoctorDetail } else { Effect::Nothing })
    } else if filterable(m.page) {
        (ConsoleModel { copying: true, copy_count: Seq::empty(), scroll_offset: 0, ..m }, Effect::Nothing)
    } else {
        (m, Effect::Nothing)
    }
}

/// The sandboxes page's own actions; the flow lanes stay between one and the maximum.
pub open spec fn sandbox_acted(m: ConsoleModel, f: ViewFacts, action: Action) -> (ConsoleModel, Effect) {
    if m.page != Page::Emu {
        (m, Effect::Nothing)
    } else {
        match action {
            Action::OpenEmuDir => (m, Effect::OpenEmuDir),
            Action::RunSandboxFlow => (m, Effect::RunSandboxFlow),
            Action::DecreaseSandboxFlowLanes => (ConsoleModel {
                sandbox_flow_lanes: if m.sandbox_flow_lanes > 2 { (m.sandbox_flow_lanes - 1) as nat } else { 1 },
                ..m
            }, Effect::Nothing),
            Action::IncreaseSandboxFlowLanes => (ConsoleModel {
                sandbox_flow_lanes: if m.sandbox_flow_lanes + 1 < f.max_flow_lanes {
                    (m.sandbox_flow_lanes + 1) as nat
                } else {
                    f.max_flow_lanes as nat
                },
                ..m
            }, Effect::Nothing),
            _ => (m, Effect::VerifySandboxImage),
        }
    }
}

/// What an action does before the scroll position is kept in range.
#[verifier::opaque]
pub open spec fn action_effect(m: ConsoleModel, f: ViewFacts, action: Action, modified: bool) -> (ConsoleModel, Effect) {
    match action {
        Action::ToggleKeys => (keys_toggled(m), Effect::Nothing),
        Action::ToggleArm => (arm_toggled(m), Effect::Nothing),
        Action::FeatureFlags => feature_toggle(m),
        Action::Worktrees => worktree_toggle(m),
        Action::Rebuild => (m, Effect::Rebuild),
        Action::Doctor => (opened_doctor(m), Effect::Nothing),
        Action::ToggleTraceDetails => (trace_details_toggled(m), Effect::TraceDetailsToggled),
        Action::ToggleTraceRate => (trace_rate_toggled(m), Effect::TraceRateToggled),
        Action::Activate => activated(m, f, modified),
        Action::Dive => dived(m, f),
        Action::Back => (went_back(m), Effect::CloseEmuDetail),
        Action::ScrollUp => (scrolled(m, f, true), Effect::Nothing),
        Action::ScrollDown => (scrolled(m, f, false), Effect::Nothing),
        Action::PageUp | Action::PageDown | Action::Follow => (paged(m, action), Effect::Nothing),
        Action::Filter => (filter_opened(m, f), Effect::Nothing),
        Action::Copy => copy_started(m, f),
        Action::OpenCurrentLogFolder => (m, Effect::OpenLogFolder),
        Action::OpenCurrentLogEditor => (m, Effect::OpenLogEditor),
        Action::OpenCurrentLogRaw => (m, Effect::OpenLogRaw),
        Action::OpenEmuDir | Action::RunSandboxFlow | Action::DecreaseSandboxFlowLanes
        | Action::IncreaseSandboxFlowLanes | Action::VerifySandboxImage => sandbox_acted(m, f, action),
        Action::Quit | Action::Ignore => (m, Effect::Nothing),
    }
}

/// How many lines the page shows.
pub open spec fn page_len(p: Page, f: ViewFacts) -> nat {
    match p {
        Page::Trace => f.trace_len as nat,
        Page::EmuDetail => f.emu_detail_len as nat,
        Page::Disk => f.disk_len as nat,
        Page::Endpoints => f.endpoints_len as nat,
        _ => f.logs_len as nat,
    }
}

/// An action, after which the scroll position stays within the page's lines.
#[verifier::opaque]
pub open spec fn action_step(m: ConsoleModel, f: ViewFacts, action: Action, modified: bool) -> (ConsoleModel, Effect) {
    let (n, e) = action_effect(m, f, action, modified);
    let limit = sat(page_len(n.page, f) - n.log_height);
    (ConsoleModel { scroll_offset: if n.scroll_offset < limit { n.scroll_offset } else { limit }, ..n }, e)
}

/// A key while a copy is sized: digits add to the count, backspace removes
/// the last, enter copies that many newest lines (when a positive count fits
/// in a `usize`), esc cancels.
pub open spec fn copy_key(m: ConsoleModel, code: KeyCode) -> (ConsoleModel, Effect) {
    match code {
        KeyCode::Char(c) => if '0' <= c && c <= '9' {
            (ConsoleModel { copy_count: m.copy_count.push(c), ..m }, Effect::Nothing)
        } else {
            (m, Effect::Nothing)
        },
        KeyCode::Backspace => (ConsoleModel {
            copy_count: if m.copy_count.len() > 0 { m.copy_count.drop_last() } else { m.copy_count },
            ..m
        }, Effect::Nothing),
        KeyCode::Enter => (ConsoleModel { copying: false, copy_count: Seq::empty(), ..m }, match parse_unsigned(
            m.copy_count,
            usize::MAX as nat,
        ) {
            Some(n) => if n > 0 { Effect::CopyLines(n as usize) } else { Effect::Nothing },
            None => Effect::Nothing,
        }),
        KeyCode::Esc => (ConsoleModel { copying: false, copy_count: Seq::empty(), ..m }, Effect::Nothing),
        _ => (m, Effect::Nothing),
    }
}

/// The context the key bindings are chosen by.
pub open spec fn context_of(m: ConsoleModel, f: ViewFacts) -> KeyContext {
    KeyContext { page: m.page, trace_realtime: m.trace_rate == TraceRate::Realtime, emu_warnings: f.emu_warnings }
}

/// The action a key chooses (see `action_of`).
#[verifier::opaque]
pub open spec fn chosen_action(ctx: KeyContext, armed: bool, code: KeyCode, mods: KeyMods) -> Action {
    action_of(ctx, armed, code, mods)
}

fn choose_action(ctx: KeyContext, armed: bool, code: KeyCode, mods: KeyMods) -> (a: Action)
    ensures
        a == chosen_action(ctx, armed, code, mods),
{
    reveal(chosen_action);
    action_for(ctx, armed, code, mods)
}

/// An action chosen by a key on a console with no panel, filter or copy
/// open: a second ctrl+q within the window quits (a first one opens the
/// prompt and disarms), an armed ctrl+r reloads, and any other armed action
/// but navigation disarms after it runs.
#[verifier::opaque]
pub open spec fn action_key(m: ConsoleModel, f: ViewFacts, code: KeyCode, mods: KeyMods, now: u64) -> (ConsoleModel, Effect) {
    let action = chosen_action(context_of(m, f), m.armed, code, mods);
    if action == Action::Quit && quit_active(m, now) {
        (m, Effect::Quit)
    } else if action == Action::Quit {
        (ConsoleModel { quit_prompt_at: Some(now), ..(if m.armed { disarmed(m) } else { m }) }, Effect::Nothing)
    } else if action == Action::Rebuild && m.armed {
        (ConsoleModel { armed: false, ..m }, Effect::Reload)
    } else {
        let (m2, e) = action_step(m, f, action, m.armed);
        (if m.armed && !(action is ScrollUp || action is ScrollDown || action is PageUp || action is PageDown
            || action is Dive || action is Back || action is ToggleKeys || action is Follow) {
            disarmed(m2)
        } else {
            m2
        }, e)
    }
}

/// Where a key goes once the quit prompt was handled: ctrl+f and ctrl+w
/// toggle their panels; an open panel, filter or copy takes the key; esc
/// disarms an armed console; else the key's action runs (see `action_key`).
#[verifier::opaque]
pub open spec fn routed_key(m: ConsoleModel, f: ViewFacts, code: KeyCode, mods: KeyMods, now: u64) -> (ConsoleModel, Effect) {
    if stroke_matches(ctrl('f'), code, mods) {
        feature_toggle(m)
    } else if stroke_matches(ctrl('w'), code, mods) {
        worktree_toggle(m)
    } else if m.worktree_panel_open {
        (m, Effect::WorktreesKey)
    } else if m.feature_panel_open {
        (m, Effect::FeatureFlagsKey)
    } else if m.filter != FilterPhase::Closed {
        (m, Effect::FilterKey)
    } else if m.copying {
        copy_key(m, code)
    } else if m.armed && code == KeyCode::Esc {
        (disarmed(m), Effect::Nothing)
    } else {
        action_key(m, f, code, mods, now)
    }
}

/// A key press at `now`: any key but ctrl+q dismisses the quit prompt, then
/// the key goes where `routed_key` sends it.
pub open spec fn key_step(m: ConsoleModel, f: ViewFacts, code: KeyCode, mods: KeyMods, now: u64) -> (ConsoleModel, Effect) {
    let m1 = if m.quit_prompt_at is Some && !stroke_matches(ctrl('q'), code, mods) {
        ConsoleModel { quit_prompt_at: None, ..m }
    } else {
        m
    };
    routed_key(m1, f, code, mods, now)
}

/// The filter panel kept its edited filter, unless it no longer edits one.
pub open spec fn filter_kept(before: Console, after: Console) -> bool {
    after.filter_state == before.filter_state || !(after.filter_state is Editing)
}

fn without_last(s: &String) -> (r: String)
    ensures
        r@ == (if s@.len() > 0 { s@.drop_last() } else { s@ }),
{
    let digits = crate::text::chars_of(s.as_str());
    if digits.len() > 0 {
        let r = crate::text::string_of_range(&digits, 0, digits.len() - 1);
        assert(r@ =~= s@.drop_last());
        r
    } else {
        s.clone()
    }
}

fn moved_cursor(c: usize, total: usize, up: bool) -> (r: usize)
    ensures
        r == cursor_moved(c as nat, total as nat, up),
{
    if up {
        c.saturating_sub(1)
    } else {
        let last = total.saturating_sub(1);
        if c < last {
            c + 1
        } else {
            last
        }
    }
}

impl Console {
    /// Drops the arm and any pinned worktree.
    pub fn disarm(&mut self)
        ensures
            model(*final(self)) == disarmed(model(*old(self))),
            final(self).filter_state == old(self).filter_state,
    {
        self.armed = false;
        self.worktree_selection = WorktreeSelection::Follow;
    }

    /// Whether a second ctrl+q now would quit (see `quit_active`).
    pub fn quit_prompt_active(&self, now: u64) -> (b: bool)
        ensures
            b == quit_active(model(*self), now),
    {
        match self.quit_prompt_at {
            Some(t) => now.saturating_sub(t) < QUIT_CONFIRM_WINDOW_MS,
            None => false,
        }
    }

    fn toggle_feature_flags(&mut self) -> (e: Effect)
        ensures
            (model(*final(self)), e) == feature_toggle(model(*old(self))),
            filter_kept(*old(self), *final(self)),
    {
        if self.feature_panel_open {
            self.feature_panel_open = false;
            return Effect::Nothing;
        }
        self.filter_state = FilterState::Closed;
        self.worktree_panel_open = false;
        self.copying = false;
        self.armed = false;
        self.feature_panel_open = true;
        Effect::FeatureFlagsOpened
    }

    fn toggle_worktrees(&mut self) -> (e: Effect)
        ensures
            (model(*final(self)), e) == worktree_toggle(model(*old(self))),
            filter_kept(*old(self), *final(self)),
    {
        if self.worktree_panel_open {
            self.worktree_panel_open = false;
            return Effect::Nothing;
        }
        self.filter_state = FilterState::Closed;
        self.feature_panel_open = false;
        self.copying = false;
        self.worktree_panel_open = true;
        Effect::WorktreesOpened
    }

    #[verifier::rlimit(40)]
    fn scroll(&mut self, f: ViewFacts, up: bool)
        ensures
            model(*final(self)) == scrolled(model(*old(self)), f, up),
            final(self).filter_state == old(self).filter_state,
    {
        match self.page {
            Page::Disk | Page::Endpoints => {
                self.scroll_offset = if up {
                    self.scroll_offset.saturating_sub(1)
                } else {
                    self.scroll_offset.saturating_add(1)
                };
            },
            Page::Dashboard => {
                self.cursor = moved_cursor(self.cursor, DASHBOARD_ROWS, up);
            },
            Page::Emu => {
                self.emu_cursor = moved_cursor(self.emu_cursor, f.emu_rows, up);
            },
            Page::Plugins => {
                self.plugin_cursor = moved_cursor(self.plugin_cursor, f.plugin_rows, up);
            },
            Page::Doctor => {
                self.doctor_cursor = moved_cursor(self.doctor_cursor, f.doctor_rows, up);
            },
            _ => {
                self.scroll_offset = if up {
                    self.scroll_offset.saturating_add(1)
                } else {
                    self.scroll_offset.saturating_sub(1)
                };
            },
        }
    }

    fn open_emu(&mut self)
        ensures
            model(*final(self)) == opened_emu(model(*old(self))),
            final(self).filter_state == old(self).filter_state,
    {
        self.page = Page::Emu;
        self.scroll_offset = 0;
        self.poke_emu = true;
    }

    fn open_doctor(&mut self)
        ensures
            model(*final(self)) == opened_doctor(model(*old(self))),
            final(self).filter_state == old(self).filter_state,
    {
        self.page = Page::Doctor;
        self.scroll_offset = 0;
        self.doctor_cursor = 0;
        self.doctor_detail_open = false;
        self.poke_doctor = true;
    }

    fn act_row(&mut self, modified: bool) -> (e: Effect)
        requires
            console_wf(*old(self)),
        ensures
            (model(*final(self)), e) == row_activated(model(*old(self)), modified),
            final(self).filter_state == old(self).filter_state,
    {
        match row_at(self.cursor) {
            Row::Tray => if modified { Effect::Nothing } else { Effect::RebuildTray },
            Row::Web => if modified { Effect::Nothing } else { Effect::OpenWebsite },
            Row::Plugins => if modified { Effect::Nothing } else { Effect::ReloadPlugins },
            Row::Emu => {
                if !modified {
                    self.open_emu();
                }
                Effect::Nothing
            },
            Row::Doctor => Effect::StartDoctor(if modified { DoctorMode::Fix } else { DoctorMode::Check }),
            Row::Disk => if modified { Effect::CleanDisk } else { Effect::ScanDisk },
            Row::Logs | Row::Trace => Effect::Nothing,
        }
    }

    #[verifier::rlimit(40)]
    fn dive_row(&mut self, f: ViewFacts) -> (e: Effect)
        requires
            console_wf(*old(self)),
        ensures
            (model(*final(self)), e) == row_dived(model(*old(self)), f),
            final(self).filter_state == old(self).filter_state,
    {
        match row_at(self.cursor) {
            Row::Tray => Effect::Nothing,
            Row::Web => {
                self.page = Page::Endpoints;
                self.scroll_offset = 0;
                Effect::Nothing
            },
            Row::Plugins => {
                self.page = Page::Plugins;
                self.scroll_offset = 0;
                self.plugin_cursor = 0;
                self.poke_links = true;
                Effect::Nothing
            },
            Row::Emu => {
                self.open_emu();
                Effect::Nothing
            },
            Row::Doctor => {
                self.open_doctor();
                Effect::Nothing
            },
            Row::Disk => {
                self.page = Page::Disk;
                self.scroll_offset = 0;
                if f.disk_scanned {
                    Effect::Nothing
                } else {
                    Effect::ScanDisk
                }
            },
            Row::Logs => {
                self.page = Page::Logs;
                self.scroll_offset = 0;
                Effect::Nothing
            },
            Row::Trace => {
                self.page = Page::Trace;
                self.scroll_offset = 0;
                Effect::StartTrace
            },
        }
    }
}

impl Console {
    #[verifier::rlimit(40)]
    fn open_filter(&mut self, f: ViewFacts)
        ensures
            model(*final(self)) == filter_opened(model(*old(self)), f),
            filter_kept(*old(self), *final(self)),
    {
        let ghost m = model(*self);
        if matches!(self.page, Page::Logs | Page::Trace | Page::EmuDetail) {
            let last = f.page_filters.saturating_sub(1);
            let index = if self.filter_index < last { self.filter_index } else { last };
            self.filter_state = FilterState::Managing;
            self.filter_index = index;
            assert(model(*self) =~= filter_opened(m, f));
        } else {
            assert(model(*self) =~= filter_opened(m, f));
        }
    }

    fn start_copy(&mut self, f: ViewFacts) -> (e: Effect)
        ensures
            (model(*final(self)), e) == copy_started(model(*old(self)), f),
            final(self).filter_state == old(self).filter_state,
    {
        if self.page == Page::Doctor {
            if f.doctor_has_detail {
                Effect::CopyDoctorDetail
            } else {
                Effect::Nothing
            }
        } else if matches!(self.page, Page::Logs | Page::Trace | Page::EmuDetail) {
            self.copying = true;
            self.copy_count = String::new();
            self.scroll_offset = 0;
            Effect::Nothing
        } else {
            Effect::Nothing
        }
    }

    fn activate(&mut self, f: ViewFacts, modified: bool) -> (e: Effect)
        requires
            console_wf(*old(self)),
        ensures
            (model(*final(self)), e) == activated(model(*old(self)), f, modified),
            final(self).filter_state == old(self).filter_state,
    {
        match self.page {
            Page::Dashboard => self.act_row(modified),
            Page::Emu => Effect::ActEmu(modified),
            Page::Plugins => Effect::ActPlugin,
            Page::Disk => if modified { Effect::CleanDisk } else { Effect::ScanDisk },
            Page::Doctor => {
                self.doctor_detail_open = if self.doctor_detail_open { false } else { f.doctor_has_detail };
                Effect::Nothing
            },
            _ => Effect::Nothing,
        }
    }

    fn dive(&mut self, f: ViewFacts) -> (e: Effect)
        requires
            console_wf(*old(self)),
        ensures
            (model(*final(self)), e) == dived(model(*old(self)), f),
            final(self).filter_state == old(self).filter_state,
    {
        match self.page {
            Page::Dashboard => self.dive_row(f),
            Page::Emu => Effect::OpenEmuDetail,
            _ => Effect::Nothing,
        }
    }

    fn go_back(&mut self)
        ensures
            model(*final(self)) == went_back(model(*old(self))),
            filter_kept(*old(self), *final(self)),
    {
        self.doctor_detail_open = false;
        self.page = if self.page == Page::EmuDetail { Page::Emu } else { Page::Dashboard };
        self.scroll_offset = 0;
        self.filter_index = 0;
        self.filter_state = FilterState::Closed;
    }

    fn page_move(&mut self, action: Action)
        ensures
            model(*final(self)) == paged(model(*old(self)), action),
            final(self).filter_state == old(self).filter_state,
    {
        let page_rows = if self.log_height > 1 { self.log_height } else { 1 };
        match action {
            Action::PageUp => self.scroll_offset = self.scroll_offset.saturating_add(page_rows),
            Action::PageDown => self.scroll_offset = self.scroll_offset.saturating_sub(page_rows),
            _ => self.scroll_offset = 0,
        }
    }

    #[verifier::rlimit(40)]
    fn sandbox_action(&mut self, f: ViewFacts, action: Action) -> (e: Effect)
        ensures
            (model(*final(self)), e) == sandbox_acted(model(*old(self)), f, action),
            final(self).filter_state == old(self).filter_state,
    {
        let ghost m = model(*self);
        if self.page != Page::Emu {
            return Effect::Nothing;
        }
        match action {
            Action::OpenEmuDir => Effect::OpenEmuDir,
            Action::RunSandboxFlow => Effect::RunSandboxFlow,
            Action::DecreaseSandboxFlowLanes => {
                let lanes = if self.sandbox_flow_lanes > 2 { self.sandbox_flow_lanes - 1 } else { 1 };
                self.sandbox_flow_lanes = lanes;
                assert(model(*self) =~= sandbox_acted(m, f, action).0);
                Effect::Nothing
            },
            Action::IncreaseSandboxFlowLanes => {
                let lanes = if self.sandbox_flow_lanes < f.max_flow_lanes && self.sandbox_flow_lanes + 1
                    < f.max_flow_lanes {
                    self.sandbox_flow_lanes + 1
                } else {
                    f.max_flow_lanes
                };
                self.sandbox_flow_lanes = lanes;
                assert(model(*self) =~= sandbox_acted(m, f, action).0);
                Effect::Nothing
            },
            _ => Effect::VerifySandboxImage,
        }
    }

    fn toggle_keys(&mut self)
        ensures
            model(*final(self)) == keys_toggled(model(*old(self))),
            final(self).filter_state == old(self).filter_state,
    {
        self.keys_hidden = !self.keys_hidden;
        self.state_dirty = true;
    }

    fn toggle_arm(&mut self)
        ensures
            model(*final(self)) == arm_toggled(model(*old(self))),
            final(self).filter_state == old(self).filter_state,
    {
        if self.armed {
            self.disarm();
        } else {
            self.armed = true;
        }
    }

    fn toggle_trace_details(&mut self)
        ensures
            model(*final(self)) == trace_details_toggled(model(*old(self))),
            final(self).filter_state == old(self).filter_state,
    {
        self.trace_details = !self.trace_details;
        self.state_dirty = true;
    }

    fn toggle_trace_rate(&mut self)
        ensures
            model(*final(self)) == trace_rate_toggled(model(*old(self))),
            final(self).filter_state == old(self).filter_state,
    {
        self.trace_rate = match self.trace_rate {
            TraceRate::Relaxed => TraceRate::Realtime,
            TraceRate::Realtime => TraceRate::Relaxed,
        };
        self.state_dirty = true;
    }
}

impl Console {
    fn page_len(&self, f: ViewFacts) -> (n: usize)
        ensures
            n == page_len(self.page, f),
    {
        match self.page {
            Page::Trace => f.trace_len,
            Page::EmuDetail => f.emu_detail_len,
            Page::Disk => f.disk_len,
            Page::Endpoints => f.endpoints_len,
            _ => f.logs_len,
        }
    }

    #[verifier::rlimit(80)]
    fn run_action(&mut self, f: ViewFacts, action: Action, modified: bool) -> (e: Effect)
        requires
            console_wf(*old(self)),
        ensures
            (model(*final(self)), e) == action_effect(model(*old(self)), f, action, modified),
            filter_kept(*old(self), *final(self)),
            console_wf(*final(self)),
    {
        reveal(action_effect);
        match action {
            Action::ToggleKeys => {
                self.toggle_keys();
                Effect::Nothing
            },
            Action::ToggleArm => {
                self.toggle_arm();
                Effect::Nothing
            },
            Action::FeatureFlags => self.toggle_feature_flags(),
            Action::Worktrees => self.toggle_worktrees(),
            Action::Rebuild => Effect::Rebuild,
            Action::Doctor => {
                self.open_doctor();
                Effect::Nothing
            },
            Action::ToggleTraceDetails => {
                self.toggle_trace_details();
                Effect::TraceDetailsToggled
            },
            Action::ToggleTraceRate => {
                self.toggle_trace_rate();
                Effect::TraceRateToggled
            },
            Action::Activate => self.activate(f, modified),
            Action::Dive => self.dive(f),
            Action::Back => {
                self.go_back();
                Effect::CloseEmuDetail
            },
            Action::ScrollUp => {
                self.scroll(f, true);
                Effect::Nothing
            },
            Action::ScrollDown => {
                self.scroll(f, false);
                Effect::Nothing
            },
            Action::PageUp | Action::PageDown | Action::Follow => {
                self.page_move(action);
                Effect::Nothing
            },
            Action::Filter => {
                self.open_filter(f);
                Effect::Nothing
            },
            Action::Copy => self.start_copy(f),
            Action::OpenCurrentLogFolder => Effect::OpenLogFolder,
            Action::OpenCurrentLogEditor => Effect::OpenLogEditor,
            Action::OpenCurrentLogRaw => Effect::OpenLogRaw,
            Action::OpenEmuDir | Action::RunSandboxFlow | Action::DecreaseSandboxFlowLanes
            | Action::IncreaseSandboxFlowLanes | Action::VerifySandboxImage => self.sandbox_action(f, action),
            Action::Quit | Action::Ignore => Effect::Nothing,
        }
    }

    /// Runs an action (armed when `modified`), then keeps the scroll position
    /// within the page's lines (see `action_step`).
    #[verifier::rlimit(100)]
    pub fn apply_action(&mut self, f: ViewFacts, action: Action, modified: bool) -> (e: Effect)
        requires
            console_wf(*old(self)),
        ensures
            (model(*final(self)), e) == action_step(model(*old(self)), f, action, modified),
            filter_kept(*old(self), *final(self)),
            console_wf(*final(self)),
    {
        reveal(action_step);
        let e = self.run_action(f, action, modified);
        let ghost n = model(*self);
        let limit = self.page_len(f).saturating_sub(self.log_height);
        if self.scroll_offset >= limit {
            self.scroll_offset = limit;
        }
        assert(model(*self) =~= action_step(model(*old(self)), f, action, modified).0);
        e
    }

    fn push_digit(&mut self, c: char)
        ensures
            model(*final(self)) == (ConsoleModel { copy_count: model(*old(self)).copy_count.push(c), ..model(*old(self)) }),
            final(self).filter_state == old(self).filter_state,
    {
        push_char(&mut self.copy_count, c);
    }

    fn pop_digit(&mut self)
        ensures
            model(*final(self)) == (ConsoleModel {
                copy_count: if model(*old(self)).copy_count.len() > 0 {
                    model(*old(self)).copy_count.drop_last()
                } else {
                    model(*old(self)).copy_count
                },
                ..model(*old(self))
            }),
            final(self).filter_state == old(self).filter_state,
    {
        let kept = without_last(&self.copy_count);
        self.copy_count = kept;
    }

    fn end_copy(&mut self)
        ensures
            model(*final(self)) == (ConsoleModel { copying: false, copy_count: Seq::empty(), ..model(*old(self)) }),
            final(self).filter_state == old(self).filter_state,
    {
        self.copying = false;
        self.copy_count = String::new();
    }

    /// A key while a copy is sized (see `copy_key`).
    #[verifier::rlimit(40)]
    pub fn copy_key(&mut self, code: KeyCode) -> (e: Effect)
        ensures
            (model(*final(self)), e) == copy_key(model(*old(self)), code),
            final(self).filter_state == old(self).filter_state,
            final(self).cursor == old(self).cursor,
    {
        match code {
            KeyCode::Char(c) => {
                if '0' <= c && c <= '9' {
                    self.push_digit(c);
                }
                Effect::Nothing
            },
            KeyCode::Backspace => {
                self.pop_digit();
                Effect::Nothing
            },
            KeyCode::Enter => {
                let digits = crate::text::chars_of(self.copy_count.as_str());
                let count = parse_unsigned_chars(&digits, usize::MAX as u64);
                self.end_copy();
                match count {
                    Some(n) => if n > 0 {
                        Effect::CopyLines(n as usize)
                    } else {
                        Effect::Nothing
                    },
                    None => Effect::Nothing,
                }
            },
            KeyCode::Esc => {
                self.end_copy();
                Effect::Nothing
            },
            _ => Effect::Nothing,
        }
    }

    #[verifier::rlimit(40)]
    fn action_key(&mut self, f: ViewFacts, code: KeyCode, mods: KeyMods, now: u64) -> (e: Effect)
        requires
            console_wf(*old(self)),
        ensures
            (model(*final(self)), e) == action_key(model(*old(self)), f, code, mods, now),
            filter_kept(*old(self), *final(self)),
            console_wf(*final(self)),
    {
        reveal(action_key);
        let modified = self.armed;
        let ctx = KeyContext {
            page: self.page,
            trace_realtime: self.trace_rate.is_realtime(),
            emu_warnings: f.emu_warnings,
        };
        let action = choose_action(ctx, modified, code, mods);
        if action == Action::Quit && self.quit_prompt_active(now) {
            return Effect::Quit;
        }
        if action == Action::Quit {
            if modified {
                self.disarm();
            }
            self.quit_prompt_at = Some(now);
            return Effect::Nothing;
        }
        if action == Action::Rebuild && modified {
            self.armed = false;
            return Effect::Reload;
        }
        let e = self.apply_action(f, action, modified);
        if modified && !preserves_arm(action) {
            self.disarm();
        }
        e
    }

    #[verifier::rlimit(40)]
    fn route_key(&mut self, f: ViewFacts, code: KeyCode, mods: KeyMods, now: u64) -> (e: Effect)
        requires
            console_wf(*old(self)),
        ensures
            (model(*final(self)), e) == routed_key(model(*old(self)), f, code, mods, now),
            filter_kept(*old(self), *final(self)),
            console_wf(*final(self)),
    {
        reveal(routed_key);
        if (KeyStroke { code: KeyCode::Char('f'), ctrl: true }).matches(code, mods) {
            return self.toggle_feature_flags();
        }
        if (KeyStroke { code: KeyCode::Char('w'), ctrl: true }).matches(code, mods) {
            return self.toggle_worktrees();
        }
        if self.worktree_panel_open {
            return Effect::WorktreesKey;
        }
        if self.feature_panel_open {
            return Effect::FeatureFlagsKey;
        }
        if self.filter_state.is_active() {
            return Effect::FilterKey;
        }
        if self.copying {
            return self.copy_key(code);
        }
        if self.armed && code == KeyCode::Esc {
            self.disarm();
            return Effect::Nothing;
        }
        self.action_key(f, code, mods, now)
    }

    /// A key press at `now` (milliseconds of a steady clock): the next state
    /// and the outside work it asks for (see `key_step`).
    pub fn handle_key(&mut self, f: ViewFacts, code: KeyCode, mods: KeyMods, now: u64) -> (e: Effect)
        requires
            console_wf(*old(self)),
        ensures
            (model(*final(self)), e) == key_step(model(*old(self)), f, code, mods, now),
            filter_kept(*old(self), *final(self)),
            console_wf(*final(self)),
    {
        let quit_key = KeyStroke { code: KeyCode::Char('q'), ctrl: true }.matches(code, mods);
        if self.quit_prompt_at.is_some() && !quit_key {
            self.quit_prompt_at = None;
        }
        self.route_key(f, code, mods, now)
    }
}

/// No panel, filter or copy is open, so keys reach the page.
pub open spec fn keys_reach_page(m: ConsoleModel) -> bool {
    !m.feature_panel_open && !m.worktree_panel_open && m.filter == FilterPhase::Closed && !m.copying
}

/// ctrl+q quits only when pressed again within the confirm window: when keys
/// reach the page and no prompt is open, a first press opens the prompt
/// without quitting, and a second press before the window ends quits.
pub proof fn lemma_quit_needs_two_presses(m: ConsoleModel, f: ViewFacts, mods: KeyMods, t1: u64, t2: u64)
    requires
        keys_reach_page(m),
        m.quit_prompt_at is None,
        control_only(mods),
        t1 <= t2,
        t2 - t1 < QUIT_CONFIRM_WINDOW_MS,
    ensures
        key_step(m, f, KeyCode::Char('q'), mods, t1).1 == Effect::Nothing,
        key_step(m, f, KeyCode::Char('q'), mods, t1).0.quit_prompt_at == Some(t1),
        key_step(key_step(m, f, KeyCode::Char('q'), mods, t1).0, f, KeyCode::Char('q'), mods, t2).1 == Effect::Quit,
{
    reveal(routed_key);
    reveal(action_key);
    reveal(chosen_action);
    let q = KeyCode::Char('q');
    lemma_global_shortcuts_everywhere(context_of(m, f), m.armed, mods);
    let m2 = key_step(m, f, q, mods, t1).0;
    assert(m2.quit_prompt_at == Some(t1));
    lemma_global_shortcuts_everywhere(context_of(m2, f), m2.armed, mods);
    assert(stroke_matches(ctrl('q'), q, mods));
}

/// Esc on an armed console whose keys reach the page only disarms: nothing
/// runs, the console does not quit, and the page stays.
pub proof fn lemma_esc_disarms_without_quitting(m: ConsoleModel, f: ViewFacts, mods: KeyMods, now: u64)
    requires
        keys_reach_page(m),
        m.armed,
    ensures
        key_step(m, f, KeyCode::Esc, mods, now).1 == Effect::Nothing,
        !key_step(m, f, KeyCode::Esc, mods, now).0.armed,
        key_step(m, f, KeyCode::Esc, mods, now).0.pin is None,
        key_step(m, f, KeyCode::Esc, mods, now).0.page == m.page,
{
    reveal(routed_key);
}

/// An armed ctrl+r asks for the reload, from any page whose keys reach it,
/// and leaves the console unarmed.
pub proof fn lemma_armed_ctrl_r_reloads(m: ConsoleModel, f: ViewFacts, mods: KeyMods, now: u64)
    requires
        keys_reach_page(m),
        m.armed,
        control_only(mods),
    ensures
        key_step(m, f, KeyCode::Char('r'), mods, now).1 == Effect::Reload,
        !key_step(m, f, KeyCode::Char('r'), mods, now).0.armed,
{
    reveal(routed_key);
    reveal(action_key);
    reveal(chosen_action);
    lemma_global_shortcuts_everywhere(context_of(m, f), m.armed, mods);
    let m1 = if m.quit_prompt_at is Some && !stroke_matches(ctrl('q'), KeyCode::Char('r'), mods) {
        ConsoleModel { quit_prompt_at: None, ..m }
    } else {
        m
    };
    lemma_global_shortcuts_everywhere(context_of(m1, f), m1.armed, mods);
}

/// Enter on the disk row or the disk page never deletes anything unarmed:
/// a disk cleanup is asked for only by an armed Enter, and there an armed
/// Enter asks for the cleanup while a plain one asks for a scan.
pub proof fn lemma_disk_cleanup_needs_the_arm(m: ConsoleModel, f: ViewFacts, modified: bool)
    ensures
        activated(m, f, modified).1 == Effect::CleanDisk ==> modified,
        (m.page == Page::Dashboard && m.cursor == 5) || m.page == Page::Disk ==> activated(m, f, false).1
            == Effect::ScanDisk && activated(m, f, true).1 == Effect::CleanDisk,
        (m.page == Page::Dashboard && m.cursor == 5) ==> row_activated(m, false).1 == Effect::ScanDisk
            && row_activated(m, true).1 == Effect::CleanDisk,
{
}

/// Enter on each dashboard row, top to bottom: the tray row rebuilds the
/// tray, the web row opens the website, the plugins row reloads the plugins,
/// the sandboxes row opens the sandboxes page, the doctor row runs the
/// checks, the disk row scans; logs and trace do nothing. Armed, Enter fixes
/// on the doctor row, cleans on the disk row, and does nothing elsewhere.
/// So an unarmed Enter never fixes or cleans.
pub proof fn lemma_dashboard_enter_by_row(m: ConsoleModel, f: ViewFacts)
    requires
        m.page == Page::Dashboard,
        m.cursor < DASHBOARD_ROWS,
    ensures
        m.cursor == 0 ==> activated(m, f, false).1 == Effect::RebuildTray && activated(m, f, true).1 == Effect::Nothing,
        m.cursor == 1 ==> activated(m, f, false).1 == Effect::OpenWebsite && activated(m, f, true).1 == Effect::Nothing,
        m.cursor == 2 ==> activated(m, f, false).1 == Effect::ReloadPlugins && activated(m, f, true).1 == Effect::Nothing,
        m.cursor == 3 ==> activated(m, f, false).1 == Effect::Nothing && activated(m, f, false).0.page == Page::Emu
            && activated(m, f, true) == (m, Effect::Nothing),
        m.cursor == 4 ==> activated(m, f, false).1 == Effect::StartDoctor(DoctorMode::Check) && activated(m, f, true).1
            == Effect::StartDoctor(DoctorMode::Fix),
        m.cursor == 5 ==> activated(m, f, false).1 == Effect::ScanDisk && activated(m, f, true).1 == Effect::CleanDisk,
        m.cursor >= 6 ==> activated(m, f, false).1 == Effect::Nothing && activated(m, f, true).1 == Effect::Nothing,
        activated(m, f, false).1 != Effect::CleanDisk && activated(m, f, false).1 != Effect::StartDoctor(DoctorMode::Fix),
{
}

/// Enter on the dashboard's disk row (cursor 5), with keys reaching the
/// page and no modifier but shift: an unarmed console asks for a disk scan,
/// an armed one for the cleanup, and is disarmed after.
pub proof fn lemma_enter_on_the_disk_row(m: ConsoleModel, f: ViewFacts, mods: KeyMods, now: u64)
    requires
        keys_reach_page(m),
        m.page == Page::Dashboard,
        m.cursor == 5,
        unmodified(mods),
    ensures
        key_step(m, f, KeyCode::Enter, mods, now).1 == (if m.armed { Effect::CleanDisk } else { Effect::ScanDisk }),
        !key_step(m, f, KeyCode::Enter, mods, now).0.armed,
{
    reveal(routed_key);
    reveal(action_key);
    reveal(chosen_action);
    reveal(action_effect);
    reveal(action_step);
    let m1 = if m.quit_prompt_at is Some && !stroke_matches(ctrl('q'), KeyCode::Enter, mods) {
        ConsoleModel { quit_prompt_at: None, ..m }
    } else {
        m
    };
    lemma_enter_activates(context_of(m1, f), m1.armed, mods);
}

/// Enter on the plugins page, with keys reaching the page and no modifier
/// but shift, links or unlinks the selected plugin, armed or not.
pub proof fn lemma_enter_on_plugins_toggles_the_link(m: ConsoleModel, f: ViewFacts, mods: KeyMods, now: u64)
    requires
        keys_reach_page(m),
        m.page == Page::Plugins,
        unmodified(mods),
    ensures
        key_step(m, f, KeyCode::Enter, mods, now).1 == Effect::ActPlugin,
{
    reveal(routed_key);
    reveal(action_key);
    reveal(chosen_action);
    reveal(action_effect);
    reveal(action_step);
    let m1 = if m.quit_prompt_at is Some && !stroke_matches(ctrl('q'), KeyCode::Enter, mods) {
        ConsoleModel { quit_prompt_at: None, ..m }
    } else {
        m
    };
    lemma_enter_activates(context_of(m1, f), m1.armed, mods);
}

/// The console as it starts: the dashboard, nothing selected, armed or open,
/// the trace relaxed and one flow lane.
pub open spec fn initial_model() -> ConsoleModel {
    ConsoleModel {
        page: Page::Dashboard,
        cursor: 0,
        plugin_cursor: 0,
        doctor_cursor: 0,
        emu_cursor: 0,
        scroll_offset: 0,
        log_height: 0,
        armed: false,
        pin: None,
        quit_prompt_at: None,
        keys_hidden: false,
        state_dirty: false,
        copying: false,
        copy_count: Seq::empty(),
        doctor_detail_open: false,
        filter: FilterPhase::Closed,
        filter_index: 0,
        feature_panel_open: false,
        worktree_panel_open: false,
        trace_details: false,
        trace_rate: TraceRate::Relaxed,
        sandbox_flow_lanes: 1,
        poke_emu: false,
        poke_doctor: false,
        poke_links: false,
    }
}

impl Console {
    /// The console as it starts (see `initial_model`).
    pub fn new() -> (c: Console)
        ensures
            model(c) == initial_model(),
            console_wf(c),
    {
        Console {
            page: Page::Dashboard,
            cursor: 0,
            plugin_cursor: 0,
            doctor_cursor: 0,
            emu_cursor: 0,
            scroll_offset: 0,
            log_height: 0,
            armed: false,
            worktree_selection: WorktreeSelection::Follow,
            quit_prompt_at: None,
            keys_hidden: false,
            state_dirty: false,
            copying: false,
            copy_count: String::new(),
            doctor_detail_open: false,
            filter_state: FilterState::Closed,
            filter_index: 0,
            feature_panel_open: false,
            worktree_panel_open: false,
            trace_details: false,
            trace_rate: TraceRate::Relaxed,
            sandbox_flow_lanes: 1,
            poke_emu: false,
            poke_doctor: false,
            poke_links: false,
        }
    }
}

} // verus!
