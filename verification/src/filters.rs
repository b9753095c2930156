//! Per-page include/exclude filters over log lines.
use vstd::prelude::*;
use crate::dash::Page;
use crate::key_bindings::KeyCode;
use crate::picker::{
    bricks_of, clipped_len, filter_text, filter_text_width, layout_spec, lemma_bricks_of, moved_selection,
    move_picker_selection, picker_brick_layout, PickerBrick, PickerMove, FILTER_BRICK_CHROME,
};
use crate::text::{chars_of, contains, string_of, trim, trimmed, vec_contains};

verus! {

/// Whether a filter keeps or drops the lines it matches.
#[derive(Clone, Copy, PartialEq, Eq, Structural, Debug)]
pub enum FilterStrategy {
    /// Keep only matching lines.
    Include,
    /// Drop matching lines.
    Exclude,
}

impl FilterStrategy {
    /// The strategy's symbol.
    pub fn symbol(self) -> (s: &'static str)
        ensures
            self == FilterStrategy::Include ==> s@ == "+"@,
            self == FilterStrategy::Exclude ==> s@ == "-"@,
    {
        match self {
            FilterStrategy::Include => "+",
            FilterStrategy::Exclude => "-",
        }
    }

    /// The other strategy.
    pub fn cycle(self) -> (r: Self)
        ensures
            r != self,
    {
        match self {
            FilterStrategy::Include => FilterStrategy::Exclude,
            FilterStrategy::Exclude => FilterStrategy::Include,
        }
    }
}

/// One saved filter: a strategy and the text it looks for.
#[derive(Clone, PartialEq, Eq, Debug)]
pub struct LogFilter {
    /// Keep or drop.
    pub strategy: FilterStrategy,
    /// The text searched for; an empty text matches nothing.
    pub text: String,
}

/// The filter lists a page reads.
#[derive(Clone, Copy, PartialEq, Eq, Structural, Debug)]
pub enum FilterScope {
    /// The tray log.
    Logs,
    /// The trace stream.
    Trace,
    /// A sandbox log.
    Emu,
}

/// The filter scope of each page that filters its lines.
pub open spec fn scope_of(view: Page) -> Option<FilterScope> {
    match view {
        Page::Logs => Some(FilterScope::Logs),
        Page::Trace => Some(FilterScope::Trace),
        Page::EmuDetail => Some(FilterScope::Emu),
        _ => None,
    }
}

/// The filter scope of `view`, if the page filters its lines.
pub fn filter_scope(view: Page) -> (r: Option<FilterScope>)
    ensures
        r == scope_of(view),
{
    match view {
        Page::Logs => Some(FilterScope::Logs),
        Page::Trace => Some(FilterScope::Trace),
        Page::EmuDetail => Some(FilterScope::Emu),
        Page::Dashboard | Page::Doctor | Page::Disk | Page::Plugins | Page::Emu | Page::Endpoints => None,
    }
}

/// The saved filters of every filtering page.
#[derive(Clone, PartialEq, Eq, Debug)]
pub struct ViewFilters {
    /// Filters of the tray log.
    pub logs: Vec<LogFilter>,
    /// Filters of the trace stream.
    pub trace: Vec<LogFilter>,
    /// Filters of sandbox logs.
    pub emu: Vec<LogFilter>,
}

impl ViewFilters {
    /// No filters anywhere.
    pub fn new() -> (r: Self)
        ensures
            r.logs@.len() == 0 && r.trace@.len() == 0 && r.emu@.len() == 0,
    {
        ViewFilters { logs: Vec::new(), trace: Vec::new(), emu: Vec::new() }
    }

    /// The filters that `view` applies (none for a page that does not filter).
    pub fn for_view(&self, view: Page) -> (r: &[LogFilter])
        ensures
            r@ == match scope_of(view) {
                Some(FilterScope::Logs) => self.logs@,
                Some(FilterScope::Trace) => self.trace@,
                Some(FilterScope::Emu) => self.emu@,
                None => Seq::<LogFilter>::empty(),
            },
    {
        match filter_scope(view) {
            Some(FilterScope::Logs) => self.logs.as_slice(),
            Some(FilterScope::Trace) => self.trace.as_slice(),
            Some(FilterScope::Emu) => self.emu.as_slice(),
            None => &[],
        }
    }

    /// The editable filter list of `view`, if the page filters its lines.
    pub fn for_view_mut(&mut self, view: Page) -> (r: Option<&mut Vec<LogFilter>>)
        ensures
            r is Some <==> scope_of(view) is Some,
            match scope_of(view) {
                Some(FilterScope::Logs) => r matches Some(l) && *l == old(self).logs
                    && *final(self) == (ViewFilters { logs: *final(l), ..*old(self) }),
                Some(FilterScope::Trace) => r matches Some(l) && *l == old(self).trace
                    && *final(self) == (ViewFilters { trace: *final(l), ..*old(self) }),
                Some(FilterScope::Emu) => r matches Some(l) && *l == old(self).emu
                    && *final(self) == (ViewFilters { emu: *final(l), ..*old(self) }),
                None => *final(self) == *old(self),
            },
    {
        match filter_scope(view) {
            Some(FilterScope::Logs) => Some(&mut self.logs),
            Some(FilterScope::Trace) => Some(&mut self.trace),
            Some(FilterScope::Emu) => Some(&mut self.emu),
            None => None,
        }
    }
}

/// `line` passes `filters`: no exclude filter with a non-empty text matches it,
/// and, when an include filter with a non-empty text exists, one of those matches it.
pub open spec fn passes_filters(line: Seq<char>, filters: Seq<LogFilter>) -> bool {
    &&& forall|i: int|
        0 <= i < filters.len() && filters[i].strategy == FilterStrategy::Exclude && filters[i].text@.len()
            > 0 ==> !contains(line, #[trigger] filters[i].text@)
    &&& (exists|i: int|
        0 <= i < filters.len() && filters[i].strategy == FilterStrategy::Include
            && filters[i].text@.len() > 0) ==> (exists|i: int|
        0 <= i < filters.len() && filters[i].strategy == FilterStrategy::Include
            && filters[i].text@.len() > 0 && contains(line, #[trigger] filters[i].text@))
}

/// Whether `line` passes `filters` (see `passes_filters`).
pub fn line_matches_filters(line: &str, filters: &[LogFilter]) -> (r: bool)
    ensures
        r == passes_filters(line@, filters@),
{
    let v = chars_of(line);
    let mut has_include = false;
    let mut included = false;
    let mut i: usize = 0;
    while i < filters.len()
        invariant
            i <= filters.len(),
            v@ == line@,
            forall|k: int|
                0 <= k < i && filters@[k].strategy == FilterStrategy::Exclude && filters@[k].text@.len()
                    > 0 ==> !contains(line@, #[trigger] filters@[k].text@),
            has_include == exists|k: int|
                0 <= k < i && filters@[k].strategy == FilterStrategy::Include
                    && filters@[k].text@.len() > 0,
            included == exists|k: int|
                0 <= k < i && filters@[k].strategy == FilterStrategy::Include
                    && filters@[k].text@.len() > 0 && contains(line@, #[trigger] filters@[k].text@),
        decreases filters.len() - i,
    {
        let filter = &filters[i];
        let t = chars_of(filter.text.as_str());
        if t.len() == 0 {
            i += 1;
            continue;
        }
        let matched = vec_contains(&v, &t);
        match filter.strategy {
            FilterStrategy::Exclude => {
                if matched {
                    return false;
                }
            },
            FilterStrategy::Include => {
                has_include = true;
                included = included || matched;
            },
        }
        i += 1;
    }
    !has_include || included
}

/// Whether the filter panel is closed, managing the list, or editing one filter.
#[derive(PartialEq, Eq, Debug)]
pub enum FilterState {
    /// The panel is closed.
    Closed,
    /// The panel lists the page's filters.
    Managing,
    /// A filter is being added (`index` is `None`) or edited.
    Editing {
        /// The filter being edited.
        index: Option<usize>,
        /// The text typed so far.
        draft: String,
        /// The strategy chosen.
        strategy: FilterStrategy,
    },
}

impl FilterState {
    /// Whether the panel is open.
    pub fn is_active(&self) -> (b: bool)
        ensures
            b == !(*self is Closed),
    {
        match self {
            FilterState::Closed => false,
            _ => true,
        }
    }
}

/// The width a filter's brick takes in a row `row_width` wide.
pub fn filter_brick_width(filter: &LogFilter, row_width: usize) -> (w: usize)
    ensures
        w == FILTER_BRICK_CHROME + crate::picker::clipped_len(filter.text@.len(), row_width as nat),
{
    let max_text_width = filter_text_width(row_width);
    let shown = filter_text(filter.text.as_str(), max_text_width);
    FILTER_BRICK_CHROME + chars_of(shown.as_str()).len()
}

/// The brick layout of the filter panel, `width` cells wide.
pub fn filter_brick_layout(filters: &[LogFilter], width: usize) -> (r: Vec<PickerBrick>)
    ensures
        ({
            let w = if width == 0 { 1 } else { width as nat };
            let widths = Seq::new(filters@.len(), |i: int| (FILTER_BRICK_CHROME + crate::picker::clipped_len(filters@[i].text@.len(), w)) as nat);
            r@.map_values(|b: PickerBrick| crate::picker::brick_view(b)) == layout_spec(widths, w)
        }),
{
    let row_width = if width == 0 { 1 } else { width };
    let mut widths: Vec<usize> = Vec::new();
    let mut i: usize = 0;
    while i < filters.len()
        invariant
            i <= filters.len(),
            row_width == (if width == 0 { 1 } else { width }),
            widths@.len() == i,
            forall|k: int| 0 <= k < i ==> widths@[k] == FILTER_BRICK_CHROME + crate::picker::clipped_len(
                filters@[k].text@.len(), row_width as nat),
        decreases filters.len() - i,
    {
        widths.push(filter_brick_width(&filters[i], row_width));
        i += 1;
    }
    let r = picker_brick_layout(&widths, width);
    proof {
        let w = row_width as nat;
        let spec_widths = Seq::new(filters@.len(), |i: int| (FILTER_BRICK_CHROME + crate::picker::clipped_len(filters@[i].text@.len(), w)) as nat);
        assert(widths@.map_values(|x: usize| x as nat) =~= spec_widths);
    }
    r
}

/// A filter as plain values: its strategy and text.
pub open spec fn filter_view(f: LogFilter) -> (FilterStrategy, Seq<char>) {
    (f.strategy, f.text@)
}

/// The plain values of a filter list.
pub open spec fn filter_views(fs: Seq<LogFilter>) -> Seq<(FilterStrategy, Seq<char>)> {
    fs.map_values(|f: LogFilter| filter_view(f))
}

/// The other strategy.
pub open spec fn other_strategy(s: FilterStrategy) -> FilterStrategy {
    match s {
        FilterStrategy::Include => FilterStrategy::Exclude,
        FilterStrategy::Exclude => FilterStrategy::Include,
    }
}

/// The filter panel's state as plain values.
pub enum PanelV {
    Closed,
    Managing,
    /// The filter edited (`None` for a new one), the draft and its strategy.
    Editing(Option<nat>, Seq<char>, FilterStrategy),
}

/// The plain values of the filter panel's state.
pub open spec fn panel_view(s: FilterState) -> PanelV {
    match s {
        FilterState::Closed => PanelV::Closed,
        FilterState::Managing => PanelV::Managing,
        FilterState::Editing { index, draft, strategy } => PanelV::Editing(
            match index {
                Some(i) => Some(i as nat),
                None => None,
            },
            draft@,
            strategy,
        ),
    }
}

/// The widths of the filters' bricks in a row `width` cells wide.
pub open spec fn brick_widths(fs: Seq<(FilterStrategy, Seq<char>)>, width: nat) -> Seq<nat> {
    let w: nat = if width == 0 { 1 } else { width };
    Seq::new(fs.len(), |i: int| (FILTER_BRICK_CHROME + clipped_len(fs[i].1.len(), w)) as nat)
}

/// The bricks of the filter panel, `width` cells wide.
pub open spec fn filter_layout(fs: Seq<(FilterStrategy, Seq<char>)>, width: nat) -> Seq<PickerBrick> {
    bricks_of(brick_widths(fs, width), if width == 0 { 1 } else { width })
}

/// The panel, selection, filters and whether saved settings changed.
pub type FilterStep = (PanelV, nat, Seq<(FilterStrategy, Seq<char>)>, bool);

/// Enter on a draft: a draft that trims to nothing changes nothing; else the
/// trimmed draft replaces the edited filter (when it still exists) or joins
/// the list, becomes the selection, and the panel goes back to the list.
pub open spec fn draft_saved(
    panel: PanelV,
    index: nat,
    fs: Seq<(FilterStrategy, Seq<char>)>,
) -> FilterStep {
    match panel {
        PanelV::Editing(slot, draft, strategy) => {
            let text = trim(draft);
            if text.len() == 0 {
                (panel, index, fs, false)
            } else {
                match slot {
                    Some(i) => if i < fs.len() {
                        (PanelV::Managing, i, fs.update(i as int, (strategy, text)), true)
                    } else {
                        (panel, index, fs, false)
                    },
                    None => (PanelV::Managing, fs.len(), fs.push((strategy, text)), true),
                }
            }
        },
        _ => (panel, index, fs, false),
    }
}

/// `d` in the list: the selected filter (the last one when the selection is
/// past the end) leaves the list and the selection stays in it.
pub open spec fn selected_deleted(panel: PanelV, index: nat, fs: Seq<(FilterStrategy, Seq<char>)>) -> FilterStep {
    if fs.len() == 0 {
        (panel, index, fs, false)
    } else {
        let at: nat = if index < fs.len() - 1 { index } else { (fs.len() - 1) as nat };
        let rest = fs.remove(at as int);
        let last: nat = if rest.len() > 0 { (rest.len() - 1) as nat } else { 0 };
        (panel, if at < last { at } else { last }, rest, true)
    }
}

/// A key in the open filter panel. While a filter is edited, characters
/// type, backspace erases, up and down switch the strategy, enter saves (see
/// `draft_saved`) and esc goes back to the list. In the list, the arrows
/// move the selection over the bricks, enter starts a new filter, `e` edits
/// the selected one, `d` deletes it (see `selected_deleted`) and esc closes
/// the panel. Other keys change nothing.
pub open spec fn filter_key_step(
    panel: PanelV,
    index: nat,
    fs: Seq<(FilterStrategy, Seq<char>)>,
    key: KeyCode,
    width: nat,
) -> FilterStep {
    match panel {
        PanelV::Editing(slot, draft, strategy) => match key {
            KeyCode::Char(c) => (PanelV::Editing(slot, draft.push(c), strategy), index, fs, false),
            KeyCode::Backspace => (
                PanelV::Editing(slot, if draft.len() > 0 { draft.drop_last() } else { draft }, strategy),
                index,
                fs,
                false,
            ),
            KeyCode::Up | KeyCode::Down => (PanelV::Editing(slot, draft, other_strategy(strategy)), index, fs, false),
            KeyCode::Enter => draft_saved(panel, index, fs),
            KeyCode::Esc => (PanelV::Managing, index, fs, false),
            _ => (panel, index, fs, false),
        },
        _ => {
            let moved = |d: PickerMove| moved_selection(index, fs.len(), d, filter_layout(fs, width));
            match key {
                KeyCode::Left => (panel, moved(PickerMove::Left), fs, false),
                KeyCode::Right => (panel, moved(PickerMove::Right), fs, false),
                KeyCode::Up => (panel, moved(PickerMove::Up), fs, false),
                KeyCode::Down => (panel, moved(PickerMove::Down), fs, false),
                KeyCode::Enter => (PanelV::Editing(None, seq![], FilterStrategy::Include), index, fs, false),
                KeyCode::Char(c) => if c == 'e' || c == 'E' {
                    if index < fs.len() {
                        (PanelV::Editing(Some(index), fs[index as int].1, fs[index as int].0), index, fs, false)
                    } else {
                        (panel, index, fs, false)
                    }
                } else if c == 'd' || c == 'D' {
                    selected_deleted(panel, index, fs)
                } else {
                    (panel, index, fs, false)
                },
                KeyCode::Esc => (PanelV::Closed, index, fs, false),
                _ => (panel, index, fs, false),
            }
        },
    }
}

/// The filter panel's bricks.
fn layout_of(filters: &Vec<LogFilter>, width: usize) -> (r: Vec<PickerBrick>)
    ensures
        r@ == filter_layout(filter_views(filters@), width as nat),
{
    let r = filter_brick_layout(filters.as_slice(), width);
    proof {
        let w: nat = if width == 0 { 1 } else { width as nat };
        let ws = brick_widths(filter_views(filters@), width as nat);
        assert(ws =~= Seq::new(filters@.len(), |i: int| (FILTER_BRICK_CHROME + clipped_len(filters@[i].text@.len(), w)) as nat));
        lemma_bricks_of(r@, ws, w);
    }
    r
}

/// A key in the open filter panel (see `filter_key_step`); the filters are
/// the list of the page the panel filters, and the result tells whether
/// saved settings changed.
pub fn edit_filters(
    state: &mut FilterState,
    index: &mut usize,
    filters: &mut Vec<LogFilter>,
    key: KeyCode,
    layout_width: usize,
) -> (dirty: bool)
    ensures
        (panel_view(*final(state)), *final(index) as nat, filter_views(final(filters)@), dirty)
            == filter_key_step(panel_view(*old(state)), *old(index) as nat, filter_views(old(filters)@), key, layout_width as nat),
{
    let ghost fv0 = filter_views(filters@);
    let ghost p0 = panel_view(*state);
    let mut current = FilterState::Closed;
    std::mem::swap(&mut current, state);
    match current {
        FilterState::Editing { index: slot, draft, strategy } => {
            let mut draft = draft;
            match key {
                KeyCode::Char(c) => {
                    crate::text::push_char(&mut draft, c);
                    *state = FilterState::Editing { index: slot, draft, strategy };
                    false
                },
                KeyCode::Backspace => {
                    let ghost d0 = draft@;
                    let mut cs = chars_of(draft.as_str());
                    if cs.len() > 0 {
                        cs.pop();
                    }
                    let text = string_of(&cs);
                    assert(text@ == (if d0.len() > 0 { d0.drop_last() } else { d0 }));
                    *state = FilterState::Editing { index: slot, draft: text, strategy };
                    false
                },
                KeyCode::Up | KeyCode::Down => {
                    *state = FilterState::Editing { index: slot, draft, strategy: strategy.cycle() };
                    false
                },
                KeyCode::Enter => {
                    let text = trimmed(&chars_of(draft.as_str()));
                    if text.len() == 0 {
                        *state = FilterState::Editing { index: slot, draft, strategy };
                        return false;
                    }
                    let filter = LogFilter { strategy, text: string_of(&text) };
                    match slot {
                        Some(i) => {
                            if i < filters.len() {
                                filters.set(i, filter);
                                assert(filter_views(filters@) =~= fv0.update(i as int, (strategy, text@)));
                                *index = i;
                                *state = FilterState::Managing;
                                true
                            } else {
                                *state = FilterState::Editing { index: slot, draft, strategy };
                                false
                            }
                        },
                        None => {
                            filters.push(filter);
                            assert(filter_views(filters@) =~= fv0.push((strategy, text@)));
                            *index = filters.len() - 1;
                            *state = FilterState::Managing;
                            true
                        },
                    }
                },
                KeyCode::Esc => {
                    *state = FilterState::Managing;
                    false
                },
                _ => {
                    *state = FilterState::Editing { index: slot, draft, strategy };
                    false
                },
            }
        },
        other => {
            *state = other;
            match key {
                KeyCode::Left | KeyCode::Right | KeyCode::Up | KeyCode::Down => {
                    let direction = match key {
                        KeyCode::Left => PickerMove::Left,
                        KeyCode::Right => PickerMove::Right,
                        KeyCode::Up => PickerMove::Up,
                        _ => PickerMove::Down,
                    };
                    let layout = layout_of(filters, layout_width);
                    move_picker_selection(index, filters.len(), direction, layout.as_slice());
                    false
                },
                KeyCode::Enter => {
                    *state = FilterState::Editing { index: None, draft: String::new(), strategy: FilterStrategy::Include };
                    false
                },
                KeyCode::Char(c) => {
                    if c == 'e' || c == 'E' {
                        if *index < filters.len() {
                            let f = &filters[*index];
                            *state = FilterState::Editing { index: Some(*index), draft: f.text.clone(), strategy: f.strategy };
                        }
                        false
                    } else if c == 'd' || c == 'D' {
                        if filters.len() == 0 {
                            return false;
                        }
                        let at = if *index < filters.len() - 1 { *index } else { filters.len() - 1 };
                        filters.remove(at);
                        assert(filter_views(filters@) =~= fv0.remove(at as int));
                        let last = if filters.len() > 0 { filters.len() - 1 } else { 0 };
                        *index = if at < last { at } else { last };
                        true
                    } else {
                        false
                    }
                },
                KeyCode::Esc => {
                    *state = FilterState::Closed;
                    false
                },
                _ => false,
            }
        },
    }
}

} // verus!
