//! The worktree panel: the checkouts a reload can target.
use vstd::prelude::*;
use crate::dash::opt_seq;
use crate::key_bindings::KeyCode;
use crate::picker::{
    bricks_of, brick_view, clipped_len, filter_text, filter_text_width, layout_spec, lemma_bricks_of, moved_selection,
    move_picker_selection, picker_brick_layout, PickerBrick, PickerMove, FILTER_BRICK_CHROME,
};
use crate::reload::WorktreeSelection;
use crate::text::{chars_of, str_eq, to_owned_string};

verus! {

/// A checkout a reload can target: the base checkout (`branch` is `None`) or a
/// named worktree.
#[derive(Clone, PartialEq, Eq, Debug)]
pub struct WorktreeTarget {
    /// The worktree's branch, `None` for the base checkout.
    pub branch: Option<String>,
    /// The label shown on the brick.
    pub id: String,
}

/// Whether the panel is open, its selection, layout width and targets.
#[derive(PartialEq, Eq, Debug)]
pub struct WorktreePanel {
    /// The panel is open.
    pub open: bool,
    /// The selected target.
    pub selected: usize,
    /// The width the bricks were last laid out in.
    pub layout_width: usize,
    /// The targets offered.
    pub targets: Vec<WorktreeTarget>,
}

impl WorktreePanel {
    /// Whether the panel is open.
    pub fn is_active(&self) -> (b: bool)
        ensures
            b == self.open,
    {
        self.open
    }
}

/// The width a target's brick takes in a row `row_width` cells wide.
pub fn worktree_brick_width(target: &WorktreeTarget, row_width: usize) -> (w: usize)
    ensures
        w == FILTER_BRICK_CHROME + clipped_len(target.id@.len(), row_width as nat),
{
    let shown = filter_text(target.id.as_str(), filter_text_width(row_width));
    FILTER_BRICK_CHROME + chars_of(shown.as_str()).len()
}

/// The brick layout of the worktree panel, `width` cells wide.
pub fn worktree_brick_layout(targets: &[WorktreeTarget], width: usize) -> (r: Vec<PickerBrick>)
    ensures
        ({
            let w = if width == 0 { 1 } else { width as nat };
            let widths = Seq::new(targets@.len(), |i: int| (FILTER_BRICK_CHROME + clipped_len(targets@[i].id@.len(), w)) as nat);
            r@.map_values(|b: PickerBrick| brick_view(b)) == layout_spec(widths, w)
        }),
{
    let row_width = if width == 0 { 1 } else { width };
    let mut widths: Vec<usize> = Vec::new();
    let mut i: usize = 0;
    while i < targets.len()
        invariant
            i <= targets.len(),
            row_width == (if width == 0 { 1 } else { width }),
            widths@.len() == i,
            forall|k: int| 0 <= k < i ==> widths@[k] == FILTER_BRICK_CHROME + clipped_len(
                targets@[k].id@.len(), row_width as nat),
        decreases targets.len() - i,
    {
        widths.push(worktree_brick_width(&targets[i], row_width));
        i += 1;
    }
    let r = picker_brick_layout(&widths, width);
    proof {
        let w = row_width as nat;
        let spec_widths = Seq::new(targets@.len(), |i: int| (FILTER_BRICK_CHROME + clipped_len(targets@[i].id@.len(), w)) as nat);
        assert(widths@.map_values(|x: usize| x as nat) =~= spec_widths);
    }
    r
}

/// The label of a reload target: its branch, or `base_label` for the base checkout.
pub fn target_label(branch: Option<&str>, base_label: &str) -> (r: String)
    ensures
        r@ == match branch {
            Some(b) => b@,
            None => base_label@,
        },
{
    match branch {
        Some(b) => to_owned_string(b),
        None => to_owned_string(base_label),
    }
}

/// The selection as plain values: `None` while following the marker, else
/// the pinned target (`None` inside for the base checkout).
pub open spec fn pin_view(s: WorktreeSelection) -> Option<Option<Seq<char>>> {
    match s {
        WorktreeSelection::Follow => None,
        WorktreeSelection::Pin(t) => Some(opt_seq(t)),
    }
}

fn same_target(a: &Option<String>, b: &Option<String>) -> (r: bool)
    ensures
        r == (opt_seq(*a) == opt_seq(*b)),
{
    match (a, b) {
        (Some(x), Some(y)) => str_eq(x.as_str(), y.as_str()),
        (None, None) => true,
        _ => false,
    }
}

/// The worktree a reload aims at: the one named at startup while following
/// the marker, else the pinned one.
pub fn effective_target(selection: &WorktreeSelection, startup_branch: &Option<String>) -> (r: Option<String>)
    ensures
        opt_seq(r) == match pin_view(*selection) {
            None => opt_seq(*startup_branch),
            Some(t) => t,
        },
{
    match selection {
        WorktreeSelection::Follow => startup_branch.clone(),
        WorktreeSelection::Pin(t) => t.clone(),
    }
}

/// Whether a pinned target differs from the worktree that runs.
pub fn worktree_diverged(selection: &WorktreeSelection, running_branch: &Option<String>) -> (b: bool)
    ensures
        b == match pin_view(*selection) {
            None => false,
            Some(t) => t != opt_seq(*running_branch),
        },
{
    match selection {
        WorktreeSelection::Follow => false,
        WorktreeSelection::Pin(t) => !same_target(t, running_branch),
    }
}

/// The label of the worktree in view: the pinned one, else the running one
/// (`base_label` for the base checkout).
pub fn pinned_label(selection: &WorktreeSelection, running_branch: &Option<String>, base_label: &str) -> (r: String)
    ensures
        r@ == match (match pin_view(*selection) {
            None => opt_seq(*running_branch),
            Some(t) => t,
        }) {
            Some(b) => b,
            None => base_label@,
        },
{
    let target = match selection {
        WorktreeSelection::Follow => running_branch,
        WorktreeSelection::Pin(t) => t,
    };
    match target {
        Some(b) => target_label(Some(b.as_str()), base_label),
        None => target_label(None, base_label),
    }
}

/// Targets as plain values: branch and label.
pub open spec fn target_views(ts: Seq<WorktreeTarget>) -> Seq<(Option<Seq<char>>, Seq<char>)> {
    ts.map_values(|t: WorktreeTarget| (opt_seq(t.branch), t.id@))
}

/// The first target whose branch is `branch`.
pub open spec fn first_target(ts: Seq<(Option<Seq<char>>, Seq<char>)>, branch: Option<Seq<char>>) -> Option<nat>
    decreases ts.len(),
{
    if ts.len() == 0 {
        None
    } else if ts[0].0 == branch {
        Some(0)
    } else {
        match first_target(ts.drop_first(), branch) {
            Some(k) => Some(k + 1),
            None => None,
        }
    }
}

/// Where the panel's selection starts: on the first target that the reload
/// aims at, else on the first target.
pub fn initial_selection(targets: &Vec<WorktreeTarget>, effective: &Option<String>) -> (r: usize)
    ensures
        r == match first_target(target_views(targets@), opt_seq(*effective)) {
            Some(k) => k,
            None => 0,
        },
{
    let ghost tv = target_views(targets@);
    let mut i: usize = 0;
    assert(tv.skip(0) =~= tv);
    while i < targets.len()
        invariant
            i <= targets@.len(),
            tv == target_views(targets@),
            first_target(tv, opt_seq(*effective)) == match first_target(tv.skip(i as int), opt_seq(*effective)) {
                Some(k) => Some((k + i) as nat),
                None => None,
            },
        decreases targets@.len() - i,
    {
        assert(tv.skip(i as int)[0] == tv[i as int]);
        assert(tv.skip(i as int).drop_first() =~= tv.skip(i + 1));
        if same_target(&targets[i].branch, effective) {
            return i;
        }
        i += 1;
    }
    assert(tv.skip(i as int).len() == 0);
    0
}

/// The bricks of the worktree panel, `width` cells wide.
pub open spec fn worktree_layout(ts: Seq<(Option<Seq<char>>, Seq<char>)>, width: nat) -> Seq<PickerBrick> {
    let w: nat = if width == 0 { 1 } else { width };
    bricks_of(Seq::new(ts.len(), |i: int| (FILTER_BRICK_CHROME + clipped_len(ts[i].1.len(), w)) as nat), w)
}

/// The panel's state as plain values: open, selection, the reload's target
/// and whether the console is armed.
pub type WorktreeStep = (bool, nat, Option<Option<Seq<char>>>, bool);

/// A key in the open worktree panel: the arrows move over the bricks, enter
/// pins the selected target, arms the console and closes the panel, esc
/// closes the panel; other keys change nothing.
pub open spec fn worktree_key_step(
    open: bool,
    selected: nat,
    ts: Seq<(Option<Seq<char>>, Seq<char>)>,
    pin: Option<Option<Seq<char>>>,
    armed: bool,
    key: KeyCode,
    width: nat,
) -> WorktreeStep {
    let moved = |d: PickerMove| moved_selection(selected, ts.len(), d, worktree_layout(ts, width));
    match key {
        KeyCode::Left => (open, moved(PickerMove::Left), pin, armed),
        KeyCode::Right => (open, moved(PickerMove::Right), pin, armed),
        KeyCode::Up => (open, moved(PickerMove::Up), pin, armed),
        KeyCode::Down => (open, moved(PickerMove::Down), pin, armed),
        KeyCode::Enter => if selected < ts.len() {
            (false, selected, Some(ts[selected as int].0), true)
        } else {
            (open, selected, pin, armed)
        },
        KeyCode::Esc => (false, selected, pin, armed),
        _ => (open, selected, pin, armed),
    }
}

impl WorktreePanel {
    /// Opens the panel over `targets`, selecting the one the reload aims at.
    pub fn open_over(&mut self, targets: Vec<WorktreeTarget>, effective: &Option<String>)
        ensures
            final(self).open,
            final(self).targets == targets,
            final(self).layout_width == old(self).layout_width,
            final(self).selected == match first_target(target_views(targets@), opt_seq(*effective)) {
                Some(k) => k,
                None => 0,
            },
    {
        self.selected = initial_selection(&targets, effective);
        self.targets = targets;
        self.open = true;
    }

    /// A key in the open panel (see `worktree_key_step`).
    pub fn edit(&mut self, selection: &mut WorktreeSelection, armed: &mut bool, key: KeyCode)
        ensures
            final(self).targets == old(self).targets,
            final(self).layout_width == old(self).layout_width,
            (final(self).open, final(self).selected as nat, pin_view(*final(selection)), *final(armed))
                == worktree_key_step(
                old(self).open,
                old(self).selected as nat,
                target_views(old(self).targets@),
                pin_view(*old(selection)),
                *old(armed),
                key,
                old(self).layout_width as nat,
            ),
    {
        match key {
            KeyCode::Left | KeyCode::Right | KeyCode::Up | KeyCode::Down => {
                let direction = match key {
                    KeyCode::Left => PickerMove::Left,
                    KeyCode::Right => PickerMove::Right,
                    KeyCode::Up => PickerMove::Up,
                    _ => PickerMove::Down,
                };
                let layout = worktree_brick_layout(self.targets.as_slice(), self.layout_width);
                proof {
                    let w: nat = if self.layout_width == 0 { 1 } else { self.layout_width as nat };
                    let ws = Seq::new(self.targets@.len(), |i: int| (FILTER_BRICK_CHROME + clipped_len(self.targets@[i].id@.len(), w)) as nat);
                    let tv = target_views(self.targets@);
                    assert(ws =~= Seq::new(tv.len(), |i: int| (FILTER_BRICK_CHROME + clipped_len(tv[i].1.len(), w)) as nat));
                    lemma_bricks_of(layout@, ws, w);
                }
                let count = self.targets.len();
                move_picker_selection(&mut self.selected, count, direction, layout.as_slice());
            },
            KeyCode::Enter => {
                if self.selected < self.targets.len() {
                    let branch = self.targets[self.selected].branch.clone();
                    *selection = WorktreeSelection::Pin(branch);
                    *armed = true;
                    self.open = false;
                }
            },
            KeyCode::Esc => {
                self.open = false;
            },
            _ => {},
        }
    }
}

/// `s` without the repeats of an element that directly follow it.
pub open spec fn dedup_adjacent(s: Seq<Seq<char>>) -> Seq<Seq<char>>
    decreases s.len(),
{
    if s.len() == 0 {
        seq![]
    } else {
        let d = dedup_adjacent(s.drop_last());
        if d.len() > 0 && d.last() == s.last() { d } else { d.push(s.last()) }
    }
}

/// The targets the panel offers: the base checkout under `base_label`, then
/// each worktree branch once, in character order.
pub open spec fn worktree_targets_of(base_label: Seq<char>, branches: Seq<Seq<char>>) -> Seq<(Option<Seq<char>>, Seq<char>)> {
    let names = dedup_adjacent(crate::image_import::sort_strings(branches));
    seq![(None::<Seq<char>>, base_label)] + Seq::new(names.len(), |i: int| (Some(names[i]), names[i]))
}

/// The targets the panel offers (see `worktree_targets_of`); `branches` are
/// the branches of the repository's worktrees.
pub fn worktree_targets(base_label: &str, branches: &Vec<String>) -> (r: Vec<WorktreeTarget>)
    ensures
        target_views(r@) == worktree_targets_of(base_label@, crate::text::views(branches@)),
{
    let sorted = crate::image_import::sorted_strings(branches);
    let ghost sv = crate::text::views(sorted@);
    let mut names: Vec<String> = Vec::new();
    let mut i: usize = 0;
    while i < sorted.len()
        invariant
            i <= sorted@.len(),
            sv == crate::text::views(sorted@),
            crate::text::views(names@) == dedup_adjacent(sv.take(i as int)),
        decreases sorted@.len() - i,
    {
        assert(sv.take(i + 1).drop_last() =~= sv.take(i as int));
        let ghost nv = crate::text::views(names@);
        let repeat = names.len() > 0 && str_eq(names[names.len() - 1].as_str(), sorted[i].as_str());
        if !repeat {
            names.push(sorted[i].clone());
            assert(crate::text::views(names@) =~= nv.push(sv[i as int]));
        }
        i += 1;
    }
    assert(sv.take(sv.len() as int) =~= sv);
    let ghost nv = crate::text::views(names@);
    let mut r: Vec<WorktreeTarget> = Vec::new();
    r.push(WorktreeTarget { branch: None, id: to_owned_string(base_label) });
    let mut j: usize = 0;
    while j < names.len()
        invariant
            j <= names@.len(),
            nv == crate::text::views(names@),
            target_views(r@) == seq![(None::<Seq<char>>, base_label@)]
                + Seq::new(j as nat, |k: int| (Some(nv[k]), nv[k])),
        decreases names@.len() - j,
    {
        let ghost before = target_views(r@);
        let name = names[j].clone();
        r.push(WorktreeTarget { branch: Some(name.clone()), id: name });
        assert(target_views(r@) =~= before.push((Some(nv[j as int]), nv[j as int])));
        assert(target_views(r@) =~= seq![(None::<Seq<char>>, base_label@)]
            + Seq::new((j + 1) as nat, |k: int| (Some(nv[k]), nv[k])));
        j += 1;
    }
    r
}

} // verus!
