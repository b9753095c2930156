//! The feature-flag panel: the flags the console knows, which are enabled,
//! and the panel's brick layout.
use vstd::prelude::*;
use crate::key_bindings::KeyCode;
use crate::picker::{layout_spec, move_picker_selection, picker_brick_layout, PickerBrick, PickerMove};
use crate::text::{str_eq, to_owned_string};

verus! {

/// A feature that can be switched on in the console, named by its place in the
/// list of known flags. None is defined at present, so no value of it can be made.
#[derive(Clone, Copy, PartialEq, Eq, Structural, Debug)]
pub struct FeatureFlag {
    index: usize,
}

/// A known flag: its value, its stable id and its label.
pub struct FeatureFlagDef {
    /// The flag.
    pub flag: FeatureFlag,
    /// The id saved in the console state.
    pub id: &'static str,
    /// The label shown in the panel.
    pub label: &'static str,
}

/// The flags the console knows.
pub fn feature_flag_defs() -> (r: Vec<FeatureFlagDef>)
    ensures
        r@.len() == 0,
{
    Vec::new()
}

/// The set of enabled flags.
#[derive(PartialEq, Eq, Debug)]
pub struct FeatureFlags {
    enabled: Vec<FeatureFlag>,
}

impl FeatureFlags {
    /// The enabled flags.
    pub closed spec fn spec_enabled(&self) -> Seq<FeatureFlag> {
        self.enabled@
    }

    /// No flag enabled.
    pub fn new() -> (r: Self)
        ensures
            r.spec_enabled().len() == 0,
    {
        FeatureFlags { enabled: Vec::new() }
    }

    /// Whether `flag` is enabled.
    pub fn enabled(&self, flag: FeatureFlag) -> (b: bool)
        ensures
            b == self.spec_enabled().contains(flag),
    {
        let mut i: usize = 0;
        while i < self.enabled.len()
            invariant
                i <= self.enabled@.len(),
                forall|k: int| 0 <= k < i ==> self.enabled@[k] != flag,
            decreases self.enabled.len() - i,
        {
            if self.enabled[i] == flag {
                return true;
            }
            i += 1;
        }
        false
    }

    /// The ids of the enabled known flags, in definition order.
    pub fn ids(&self) -> (r: Vec<String>)
        ensures
            r@.len() == 0,
    {
        let defs = feature_flag_defs();
        let mut out: Vec<String> = Vec::new();
        let mut i: usize = 0;
        while i < defs.len()
            invariant
                defs@.len() == 0,
                out@.len() == 0,
            decreases defs.len() - i,
        {
            i += 1;
        }
        out
    }

    /// The known flags whose ids appear in `ids`.
    pub fn from_ids(ids: &[String]) -> (r: Self)
        ensures
            r.spec_enabled().len() == 0,
    {
        let defs = feature_flag_defs();
        let mut enabled: Vec<FeatureFlag> = Vec::new();
        let mut i: usize = 0;
        while i < defs.len()
            invariant
                defs@.len() == 0,
                enabled@.len() == 0,
            decreases defs.len() - i,
        {
            i += 1;
        }
        FeatureFlags { enabled }
    }
}

/// Whether the flag panel is open, its selection and its layout width.
#[derive(PartialEq, Eq, Debug)]
pub struct FeatureFlagPanel {
    /// The panel is open.
    pub open: bool,
    /// The selected flag.
    pub selected: usize,
    /// The width the bricks were last laid out in.
    pub layout_width: usize,
}

impl FeatureFlagPanel {
    /// Whether the panel is open.
    pub fn is_active(&self) -> (b: bool)
        ensures
            b == self.open,
    {
        self.open
    }

    /// A key in the open panel: the arrows move over the flags' bricks (with
    /// no flag known, the selection rests on the first place), enter and
    /// space switch the selected flag (there is none), esc closes the panel.
    pub fn edit(&mut self, key: KeyCode)
        ensures
            final(self).layout_width == old(self).layout_width,
            final(self).open == (old(self).open && !(key is Esc)),
            final(self).selected == (match key {
                KeyCode::Left | KeyCode::Right | KeyCode::Up | KeyCode::Down => 0,
                _ => old(self).selected,
            }),
    {
        match key {
            KeyCode::Left | KeyCode::Right | KeyCode::Up | KeyCode::Down => {
                let direction = match key {
                    KeyCode::Left => PickerMove::Left,
                    KeyCode::Right => PickerMove::Right,
                    KeyCode::Up => PickerMove::Up,
                    _ => PickerMove::Down,
                };
                let layout = feature_flag_brick_layout(self.layout_width);
                let count = feature_flag_defs().len();
                move_picker_selection(&mut self.selected, count, direction, layout.as_slice());
            },
            KeyCode::Enter | KeyCode::Char(' ') => {
                let defs = feature_flag_defs();
                if self.selected < defs.len() {
                    toggle_feature_flag(defs[self.selected].flag);
                }
            },
            KeyCode::Esc => {
                self.open = false;
            },
            _ => {},
        }
    }
}

/// Applies the side effects of switching `flag`; no known flag has any.
pub fn toggle_feature_flag(flag: FeatureFlag) {
}

/// The width a flag's brick takes in a row `row_width` cells wide.
pub fn feature_flag_brick_width(flag: &FeatureFlagDef, row_width: usize) -> (w: usize)
    ensures
        w == crate::picker::FILTER_BRICK_CHROME + crate::picker::clipped_len(flag.id@.len(), row_width as nat),
{
    let shown = crate::picker::filter_text(flag.id, crate::picker::filter_text_width(row_width));
    crate::picker::FILTER_BRICK_CHROME + crate::text::chars_of(shown.as_str()).len()
}

/// The brick layout of the flag panel.
pub fn feature_flag_brick_layout(width: usize) -> (r: Vec<PickerBrick>)
    ensures
        r@.len() == 0,
{
    let widths: Vec<usize> = Vec::new();
    let r = picker_brick_layout(&widths, width);
    proof {
        let ws = widths@.map_values(|x: usize| x as nat);
        assert(ws.len() == 0);
        assert(r@.map_values(|b: PickerBrick| crate::picker::brick_view(b)).len() == 0);
    }
    r
}

} // verus!
