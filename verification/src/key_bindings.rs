//! The console's key bindings: which key triggers which action on each page,
//! and the hints that the keys panel lists.
use vstd::prelude::*;
use crate::dash::Page;
use crate::filters::FilterState;
use crate::text::str_eq;

verus! {

/// What a key press asks the console to do.
#[derive(Clone, Copy, PartialEq, Eq, Structural, Debug)]
pub enum Action {
    ToggleKeys,
    ToggleArm,
    FeatureFlags,
    Worktrees,
    Rebuild,
    Doctor,
    ToggleTraceDetails,
    ToggleTraceRate,
    Back,
    Activate,
    Dive,
    Quit,
    ScrollUp,
    ScrollDown,
    PageUp,
    PageDown,
    Follow,
    Filter,
    Copy,
    OpenEmuDir,
    RunSandboxFlow,
    DecreaseSandboxFlowLanes,
    IncreaseSandboxFlowLanes,
    OpenCurrentLogFolder,
    OpenCurrentLogEditor,
    OpenCurrentLogRaw,
    VerifySandboxImage,
    Ignore,
}

/// Navigation keeps an armed action armed; anything else consumes the arm.
pub fn preserves_arm(action: Action) -> (r: bool)
    ensures
        r == (action is ScrollUp || action is ScrollDown || action is PageUp || action is PageDown
            || action is Dive || action is Back || action is ToggleKeys || action is Follow),
{
    match action {
        Action::ScrollUp | Action::ScrollDown | Action::PageUp | Action::PageDown | Action::Dive
        | Action::Back | Action::ToggleKeys | Action::Follow => true,
        _ => false,
    }
}

/// A key as the console tells keys apart.
#[derive(Clone, Copy, PartialEq, Eq, Structural, Debug)]
pub enum KeyCode {
    /// A character key.
    Char(char),
    Up,
    Down,
    Left,
    Right,
    Enter,
    Esc,
    PageUp,
    PageDown,
    End,
    Backspace,
    /// Any other key; no binding uses one.

    Other,
}

/// The modifiers held with a key.
#[derive(Clone, Copy, PartialEq, Eq, Structural, Debug)]
pub struct KeyMods {
    pub shift: bool,
    pub control: bool,
    pub alt: bool,
    pub super_key: bool,
    pub hyper: bool,
    pub meta: bool,
}

/// One key of a binding, plain or with control.
#[derive(Clone, Copy, PartialEq, Eq, Structural, Debug)]
pub struct KeyStroke {
    /// The key.
    pub code: KeyCode,
    /// Control must be held.
    pub ctrl: bool,
}

/// A press matches a stroke: same key, control exactly as the stroke wants it,
/// no other modifier but shift (which is ignored).
pub open spec fn stroke_matches(s: KeyStroke, code: KeyCode, mods: KeyMods) -> bool {
    s.code == code && mods.control == s.ctrl && !mods.alt && !mods.super_key && !mods.hyper && !mods.meta
}

/// The plain stroke of a key.
pub open spec fn plain(code: KeyCode) -> KeyStroke {
    KeyStroke { code, ctrl: false }
}

/// Control and a character.
pub open spec fn ctrl(c: char) -> KeyStroke {
    KeyStroke { code: KeyCode::Char(c), ctrl: true }
}

impl KeyStroke {
    /// Whether a press matches this stroke (see `stroke_matches`).
    pub fn matches(self, code: KeyCode, mods: KeyMods) -> (r: bool)
        ensures
            r == stroke_matches(self, code, mods),
    {
        self.code == code && mods.control == self.ctrl && !mods.alt && !mods.super_key && !mods.hyper
            && !mods.meta
    }
}

/// The key and the description that the keys panel shows.
#[derive(Clone, Copy, Debug)]
pub struct KeyHint {
    /// The key, as shown.
    pub key: &'static str,
    /// What it does.
    pub desc: &'static str,
}

/// A hint as plain values.
pub open spec fn hint_view(h: KeyHint) -> (Seq<char>, Seq<char>) {
    (h.key@, h.desc@)
}

/// An action, the strokes that trigger it, and its hint.
#[derive(Clone, Debug)]
pub struct KeyBinding {
    pub hint: KeyHint,
    pub action: Action,
    pub strokes: Vec<KeyStroke>,
}

/// A binding as plain values: key, description, action, strokes.
pub type BindingV = (Seq<char>, Seq<char>, Action, Seq<KeyStroke>);

/// The plain values of a binding.
pub open spec fn binding_view(b: KeyBinding) -> BindingV {
    (b.hint.key@, b.hint.desc@, b.action, b.strokes@)
}

/// The plain values of a list of bindings.
pub open spec fn bindings_view(bs: Seq<KeyBinding>) -> Seq<BindingV> {
    bs.map_values(|b: KeyBinding| binding_view(b))
}

/// The uppercase of an ASCII lowercase letter; other characters unchanged.
pub open spec fn ascii_upper(c: char) -> char {
    if 'a' <= c && c <= 'z' {
        ((c as u32) - 32) as char
    } else {
        c
    }
}

/// The strokes of a letter key: the character, and its uppercase when it has one.
pub open spec fn char_strokes(c: char) -> Seq<KeyStroke> {
    if ascii_upper(c) != c {
        seq![plain(KeyCode::Char(c)), plain(KeyCode::Char(ascii_upper(c)))]
    } else {
        seq![plain(KeyCode::Char(c))]
    }
}

/// `← back`, on the left arrow and escape.
pub open spec fn back_binding() -> BindingV {
    ("←"@, "back"@, Action::Back, seq![plain(KeyCode::Left), plain(KeyCode::Esc)])
}

/// The bindings of every page.
pub open spec fn global_table(armed: bool) -> Seq<BindingV> {
    seq![
        ("ctrl+r"@, if armed { "reload qol dev"@ } else { "rebuild tray+plugins"@ }, Action::Rebuild, seq![ctrl('r')]),
        ("ctrl+k"@, "keys"@, Action::ToggleKeys, seq![ctrl('k')]),
        ("ctrl+w"@, "worktrees"@, Action::Worktrees, seq![ctrl('w')]),
        ("ctrl+f"@, "feature flags"@, Action::FeatureFlags, seq![ctrl('f')]),
        ("ctrl+q"@, "quit (press twice)"@, Action::Quit, seq![ctrl('q')]),
    ]
}

/// Up and down move by `vertical`, then back.
pub open spec fn arrow_table(vertical: Seq<char>) -> Seq<BindingV> {
    seq![
        ("↑/↓"@, vertical, Action::ScrollUp, seq![plain(KeyCode::Up)]),
        ("↑/↓"@, vertical, Action::ScrollDown, seq![plain(KeyCode::Down)]),
        back_binding(),
    ]
}

/// The bindings of a log stream: scrolling, paging, following, filtering and
/// copying; opening the log's file where it has one (and the raw trace for the
/// trace); arming a reload, details and rate on the trace; then back.
pub open spec fn stream_table(trace: bool, log_resource: bool, trace_realtime: bool) -> Seq<BindingV> {
    let base = seq![
        ("↑/↓"@, "scroll"@, Action::ScrollUp, seq![plain(KeyCode::Up)]),
        ("↑/↓"@, "scroll"@, Action::ScrollDown, seq![plain(KeyCode::Down)]),
        ("pgup/pgdn"@, "page"@, Action::PageUp, seq![plain(KeyCode::PageUp)]),
        ("pgup/pgdn"@, "page"@, Action::PageDown, seq![plain(KeyCode::PageDown)]),
        ("f / end"@, "follow tail"@, Action::Follow, seq![
            plain(KeyCode::Char('f')),
            plain(KeyCode::Char('F')),
            plain(KeyCode::End),
        ]),
        ("/"@, "filter"@, Action::Filter, seq![plain(KeyCode::Char('/'))]),
        ("c"@, "copy last N"@, Action::Copy, char_strokes('c')),
    ];
    let files = if log_resource {
        seq![
            ("o"@, "open folder"@, Action::OpenCurrentLogFolder, char_strokes('o')),
            ("e"@, "open in editor"@, Action::OpenCurrentLogEditor, char_strokes('e')),
        ] + if trace {
            seq![("r"@, "open raw"@, Action::OpenCurrentLogRaw, char_strokes('r'))]
        } else {
            Seq::<BindingV>::empty()
        }
    } else {
        Seq::<BindingV>::empty()
    };
    let tracing = if trace {
        seq![
            ("space"@, "arm: reload"@, Action::ToggleArm, seq![plain(KeyCode::Char(' '))]),
            ("d"@, "details"@, Action::ToggleTraceDetails, char_strokes('d')),
            ("s"@, if trace_realtime { "rate (realtime)"@ } else { "rate (relaxed)"@ }, Action::ToggleTraceRate, char_strokes('s')),
        ]
    } else {
        Seq::<BindingV>::empty()
    };
    base + files + tracing + seq![back_binding()]
}

/// What the bindings of the current page depend on.
#[derive(Clone, Copy, PartialEq, Eq, Structural, Debug)]
pub struct KeyContext {
    /// The page shown.
    pub page: Page,
    /// The trace shows every event.
    pub trace_realtime: bool,
    /// The sandbox detail page shows cleanup warnings rather than a log.
    pub emu_warnings: bool,
}

/// The bindings of the page that `ctx` describes.
pub open spec fn context_table(ctx: KeyContext) -> Seq<BindingV> {
    match ctx.page {
        Page::Dashboard => seq![
            ("↑/↓"@, "move"@, Action::ScrollUp, seq![plain(KeyCode::Up)]),
            ("↑/↓"@, "move"@, Action::ScrollDown, seq![plain(KeyCode::Down)]),
            ("enter"@, "act on row"@, Action::Activate, seq![plain(KeyCode::Enter)]),
            ("→ / ←"@, "dive · back"@, Action::Dive, seq![plain(KeyCode::Right)]),
            ("→ / ←"@, "dive · back"@, Action::Back, seq![plain(KeyCode::Left), plain(KeyCode::Esc)]),
            ("space"@, "arm, then enter"@, Action::ToggleArm, seq![plain(KeyCode::Char(' '))]),
            ("d"@, "doctor"@, Action::Doctor, char_strokes('d')),
        ],
        Page::Emu => seq![
            ("↑/↓"@, "select sandbox"@, Action::ScrollUp, seq![plain(KeyCode::Up)]),
            ("↑/↓"@, "select sandbox"@, Action::ScrollDown, seq![plain(KeyCode::Down)]),
            ("enter"@, "run qol dev · stop one"@, Action::Activate, seq![plain(KeyCode::Enter)]),
            ("→"@, "detail · log"@, Action::Dive, seq![plain(KeyCode::Right)]),
            ("o"@, "open run folder"@, Action::OpenEmuDir, char_strokes('o')),
            ("r"@, "run default flow"@, Action::RunSandboxFlow, char_strokes('r')),
            ("-"@, "fewer flow lanes"@, Action::DecreaseSandboxFlowLanes, seq![plain(KeyCode::Char('-'))]),
            ("+"@, "more flow lanes"@, Action::IncreaseSandboxFlowLanes, seq![plain(KeyCode::Char('+')), plain(KeyCode::Char('='))]),
            ("a"@, "verify image"@, Action::VerifySandboxImage, char_strokes('a')),
            back_binding(),
        ],
        Page::Logs => stream_table(false, true, false),
        Page::Trace => stream_table(true, true, ctx.trace_realtime),
        Page::EmuDetail => if ctx.emu_warnings {
            arrow_table("scroll"@)
        } else {
            stream_table(false, false, false)
        },
        Page::Doctor => seq![
            ("d"@, "refresh checks"@, Action::Doctor, char_strokes('d')),
            ("enter"@, "details"@, Action::Activate, seq![plain(KeyCode::Enter)]),
            ("space"@, "raw output"@, Action::ToggleArm, seq![plain(KeyCode::Char(' '))]),
            ("c"@, "copy message"@, Action::Copy, char_strokes('c')),
        ] + arrow_table("move"@),
        Page::Disk => seq![("enter"@, "rescan"@, Action::Activate, seq![plain(KeyCode::Enter)])] + arrow_table("scroll"@),
        Page::Plugins => seq![
            ("↑/↓"@, "move"@, Action::ScrollUp, seq![plain(KeyCode::Up)]),
            ("↑/↓"@, "move"@, Action::ScrollDown, seq![plain(KeyCode::Down)]),
            ("enter"@, "link/unlink"@, Action::Activate, seq![plain(KeyCode::Enter)]),
            back_binding(),
        ],
        Page::Endpoints => arrow_table("scroll"@),
    }
}

} // verus!

verus! {

fn binding(key: &'static str, desc: &'static str, action: Action, strokes: Vec<KeyStroke>) -> (r: KeyBinding)
    ensures
        binding_view(r) == (key@, desc@, action, strokes@),
{
    KeyBinding { hint: KeyHint { key, desc }, action, strokes }
}

fn plain_stroke(code: KeyCode) -> (r: KeyStroke)
    ensures
        r == plain(code),
{
    KeyStroke { code, ctrl: false }
}

fn ctrl_stroke(c: char) -> (r: KeyStroke)
    ensures
        r == ctrl(c),
{
    KeyStroke { code: KeyCode::Char(c), ctrl: true }
}

fn one(code: KeyCode) -> (r: Vec<KeyStroke>)
    ensures
        r@ == seq![plain(code)],
{
    let mut r = Vec::new();
    r.push(plain_stroke(code));
    r
}

/// The uppercase of an ASCII lowercase letter (see `ascii_upper`).
fn to_ascii_upper(c: char) -> (u: char)
    ensures
        u == ascii_upper(c),
{
    if 'a' <= c && c <= 'z' {
        let b = (c as u32 - 32) as u8;
        b as char
    } else {
        c
    }
}

fn char_binding(key: &'static str, desc: &'static str, action: Action, c: char) -> (r: KeyBinding)
    ensures
        binding_view(r) == (key@, desc@, action, char_strokes(c)),
{
    let mut strokes = Vec::new();
    strokes.push(plain_stroke(KeyCode::Char(c)));
    let upper = to_ascii_upper(c);
    if upper != c {
        strokes.push(plain_stroke(KeyCode::Char(upper)));
    }
    assert(strokes@ =~= char_strokes(c));
    binding(key, desc, action, strokes)
}

fn back() -> (r: KeyBinding)
    ensures
        binding_view(r) == back_binding(),
{
    let mut strokes = Vec::new();
    strokes.push(plain_stroke(KeyCode::Left));
    strokes.push(plain_stroke(KeyCode::Esc));
    assert(strokes@ =~= seq![plain(KeyCode::Left), plain(KeyCode::Esc)]);
    binding("←", "back", Action::Back, strokes)
}

fn push_binding(bs: &mut Vec<KeyBinding>, b: KeyBinding)
    ensures
        bindings_view(final(bs)@) == bindings_view(old(bs)@).push(binding_view(b)),
{
    bs.push(b);
    assert(bindings_view(bs@) =~= bindings_view(old(bs)@).push(binding_view(b)));
}

fn append_bindings(bs: &mut Vec<KeyBinding>, more: Vec<KeyBinding>)
    ensures
        bindings_view(final(bs)@) == bindings_view(old(bs)@) + bindings_view(more@),
{
    let mut more = more;
    let ghost added = more@;
    bs.append(&mut more);
    assert(bindings_view(bs@) =~= bindings_view(old(bs)@) + bindings_view(added));

}

/// The bindings of every page; `armed` changes what ctrl+r says it does.
pub fn global_action_bindings(armed: bool) -> (r: Vec<KeyBinding>)
    ensures
        bindings_view(r@) == global_table(armed),
{
    let mut r = Vec::new();
    let mut s = Vec::new();
    s.push(ctrl_stroke('r'));
    push_binding(&mut r, binding("ctrl+r", if armed { "reload qol dev" } else { "rebuild tray+plugins" }, Action::Rebuild, s));
    let mut s = Vec::new();
    s.push(ctrl_stroke('k'));
    push_binding(&mut r, binding("ctrl+k", "keys", Action::ToggleKeys, s));
    let mut s = Vec::new();
    s.push(ctrl_stroke('w'));
    push_binding(&mut r, binding("ctrl+w", "worktrees", Action::Worktrees, s));
    let mut s = Vec::new();
    s.push(ctrl_stroke('f'));
    push_binding(&mut r, binding("ctrl+f", "feature flags", Action::FeatureFlags, s));
    let mut s = Vec::new();
    s.push(ctrl_stroke('q'));
    push_binding(&mut r, binding("ctrl+q", "quit (press twice)", Action::Quit, s));
    assert(bindings_view(r@) =~= global_table(armed));
    r
}

/// Up and down move by `vertical`, then back.
pub fn arrow_view_bindings(vertical: &'static str) -> (r: Vec<KeyBinding>)
    ensures
        bindings_view(r@) == arrow_table(vertical@),
{
    let mut r = Vec::new();
    push_binding(&mut r, binding("↑/↓", vertical, Action::ScrollUp, one(KeyCode::Up)));
    push_binding(&mut r, binding("↑/↓", vertical, Action::ScrollDown, one(KeyCode::Down)));
    push_binding(&mut r, back());
    assert(bindings_view(r@) =~= arrow_table(vertical@));
    r
}

/// The bindings of a log stream (see `stream_table`).
pub fn stream_view_bindings(trace: bool, log_resource: bool, trace_realtime: bool) -> (r: Vec<KeyBinding>)
    ensures
        bindings_view(r@) == stream_table(trace, log_resource, trace_realtime),
{
    let mut r = Vec::new();
    push_binding(&mut r, binding("↑/↓", "scroll", Action::ScrollUp, one(KeyCode::Up)));
    push_binding(&mut r, binding("↑/↓", "scroll", Action::ScrollDown, one(KeyCode::Down)));
    push_binding(&mut r, binding("pgup/pgdn", "page", Action::PageUp, one(KeyCode::PageUp)));
    push_binding(&mut r, binding("pgup/pgdn", "page", Action::PageDown, one(KeyCode::PageDown)));
    let mut follow = Vec::new();
    follow.push(plain_stroke(KeyCode::Char('f')));
    follow.push(plain_stroke(KeyCode::Char('F')));
    follow.push(plain_stroke(KeyCode::End));
    assert(follow@ =~= seq![plain(KeyCode::Char('f')), plain(KeyCode::Char('F')), plain(KeyCode::End)]);

    push_binding(&mut r, binding("f / end", "follow tail", Action::Follow, follow));
    push_binding(&mut r, binding("/", "filter", Action::Filter, one(KeyCode::Char('/'))));
    push_binding(&mut r, char_binding("c", "copy last N", Action::Copy, 'c'));
    let ghost base = bindings_view(r@);
    if log_resource {
        push_binding(&mut r, char_binding("o", "open folder", Action::OpenCurrentLogFolder, 'o'));
        push_binding(&mut r, char_binding("e", "open in editor", Action::OpenCurrentLogEditor, 'e'));
        if trace {
            push_binding(&mut r, char_binding("r", "open raw", Action::OpenCurrentLogRaw, 'r'));
        }
    }
    let ghost with_files = bindings_view(r@);
    if trace {
        push_binding(&mut r, binding("space", "arm: reload", Action::ToggleArm, one(KeyCode::Char(' '))));
        push_binding(&mut r, char_binding("d", "details", Action::ToggleTraceDetails, 'd'));
        push_binding(&mut r, char_binding("s", if trace_realtime { "rate (realtime)" } else { "rate (relaxed)" }, Action::ToggleTraceRate, 's'));
    }
    let ghost with_trace = bindings_view(r@);
    push_binding(&mut r, back());
    proof {
        let files = if log_resource {
            seq![
                ("o"@, "open folder"@, Action::OpenCurrentLogFolder, char_strokes('o')),
                ("e"@, "open in editor"@, Action::OpenCurrentLogEditor, char_strokes('e')),
            ] + if trace {
                seq![("r"@, "open raw"@, Action::OpenCurrentLogRaw, char_strokes('r'))]
            } else {
                Seq::<BindingV>::empty()
            }
        } else {
            Seq::<BindingV>::empty()
        };
        let tracing = if trace {
            seq![
                ("space"@, "arm: reload"@, Action::ToggleArm, seq![plain(KeyCode::Char(' '))]),
                ("d"@, "details"@, Action::ToggleTraceDetails, char_strokes('d')),
                ("s"@, if trace_realtime { "rate (realtime)"@ } else { "rate (relaxed)"@ }, Action::ToggleTraceRate, char_strokes('s')),
            ]
        } else {
            Seq::<BindingV>::empty()
        };
        assert(base =~= seq![
            ("↑/↓"@, "scroll"@, Action::ScrollUp, seq![plain(KeyCode::Up)]),
            ("↑/↓"@, "scroll"@, Action::ScrollDown, seq![plain(KeyCode::Down)]),
            ("pgup/pgdn"@, "page"@, Action::PageUp, seq![plain(KeyCode::PageUp)]),
            ("pgup/pgdn"@, "page"@, Action::PageDown, seq![plain(KeyCode::PageDown)]),
            ("f / end"@, "follow tail"@, Action::Follow, seq![
                plain(KeyCode::Char('f')),
                plain(KeyCode::Char('F')),
                plain(KeyCode::End),
            ]),
            ("/"@, "filter"@, Action::Filter, seq![plain(KeyCode::Char('/'))]),
            ("c"@, "copy last N"@, Action::Copy, char_strokes('c')),
        ]);
        assert(with_files =~= base + files);
        assert(with_trace =~= base + files + tracing);
        assert(bindings_view(r@) =~= with_trace.push(back_binding()));
        assert(bindings_view(r@) =~= stream_table(trace, log_resource, trace_realtime));
    }

    r
}

/// The bindings of the page that `ctx` describes (see `context_table`).
pub fn context_action_bindings(ctx: KeyContext) -> (r: Vec<KeyBinding>)
    ensures
        bindings_view(r@) == context_table(ctx),
{
    match ctx.page {
        Page::Dashboard => {
            let mut r = Vec::new();
            push_binding(&mut r, binding("↑/↓", "move", Action::ScrollUp, one(KeyCode::Up)));
            push_binding(&mut r, binding("↑/↓", "move", Action::ScrollDown, one(KeyCode::Down)));
            push_binding(&mut r, binding("enter", "act on row", Action::Activate, one(KeyCode::Enter)));
            push_binding(&mut r, binding("→ / ←", "dive · back", Action::Dive, one(KeyCode::Right)));
            let mut s = Vec::new();
            s.push(plain_stroke(KeyCode::Left));
            s.push(plain_stroke(KeyCode::Esc));
            assert(s@ =~= seq![plain(KeyCode::Left), plain(KeyCode::Esc)]);
            push_binding(&mut r, binding("→ / ←", "dive · back", Action::Back, s));

            push_binding(&mut r, binding("space", "arm, then enter", Action::ToggleArm, one(KeyCode::Char(' '))));
            push_binding(&mut r, char_binding("d", "doctor", Action::Doctor, 'd'));
            assert(bindings_view(r@) =~= context_table(ctx));
            r
        },
        Page::Emu => {
            let mut r = Vec::new();
            push_binding(&mut r, binding("↑/↓", "select sandbox", Action::ScrollUp, one(KeyCode::Up)));
            push_binding(&mut r, binding("↑/↓", "select sandbox", Action::ScrollDown, one(KeyCode::Down)));
            push_binding(&mut r, binding("enter", "run qol dev · stop one", Action::Activate, one(KeyCode::Enter)));
            push_binding(&mut r, binding("→", "detail · log", Action::Dive, one(KeyCode::Right)));
            push_binding(&mut r, char_binding("o", "open run folder", Action::OpenEmuDir, 'o'));
            push_binding(&mut r, char_binding("r", "run default flow", Action::RunSandboxFlow, 'r'));
            push_binding(&mut r, binding("-", "fewer flow lanes", Action::DecreaseSandboxFlowLanes, one(KeyCode::Char('-'))));
            let mut s = Vec::new();
            s.push(plain_stroke(KeyCode::Char('+')));
            s.push(plain_stroke(KeyCode::Char('=')));
            assert(s@ =~= seq![plain(KeyCode::Char('+')), plain(KeyCode::Char('='))]);

            push_binding(&mut r, binding("+", "more flow lanes", Action::IncreaseSandboxFlowLanes, s));
            push_binding(&mut r, char_binding("a", "verify image", Action::VerifySandboxImage, 'a'));
            push_binding(&mut r, back());
            assert(bindings_view(r@) =~= context_table(ctx));
            r
        },
        Page::Logs => stream_view_bindings(false, true, false),
        Page::Trace => stream_view_bindings(true, true, ctx.trace_realtime),
        Page::EmuDetail => {
            if ctx.emu_warnings {
                arrow_view_bindings("scroll")
            } else {
                stream_view_bindings(false, false, false)
            }
        },
        Page::Doctor => {
            let mut r = Vec::new();
            push_binding(&mut r, char_binding("d", "refresh checks", Action::Doctor, 'd'));
            push_binding(&mut r, binding("enter", "details", Action::Activate, one(KeyCode::Enter)));
            push_binding(&mut r, binding("space", "raw output", Action::ToggleArm, one(KeyCode::Char(' '))));
            push_binding(&mut r, char_binding("c", "copy message", Action::Copy, 'c'));
            append_bindings(&mut r, arrow_view_bindings("move"));
            assert(bindings_view(r@) =~= context_table(ctx));
            r
        },
        Page::Disk => {
            let mut r = Vec::new();
            push_binding(&mut r, binding("enter", "rescan", Action::Activate, one(KeyCode::Enter)));
            append_bindings(&mut r, arrow_view_bindings("scroll"));
            assert(bindings_view(r@) =~= context_table(ctx));
            r
        },
        Page::Plugins => {
            let mut r = Vec::new();
            push_binding(&mut r, binding("↑/↓", "move", Action::ScrollUp, one(KeyCode::Up)));
            push_binding(&mut r, binding("↑/↓", "move", Action::ScrollDown, one(KeyCode::Down)));
            push_binding(&mut r, binding("enter", "link/unlink", Action::Activate, one(KeyCode::Enter)));
            push_binding(&mut r, back());
            assert(bindings_view(r@) =~= context_table(ctx));
            r
        },
        Page::Endpoints => arrow_view_bindings("scroll"),
    }
}

} // verus!

verus! {

// ------------------------------------------------------------------ dispatch

/// Some stroke of the binding matches the press.
pub open spec fn binding_matches(b: BindingV, code: KeyCode, mods: KeyMods) -> bool {
    exists|i: int| 0 <= i < b.3.len() && stroke_matches(#[trigger] b.3[i], code, mods)
}

/// The action of the first binding that matches the press, or `Ignore`.
pub open spec fn first_action(bs: Seq<BindingV>, code: KeyCode, mods: KeyMods) -> Action
    decreases bs.len(),
{
    if bs.len() == 0 {
        Action::Ignore
    } else if binding_matches(bs[0], code, mods) {
        bs[0].2
    } else {
        first_action(bs.drop_first(), code, mods)
    }
}

/// What a press does: the global bindings first, then the page's.
pub open spec fn action_of(ctx: KeyContext, armed: bool, code: KeyCode, mods: KeyMods) -> Action {
    first_action(global_table(armed) + context_table(ctx), code, mods)
}

fn binding_matches_exec(b: &KeyBinding, code: KeyCode, mods: KeyMods) -> (r: bool)
    ensures
        r == binding_matches(binding_view(*b), code, mods),
{
    let mut i: usize = 0;
    while i < b.strokes.len()
        invariant
            i <= b.strokes@.len(),
            forall|k: int| 0 <= k < i ==> !stroke_matches(#[trigger] b.strokes@[k], code, mods),
        decreases b.strokes.len() - i,
    {
        if b.strokes[i].matches(code, mods) {
            assert(binding_view(*b).3[i as int] == b.strokes@[i as int]);
            return true;
        }

        i += 1;
    }
    false
}

/// The action a press asks for on the page `ctx` describes (see `action_of`).
pub fn action_for(ctx: KeyContext, armed: bool, code: KeyCode, mods: KeyMods) -> (r: Action)
    ensures
        r == action_of(ctx, armed, code, mods),
{
    let mut all = global_action_bindings(armed);
    append_bindings(&mut all, context_action_bindings(ctx));
    let ghost v = bindings_view(all@);
    let mut i: usize = 0;
    assert(v.skip(0) =~= v);
    while i < all.len()
        invariant
            i <= all@.len(),
            v == bindings_view(all@),
            v == global_table(armed) + context_table(ctx),
            first_action(v, code, mods) == first_action(v.skip(i as int), code, mods),

        decreases all.len() - i,
    {
        assert(v.skip(i as int)[0] == binding_view(all@[i as int]));
        assert(v.skip(i as int).drop_first() =~= v.skip(i + 1));
        if binding_matches_exec(&all[i], code, mods) {
            assert(first_action(v.skip(i as int), code, mods) == v.skip(i as int)[0].2);
            return all[i].action;
        }

        i += 1;
    }
    Action::Ignore
}

// ------------------------------------------------------------------ hints

/// The hints of `hs`, each (key, description) pair once, where it first occurs.
pub open spec fn unique_hint_views(hs: Seq<(Seq<char>, Seq<char>)>) -> Seq<(Seq<char>, Seq<char>)>
    decreases hs.len(),
{
    if hs.len() == 0 {
        Seq::empty()
    } else {
        let rest = unique_hint_views(hs.drop_last());
        if rest.contains(hs.last()) {
            rest
        } else {
            rest.push(hs.last())
        }
    }
}

/// The hints of a list of bindings.
pub open spec fn binding_hints(bs: Seq<BindingV>) -> Seq<(Seq<char>, Seq<char>)> {
    bs.map_values(|b: BindingV| (b.0, b.1))
}

/// The views of a list of hints.
pub open spec fn hint_views(hs: Seq<KeyHint>) -> Seq<(Seq<char>, Seq<char>)> {
    hs.map_values(|h: KeyHint| hint_view(h))
}

/// The hints of `bindings`, each (key, description) pair once, in order of
/// first appearance.
pub fn unique_hints(bindings: Vec<KeyBinding>) -> (r: Vec<KeyHint>)
    ensures
        hint_views(r@) == unique_hint_views(binding_hints(bindings_view(bindings@))),
{
    let ghost all = binding_hints(bindings_view(bindings@));
    let mut hints: Vec<KeyHint> = Vec::new();
    let mut i: usize = 0;
    while i < bindings.len()
        invariant
            i <= bindings@.len(),
            all == binding_hints(bindings_view(bindings@)),
            hint_views(hints@) == unique_hint_views(all.take(i as int)),
        decreases bindings.len() - i,
    {
        let h = bindings[i].hint;
        let ghost before = hint_views(hints@);
        let mut j: usize = 0;
        let mut seen = false;
        while j < hints.len()
            invariant
                j <= hints@.len(),
                before == hint_views(hints@),
                seen == exists|k: int| 0 <= k < j && before[k] == hint_view(h),
            decreases hints.len() - j,
        {
            if str_eq(hints[j].key, h.key) && str_eq(hints[j].desc, h.desc) {
                seen = true;
                assert(before[j as int] == hint_view(h));
            }
            j += 1;
        }
        proof {
            let t = all.take(i + 1);
            assert(t.drop_last() =~= all.take(i as int));
            assert(t.last() == hint_view(h));
            if seen {
                let k = choose|k: int| 0 <= k < j && before[k] == hint_view(h);
                assert(before.contains(hint_view(h)));
            } else {
                assert(!before.contains(hint_view(h))) by {
                    if before.contains(hint_view(h)) {
                        let k = choose|k: int| 0 <= k < before.len() && before[k] == hint_view(h);
                        assert(before[k] == hint_view(h));
                    }
                }
            }
        }
        if !seen {
            hints.push(h);
            assert(hint_views(hints@) =~= before.push(hint_view(h)));
        }
        i += 1;
    }
    assert(all.take(bindings@.len() as int) =~= all);
    hints
}

/// The hints of the global bindings.
pub fn global_keys(armed: bool) -> (r: Vec<KeyHint>)
    ensures
        hint_views(r@) == unique_hint_views(binding_hints(global_table(armed))),
{
    unique_hints(global_action_bindings(armed))
}

/// What the keys panel lists in the page's context section.
#[derive(Clone, Copy, PartialEq, Eq, Structural, Debug)]
pub enum KeysFocus {
    /// A copy is being sized.
    Copying,
    /// The feature flags panel is open.
    FeatureFlags,
    /// The worktrees panel is open.
    Worktrees,
    /// The filter panel lists filters.
    FilterManaging,
    /// A filter is being edited.
    FilterEditing,
    /// The page itself.
    Page,
}

/// Which focus the keys panel describes: a copy in progress first, then the
/// feature flags panel, the worktrees panel, the filter panel, else the page.
pub fn keys_focus(copying: bool, feature_panel: bool, worktree_panel: bool, filter: &FilterState) -> (r: KeysFocus)
    ensures
        r == (if copying {
            KeysFocus::Copying
        } else if feature_panel {
            KeysFocus::FeatureFlags
        } else if worktree_panel {
            KeysFocus::Worktrees
        } else {
            match filter {
                FilterState::Managing => KeysFocus::FilterManaging,
                FilterState::Editing { .. } => KeysFocus::FilterEditing,
                FilterState::Closed => KeysFocus::Page,
            }
        }),
{
    if copying {
        KeysFocus::Copying
    } else if feature_panel {
        KeysFocus::FeatureFlags
    } else if worktree_panel {
        KeysFocus::Worktrees
    } else {
        match filter {
            FilterState::Managing => KeysFocus::FilterManaging,
            FilterState::Editing { .. } => KeysFocus::FilterEditing,
            FilterState::Closed => KeysFocus::Page,
        }
    }
}

/// The fixed hints of a panel that has the focus.
pub open spec fn focus_hints(focus: KeysFocus) -> Seq<(Seq<char>, Seq<char>)> {
    match focus {
        KeysFocus::Copying => seq![("digits"@, "line count"@), ("enter"@, "copy"@), ("esc"@, "cancel"@)],
        KeysFocus::FeatureFlags => seq![
            ("←↑↓→"@, "select flag"@),
            ("space"@, "toggle"@),
            ("enter"@, "toggle"@),
            ("esc"@, "close"@),
        ],
        KeysFocus::Worktrees => seq![("←↑↓→"@, "select worktree"@), ("enter"@, "arm target"@), ("esc"@, "close"@)],
        KeysFocus::FilterManaging => seq![
            ("←↑↓→"@, "select filter"@),
            ("enter"@, "add"@),
            ("e"@, "edit"@),
            ("d"@, "delete"@),
            ("esc"@, "close"@),
        ],
        KeysFocus::FilterEditing => seq![
            ("type"@, "filter text"@),
            ("↑/↓"@, "strategy + / -"@),
            ("enter"@, "save"@),
            ("esc"@, "cancel"@),
        ],
        KeysFocus::Page => Seq::empty(),
    }
}

fn hint(key: &'static str, desc: &'static str) -> (h: KeyHint)
    ensures
        hint_view(h) == (key@, desc@),
{
    KeyHint { key, desc }
}

/// The context hints of the keys panel: a focused panel's own keys, else the
/// page's bindings, each hint once.
pub fn context_keys(focus: KeysFocus, ctx: KeyContext) -> (r: Vec<KeyHint>)
    ensures
        focus != KeysFocus::Page ==> hint_views(r@) == focus_hints(focus),
        focus == KeysFocus::Page ==> hint_views(r@) == unique_hint_views(binding_hints(context_table(ctx))),
{
    let mut r: Vec<KeyHint> = Vec::new();
    match focus {
        KeysFocus::Copying => {
            r.push(hint("digits", "line count"));
            r.push(hint("enter", "copy"));
            r.push(hint("esc", "cancel"));
        },
        KeysFocus::FeatureFlags => {
            r.push(hint("←↑↓→", "select flag"));
            r.push(hint("space", "toggle"));
            r.push(hint("enter", "toggle"));
            r.push(hint("esc", "close"));
        },
        KeysFocus::Worktrees => {
            r.push(hint("←↑↓→", "select worktree"));
            r.push(hint("enter", "arm target"));
            r.push(hint("esc", "close"));
        },
        KeysFocus::FilterManaging => {
            r.push(hint("←↑↓→", "select filter"));
            r.push(hint("enter", "add"));
            r.push(hint("e", "edit"));
            r.push(hint("d", "delete"));
            r.push(hint("esc", "close"));
        },
        KeysFocus::FilterEditing => {
            r.push(hint("type", "filter text"));
            r.push(hint("↑/↓", "strategy + / -"));
            r.push(hint("enter", "save"));
            r.push(hint("esc", "cancel"));
        },
        KeysFocus::Page => {
            return unique_hints(context_action_bindings(ctx));
        },
    }
    assert(hint_views(r@) =~= focus_hints(focus));
    r
}

} // verus!

verus! {

// ------------------------------------------------------------------ laws

/// The same modifiers with shift toggled.
pub open spec fn toggle_shift(m: KeyMods) -> KeyMods {
    KeyMods { shift: !m.shift, ..m }
}

proof fn lemma_first_action_ignores_shift(bs: Seq<BindingV>, code: KeyCode, mods: KeyMods)
    ensures
        first_action(bs, code, mods) == first_action(bs, code, toggle_shift(mods)),
    decreases bs.len(),
{
    if bs.len() > 0 {
        assert(binding_matches(bs[0], code, mods) == binding_matches(bs[0], code, toggle_shift(mods))) by {
            if binding_matches(bs[0], code, mods) {
                let i = choose|i: int| 0 <= i < bs[0].3.len() && stroke_matches(#[trigger] bs[0].3[i], code, mods);
                assert(stroke_matches(bs[0].3[i], code, toggle_shift(mods)));
            }
            if binding_matches(bs[0], code, toggle_shift(mods)) {
                let i = choose|i: int| 0 <= i < bs[0].3.len() && stroke_matches(#[trigger] bs[0].3[i], code, toggle_shift(mods));
                assert(stroke_matches(bs[0].3[i], code, mods));
            }
        }
        lemma_first_action_ignores_shift(bs.drop_first(), code, mods);
    }
}

/// Shift never changes what a key does: a shifted press acts as the plain one.
pub proof fn lemma_shift_is_ignored(ctx: KeyContext, armed: bool, code: KeyCode, mods: KeyMods)
    ensures
        action_of(ctx, armed, code, mods) == action_of(ctx, armed, code, toggle_shift(mods)),
{
    lemma_first_action_ignores_shift(global_table(armed) + context_table(ctx), code, mods);
}

/// Control and nothing else but shift.
pub open spec fn control_only(m: KeyMods) -> bool {
    m.control && !m.alt && !m.super_key && !m.hyper && !m.meta
}

/// No modifier but shift.
pub open spec fn unmodified(m: KeyMods) -> bool {
    !m.control && !m.alt && !m.super_key && !m.hyper && !m.meta
}

/// The global shortcuts work the same on every page and ahead of any page
/// binding: ctrl+r rebuilds, ctrl+k toggles the keys panel, ctrl+w opens
/// worktrees, ctrl+f feature flags and ctrl+q quits.
pub proof fn lemma_global_shortcuts_everywhere(ctx: KeyContext, armed: bool, mods: KeyMods)
    requires
        control_only(mods),
    ensures
        action_of(ctx, armed, KeyCode::Char('r'), mods) == Action::Rebuild,
        action_of(ctx, armed, KeyCode::Char('k'), mods) == Action::ToggleKeys,
        action_of(ctx, armed, KeyCode::Char('w'), mods) == Action::Worktrees,
        action_of(ctx, armed, KeyCode::Char('f'), mods) == Action::FeatureFlags,
        action_of(ctx, armed, KeyCode::Char('q'), mods) == Action::Quit,
{
    let bs = global_table(armed) + context_table(ctx);
    let g = global_table(armed);
    assert(bs[0] == g[0] && bs[1] == g[1] && bs[2] == g[2] && bs[3] == g[3] && bs[4] == g[4]);
    assert(bs.drop_first()[0] == g[1]);
    assert(bs.drop_first().drop_first()[0] == g[2]);
    assert(bs.drop_first().drop_first().drop_first()[0] == g[3]);
    assert(bs.drop_first().drop_first().drop_first().drop_first()[0] == g[4]);
    let chars = seq!['r', 'k', 'w', 'f', 'q'];
    assert forall|j: int, c: int| 0 <= j < 5 && 0 <= c < 5 implies (binding_matches(#[trigger] g[j], KeyCode::Char(#[trigger] chars[c]), mods) <==> j == c) by {
        assert(g[j].3.len() == 1);
        assert(g[j].3[0] == ctrl(chars[j]));
        if j == c {
            assert(stroke_matches(g[j].3[0], KeyCode::Char(chars[c]), mods));
        }
    }
    assert(binding_matches(g[0], KeyCode::Char(chars[0]), mods));
    assert(binding_matches(g[1], KeyCode::Char(chars[1]), mods));
    assert(!binding_matches(g[0], KeyCode::Char(chars[1]), mods));
    assert(binding_matches(g[2], KeyCode::Char(chars[2]), mods));
    assert(!binding_matches(g[0], KeyCode::Char(chars[2]), mods));
    assert(!binding_matches(g[1], KeyCode::Char(chars[2]), mods));
    assert(binding_matches(g[3], KeyCode::Char(chars[3]), mods));
    assert(!binding_matches(g[0], KeyCode::Char(chars[3]), mods));
    assert(!binding_matches(g[1], KeyCode::Char(chars[3]), mods));
    assert(!binding_matches(g[2], KeyCode::Char(chars[3]), mods));
    assert(binding_matches(g[4], KeyCode::Char(chars[4]), mods));
    assert(!binding_matches(g[0], KeyCode::Char(chars[4]), mods));
    assert(!binding_matches(g[1], KeyCode::Char(chars[4]), mods));
    assert(!binding_matches(g[2], KeyCode::Char(chars[4]), mods));
    assert(!binding_matches(g[3], KeyCode::Char(chars[4]), mods));
    reveal_with_fuel(first_action, 6);
}

/// Bindings that none of match a press leave the choice to those after them.
proof fn lemma_skip_unmatched(a: Seq<BindingV>, b: Seq<BindingV>, code: KeyCode, mods: KeyMods)
    requires
        forall|j: int| 0 <= j < a.len() ==> !binding_matches(#[trigger] a[j], code, mods),
    ensures
        first_action(a + b, code, mods) == first_action(b, code, mods),
    decreases a.len(),
{
    if a.len() > 0 {
        assert((a + b)[0] == a[0]);
        assert(!binding_matches(a[0], code, mods));
        assert((a + b).drop_first() =~= a.drop_first() + b);
        assert forall|j: int| 0 <= j < a.drop_first().len() implies !binding_matches(
            #[trigger] a.drop_first()[j],
            code,
            mods,
        ) by {
            assert(a.drop_first()[j] == a[j + 1]);
        }
        lemma_skip_unmatched(a.drop_first(), b, code, mods);
    } else {
        assert(a + b =~= b);
    }
}

/// No global shortcut takes a press without control.
proof fn lemma_globals_need_control(armed: bool, code: KeyCode, mods: KeyMods)
    requires
        !mods.control,
    ensures
        forall|j: int| 0 <= j < global_table(armed).len() ==> !binding_matches(#[trigger] global_table(armed)[j], code, mods),
{
    let g = global_table(armed);
    assert forall|j: int| 0 <= j < g.len() implies !binding_matches(#[trigger] g[j], code, mods) by {
        assert(g[j].3.len() == 1);
        assert(g[j].3[0].ctrl);
    }
}

/// On a page whose table starts with `k` bindings that do not take the
/// press, followed by one that does, the press chooses that binding's action.
proof fn lemma_chosen_at(ctx: KeyContext, armed: bool, code: KeyCode, mods: KeyMods, k: int)
    requires
        !mods.control,
        0 <= k < context_table(ctx).len(),
        forall|j: int| 0 <= j < k ==> !binding_matches(#[trigger] context_table(ctx)[j], code, mods),
        binding_matches(context_table(ctx)[k], code, mods),
    ensures
        action_of(ctx, armed, code, mods) == context_table(ctx)[k].2,
{
    let t = context_table(ctx);
    lemma_globals_need_control(armed, code, mods);
    lemma_skip_unmatched(global_table(armed), t, code, mods);
    let a = t.subrange(0, k);
    let b = t.subrange(k, t.len() as int);
    assert(t =~= a + b);
    assert forall|j: int| 0 <= j < a.len() implies !binding_matches(#[trigger] a[j], code, mods) by {
        assert(a[j] == t[j]);
    }
    lemma_skip_unmatched(a, b, code, mods);
    assert(b[0] == t[k]);
}

/// Enter acts: on the dashboard, the sandboxes, the doctor, the disk and the
/// plugins page an Enter with no modifier but shift chooses `Activate` (the
/// row's action, run or stop, details, rescan, link or unlink), armed or not.
pub proof fn lemma_enter_activates(ctx: KeyContext, armed: bool, mods: KeyMods)
    requires
        unmodified(mods),
        ctx.page == Page::Dashboard || ctx.page == Page::Emu || ctx.page == Page::Doctor || ctx.page == Page::Disk
            || ctx.page == Page::Plugins,
    ensures
        action_of(ctx, armed, KeyCode::Enter, mods) == Action::Activate,
{
    let t = context_table(ctx);
    let enter = KeyCode::Enter;
    let k: int = if ctx.page == Page::Doctor { 1 } else if ctx.page == Page::Disk { 0 } else { 2 };
    assert(t[k].3[0] == plain(enter));
    assert(stroke_matches(t[k].3[0], enter, mods));
    assert forall|j: int| 0 <= j < k implies !binding_matches(#[trigger] t[j], enter, mods) by {
        assert(t[j].3.len() == 1 || t[j].3.len() == 2);
        assert forall|i: int| 0 <= i < t[j].3.len() implies !stroke_matches(#[trigger] t[j].3[i], enter, mods) by {
            assert(t[j].3[i].code != enter);
        }
    }
    lemma_chosen_at(ctx, armed, enter, mods, k);
}

/// Esc goes back: on every page an Esc with no modifier but shift chooses
/// `Back`, armed or not.
pub proof fn lemma_esc_goes_back(ctx: KeyContext, armed: bool, mods: KeyMods)
    requires
        unmodified(mods),
    ensures
        action_of(ctx, armed, KeyCode::Esc, mods) == Action::Back,
{
    let t = context_table(ctx);
    let esc = KeyCode::Esc;
    let k: int = if ctx.page == Page::Dashboard { 4 } else { t.len() - 1 };
    assert(t[k].2 == Action::Back);
    assert(t[k].3[1] == plain(esc));
    assert(stroke_matches(t[k].3[1], esc, mods));
    assert forall|j: int| 0 <= j < k implies !binding_matches(#[trigger] t[j], esc, mods) by {
        assert forall|i: int| 0 <= i < t[j].3.len() implies !stroke_matches(#[trigger] t[j].3[i], esc, mods) by {
            assert(t[j].3[i].code != esc);
        }
    }
    lemma_chosen_at(ctx, armed, esc, mods, k);
}

} // verus!

