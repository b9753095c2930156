use vstd::prelude::*;

pub mod ansi;
pub mod activity;
pub mod clock;
pub mod console;
pub mod dash;
pub mod dev_server;
pub mod dev_shutdown;
pub mod disk;
pub mod doctor;
pub mod draw;
pub mod emu_panel;
pub mod feature_flags;
pub mod filters;
pub mod handoff;
pub mod image_import;
pub mod sandbox_list;
pub mod key_bindings;
pub mod picker;
pub mod platform;
pub mod poller;
pub mod reload;
pub mod log_pane;
pub mod progress;
pub mod render_util;
pub mod session;
pub mod setup;
pub mod status;
pub mod stop;
pub mod stream_view;
pub mod termios;
pub mod text;
pub mod tick;
pub mod trace_rate;
pub mod workspace;
pub mod worktrees_panel;

verus! {

} // verus!
