//! The activity sign: what a running reload, doctor run or disk scan is
//! doing and for how long.
use vstd::prelude::*;
use crate::clock::total_nanos;
use crate::dash::Activity;
use crate::draw::{piece, pieces_view, push_piece, Piece, PieceV, Tone};
use crate::render_util::{duration_text, format_duration};
use crate::text::{push_str, to_owned_string};

verus! {

/// The sign's row: a dot, the phase, the detail when one is known, and the
/// time it has run.
pub open spec fn activity_row_of(a: Activity) -> Seq<PieceV> {
    seq![(" ● "@, Tone::Accent, true), (a.phase@, Tone::White, true)] + (if a.detail@.len() > 0 {
        seq![(" · "@, Tone::DarkGray, false), (a.detail@, Tone::Gray, false)]
    } else {
        Seq::empty()
    }) + seq![(" · "@ + duration_text(total_nanos(a.elapsed) / 1_000_000_000), Tone::DarkGray, false), (" "@, Tone::Plain, false)]
}

/// The sign's row (see `activity_row_of`).
pub fn activity_row(a: &Activity) -> (r: Vec<Piece>)
    ensures
        pieces_view(r@) == activity_row_of(*a),
{
    let mut row: Vec<Piece> = Vec::new();
    push_piece(&mut row, piece(" ● ", Tone::Accent, true));
    push_piece(&mut row, Piece { text: a.phase.clone(), tone: Tone::White, bold: true });
    let ghost head = pieces_view(row@);
    if crate::text::chars_of(a.detail.as_str()).len() > 0 {
        push_piece(&mut row, piece(" · ", Tone::DarkGray, false));
        push_piece(&mut row, Piece { text: a.detail.clone(), tone: Tone::Gray, bold: false });
    }
    let mut time = to_owned_string(" · ");
    let d = format_duration(a.elapsed);
    push_str(&mut time, d.as_str());
    push_piece(&mut row, Piece { text: time, tone: Tone::DarkGray, bold: false });
    push_piece(&mut row, piece(" ", Tone::Plain, false));
    assert(pieces_view(row@) =~= activity_row_of(*a));
    row
}

} // verus!
