//! Tests of the conditions some queries need: where one fails, the player
//! itself would fail (an arithmetic overflow, a buffer too large for
//! memory).
use vstd::prelude::*;
use crate::filmloop::{
    collect_loop_spans, film_loop_at, film_loop_frame_count, frame_fits, frame_fits_at, in_i32, init_frames_fit,
    loop_fits, loop_frame_count, loop_spans, tempo_frames_fit,
};
use crate::sort::{is_sorted, lemma_sort_members, lemma_sort_sorted, sort_by_key, stable_sort};
use crate::lookup::{cast_index, member_index};
use crate::model::{CastMemberKind, DirPlayer, FilmLoopMember};
use crate::picture::{bitmap_fits, picture_bitmap};

verus! {

/// Whether a film loop's frames can be resolved in range.
pub fn check_loop_fits(fl: &FilmLoopMember) -> (b: bool)
    ensures
        b == loop_fits(*fl),
{
    let mut i: usize = 0;
    while i < fl.init_data.len()
        invariant
            i <= fl.init_data@.len(),
            forall|j: int| 0 <= j < i ==> (#[trigger] fl.init_data@[j]).frame_idx < u32::MAX,
        decreases fl.init_data@.len() - i,
    {
        if fl.init_data[i].frame_idx == u32::MAX {
            return false;
        }
        i = i + 1;
    }
    let mut i: usize = 0;
    while i < fl.tempo_data.len()
        invariant
            i <= fl.tempo_data@.len(),
            forall|j: int| 0 <= j < i ==> (#[trigger] fl.tempo_data@[j]).frame_idx < u32::MAX,
        decreases fl.tempo_data@.len() - i,
    {
        if fl.tempo_data[i].frame_idx == u32::MAX {
            return false;
        }
        i = i + 1;
    }
    let rect = fl.initial_rect;
    if !in_i32(rect.right as i64 - rect.left as i64) || !in_i32(rect.bottom as i64 - rect.top as i64) {
        return false;
    }
    let init = stable_sort(&fl.init_data);
    proof {
        lemma_sort_sorted(fl.init_data@);
        assert(init_frames_fit(init@)) by {
            assert forall|i: int| 0 <= i < init@.len() implies #[trigger] init@[i].frame_idx < u32::MAX by {
                lemma_sort_members(fl.init_data@, i);
            }
        }
    }
    let spans = collect_loop_spans(fl);
    let count = film_loop_frame_count(fl, &spans);
    let mut f: u64 = 1;
    while f <= count as u64
        invariant
            1 <= f <= count as u64 + 1,
            count == loop_frame_count(*fl),
            spans@ == loop_spans(*fl),
            init@ == sort_by_key(fl.init_data@),
            is_sorted(init@),
            init_frames_fit(init@),
            forall|g: u32| 1 <= g < f ==> #[trigger] frame_fits(*fl, init@, spans@, g),
        decreases count as u64 + 1 - f,
    {
        if !frame_fits_at(fl, &init, &spans, f as u32) {
            return false;
        }
        f = f + 1;
    }
    true
}

/// Whether a film loop query would stay in range.
pub fn check_film_loop_query(player: &DirPlayer, cast_lib: i32, cast_member: i32) -> (b: bool)
    ensures
        b == (film_loop_at(*player, cast_lib, cast_member) matches Some(fl) ==> loop_fits(fl)),
{
    match cast_index(&player.casts, cast_lib as u32) {
        Some(c) => match member_index(&player.casts[c].members, cast_member as u32) {
            Some(m) => match &player.casts[c].members[m].1.kind {
                CastMemberKind::FilmLoop(fl) => check_loop_fits(fl),
                _ => true,
            },
            None => true,
        },
        None => true,
    }
}

/// Whether a picture query's bitmap fits.
pub fn check_picture_query(player: &DirPlayer, cast_lib: i32, cast_member: i32) -> (b: bool)
    ensures
        b == (picture_bitmap(*player, cast_lib, cast_member) matches Some(bm) ==> bitmap_fits(bm)),
{
    match cast_index(&player.casts, cast_lib as u32) {
        Some(c) => match member_index(&player.casts[c].members, cast_member as u32) {
            Some(m) => match &player.casts[c].members[m].1.kind {
                CastMemberKind::Bitmap(bm) => match &bm.image {
                    Some(b) => {
                        let w = b.width as u64;
                        let h = b.height as u64;
                        assert(w * h <= 0xffff * 0xffff) by (nonlinear_arith)
                            requires
                                w <= 0xffff,
                                h <= 0xffff,
                        ;
                        let n = w * h;
                        n * 4 <= isize::MAX as u64 && b.pixels.len() as u64 == n
                    },
                    None => true,
                },
                _ => true,
            },
            None => true,
        },
        None => true,
    }
}

} // verus!
