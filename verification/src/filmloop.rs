//! Film loops, frame by frame: which sprites each frame shows, where, how
//! large, how opaque, and how long the frame lasts.
use vstd::prelude::*;
use crate::lookup::{
    cast_index, cast_pos, find_member_by_ref, first_index, lemma_first_index_found,
    lemma_first_index_none, member_by_ref, member_index, member_pos,
};
use crate::model::{
    CastMember, CastMemberKind, CastMemberRef, ChannelData, DirPlayer, FilmLoopMember,
    FrameInterval, InitEntry, Keyframes, SpriteSpan, TempoData, TempoEntry,
};
use crate::response::{
    FilmLoopFrameMemberView, FilmLoopFrameView, FilmLoopFramesView, McpError, McpFilmLoopFrame,
    McpFilmLoopFrameMember, McpFilmLoopFrames, McpFilmLoopSpan,
};
use crate::messages::{cast_not_found, cast_not_found_msg, member_not_found, member_not_found_msg, wrong_kind, wrong_kind_msg};
use crate::response::answers;
use crate::sort::{is_sorted, lemma_sort_members, lemma_sort_sorted, sort_by_key, stable_sort, SortKey};

verus! {

// ---------------------------------------------------------------------------
// Blend and tempo
// ---------------------------------------------------------------------------

/// A raw blend byte as an opacity percentage, 0 (transparent) to 100
/// (opaque).  From version 800 on the byte is an inverted 0..=255 scale;
/// before, it holds the percentage, with 0 meaning opaque.
pub open spec fn blend_percent(raw: u8, dir_version: u16) -> u8 {
    if dir_version >= 800 {
        ((255 - raw) * 100 / 255) as u8
    } else if raw == 0 {
        100
    } else if raw <= 100 {
        raw
    } else {
        100
    }
}

/// Converts a raw blend byte to an opacity percentage.
pub fn raw_blend_to_percent(raw: u8, dir_version: u16) -> (r: u8)
    ensures
        r == blend_percent(raw, dir_version),
        r <= 100,
{
    if dir_version >= 800 {
        if raw == 0 {
            100
        } else if raw == 255 {
            0
        } else {
            let scaled: u32 = (255 - raw as u32) * 100 / 255;
            scaled as u8
        }
    } else if raw == 0 {
        100
    } else if raw <= 100 {
        raw
    } else {
        100
    }
}

/// Index predicate: the tempo record at `i` starts after frame `f`.
pub open spec fn tempo_after(s: Seq<TempoEntry>, f: u32) -> spec_fn(int) -> bool {
    |i: int| s[i].frame_idx + 1 > f
}

/// How many leading records of `s` have started by frame `f`: the scan
/// stops at the first record that starts later.
pub open spec fn tempo_cut(s: Seq<TempoEntry>, f: u32) -> int {
    match first_index(s.len() as int, tempo_after(s, f)) {
        Some(i) => i,
        None => s.len() as int,
    }
}

/// The tempo in force at frame `f`: the last record before the cut.
pub open spec fn tempo_at(s: Seq<TempoEntry>, f: u32) -> Option<TempoData> {
    let c = tempo_cut(s, f);
    if c == 0 {
        None
    } else {
        Some(s[c - 1].data)
    }
}

/// `(ticks, milliseconds)` a frame lasts under a tempo: 246 means the cue
/// point is frames per second, 247 that it is a delay in ticks, 1..=120 that
/// the tempo itself is frames per second; otherwise 30 frames per second.
pub open spec fn tempo_durations(t: Option<TempoData>) -> (u32, u32) {
    match t {
        Some(td) => if td.tempo == 246 && td.tempo_cue_point > 0 {
            ((60int / (td.tempo_cue_point as int)) as u32, (1000int / (td.tempo_cue_point as int)) as u32)
        } else if td.tempo == 247 && td.tempo_cue_point > 0 {
            (td.tempo_cue_point as u32, (td.tempo_cue_point * 1000 / 60) as u32)
        } else if td.tempo > 0 && td.tempo <= 120 {
            ((60int / (td.tempo as int)) as u32, (1000int / (td.tempo as int)) as u32)
        } else {
            (2, 33)
        },
        None => (2, 33),
    }
}

/// Tempo records have frame indices below `u32::MAX`.
pub open spec fn tempo_frames_fit(s: Seq<TempoEntry>) -> bool {
    forall|i: int| 0 <= i < s.len() ==> #[trigger] s[i].frame_idx < u32::MAX
}

/// `(duration_ticks, duration_ms)` of 1-based frame `frame`, from tempo
/// records in frame order.
pub fn resolve_film_loop_frame_tempo(tempo_data: &Vec<TempoEntry>, frame: u32) -> (r: (u32, u32))
    requires
        tempo_frames_fit(tempo_data@),
    ensures
        r == tempo_durations(tempo_at(tempo_data@, frame)),
{
    let mut i: usize = 0;
    while i < tempo_data.len() && tempo_data[i].frame_idx + 1 <= frame
        invariant
            i <= tempo_data@.len(),
            tempo_frames_fit(tempo_data@),
            forall|j: int| 0 <= j < i ==> #[trigger] tempo_data@[j].frame_idx + 1 <= frame,
        decreases tempo_data@.len() - i,
    {
        i = i + 1;
    }
    proof {
        if i < tempo_data@.len() {
            lemma_first_index_found(tempo_data@.len() as int, tempo_after(tempo_data@, frame), i as int);
        } else {
            lemma_first_index_none(tempo_data@.len() as int, tempo_after(tempo_data@, frame));
        }
    }
    let latest: Option<TempoData> = if i == 0 {
        None
    } else {
        Some(tempo_data[i - 1].data)
    };
    match latest {
        Some(td) => {
            if td.tempo == 246 && td.tempo_cue_point > 0 {
                let fps = td.tempo_cue_point as u32;
                (60 / fps, 1000 / fps)
            } else if td.tempo == 247 && td.tempo_cue_point > 0 {
                let ticks = td.tempo_cue_point as u32;
                (ticks, ticks * 1000 / 60)
            } else if td.tempo > 0 && td.tempo <= 120 {
                let fps = td.tempo as u32;
                (60 / fps, 1000 / fps)
            } else {
                (2, 33)
            }
        },
        None => (2, 33),
    }
}

// ---------------------------------------------------------------------------
// Keys for sorting
// ---------------------------------------------------------------------------

impl SortKey for InitEntry {
    open spec fn key_le(&self, other: &Self) -> bool {
        self.frame_idx < other.frame_idx || (self.frame_idx == other.frame_idx
            && self.channel_idx <= other.channel_idx)
    }

    proof fn lemma_key_total(a: &Self, b: &Self) {
    }

    proof fn lemma_key_trans(a: &Self, b: &Self, c: &Self) {
    }

    fn le(&self, other: &Self) -> (b: bool) {
        self.frame_idx < other.frame_idx || (self.frame_idx == other.frame_idx
            && self.channel_idx <= other.channel_idx)
    }
}

impl SortKey for TempoEntry {
    open spec fn key_le(&self, other: &Self) -> bool {
        self.frame_idx <= other.frame_idx
    }

    proof fn lemma_key_total(a: &Self, b: &Self) {
    }

    proof fn lemma_key_trans(a: &Self, b: &Self, c: &Self) {
    }

    fn le(&self, other: &Self) -> (b: bool) {
        self.frame_idx <= other.frame_idx
    }
}

/// A sprite span of a film loop, on a sprite channel.
#[derive(Clone, Copy, PartialEq, Eq, Structural, Debug)]
pub struct LoopSpan {
    pub channel: u32,
    pub start_frame: u32,
    pub end_frame: u32,
}

impl SortKey for LoopSpan {
    open spec fn key_le(&self, other: &Self) -> bool {
        self.channel <= other.channel
    }

    proof fn lemma_key_total(a: &Self, b: &Self) {
    }

    proof fn lemma_key_trans(a: &Self, b: &Self, c: &Self) {
    }

    fn le(&self, other: &Self) -> (b: bool) {
        self.channel <= other.channel
    }
}

// ---------------------------------------------------------------------------
// Spans and frame count
// ---------------------------------------------------------------------------

/// The span a primary frame interval gives: none for the frame-script and
/// effect channels (raw index 5 or less) or a channel numbered 0.
pub open spec fn interval_span(fi: FrameInterval) -> Option<LoopSpan> {
    if fi.channel_index <= 5 || fi.channel == 0 {
        None
    } else {
        Some(LoopSpan { channel: fi.channel, start_frame: fi.start_frame, end_frame: fi.end_frame })
    }
}

/// The spans of a list of frame intervals, in order.
pub open spec fn interval_spans(s: Seq<FrameInterval>) -> Seq<LoopSpan>
    decreases s.len(),
{
    if s.len() == 0 {
        Seq::empty()
    } else {
        match interval_span(s.last()) {
            Some(sp) => interval_spans(s.drop_last()).push(sp),
            None => interval_spans(s.drop_last()),
        }
    }
}

/// The spans of a list of score sprite spans on channels numbered 1 or more.
pub open spec fn score_spans(s: Seq<SpriteSpan>) -> Seq<LoopSpan>
    decreases s.len(),
{
    if s.len() == 0 {
        Seq::empty()
    } else if s.last().channel_number >= 1 {
        score_spans(s.drop_last()).push(
            LoopSpan {
                channel: s.last().channel_number,
                start_frame: s.last().start_frame,
                end_frame: s.last().end_frame,
            },
        )
    } else {
        score_spans(s.drop_last())
    }
}

/// The sprite spans of a film loop: from the score chunk's frame intervals
/// when it has any, else from the score's sprite spans.
pub open spec fn loop_spans(fl: FilmLoopMember) -> Seq<LoopSpan> {
    if fl.frame_intervals@.len() > 0 {
        interval_spans(fl.frame_intervals@)
    } else {
        score_spans(fl.sprite_spans@)
    }
}

pub(crate) fn collect_loop_spans(fl: &FilmLoopMember) -> (r: Vec<LoopSpan>)
    ensures
        r@ == loop_spans(*fl),
{
    let mut r: Vec<LoopSpan> = Vec::new();
    if fl.frame_intervals.len() > 0 {
        let mut i: usize = 0;
        while i < fl.frame_intervals.len()
            invariant
                i <= fl.frame_intervals@.len(),
                r@ == interval_spans(fl.frame_intervals@.take(i as int)),
            decreases fl.frame_intervals@.len() - i,
        {
            let fi = fl.frame_intervals[i];
            if !(fi.channel_index <= 5 || fi.channel == 0) {
                r.push(LoopSpan { channel: fi.channel, start_frame: fi.start_frame, end_frame: fi.end_frame });
            }
            proof {
                assert(fl.frame_intervals@.take(i + 1).drop_last() =~= fl.frame_intervals@.take(i as int));
            }
            i = i + 1;
        }
        assert(fl.frame_intervals@.take(i as int) =~= fl.frame_intervals@);
    } else {
        let mut i: usize = 0;
        while i < fl.sprite_spans.len()
            invariant
                i <= fl.sprite_spans@.len(),
                r@ == score_spans(fl.sprite_spans@.take(i as int)),
            decreases fl.sprite_spans@.len() - i,
        {
            let sp = fl.sprite_spans[i];
            if sp.channel_number >= 1 {
                r.push(LoopSpan { channel: sp.channel_number, start_frame: sp.start_frame, end_frame: sp.end_frame });
            }
            proof {
                assert(fl.sprite_spans@.take(i + 1).drop_last() =~= fl.sprite_spans@.take(i as int));
            }
            i = i + 1;
        }
        assert(fl.sprite_spans@.take(i as int) =~= fl.sprite_spans@);
    }
    r
}

/// The largest `frame_idx + 1` of the records, 0 when there are none.
pub open spec fn init_frames_end(s: Seq<InitEntry>) -> int
    decreases s.len(),
{
    if s.len() == 0 {
        0
    } else {
        let m = init_frames_end(s.drop_last());
        if m >= s.last().frame_idx + 1 { m } else { s.last().frame_idx + 1 }
    }
}

/// The largest `frame_idx + 1` of the records, 0 when there are none.
pub open spec fn tempo_frames_end(s: Seq<TempoEntry>) -> int
    decreases s.len(),
{
    if s.len() == 0 {
        0
    } else {
        let m = tempo_frames_end(s.drop_last());
        if m >= s.last().frame_idx + 1 { m } else { s.last().frame_idx + 1 }
    }
}

/// The largest end frame of the spans, 0 when there are none.
pub open spec fn spans_end(s: Seq<LoopSpan>) -> int
    decreases s.len(),
{
    if s.len() == 0 {
        0
    } else {
        let m = spans_end(s.drop_last());
        if m >= s.last().end_frame { m } else { s.last().end_frame as int }
    }
}

/// Channel records have frame indices below `u32::MAX`.
pub open spec fn init_frames_fit(s: Seq<InitEntry>) -> bool {
    forall|i: int| 0 <= i < s.len() ==> #[trigger] s[i].frame_idx < u32::MAX
}

/// The number of frames of a film loop: the score's own count if it has one,
/// else the largest of the last channel record's frame, the last tempo
/// record's frame, the last span's end frame, and 1.
pub open spec fn loop_frame_count(fl: FilmLoopMember) -> u32 {
    match fl.frame_count {
        Some(n) => n,
        None => {
            let a = init_frames_end(fl.init_data@);
            let b = tempo_frames_end(fl.tempo_data@);
            let c = spans_end(loop_spans(fl));
            let ab = if a >= b { a } else { b };
            let abc = if ab >= c { ab } else { c };
            (if abc >= 1 { abc } else { 1 }) as u32
        },
    }
}

pub(crate) fn film_loop_frame_count(fl: &FilmLoopMember, spans: &Vec<LoopSpan>) -> (r: u32)
    requires
        spans@ == loop_spans(*fl),
        init_frames_fit(fl.init_data@),
        tempo_frames_fit(fl.tempo_data@),
    ensures
        r == loop_frame_count(*fl),
{
    match fl.frame_count {
        Some(n) => n,
        None => {
            let mut a: u32 = 0;
            let mut i: usize = 0;
            while i < fl.init_data.len()
                invariant
                    i <= fl.init_data@.len(),
                    init_frames_fit(fl.init_data@),
                    a == init_frames_end(fl.init_data@.take(i as int)),
                decreases fl.init_data@.len() - i,
            {
                proof {
                    assert(fl.init_data@.take(i + 1).drop_last() =~= fl.init_data@.take(i as int));
                }
                let f = fl.init_data[i].frame_idx + 1;
                if f > a {
                    a = f;
                }
                i = i + 1;
            }
            assert(fl.init_data@.take(i as int) =~= fl.init_data@);
            let mut b: u32 = 0;
            let mut i: usize = 0;
            while i < fl.tempo_data.len()
                invariant
                    i <= fl.tempo_data@.len(),
                    tempo_frames_fit(fl.tempo_data@),
                    b == tempo_frames_end(fl.tempo_data@.take(i as int)),
                decreases fl.tempo_data@.len() - i,
            {
                proof {
                    assert(fl.tempo_data@.take(i + 1).drop_last() =~= fl.tempo_data@.take(i as int));
                }
                let f = fl.tempo_data[i].frame_idx + 1;
                if f > b {
                    b = f;
                }
                i = i + 1;
            }
            assert(fl.tempo_data@.take(i as int) =~= fl.tempo_data@);
            let mut c: u32 = 0;
            let mut i: usize = 0;
            while i < spans.len()
                invariant
                    i <= spans@.len(),
                    c == spans_end(spans@.take(i as int)),
                decreases spans@.len() - i,
            {
                proof {
                    assert(spans@.take(i + 1).drop_last() =~= spans@.take(i as int));
                }
                let f = spans[i].end_frame;
                if f > c {
                    c = f;
                }
                i = i + 1;
            }
            assert(spans@.take(i as int) =~= spans@);
            let ab = if a >= b { a } else { b };
            let abc = if ab >= c { ab } else { c };
            if abc >= 1 { abc } else { 1 }
        },
    }
}

// ---------------------------------------------------------------------------
// Channel data of a span at a frame
// ---------------------------------------------------------------------------

/// `d` laid over what a channel held so far: a zero member or a zero size
/// means "unchanged"; every other field is taken from `d`.
pub open spec fn merge_channel(cur: Option<ChannelData>, d: ChannelData) -> ChannelData {
    match cur {
        None => d,
        Some(c) => ChannelData {
            cast_lib: if d.cast_member != 0 { d.cast_lib } else { c.cast_lib },
            cast_member: if d.cast_member != 0 { d.cast_member } else { c.cast_member },
            pos_x: d.pos_x,
            pos_y: d.pos_y,
            width: if d.width != 0 { d.width } else { c.width },
            height: if d.height != 0 { d.height } else { c.height },
            rotation: d.rotation,
            skew: d.skew,
            blend: d.blend,
            ink: d.ink,
            stretch: d.stretch,
        },
    }
}

/// Whether a channel record counts for `span` at frame `f`: it lies on the
/// span's channel, from the span's first frame up to `f`.
pub open spec fn counts_for(e: InitEntry, span: LoopSpan, f: u32) -> bool {
    &&& span.start_frame <= e.frame_idx + 1
    &&& e.frame_idx + 1 <= f
    &&& e.channel == span.channel
}

/// The channel data of `span` at frame `f`: the records that count, laid
/// over each other in order; none if no record counts.
pub open spec fn span_data(s: Seq<InitEntry>, span: LoopSpan, f: u32) -> Option<ChannelData>
    decreases s.len(),
{
    if s.len() == 0 {
        None
    } else {
        let prev = span_data(s.drop_last(), span, f);
        if counts_for(s.last(), span, f) {
            Some(merge_channel(prev, s.last().data))
        } else {
            prev
        }
    }
}

proof fn lemma_span_data_tail(s: Seq<InitEntry>, span: LoopSpan, f: u32, i: int)
    requires
        0 <= i <= s.len(),
        forall|k: int| i <= k < s.len() ==> #[trigger] s[k].frame_idx + 1 > f,
    ensures
        span_data(s, span, f) == span_data(s.take(i), span, f),
    decreases s.len(),
{
    if s.len() > i {
        let d = s.drop_last();
        assert forall|k: int| i <= k < d.len() implies #[trigger] d[k].frame_idx + 1 > f by {
            assert(d[k] == s[k]);
        }
        lemma_span_data_tail(d, span, f, i);
        assert(d.take(i) =~= s.take(i));
        assert(s[s.len() - 1].frame_idx + 1 > f);
    } else {
        assert(s.take(i) =~= s);
    }
}

/// Resolves the channel data of `span` at frame `frame` from the records in
/// (frame, channel) order.
pub(crate) fn resolve_span_data(init: &Vec<InitEntry>, span: LoopSpan, frame: u32) -> (r: Option<ChannelData>)
    requires
        is_sorted(init@),
        init_frames_fit(init@),
    ensures
        r == span_data(init@, span, frame),
{
    let mut current: Option<ChannelData> = None;
    let mut i: usize = 0;
    while i < init.len() && init[i].frame_idx + 1 <= frame
        invariant
            i <= init@.len(),
            init_frames_fit(init@),
            current == span_data(init@.take(i as int), span, frame),
        decreases init@.len() - i,
    {
        let e = init[i];
        let f_1based = e.frame_idx + 1;
        proof {
            assert(init@.take(i + 1).drop_last() =~= init@.take(i as int));
        }
        if f_1based >= span.start_frame && e.channel == span.channel {
            let d = e.data;
            match current {
                None => {
                    current = Some(d);
                },
                Some(cur) => {
                    let mut cur = cur;
                    if d.cast_member != 0 {
                        cur.cast_lib = d.cast_lib;
                        cur.cast_member = d.cast_member;
                    }
                    cur.pos_x = d.pos_x;
                    cur.pos_y = d.pos_y;
                    if d.width != 0 {
                        cur.width = d.width;
                    }
                    if d.height != 0 {
                        cur.height = d.height;
                    }
                    cur.rotation = d.rotation;
                    cur.skew = d.skew;
                    cur.blend = d.blend;
                    cur.ink = d.ink;
                    cur.stretch = d.stretch;
                    current = Some(cur);
                },
            }
        }
        i = i + 1;
    }
    proof {
        if i < init@.len() {
            assert forall|k: int| i <= k < init@.len() implies #[trigger] init@[k].frame_idx + 1 > frame by {
                if k > i {
                    assert(init@[i as int].key_le(&init@[k]));
                }
            }
        }
        lemma_span_data_tail(init@, span, frame, i as int);
    }
    current
}

// ---------------------------------------------------------------------------
// Keyframes
// ---------------------------------------------------------------------------

/// Index predicate: the keyframes at `i` are those of channel `ch`.
pub open spec fn keyframes_of(s: Seq<Keyframes>, ch: u16) -> spec_fn(int) -> bool {
    |i: int| s[i].channel == ch
}

/// The keyframes of channel `ch`, if the cache has them.
pub open spec fn channel_keyframes(s: Seq<Keyframes>, ch: u16) -> Option<Keyframes> {
    match first_index(s.len() as int, keyframes_of(s, ch)) {
        Some(i) => Some(s[i]),
        None => None,
    }
}

pub(crate) fn keyframes_index(s: &Vec<Keyframes>, ch: u16) -> (r: Option<usize>)
    ensures
        r matches Some(i) ==> i < s@.len() && channel_keyframes(s@, ch) == Some(s@[i as int]),
        r is None ==> channel_keyframes(s@, ch) is None,
{
    let mut i: usize = 0;
    while i < s.len()
        invariant
            i <= s@.len(),
            forall|j: int| 0 <= j < i ==> s@[j].channel != ch,
        decreases s@.len() - i,
    {
        if s[i].channel == ch {
            proof {
                lemma_first_index_found(s@.len() as int, keyframes_of(s@, ch), i as int);
            }
            return Some(i);
        }
        i = i + 1;
    }
    proof {
        lemma_first_index_none(s@.len() as int, keyframes_of(s@, ch));
    }
    None
}

/// Index predicate: the pair entry at `i` is for frame `f`.
pub open spec fn pair_entry_for(s: Seq<(u32, i32, i32)>, f: u32) -> spec_fn(int) -> bool {
    |i: int| s[i].0 == f
}

/// The pair a keyframe table gives at frame `f`.
pub open spec fn pair_at(s: Seq<(u32, i32, i32)>, f: u32) -> Option<(i32, i32)> {
    match first_index(s.len() as int, pair_entry_for(s, f)) {
        Some(i) => Some((s[i].1, s[i].2)),
        None => None,
    }
}

pub(crate) fn pair_lookup(s: &Vec<(u32, i32, i32)>, f: u32) -> (r: Option<(i32, i32)>)
    ensures
        r == pair_at(s@, f),
{
    let mut i: usize = 0;
    while i < s.len()
        invariant
            i <= s@.len(),
            forall|j: int| 0 <= j < i ==> s@[j].0 != f,
        decreases s@.len() - i,
    {
        if s[i].0 == f {
            proof {
                lemma_first_index_found(s@.len() as int, pair_entry_for(s@, f), i as int);
            }
            return Some((s[i].1, s[i].2));
        }
        i = i + 1;
    }
    proof {
        lemma_first_index_none(s@.len() as int, pair_entry_for(s@, f));
    }
    None
}

/// Index predicate: the bit-pattern entry at `i` is for frame `f`.
pub open spec fn bits_entry_for(s: Seq<(u32, u64)>, f: u32) -> spec_fn(int) -> bool {
    |i: int| s[i].0 == f
}

/// The value a keyframe table of bit patterns gives at frame `f`.
pub open spec fn bits_at(s: Seq<(u32, u64)>, f: u32) -> Option<u64> {
    match first_index(s.len() as int, bits_entry_for(s, f)) {
        Some(i) => Some(s[i].1),
        None => None,
    }
}

fn bits_lookup(s: &Vec<(u32, u64)>, f: u32) -> (r: Option<u64>)
    ensures
        r == bits_at(s@, f),
{
    let mut i: usize = 0;
    while i < s.len()
        invariant
            i <= s@.len(),
            forall|j: int| 0 <= j < i ==> s@[j].0 != f,
        decreases s@.len() - i,
    {
        if s[i].0 == f {
            proof {
                lemma_first_index_found(s@.len() as int, bits_entry_for(s@, f), i as int);
            }
            return Some(s[i].1);
        }
        i = i + 1;
    }
    proof {
        lemma_first_index_none(s@.len() as int, bits_entry_for(s@, f));
    }
    None
}

/// Index predicate: the blend entry at `i` is for frame `f`.
pub open spec fn blend_entry_for(s: Seq<(u32, u8)>, f: u32) -> spec_fn(int) -> bool {
    |i: int| s[i].0 == f
}

/// The blend a keyframe table gives at frame `f`.
pub open spec fn blend_at(s: Seq<(u32, u8)>, f: u32) -> Option<u8> {
    match first_index(s.len() as int, blend_entry_for(s, f)) {
        Some(i) => Some(s[i].1),
        None => None,
    }
}

fn blend_lookup(s: &Vec<(u32, u8)>, f: u32) -> (r: Option<u8>)
    ensures
        r == blend_at(s@, f),
{
    let mut i: usize = 0;
    while i < s.len()
        invariant
            i <= s@.len(),
            forall|j: int| 0 <= j < i ==> s@[j].0 != f,
        decreases s@.len() - i,
    {
        if s[i].0 == f {
            proof {
                lemma_first_index_found(s@.len() as int, blend_entry_for(s@, f), i as int);
            }
            return Some(s[i].1);
        }
        i = i + 1;
    }
    proof {
        lemma_first_index_none(s@.len() as int, blend_entry_for(s@, f));
    }
    None
}

// ---------------------------------------------------------------------------
// Sprites of a frame
// ---------------------------------------------------------------------------

/// The cast library a sprite's member is in: 65535 ("the parent's") and 0
/// stand for the film loop's own library.
pub open spec fn loop_cast_lib(cast_lib: i32, d: ChannelData) -> i32 {
    if d.cast_lib == 65535 || d.cast_lib == 0 {
        cast_lib
    } else {
        d.cast_lib as i32
    }
}

/// The size of a bitmap member with a positive stored size.
pub open spec fn natural_size(member: Option<CastMember>) -> Option<(i32, i32)> {
    match member {
        Some(m) => match m.kind {
            CastMemberKind::Bitmap(b) => if b.info.width > 0 && b.info.height > 0 {
                Some((b.info.width as i32, b.info.height as i32))
            } else {
                None
            },
            _ => None,
        },
        None => None,
    }
}

/// A sprite of a film loop frame.  Positions are relative to the film
/// loop's initial rectangle; keyframes override position, size, rotation,
/// skew and blend (a keyframe blend is an opacity percentage, capped at
/// 100); a sprite that does not stretch shows a bitmap member at its stored
/// size.
pub open spec fn frame_member(
    p: DirPlayer,
    fl: FilmLoopMember,
    cast_lib: i32,
    d: ChannelData,
    span: LoopSpan,
    f: u32,
) -> FilmLoopFrameMemberView {
    let rcl = loop_cast_lib(cast_lib, d);
    let member = member_by_ref(p.casts@, CastMemberRef { cast_lib: rcl, cast_member: d.cast_member as i32 });
    let kf = channel_keyframes(fl.keyframes@, span.channel as u16);
    let left = fl.initial_rect.left;
    let top = fl.initial_rect.top;
    let pos = match kf {
        Some(k) => pair_at(k.positions@, f),
        None => None,
    };
    let size = match kf {
        Some(k) => pair_at(k.sizes@, f),
        None => None,
    };
    let rot = match kf {
        Some(k) => bits_at(k.rotations@, f),
        None => None,
    };
    let skew = match kf {
        Some(k) => bits_at(k.skews@, f),
        None => None,
    };
    let blend = match kf {
        Some(k) => blend_at(k.blends@, f),
        None => None,
    };
    let tweened = match size {
        Some(wh) => wh,
        None => (d.width as i32, d.height as i32),
    };
    let wh = match natural_size(member) {
        Some(n) => if !d.stretch { n } else { tweened },
        None => tweened,
    };
    FilmLoopFrameMemberView {
        channel: span.channel,
        cast_lib: rcl,
        cast_member: d.cast_member as i32,
        name: match member {
            Some(m) => m.name@,
            None => Seq::empty(),
        },
        loc_h: match pos {
            Some(xy) => (xy.0 - left) as i32,
            None => (d.pos_x - left) as i32,
        },
        loc_v: match pos {
            Some(xy) => (xy.1 - top) as i32,
            None => (d.pos_y - top) as i32,
        },
        width: wh.0,
        height: wh.1,
        rotation: match rot {
            Some(r) => r,
            None => d.rotation,
        },
        skew: match skew {
            Some(s) => s,
            None => d.skew,
        },
        blend: match blend {
            Some(b) => if b <= 100 { b } else { 100 },
            None => blend_percent(d.blend, p.dir_version),
        },
        ink: d.ink,
    }
}

/// The sprite `span` shows at frame `f`: none while the span has no data
/// or no member yet.
pub open spec fn span_member(
    p: DirPlayer,
    fl: FilmLoopMember,
    cast_lib: i32,
    init: Seq<InitEntry>,
    span: LoopSpan,
    f: u32,
) -> Option<FilmLoopFrameMemberView> {
    match span_data(init, span, f) {
        Some(d) => if d.cast_member != 0 {
            Some(frame_member(p, fl, cast_lib, d, span, f))
        } else {
            None
        },
        None => None,
    }
}

/// `v` is a value of `i32`.
pub open spec fn fits_i32(v: int) -> bool {
    i32::MIN <= v <= i32::MAX
}

/// The sprite `span` shows at frame `f` can be placed in the film loop's own
/// coordinates: its channel position, and its keyframe position if it has
/// one, minus the rectangle's corner, stay in `i32`.
pub open spec fn span_member_fits(fl: FilmLoopMember, init: Seq<InitEntry>, span: LoopSpan, f: u32) -> bool {
    let left = fl.initial_rect.left;
    let top = fl.initial_rect.top;
    match span_data(init, span, f) {
        Some(d) => d.cast_member != 0 ==> {
            &&& fits_i32(d.pos_x - left)
            &&& fits_i32(d.pos_y - top)
            &&& match channel_keyframes(fl.keyframes@, span.channel as u16) {
                Some(k) => match pair_at(k.positions@, f) {
                    Some(xy) => fits_i32(xy.0 - left) && fits_i32(xy.1 - top),
                    None => true,
                },
                None => true,
            }
        },
        None => true,
    }
}

/// Every sprite of frame `f` can be placed.
pub open spec fn frame_fits(fl: FilmLoopMember, init: Seq<InitEntry>, spans: Seq<LoopSpan>, f: u32) -> bool {
    forall|i: int|
        0 <= i < spans.len() && spans[i].start_frame <= f <= spans[i].end_frame ==> span_member_fits(
            fl,
            init,
            #[trigger] spans[i],
            f,
        )
}

/// A film loop's frames can be resolved without leaving the integer ranges:
/// frame indices are below `u32::MAX`, the rectangle's size fits in `i32`,
/// and so does the placement of every sprite of every frame.
pub open spec fn loop_fits(fl: FilmLoopMember) -> bool {
    &&& init_frames_fit(fl.init_data@)
    &&& tempo_frames_fit(fl.tempo_data@)
    &&& fits_i32(fl.initial_rect.right - fl.initial_rect.left)
    &&& fits_i32(fl.initial_rect.bottom - fl.initial_rect.top)
    &&& forall|f: u32|
        1 <= f <= loop_frame_count(fl) ==> #[trigger] frame_fits(fl, sort_by_key(fl.init_data@), loop_spans(fl), f)
}

/// Whether the sprite `span` shows at frame `frame` can be placed.
pub(crate) fn span_fits_at(fl: &FilmLoopMember, init: &Vec<InitEntry>, span: LoopSpan, frame: u32) -> (b: bool)
    requires
        is_sorted(init@),
        init_frames_fit(init@),
    ensures
        b == span_member_fits(*fl, init@, span, frame),
{
    let left = fl.initial_rect.left as i64;
    let top = fl.initial_rect.top as i64;
    let d = match resolve_span_data(init, span, frame) {
        Some(d) => d,
        None => {
            return true;
        },
    };
    if d.cast_member == 0 {
        return true;
    }
    if !in_i32(d.pos_x as i64 - left) || !in_i32(d.pos_y as i64 - top) {
        return false;
    }
    match keyframes_index(&fl.keyframes, span.channel as u16) {
        Some(ki) => match pair_lookup(&fl.keyframes[ki].positions, frame) {
            Some((x, y)) => in_i32(x as i64 - left) && in_i32(y as i64 - top),
            None => true,
        },
        None => true,
    }
}

/// Whether every sprite of frame `frame` can be placed.
pub(crate) fn frame_fits_at(fl: &FilmLoopMember, init: &Vec<InitEntry>, spans: &Vec<LoopSpan>, frame: u32) -> (b: bool)
    requires
        is_sorted(init@),
        init_frames_fit(init@),
    ensures
        b == frame_fits(*fl, init@, spans@, frame),
{
    let mut i: usize = 0;
    while i < spans.len()
        invariant
            i <= spans@.len(),
            is_sorted(init@),
            init_frames_fit(init@),
            forall|k: int|
                0 <= k < i && spans@[k].start_frame <= frame <= spans@[k].end_frame ==> span_member_fits(
                    *fl,
                    init@,
                    #[trigger] spans@[k],
                    frame,
                ),
        decreases spans@.len() - i,
    {
        let sp = spans[i];
        if sp.start_frame <= frame && frame <= sp.end_frame && !span_fits_at(fl, init, sp, frame) {
            return false;
        }
        i = i + 1;
    }
    true
}

/// Whether `v` is a value of `i32`.
pub(crate) fn in_i32(v: i64) -> (b: bool)
    ensures
        b == fits_i32(v as int),
{
    i32::MIN as i64 <= v && v <= i32::MAX as i64
}

/// Builds the sprite `span` shows at frame `frame`.
fn build_span_member(
    player: &DirPlayer,
    fl: &FilmLoopMember,
    cast_lib: i32,
    init: &Vec<InitEntry>,
    span: LoopSpan,
    frame: u32,
) -> (r: Option<McpFilmLoopFrameMember>)
    requires
        is_sorted(init@),
        init_frames_fit(init@),
        span_member_fits(*fl, init@, span, frame),
    ensures
        r.deep_view() == span_member(*player, *fl, cast_lib, init@, span, frame),
{
    let data = match resolve_span_data(init, span, frame) {
        Some(d) => {
            if d.cast_member != 0 {
                d
            } else {
                return None;
            }
        },
        None => {
            return None;
        },
    };
    let resolved_cast_lib: i32 = if data.cast_lib == 65535 || data.cast_lib == 0 {
        cast_lib
    } else {
        data.cast_lib as i32
    };
    let member_ref = CastMemberRef { cast_lib: resolved_cast_lib, cast_member: data.cast_member as i32 };
    let found = find_member_by_ref(&player.casts, member_ref);
    let name = match found {
        Some((c, m)) => player.casts[c].members[m].1.name.clone(),
        None => String::new(),
    };
    let left = fl.initial_rect.left;
    let top = fl.initial_rect.top;
    let mut loc_h: i32 = data.pos_x as i32 - left;
    let mut loc_v: i32 = data.pos_y as i32 - top;
    let mut width: i32 = data.width as i32;
    let mut height: i32 = data.height as i32;
    let mut rotation: u64 = data.rotation;
    let mut skew: u64 = data.skew;
    let mut blend_pct: u8 = raw_blend_to_percent(data.blend, player.dir_version);
    match keyframes_index(&fl.keyframes, span.channel as u16) {
        Some(ki) => {
            let kf = &fl.keyframes[ki];
            match pair_lookup(&kf.positions, frame) {
                Some((x, y)) => {
                    loc_h = x - left;
                    loc_v = y - top;
                },
                None => {},
            }
            match pair_lookup(&kf.sizes, frame) {
                Some((w, h)) => {
                    width = w;
                    height = h;
                },
                None => {},
            }
            match bits_lookup(&kf.rotations, frame) {
                Some(r) => {
                    rotation = r;
                },
                None => {},
            }
            match bits_lookup(&kf.skews, frame) {
                Some(s) => {
                    skew = s;
                },
                None => {},
            }
            match blend_lookup(&kf.blends, frame) {
                Some(b) => {
                    blend_pct = if b <= 100 { b } else { 100 };
                },
                None => {},
            }
        },
        None => {},
    }
    if !data.stretch {
        match found {
            Some((c, m)) => {
                match &player.casts[c].members[m].1.kind {
                    CastMemberKind::Bitmap(bmp) => {
                        if bmp.info.width > 0 && bmp.info.height > 0 {
                            width = bmp.info.width as i32;
                            height = bmp.info.height as i32;
                        }
                    },
                    _ => {},
                }
            },
            None => {},
        }
    }
    Some(
        McpFilmLoopFrameMember {
            channel: span.channel,
            cast_lib: resolved_cast_lib,
            cast_member: data.cast_member as i32,
            name,
            loc_h,
            loc_v,
            width,
            height,
            rotation,
            skew,
            blend: blend_pct,
            ink: data.ink,
        },
    )
}

// ---------------------------------------------------------------------------
// Frames
// ---------------------------------------------------------------------------

/// The spans live at frame `f`, in order.
pub open spec fn active_spans(s: Seq<LoopSpan>, f: u32) -> Seq<LoopSpan>
    decreases s.len(),
{
    if s.len() == 0 {
        Seq::empty()
    } else if s.last().start_frame <= f && f <= s.last().end_frame {
        active_spans(s.drop_last(), f).push(s.last())
    } else {
        active_spans(s.drop_last(), f)
    }
}

/// Each span live at `f` is a span of `s` and is live at `f`.
pub proof fn lemma_active_members(s: Seq<LoopSpan>, f: u32, k: int)
    requires
        0 <= k < active_spans(s, f).len(),
    ensures
        exists|j: int| 0 <= j < s.len() && active_spans(s, f)[k] == #[trigger] s[j],
        active_spans(s, f)[k].start_frame <= f <= active_spans(s, f)[k].end_frame,
    decreases s.len(),
{
    let d = s.drop_last();
    let a = active_spans(d, f);
    if s.last().start_frame <= f && f <= s.last().end_frame {
        if k < a.len() {
            lemma_active_members(d, f, k);
            let j = choose|j: int| 0 <= j < d.len() && a[k] == #[trigger] d[j];
            assert(d[j] == s[j]);
        } else {
            assert(s[s.len() - 1] == s.last());
        }
    } else {
        lemma_active_members(d, f, k);
        let j = choose|j: int| 0 <= j < d.len() && a[k] == #[trigger] d[j];
        assert(d[j] == s[j]);
    }
}

/// The sprites the given spans show at frame `f`, in span order.
pub open spec fn frame_members(
    p: DirPlayer,
    fl: FilmLoopMember,
    cast_lib: i32,
    init: Seq<InitEntry>,
    spans: Seq<LoopSpan>,
    f: u32,
) -> Seq<FilmLoopFrameMemberView>
    decreases spans.len(),
{
    if spans.len() == 0 {
        Seq::empty()
    } else {
        let prev = frame_members(p, fl, cast_lib, init, spans.drop_last(), f);
        match span_member(p, fl, cast_lib, init, spans.last(), f) {
            Some(m) => prev.push(m),
            None => prev,
        }
    }
}

/// Frame `f` of a film loop: its duration under the tempo in force, and the
/// sprites of the spans live at `f`, ordered by channel.
pub open spec fn frame_view(
    p: DirPlayer,
    fl: FilmLoopMember,
    cast_lib: i32,
    init: Seq<InitEntry>,
    tempo: Seq<TempoEntry>,
    spans: Seq<LoopSpan>,
    f: u32,
) -> FilmLoopFrameView {
    let d = tempo_durations(tempo_at(tempo, f));
    FilmLoopFrameView {
        frame: f,
        duration_ticks: d.0,
        duration_ms: d.1,
        members: frame_members(p, fl, cast_lib, init, sort_by_key(active_spans(spans, f)), f),
    }
}

fn build_frame(
    player: &DirPlayer,
    fl: &FilmLoopMember,
    cast_lib: i32,
    init: &Vec<InitEntry>,
    tempo: &Vec<TempoEntry>,
    spans: &Vec<LoopSpan>,
    frame: u32,
) -> (r: McpFilmLoopFrame)
    requires
        is_sorted(init@),
        init_frames_fit(init@),
        tempo_frames_fit(tempo@),
        frame_fits(*fl, init@, spans@, frame),
    ensures
        r.deep_view() == frame_view(*player, *fl, cast_lib, init@, tempo@, spans@, frame),
{
    let mut active: Vec<LoopSpan> = Vec::new();
    let mut i: usize = 0;
    while i < spans.len()
        invariant
            i <= spans@.len(),
            active@ == active_spans(spans@.take(i as int), frame),
        decreases spans@.len() - i,
    {
        let sp = spans[i];
        if sp.start_frame <= frame && frame <= sp.end_frame {
            active.push(sp);
        }
        proof {
            assert(spans@.take(i + 1).drop_last() =~= spans@.take(i as int));
        }
        i = i + 1;
    }
    assert(spans@.take(i as int) =~= spans@);
    let ghost live = active@;
    let active = stable_sort(&active);
    proof {
        assert forall|q: int| 0 <= q < active@.len() implies span_member_fits(*fl, init@, #[trigger] active@[q], frame) by {
            lemma_sort_members(live, q);
            let a = choose|a: int| 0 <= a < live.len() && sort_by_key(live)[q] == #[trigger] live[a];
            lemma_active_members(spans@, frame, a);
            let j = choose|j: int| 0 <= j < spans@.len() && live[a] == #[trigger] spans@[j];
        }
    }
    let mut members: Vec<McpFilmLoopFrameMember> = Vec::new();
    let mut k: usize = 0;
    while k < active.len()
        invariant
            k <= active@.len(),
            is_sorted(init@),
            init_frames_fit(init@),
            forall|q: int| 0 <= q < active@.len() ==> span_member_fits(*fl, init@, #[trigger] active@[q], frame),
            members.deep_view() == frame_members(*player, *fl, cast_lib, init@, active@.take(k as int), frame),
        decreases active@.len() - k,
    {
        let m = build_span_member(player, fl, cast_lib, init, active[k], frame);
        proof {
            assert(active@.take(k + 1).drop_last() =~= active@.take(k as int));
        }
        match m {
            Some(mm) => {
                members.push(mm);
            },
            None => {},
        }
        proof {
            assert(members.deep_view() =~= frame_members(*player, *fl, cast_lib, init@, active@.take(k + 1), frame));
        }
        k = k + 1;
    }
    assert(active@.take(k as int) =~= active@);
    let (duration_ticks, duration_ms) = resolve_film_loop_frame_tempo(tempo, frame);
    McpFilmLoopFrame { frame, duration_ticks, duration_ms, members }
}

// ---------------------------------------------------------------------------
// The query
// ---------------------------------------------------------------------------

/// A film loop, frame by frame.  The rectangle is the loop's initial
/// rectangle (at least 1 wide and high, cut to 16 bits), registered at its
/// centre; the first frame's duration is the default, 33 ms without frames.
pub open spec fn film_loop_view(
    p: DirPlayer,
    cast_lib: i32,
    cast_member: i32,
    name: Seq<char>,
    fl: FilmLoopMember,
) -> FilmLoopFramesView {
    let init = sort_by_key(fl.init_data@);
    let tempo = sort_by_key(fl.tempo_data@);
    let spans = loop_spans(fl);
    let count = loop_frame_count(fl);
    let frames = Seq::new(count as nat, |i: int| frame_view(p, fl, cast_lib, init, tempo, spans, (i + 1) as u32));
    let w = fl.initial_rect.right - fl.initial_rect.left;
    let h = fl.initial_rect.bottom - fl.initial_rect.top;
    let nat_w = (if w >= 1 { w } else { 1 }) as u16;
    let nat_h = (if h >= 1 { h } else { 1 }) as u16;
    FilmLoopFramesView {
        cast_lib,
        cast_member,
        name,
        frame_count: count,
        width: nat_w,
        height: nat_h,
        reg_x: (nat_w / 2) as i16,
        reg_y: (nat_h / 2) as i16,
        loops: fl.loops != 0,
        default_duration_ms: if count > 0 { frames[0].duration_ms } else { 33 },
        sprite_spans: fl.sprite_spans@.map_values(|s: SpriteSpan| McpFilmLoopSpan { channel: s.channel_number, start_frame: s.start_frame, end_frame: s.end_frame }),
        frames,
    }
}

/// The film loop member a query names, if there is one.
pub open spec fn film_loop_at(p: DirPlayer, cast_lib: i32, cast_member: i32) -> Option<FilmLoopMember> {
    match cast_pos(p.casts@, cast_lib as u32) {
        Some(c) => match member_pos(p.casts@[c].members@, cast_member as u32) {
            Some(m) => match p.casts@[c].members@[m].1.kind {
                CastMemberKind::FilmLoop(fl) => Some(fl),
                _ => None,
            },
            None => None,
        },
        None => None,
    }
}

/// The answer to a film loop query: an error when the cast library, the
/// member, or a film loop is not there.
pub open spec fn film_loop_answer(p: DirPlayer, cast_lib: i32, cast_member: i32) -> Result<FilmLoopFramesView, Seq<char>> {
    match cast_pos(p.casts@, cast_lib as u32) {
        None => Err(cast_not_found_msg(cast_lib)),
        Some(c) => match member_pos(p.casts@[c].members@, cast_member as u32) {
            None => Err(member_not_found_msg(cast_lib, cast_member)),
            Some(m) => {
                let member = p.casts@[c].members@[m].1;
                match member.kind {
                    CastMemberKind::FilmLoop(fl) => Ok(film_loop_view(p, cast_lib, cast_member, member.name@, fl)),
                    _ => Err(wrong_kind_msg(cast_lib, cast_member, "FilmLoop"@, member.type_label@)),
                }
            },
        },
    }
}

/// Walks a film loop's score and gives each frame's sprites and tempo.
pub fn mcp_get_film_loop_frames(player: &DirPlayer, cast_lib: i32, cast_member: i32) -> (r: Result<McpFilmLoopFrames, McpError>)
    requires
        film_loop_at(*player, cast_lib, cast_member) matches Some(fl) ==> loop_fits(fl),
    ensures
        answers(r, film_loop_answer(*player, cast_lib, cast_member)),
{
    let c = match cast_index(&player.casts, cast_lib as u32) {
        Some(c) => c,
        None => {
            return Err(cast_not_found(cast_lib));
        },
    };
    let cast = &player.casts[c];
    let m = match member_index(&cast.members, cast_member as u32) {
        Some(m) => m,
        None => {
            return Err(member_not_found(cast_lib, cast_member));
        },
    };
    let member = &cast.members[m].1;
    let film_loop = match &member.kind {
        CastMemberKind::FilmLoop(fl) => fl,
        _ => {
            return Err(wrong_kind(cast_lib, cast_member, "FilmLoop", &member.type_label));
        },
    };
    let init_data = stable_sort(&film_loop.init_data);
    let tempo_data = stable_sort(&film_loop.tempo_data);
    proof {
        lemma_sort_sorted(film_loop.tempo_data@);
        assert(tempo_frames_fit(tempo_data@)) by {
            assert forall|i: int| 0 <= i < tempo_data@.len() implies #[trigger] tempo_data@[i].frame_idx < u32::MAX by {
                crate::sort::lemma_sort_members(film_loop.tempo_data@, i);
            }
        }
    }
    proof {
        lemma_sort_sorted(film_loop.init_data@);
        assert(init_frames_fit(init_data@)) by {
            assert forall|i: int| 0 <= i < init_data@.len() implies #[trigger] init_data@[i].frame_idx < u32::MAX by {
                crate::sort::lemma_sort_members(film_loop.init_data@, i);
            }
        }
    }
    let spans = collect_loop_spans(film_loop);
    let frame_count = film_loop_frame_count(film_loop, &spans);
    let mut frames: Vec<McpFilmLoopFrame> = Vec::new();
    let mut frame_num: u64 = 1;
    while frame_num <= frame_count as u64
        invariant
            1 <= frame_num <= frame_count as u64 + 1,
            frame_count == loop_frame_count(*film_loop),
            spans@ == loop_spans(*film_loop),
            loop_fits(*film_loop),
            init_data@ == sort_by_key(film_loop.init_data@),
            is_sorted(init_data@),
            init_frames_fit(init_data@),
            tempo_frames_fit(tempo_data@),
            frames@.len() == frame_num - 1,
            forall|i: int| 0 <= i < frames@.len() ==> #[trigger] frames@[i].deep_view() == frame_view(
                *player, *film_loop, cast_lib, init_data@, tempo_data@, spans@, (i + 1) as u32),
        decreases frame_count as u64 + 1 - frame_num,
    {
        assert(frame_fits(*film_loop, init_data@, spans@, frame_num as u32));
        let frame = build_frame(player, film_loop, cast_lib, &init_data, &tempo_data, &spans, frame_num as u32);
        frames.push(frame);
        frame_num = frame_num + 1;
    }
    let default_duration_ms: u32 = if frames.len() > 0 {
        frames[0].duration_ms
    } else {
        33
    };
    let mut sprite_spans: Vec<McpFilmLoopSpan> = Vec::new();
    let mut i: usize = 0;
    while i < film_loop.sprite_spans.len()
        invariant
            i <= film_loop.sprite_spans@.len(),
            sprite_spans@ =~= film_loop.sprite_spans@.take(i as int).map_values(|s: SpriteSpan| McpFilmLoopSpan { channel: s.channel_number, start_frame: s.start_frame, end_frame: s.end_frame }),
        decreases film_loop.sprite_spans@.len() - i,
    {
        let s = film_loop.sprite_spans[i];
        sprite_spans.push(McpFilmLoopSpan { channel: s.channel_number, start_frame: s.start_frame, end_frame: s.end_frame });
        i = i + 1;
    }
    assert(film_loop.sprite_spans@.take(i as int) =~= film_loop.sprite_spans@);
    let rect = film_loop.initial_rect;
    let w: i32 = rect.right - rect.left;
    let h: i32 = rect.bottom - rect.top;
    let nat_width: u16 = (if w >= 1 { w } else { 1 }) as u16;
    let nat_height: u16 = (if h >= 1 { h } else { 1 }) as u16;
    let result = McpFilmLoopFrames {
        cast_lib,
        cast_member,
        name: member.name.clone(),
        frame_count,
        width: nat_width,
        height: nat_height,
        reg_x: (nat_width / 2) as i16,
        reg_y: (nat_height / 2) as i16,
        loops: film_loop.loops != 0,
        default_duration_ms,
        sprite_spans,
        frames,
    };
    proof {
        assert(result.deep_view().frames =~= film_loop_view(*player, cast_lib, cast_member, member.name@, *film_loop).frames);
        assert(result.deep_view().sprite_spans =~= film_loop_view(*player, cast_lib, cast_member, member.name@, *film_loop).sprite_spans);
    }
    Ok(result)
}

} // verus!
