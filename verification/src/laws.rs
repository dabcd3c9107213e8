//! Properties that hold across queries and over all inputs.
use vstd::prelude::*;
use crate::filmloop::{
    active_spans, blend_percent, lemma_active_members, span_data, film_loop_answer, film_loop_view, frame_members, frame_view,
    loop_frame_count, span_member, LoopSpan,
};
use crate::casts::{member_details, member_info, member_infos};
use crate::lookup::{cast_has_number, cast_pos, member_has_number, member_pos};
use crate::model::{CastLib, CastMember, DatumRef, DirPlayer, FilmLoopMember, InitEntry, ScriptError, TempoEntry};
use crate::player::{
    call_stack, context, eval_result, execution_state, is_placeholder, lemma_real_scopes_bound,
    lemma_real_scopes_real, locals, real_scopes, scope_info, scope_summary, shown_scopes,
};
use crate::picture::picture_answer;
use crate::response::{FilmLoopFrameMemberView, ScopeInfoView};
use crate::scripts::{cast_selected, all_script_infos, decompilation, disassembly, page, script_list};
use crate::text::lowercase;
use crate::datum::{boundary_at_or_before, quoted_short};
use vstd::utf8::{
    decode_utf8, decode_utf8_encode_utf8, decode_utf8_split, encode_utf8, encode_utf8_decode_utf8,
    encode_utf8_valid_utf8, is_char_boundary, is_char_boundary_start_end_of_seq, valid_utf8, valid_utf8_split,
};
use crate::sort::{is_sorted, lemma_sort_members, lemma_sort_sorted, sort_by_key, SortKey};

verus! {

// ---------------------------------------------------------------------------
// Script listing pages
// ---------------------------------------------------------------------------

/// The page at offset `o` with limit `a`, followed by everything from offset
/// `o + a`, is everything from offset `o`: consecutive pages tile the
/// listing, with nothing lost or repeated.
pub proof fn law_pages_tile(p: DirPlayer, cast_lib: Option<i32>, o: usize, a: usize)
    requires
        o + a <= usize::MAX,
    ensures
        script_list(p, cast_lib, Some(a), Some(o)).scripts + script_list(
            p,
            cast_lib,
            None,
            Some((o + a) as usize),
        ).scripts == script_list(p, cast_lib, None, Some(o)).scripts,
{
    let all = all_script_infos(p.casts@, cast_lib);
    let lhs = page(all, o as nat, Some(a)) + page(all, (o + a) as nat, None);
    let rhs = page(all, o as nat, None);
    if o <= all.len() {
        let rest = all.skip(o as int);
        if (a as int) < rest.len() {
            assert(lhs =~= rhs);
        } else {
            assert(lhs =~= rhs);
        }
    } else {
        assert(lhs =~= rhs);
    }
}

/// Paging changes neither the total count nor the script order, and a page
/// never holds more scripts than its limit.
pub proof fn law_page_bounds(
    p: DirPlayer,
    cast_lib: Option<i32>,
    limit: Option<usize>,
    offset: Option<usize>,
)
    ensures
        script_list(p, cast_lib, limit, offset).total_count == script_list(p, cast_lib, None, None).total_count,
        script_list(p, cast_lib, None, None).scripts == all_script_infos(p.casts@, cast_lib),
        limit matches Some(l) ==> script_list(p, cast_lib, limit, offset).scripts.len() <= l,
        script_list(p, cast_lib, limit, offset).scripts.len() <= all_script_infos(p.casts@, cast_lib).len(),
{
    let all = all_script_infos(p.casts@, cast_lib);
    assert(all.skip(0) =~= all);
}

// ---------------------------------------------------------------------------
// Short forms of strings
// ---------------------------------------------------------------------------

proof fn lemma_boundary_at_or_before(b: Seq<u8>, k: int)
    requires
        valid_utf8(b),
        k <= b.len(),
    ensures
        0 <= boundary_at_or_before(b, k),
        k >= 0 ==> boundary_at_or_before(b, k) <= k,
        is_char_boundary(b, boundary_at_or_before(b, k)),
    decreases k,
{
    is_char_boundary_start_end_of_seq(b);
    if k > 0 && !is_char_boundary(b, k) {
        lemma_boundary_at_or_before(b, k - 1);
    }
}

/// A string longer than 58 bytes is shown as a prefix of it, of at most 55
/// bytes, in quotes and followed by an ellipsis: the short form is at most
/// 60 bytes long and never splits a character.
pub proof fn law_long_string_keeps_a_prefix(s: Seq<char>)
    requires
        encode_utf8(s).len() > 58,
    ensures
        ({
            let t = decode_utf8(encode_utf8(s).subrange(0, boundary_at_or_before(encode_utf8(s), 55)));
            &&& quoted_short(s) == "\""@ + t + "...\""@
            &&& t.len() <= s.len()
            &&& s.take(t.len() as int) == t
            &&& encode_utf8(t).len() <= 55
        }),
{
    let b = encode_utf8(s);
    encode_utf8_valid_utf8(s);
    lemma_boundary_at_or_before(b, 55);
    let k = boundary_at_or_before(b, 55);
    valid_utf8_split(b, k);
    decode_utf8_split(b, k);
    encode_utf8_decode_utf8(s);
    let t = decode_utf8(b.subrange(0, k));
    let rest = decode_utf8(b.subrange(k, b.len() as int));
    assert(s =~= t + rest);
    assert(s.take(t.len() as int) =~= t);
    decode_utf8_encode_utf8(b.subrange(0, k));
}

// ---------------------------------------------------------------------------
// Blend
// ---------------------------------------------------------------------------

/// Opacity is a percentage; a raw 0 is opaque in every version; from
/// version 800 on a larger raw byte never gives a larger opacity, and 255
/// is transparent.
pub proof fn law_blend_scale(raw1: u8, raw2: u8, dir_version: u16)
    ensures
        blend_percent(raw1, dir_version) <= 100,
        blend_percent(0, dir_version) == 100,
        dir_version >= 800 && raw1 <= raw2 ==> blend_percent(raw1, dir_version) >= blend_percent(raw2, dir_version),
        dir_version >= 800 ==> blend_percent(255, dir_version) == 0,
{
    if dir_version >= 800 && raw1 <= raw2 {
        let a = (255 - raw1) * 100;
        let b = (255 - raw2) * 100;
        assert(b <= a);
        assert(b / 255 <= a / 255) by (nonlinear_arith)
            requires
                0 <= b <= a,
        ;
    }
}

// ---------------------------------------------------------------------------
// Film loop frames
// ---------------------------------------------------------------------------

proof fn lemma_members_from_spans(
    p: DirPlayer,
    fl: FilmLoopMember,
    cast_lib: i32,
    init: Seq<InitEntry>,
    spans: Seq<LoopSpan>,
    f: u32,
)
    ensures
        forall|i: int|
            0 <= i < frame_members(p, fl, cast_lib, init, spans, f).len() ==> exists|k: int|
                0 <= k < spans.len() && (#[trigger] frame_members(p, fl, cast_lib, init, spans, f)[i]).channel
                    == spans[k].channel,
    decreases spans.len(),
{
    if spans.len() > 0 {
        let d = spans.drop_last();
        lemma_members_from_spans(p, fl, cast_lib, init, d, f);
        let prev = frame_members(p, fl, cast_lib, init, d, f);
        let ms = frame_members(p, fl, cast_lib, init, spans, f);
        assert forall|i: int| 0 <= i < ms.len() implies exists|k: int|
            0 <= k < spans.len() && (#[trigger] ms[i]).channel == spans[k].channel by {
            if i < prev.len() {
                assert(ms[i] == prev[i]);
                let k = choose|k: int| 0 <= k < d.len() && (#[trigger] prev[i]).channel == d[k].channel;
                assert(d[k] == spans[k]);
            } else {
                assert(ms[i].channel == spans[spans.len() - 1].channel);
            }
        }
    }
}

proof fn lemma_members_ordered(
    p: DirPlayer,
    fl: FilmLoopMember,
    cast_lib: i32,
    init: Seq<InitEntry>,
    spans: Seq<LoopSpan>,
    f: u32,
)
    requires
        is_sorted(spans),
    ensures
        forall|i: int, j: int|
            0 <= i < j < frame_members(p, fl, cast_lib, init, spans, f).len() ==> (#[trigger] frame_members(
                p,
                fl,
                cast_lib,
                init,
                spans,
                f,
            )[i]).channel <= (#[trigger] frame_members(p, fl, cast_lib, init, spans, f)[j]).channel,
    decreases spans.len(),
{
    if spans.len() > 0 {
        let d = spans.drop_last();
        assert(is_sorted(d)) by {
            assert forall|i: int, j: int| 0 <= i < j < d.len() implies #[trigger] d[i].key_le(&d[j]) by {
                assert(d[i] == spans[i] && d[j] == spans[j]);
            }
        }
        lemma_members_ordered(p, fl, cast_lib, init, d, f);
        lemma_members_from_spans(p, fl, cast_lib, init, d, f);
        let prev = frame_members(p, fl, cast_lib, init, d, f);
        let ms = frame_members(p, fl, cast_lib, init, spans, f);
        let last = spans.last();
        assert forall|i: int, j: int| 0 <= i < j < ms.len() implies (#[trigger] ms[i]).channel <= (
        #[trigger] ms[j]).channel by {
            if j < prev.len() {
                assert(ms[i] == prev[i] && ms[j] == prev[j]);
            } else {
                assert(ms[j].channel == last.channel);
                assert(ms[i] == prev[i]);
                let k = choose|k: int| 0 <= k < d.len() && (#[trigger] prev[i]).channel == d[k].channel;
                assert(spans[k].key_le(&spans[spans.len() - 1]));
                assert(d[k] == spans[k]);
            }
        }
    }
}

/// Each frame lists its sprites in channel order, and every sprite is on
/// the channel of a span that is live at that frame.
pub proof fn law_frame_sprites(
    p: DirPlayer,
    fl: FilmLoopMember,
    cast_lib: i32,
    init: Seq<InitEntry>,
    tempo: Seq<TempoEntry>,
    spans: Seq<LoopSpan>,
    f: u32,
)
    ensures
        forall|i: int, j: int|
            0 <= i < j < frame_view(p, fl, cast_lib, init, tempo, spans, f).members.len() ==> (
            #[trigger] frame_view(p, fl, cast_lib, init, tempo, spans, f).members[i]).channel <= (
            #[trigger] frame_view(p, fl, cast_lib, init, tempo, spans, f).members[j]).channel,
        forall|i: int|
            0 <= i < frame_view(p, fl, cast_lib, init, tempo, spans, f).members.len() ==> exists|k: int|
                0 <= k < spans.len() && spans[k].start_frame <= f <= spans[k].end_frame && (
                #[trigger] frame_view(p, fl, cast_lib, init, tempo, spans, f).members[i]).channel
                    == spans[k].channel,
{
    let act = active_spans(spans, f);
    let srt = sort_by_key(act);
    lemma_sort_sorted(act);
    lemma_members_ordered(p, fl, cast_lib, init, srt, f);
    lemma_members_from_spans(p, fl, cast_lib, init, srt, f);
    let ms = frame_members(p, fl, cast_lib, init, srt, f);
    assert forall|i: int| 0 <= i < ms.len() implies exists|k: int|
        0 <= k < spans.len() && spans[k].start_frame <= f <= spans[k].end_frame && (
        #[trigger] ms[i]).channel == spans[k].channel by {
        let q = choose|q: int| 0 <= q < srt.len() && (#[trigger] ms[i]).channel == srt[q].channel;
        lemma_sort_members(act, q);
        let a = choose|a: int| 0 <= a < act.len() && srt[q] == #[trigger] act[a];
        lemma_active_members(spans, f, a);
        let k = choose|k: int| 0 <= k < spans.len() && act[a] == #[trigger] spans[k];
    }
}

proof fn lemma_members_blend(
    p: DirPlayer,
    fl: FilmLoopMember,
    cast_lib: i32,
    init: Seq<InitEntry>,
    spans: Seq<LoopSpan>,
    f: u32,
)
    ensures
        forall|i: int|
            0 <= i < frame_members(p, fl, cast_lib, init, spans, f).len() ==> (
            #[trigger] frame_members(p, fl, cast_lib, init, spans, f)[i]).blend <= 100,
    decreases spans.len(),
{
    if spans.len() > 0 {
        let d = spans.drop_last();
        lemma_members_blend(p, fl, cast_lib, init, d, f);
        let prev = frame_members(p, fl, cast_lib, init, d, f);
        let ms = frame_members(p, fl, cast_lib, init, spans, f);
        if let Some(data) = span_data(init, spans.last(), f) {
            law_blend_scale(data.blend, data.blend, p.dir_version);
        }
        assert forall|i: int| 0 <= i < ms.len() implies (#[trigger] ms[i]).blend <= 100 by {
            if i < prev.len() {
                assert(ms[i] == prev[i]);
            }
        }
    }
}

/// Every sprite's blend is an opacity percentage, 0 to 100, whether it
/// comes from the channel data or from a keyframe.
pub proof fn law_frame_blends_are_percentages(
    p: DirPlayer,
    fl: FilmLoopMember,
    cast_lib: i32,
    init: Seq<InitEntry>,
    tempo: Seq<TempoEntry>,
    spans: Seq<LoopSpan>,
    f: u32,
)
    ensures
        forall|i: int|
            0 <= i < frame_view(p, fl, cast_lib, init, tempo, spans, f).members.len() ==> (
            #[trigger] frame_view(p, fl, cast_lib, init, tempo, spans, f).members[i]).blend <= 100,
{
    lemma_members_blend(p, fl, cast_lib, init, sort_by_key(active_spans(spans, f)), f);
}

/// A film loop answer has one frame per frame of the loop, numbered from 1,
/// and its default duration is its first frame's.
pub proof fn law_frames_numbered(p: DirPlayer, cast_lib: i32, cast_member: i32)
    ensures
        film_loop_answer(p, cast_lib, cast_member) matches Ok(v) ==> {
            &&& v.frames.len() == v.frame_count
            &&& forall|i: int| 0 <= i < v.frames.len() ==> (#[trigger] v.frames[i]).frame == i + 1
            &&& v.frames.len() > 0 ==> v.default_duration_ms == v.frames[0].duration_ms
            &&& v.reg_x == v.width / 2 && v.reg_y == v.height / 2
        },
{
}

// ---------------------------------------------------------------------------
// Call stack and context
// ---------------------------------------------------------------------------

/// A call stack limited to depth `d` holds the top `d` real scopes (all of
/// them when there are fewer), bottom to top, never a placeholder, and the
/// current scope is the last one.
pub proof fn law_call_stack_depth(p: DirPlayer, depth: Option<usize>, include_locals: bool)
    requires
        p.scopes@.len() <= usize::MAX,
    ensures
        ({
            let n = real_scopes(p.scopes@).len();
            let cs = call_stack(p, depth, include_locals);
            &&& cs.scopes.len() == match depth {
                Some(d) => if d < n { d as int } else { n as int },
                None => n as int,
            }
            &&& forall|i: int| 0 <= i < cs.scopes.len() ==> (#[trigger] cs.scopes[i]).index < p.scopes@.len()
                && !is_placeholder(p.scopes@[cs.scopes[i].index as int])
            &&& forall|i: int, j: int| 0 <= i < j < cs.scopes.len() ==> (#[trigger] cs.scopes[i]).index < (#[trigger] cs.scopes[j]).index
            &&& (cs.current_scope_index is None <==> cs.scopes.len() == 0)
            &&& cs.current_scope_index matches Some(c) ==> c == cs.scopes.len() - 1
        }),
{
    let live = real_scopes(p.scopes@);
    lemma_real_scopes_bound(p.scopes@);
    lemma_real_scopes_increasing(p.scopes@);
    let shown = shown_scopes(p, depth);
    let cs = call_stack(p, depth, include_locals);
    let start: int = match depth {
        Some(d) => if d < live.len() { live.len() - d } else { 0 },
        None => 0,
    };
    assert(shown =~= live.skip(start));
    assert forall|i: int| 0 <= i < cs.scopes.len() implies (#[trigger] cs.scopes[i]).index < p.scopes@.len()
        && !is_placeholder(p.scopes@[cs.scopes[i].index as int]) by {
        assert(cs.scopes[i] == scope_info(p, shown[i], include_locals));
        lemma_real_scopes_real(p.scopes@, start + i);
    }
    assert forall|i: int, j: int| 0 <= i < j < cs.scopes.len() implies (#[trigger] cs.scopes[i]).index < (
    #[trigger] cs.scopes[j]).index by {
        assert(cs.scopes[i] == scope_info(p, shown[i], include_locals));
        assert(cs.scopes[j] == scope_info(p, shown[j], include_locals));
    }
}

proof fn lemma_real_scopes_increasing(s: Seq<crate::model::Scope>)
    requires
        s.len() <= usize::MAX,
    ensures
        forall|i: int, j: int| 0 <= i < j < real_scopes(s).len() ==> (#[trigger] real_scopes(s)[i]) < (#[trigger] real_scopes(s)[j]),
    decreases s.len(),
{
    if s.len() > 0 {
        let d = s.drop_last();
        lemma_real_scopes_increasing(d);
        lemma_real_scopes_bound(d);
    }
}

/// Asked about a scope that the call stack shows, the locals query answers
/// for that scope and names the same handler.
pub proof fn law_locals_agree_with_call_stack(p: DirPlayer, depth: Option<usize>, include_locals: bool, k: int)
    requires
        p.scopes@.len() <= usize::MAX,
        0 <= k < call_stack(p, depth, include_locals).scopes.len(),
    ensures
        ({
            let s = call_stack(p, depth, include_locals).scopes[k];
            &&& locals(p, Some(s.index)) is Ok
            &&& locals(p, Some(s.index))->Ok_0.scope_index == s.index
            &&& locals(p, Some(s.index))->Ok_0.handler_name == s.handler_name
        }),
{
    law_call_stack_depth(p, depth, include_locals);
    let cs = call_stack(p, depth, include_locals);
    assert(cs.scopes[k].index < p.scopes@.len());
}

/// Asking for locals changes a call stack only by adding each scope's
/// locals and arguments; and a call stack limited to depth `d` is the last
/// `d` scopes of the full one (all of them when there are fewer).
pub proof fn law_call_stack_views_agree(p: DirPlayer, depth: Option<usize>, d: usize, include_locals: bool)
    ensures
        call_stack(p, depth, true).scopes.len() == call_stack(p, depth, false).scopes.len(),
        call_stack(p, depth, true).current_scope_index == call_stack(p, depth, false).current_scope_index,
        forall|k: int|
            0 <= k < call_stack(p, depth, false).scopes.len() ==> (ScopeInfoView {
                locals: None,
                args: None,
                ..#[trigger] call_stack(p, depth, true).scopes[k]
            }) == call_stack(p, depth, false).scopes[k],
        ({
            let all = call_stack(p, None, include_locals).scopes;
            let n = all.len();
            call_stack(p, Some(d), include_locals).scopes == all.skip(if d < n { n - d } else { 0 })
        }),
{
    let live = real_scopes(p.scopes@);
    assert(live.skip(0) =~= live);
    assert(shown_scopes(p, None) =~= live);
    let all = call_stack(p, None, include_locals).scopes;
    let n = all.len();
    let start: int = if d < n { n - d } else { 0 };
    assert(call_stack(p, Some(d), include_locals).scopes =~= all.skip(start));
}

/// The context counts as many scopes as the full call stack shows, and its
/// current handler is the call stack's top scope.
pub proof fn law_context_matches_call_stack(p: DirPlayer, include_locals: bool)
    requires
        p.scopes@.len() <= usize::MAX,
    ensures
        context(p).scope_count == call_stack(p, None, include_locals).scopes.len(),
        (context(p).current_handler is None) == (call_stack(p, None, include_locals).scopes.len() == 0),
        context(p).current_handler matches Some(h) ==> {
            let top = call_stack(p, None, include_locals).scopes.last();
            &&& h.index == top.index
            &&& h.script_name == top.script_name
            &&& h.handler_name == top.handler_name
            &&& h.bytecode_index == top.bytecode_index
        },
{
    let live = real_scopes(p.scopes@);
    lemma_real_scopes_bound(p.scopes@);
    assert(live.skip(0) =~= live);
    assert(shown_scopes(p, None) =~= live);
}

// ---------------------------------------------------------------------------
// Handlers
// ---------------------------------------------------------------------------

/// Disassembly and decompilation find the same handlers: one succeeds
/// exactly when the other does, and they fail with the same message.
pub proof fn law_handler_queries_agree(p: DirPlayer, cast_lib: i32, cast_member: i32, handler_name: Seq<char>)
    ensures
        disassembly(p, cast_lib, cast_member, handler_name) is Ok <==> decompilation(
            p,
            cast_lib,
            cast_member,
            handler_name,
        ) is Ok,
        disassembly(p, cast_lib, cast_member, handler_name) matches Err(m) ==> decompilation(
            p,
            cast_lib,
            cast_member,
            handler_name,
        ) == Err::<crate::response::DecompileResultView, Seq<char>>(m),
{
}

/// Handlers are looked up by the lower-case form of the name asked for: two
/// names with the same lower-case form find the same handler, with the same
/// arguments and bytecode, or both fail.
pub proof fn law_handler_lookup_ignores_case(
    p: DirPlayer,
    cast_lib: i32,
    cast_member: i32,
    name1: Seq<char>,
    name2: Seq<char>,
)
    requires
        lowercase(name1) == lowercase(name2),
    ensures
        disassembly(p, cast_lib, cast_member, name1) is Ok <==> disassembly(p, cast_lib, cast_member, name2) is Ok,
        disassembly(p, cast_lib, cast_member, name1) matches Ok(a) ==> {
            &&& disassembly(p, cast_lib, cast_member, name2)->Ok_0.arguments == a.arguments
            &&& disassembly(p, cast_lib, cast_member, name2)->Ok_0.bytecode == a.bytecode
        },
        decompilation(p, cast_lib, cast_member, name1) == decompilation(p, cast_lib, cast_member, name2) || (
        decompilation(p, cast_lib, cast_member, name1) is Err && decompilation(p, cast_lib, cast_member, name2) is Err),
{
}

// ---------------------------------------------------------------------------
// Cast members
// ---------------------------------------------------------------------------

proof fn lemma_listed(casts: Seq<CastLib>, filter: Option<i32>, c: int, m: int)
    requires
        0 <= c < casts.len(),
        0 <= m < casts[c].members@.len(),
        cast_selected(casts[c], filter),
    ensures
        member_infos(casts, filter).contains(member_info(casts[c], casts[c].members@[m])),
    decreases casts.len(),
{
    let d = casts.drop_last();
    if c < d.len() {
        assert(d[c] == casts[c]);
        lemma_listed(d, filter, c, m);
        let prev = member_infos(d, filter);
        let k = choose|k: int| 0 <= k < prev.len() && prev[k] == member_info(casts[c], casts[c].members@[m]);
        if cast_selected(casts.last(), filter) {
            let all = prev + casts.last().members@.map_values(|e: (u32, CastMember)| member_info(casts.last(), e));
            assert(all[k] == prev[k]);
        }
    } else {
        let prev = member_infos(d, filter);
        let tail = casts.last().members@.map_values(|e: (u32, CastMember)| member_info(casts.last(), e));
        let all = prev + tail;
        assert(all[prev.len() + m] == tail[m]);
    }
}

proof fn lemma_i32_roundtrip(x: i32)
    ensures
        (x as u32) as i32 == x,
{
    assert((x as u32) as i32 == x) by (bit_vector);
}

/// A member that inspection finds is in the member listing of its cast
/// library, under the same numbers, name and type.
pub proof fn law_inspected_member_is_listed(p: DirPlayer, cast_lib: i32, cast_member: i32)
    ensures
        member_details(p, cast_lib, cast_member) matches Ok(d) ==> exists|k: int|
            0 <= k < member_infos(p.casts@, Some(cast_lib)).len() && {
                let e = #[trigger] member_infos(p.casts@, Some(cast_lib))[k];
                &&& e.cast_lib == cast_lib
                &&& e.cast_member == cast_member
                &&& e.name == d.name
                &&& e.member_type == d.member_type
            },
{
    if let Ok(d) = member_details(p, cast_lib, cast_member) {
        let c = cast_pos(p.casts@, cast_lib as u32)->Some_0;
        let m = member_pos(p.casts@[c].members@, cast_member as u32)->Some_0;
        let cp = cast_has_number(p.casts@, cast_lib as u32);
        let mp = member_has_number(p.casts@[c].members@, cast_member as u32);
        let ci = choose|i: int| 0 <= i < p.casts@.len() && #[trigger] cp(i) && (forall|j: int| 0 <= j < i ==> !#[trigger] cp(j));
        let mi = choose|i: int| 0 <= i < p.casts@[c].members@.len() && #[trigger] mp(i) && (forall|j: int| 0 <= j < i ==> !#[trigger] mp(j));
        assert(ci == c);
        assert(mi == m);
        lemma_i32_roundtrip(cast_lib);
        lemma_i32_roundtrip(cast_member);
        lemma_listed(p.casts@, Some(cast_lib), c, m);
    }
}

/// A member whose picture can be made is in the member listing of its cast
/// library, under the same numbers and name, with the registration point
/// the picture shows.
pub proof fn law_picture_member_is_listed(p: DirPlayer, cast_lib: i32, cast_member: i32)
    ensures
        picture_answer(p, cast_lib, cast_member) matches Ok(v) ==> exists|k: int|
            0 <= k < member_infos(p.casts@, Some(cast_lib)).len() && {
                let e = #[trigger] member_infos(p.casts@, Some(cast_lib))[k];
                &&& e.cast_lib == cast_lib
                &&& e.cast_member == cast_member
                &&& e.name == v.name
                &&& e.reg_x == v.reg_x
                &&& e.reg_y == v.reg_y
            },
{
    if let Ok(v) = picture_answer(p, cast_lib, cast_member) {
        let c = cast_pos(p.casts@, cast_lib as u32)->Some_0;
        let m = member_pos(p.casts@[c].members@, cast_member as u32)->Some_0;
        let cp = cast_has_number(p.casts@, cast_lib as u32);
        let mp = member_has_number(p.casts@[c].members@, cast_member as u32);
        let ci = choose|i: int| 0 <= i < p.casts@.len() && #[trigger] cp(i) && (forall|j: int| 0 <= j < i ==> !#[trigger] cp(j));
        let mi = choose|i: int| 0 <= i < p.casts@[c].members@.len() && #[trigger] mp(i) && (forall|j: int| 0 <= j < i ==> !#[trigger] mp(j));
        assert(ci == c);
        assert(mi == m);
        lemma_i32_roundtrip(cast_lib);
        lemma_i32_roundtrip(cast_member);
        lemma_listed(p.casts@, Some(cast_lib), c, m);
    }
}

// ---------------------------------------------------------------------------
// Execution state and evaluation
// ---------------------------------------------------------------------------

/// A movie without sprite spans is not loaded and has no frames.
pub proof fn law_unloaded_movie(p: DirPlayer)
    ensures
        !execution_state(p).movie_loaded ==> execution_state(p).total_frames == 0,
{
}

/// An evaluation succeeds exactly when it has no error, and a failed one
/// carries neither type, value nor id.
pub proof fn law_eval_outcome(p: DirPlayer, result: Result<DatumRef, ScriptError>)
    ensures
        eval_result(p, result).success <==> eval_result(p, result).error is None,
        !eval_result(p, result).success ==> eval_result(p, result).result_type is None
            && eval_result(p, result).result_value is None && eval_result(p, result).datum_id is None,
        eval_result(p, result).success <==> result is Ok,
{
}

} // verus!
