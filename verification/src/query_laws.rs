//! What single queries give, stated over their inputs: which record sets a
//! film loop sprite, which pixels a PNG shows opaque, which depth, argument
//! names and property values the debugger shows.
use vstd::prelude::*;
use crate::datum::{datum_id_of, datum_of, datum_value, named_values};
use crate::response::DatumValueView;
use crate::filmloop::{blend_at, blend_percent, channel_keyframes, span_data, span_member, LoopSpan};
use crate::lookup::{first_index, lemma_first_index_found, lemma_first_index_none, script_by_ref};
use crate::model::{Bitmap, DatumKind, DatumRef, DirPlayer, FilmLoopMember, InitEntry, Script, ScriptInstance};
use crate::picture::shown_pixels;
use crate::player::{
    call_stack, datum_inspection, datum_ref_by_id, handler_with_id, lemma_real_scopes_bound,
    lemma_real_scopes_real, locals, names_for, real_scopes, shown_scopes,
};
use crate::scripts::name_or;
use crate::text::decimal;

verus! {

// ---------------------------------------------------------------------------
// Film loop sprites
// ---------------------------------------------------------------------------

/// The channel data of a span at frame `f` comes from the last record on
/// the span's channel between the span's first frame and `f`: that record
/// sets the position, rotation, skew, blend, ink and stretch outright; its
/// member when the member is not 0 and its width and height when they are
/// not 0 (0 there means "unchanged").
pub proof fn law_last_record_sets_the_channel(init: Seq<InitEntry>, span: LoopSpan, f: u32, k: int)
    requires
        0 <= k < init.len(),
        span.start_frame <= init[k].frame_idx + 1 <= f,
        init[k].channel == span.channel,
        forall|j: int|
            k < j < init.len() && span.start_frame <= #[trigger] init[j].frame_idx + 1 <= f ==> init[j].channel
                != span.channel,
    ensures
        span_data(init, span, f) is Some,
        ({
            let d = span_data(init, span, f)->Some_0;
            let e = init[k].data;
            &&& d.pos_x == e.pos_x
            &&& d.pos_y == e.pos_y
            &&& d.rotation == e.rotation
            &&& d.skew == e.skew
            &&& d.blend == e.blend
            &&& d.ink == e.ink
            &&& d.stretch == e.stretch
            &&& e.cast_member != 0 ==> d.cast_member == e.cast_member && d.cast_lib == e.cast_lib
            &&& e.width != 0 ==> d.width == e.width
            &&& e.height != 0 ==> d.height == e.height
        }),
    decreases init.len(),
{
    let dl = init.drop_last();
    if k < init.len() - 1 {
        assert forall|j: int|
            k < j < dl.len() && span.start_frame <= #[trigger] dl[j].frame_idx + 1 <= f implies dl[j].channel
            != span.channel by {
            assert(dl[j] == init[j]);
        }
        assert(dl[k] == init[k]);
        law_last_record_sets_the_channel(dl, span, f, k);
        let last = init[init.len() - 1];
        assert(last == init.last());
    }
}

/// A sprite shown at frame `f` without a blend keyframe there has as blend
/// the opacity percentage of the raw blend byte of the last record on its
/// channel between the span's first frame and `f`; a raw 0 is opaque.  Its
/// ink is that record's, and so is its member when the record names one;
/// without keyframes on the channel, so are its position (relative to the
/// loop's rectangle), rotation and skew.
pub proof fn law_sprite_blend_from_last_record(
    p: DirPlayer,
    fl: FilmLoopMember,
    cast_lib: i32,
    init: Seq<InitEntry>,
    span: LoopSpan,
    f: u32,
    k: int,
)
    requires
        0 <= k < init.len(),
        span.start_frame <= init[k].frame_idx + 1 <= f,
        init[k].channel == span.channel,
        forall|j: int|
            k < j < init.len() && span.start_frame <= #[trigger] init[j].frame_idx + 1 <= f ==> init[j].channel
                != span.channel,
        match channel_keyframes(fl.keyframes@, span.channel as u16) {
            Some(kf) => blend_at(kf.blends@, f) is None,
            None => true,
        },
    ensures
        span_member(p, fl, cast_lib, init, span, f) matches Some(m) ==> m.blend == blend_percent(
            init[k].data.blend,
            p.dir_version,
        ),
        init[k].data.blend == 0 ==> (span_member(p, fl, cast_lib, init, span, f) matches Some(m) ==> m.blend
            == 100),
        span_member(p, fl, cast_lib, init, span, f) matches Some(m) ==> {
            &&& m.channel == span.channel
            &&& m.ink == init[k].data.ink
            &&& init[k].data.cast_member != 0 ==> m.cast_member == init[k].data.cast_member
        },
        channel_keyframes(fl.keyframes@, span.channel as u16) is None ==> (span_member(p, fl, cast_lib, init, span, f) matches Some(m) ==> {
            &&& m.loc_h == (init[k].data.pos_x - fl.initial_rect.left) as i32
            &&& m.loc_v == (init[k].data.pos_y - fl.initial_rect.top) as i32
            &&& m.rotation == init[k].data.rotation
            &&& m.skew == init[k].data.skew
        }),
{
    law_last_record_sets_the_channel(init, span, f, k);
}

// ---------------------------------------------------------------------------
// Pictures
// ---------------------------------------------------------------------------

/// The PNG of a bitmap shows its pixels' colours unchanged.  A 32-bit
/// bitmap without alpha shows every pixel with a nonzero red, green or blue
/// opaque; every other pixel keeps its alpha.
pub proof fn law_shown_pixel(b: Bitmap, i: int)
    requires
        0 <= i < b.pixels@.len(),
    ensures
        shown_pixels(b).len() == b.pixels@.len(),
        shown_pixels(b)[i].0 == b.pixels@[i].0,
        shown_pixels(b)[i].1 == b.pixels@[i].1,
        shown_pixels(b)[i].2 == b.pixels@[i].2,
        b.bit_depth == 32 && !b.use_alpha && (b.pixels@[i].0 != 0 || b.pixels@[i].1 != 0 || b.pixels@[i].2 != 0)
            ==> shown_pixels(b)[i].3 == 255,
        !(b.bit_depth == 32 && !b.use_alpha) || (b.pixels@[i].0 == 0 && b.pixels@[i].1 == 0 && b.pixels@[i].2 == 0)
            ==> shown_pixels(b)[i].3 == b.pixels@[i].3,
{
}

// ---------------------------------------------------------------------------
// Call stack depths
// ---------------------------------------------------------------------------

/// Each scope of a call stack answer reports the scope it stands for: as
/// its depth the length of that scope's operand stack, wherever the scope
/// stands, and that scope's script reference, position and handler name.
pub proof fn law_call_stack_depths(p: DirPlayer, depth: Option<usize>, include_locals: bool)
    requires
        p.scopes@.len() <= usize::MAX,
    ensures
        forall|k: int|
            0 <= k < call_stack(p, depth, include_locals).scopes.len() ==> {
                let s = #[trigger] call_stack(p, depth, include_locals).scopes[k];
                let sc = p.scopes@[s.index as int];
                &&& s.index < p.scopes@.len()
                &&& s.stack_depth == sc.stack_len
                &&& s.bytecode_index == sc.bytecode_index
                &&& s.cast_lib == sc.script_ref.cast_lib
                &&& s.cast_member == sc.script_ref.cast_member
                &&& s.handler_name == name_or(names_for(p, sc.script_ref), sc.handler_name_id, "handler_"@)
            },
{
    let live = real_scopes(p.scopes@);
    lemma_real_scopes_bound(p.scopes@);
    let start: int = match depth {
        Some(d) => if d < live.len() { live.len() - d } else { 0 },
        None => 0,
    };
    assert(shown_scopes(p, depth) =~= live.skip(start));
}

// ---------------------------------------------------------------------------
// Argument names of a scope
// ---------------------------------------------------------------------------

/// Argument `i` of a locals answer is named by the `i`-th argument name of
/// the first handler of the scope's script whose name id is the scope's
/// handler name id (`argN` past its arguments), and has the argument's full
/// value.
pub proof fn law_locals_argument_names(p: DirPlayer, idx: usize, script: Script, h: int, i: int)
    requires
        idx < p.scopes@.len(),
        script_by_ref(p.casts@, p.scopes@[idx as int].script_ref) == Some(script),
        0 <= h < script.handlers@.len(),
        script.handlers@[h].1.name_id == p.scopes@[idx as int].handler_name_id,
        forall|j: int| 0 <= j < h ==> (#[trigger] script.handlers@[j]).1.name_id != p.scopes@[idx as int].handler_name_id,
        0 <= i < p.scopes@[idx as int].args@.len(),
    ensures
        locals(p, Some(idx)) is Ok,
        ({
            let s = p.scopes@[idx as int];
            let ids = script.handlers@[h].1.argument_name_ids@;
            let a = locals(p, Some(idx))->Ok_0.args[i];
            &&& locals(p, Some(idx))->Ok_0.args.len() == s.args@.len()
            &&& a.name == if i < ids.len() {
                name_or(names_for(p, s.script_ref), ids[i], "arg_"@)
            } else {
                "arg"@ + decimal(i)
            }
            &&& a.value.value == datum_of(p, s.args@[i]).text@
            &&& a.value.datum_id == datum_id_of(s.args@[i])
            &&& locals(p, Some(idx))->Ok_0.handler_name == name_or(names_for(p, s.script_ref), s.handler_name_id, "handler_"@)
        }),
{
    let s = p.scopes@[idx as int];
    lemma_first_index_found(script.handlers@.len() as int, handler_with_id(script.handlers@, s.handler_name_id), h);
}

/// Without a handler of the scope's name id in its script, argument `i`
/// of a locals answer is named `argN`.
pub proof fn law_locals_unnamed_arguments(p: DirPlayer, idx: usize, script: Script, i: int)
    requires
        idx < p.scopes@.len(),
        script_by_ref(p.casts@, p.scopes@[idx as int].script_ref) == Some(script),
        forall|j: int|
            0 <= j < script.handlers@.len() ==> (#[trigger] script.handlers@[j]).1.name_id
                != p.scopes@[idx as int].handler_name_id,
        0 <= i < p.scopes@[idx as int].args@.len(),
    ensures
        locals(p, Some(idx)) is Ok,
        locals(p, Some(idx))->Ok_0.args[i].name == "arg"@ + decimal(i),
{
    let s = p.scopes@[idx as int];
    lemma_first_index_none(script.handlers@.len() as int, handler_with_id(script.handlers@, s.handler_name_id));
}

// ---------------------------------------------------------------------------
// Inspected property lists
// ---------------------------------------------------------------------------

proof fn lemma_named_last(names: Seq<Seq<char>>, values: Seq<DatumValueView>, k: int)
    requires
        names.len() == values.len(),
        0 <= k < names.len(),
        forall|j: int| k < j < names.len() ==> #[trigger] names[j] != names[k],
    ensures
        named_values(names, values).dom().contains(names[k]),
        named_values(names, values)[names[k]] == values[k],
    decreases names.len(),
{
    if k < names.len() - 1 {
        let dn = names.drop_last();
        let dv = values.drop_last();
        assert forall|j: int| k < j < dn.len() implies #[trigger] dn[j] != dn[k] by {
            assert(dn[j] == names[j]);
        }
        lemma_named_last(dn, dv, k);
        assert(names[names.len() - 1] != names[k]);
    }
}

/// Each property of an inspected property list, under the printed form of
/// its key (the last entry with that key), shows its value datum in full:
/// the datum's printed text, type and id, never a short form.
pub proof fn law_inspected_properties_are_full(
    p: DirPlayer,
    id: usize,
    entries: Vec<(DatumRef, DatumRef)>,
    k: int,
)
    requires
        datum_ref_by_id(p, id) is Some,
        datum_of(p, datum_ref_by_id(p, id)->Some_0).kind == DatumKind::PropList(entries),
        0 <= k < entries@.len(),
        forall|j: int|
            k < j < entries@.len() ==> datum_of(p, (#[trigger] entries@[j]).0).text@ != datum_of(
                p,
                entries@[k].0,
            ).text@,
    ensures
        datum_inspection(p, id) is Ok,
        datum_inspection(p, id)->Ok_0.properties is Some,
        ({
            let props = datum_inspection(p, id)->Ok_0.properties->Some_0;
            let key = datum_of(p, entries@[k].0).text@;
            let v = datum_of(p, entries@[k].1);
            &&& props.dom().contains(key)
            &&& props[key].value == v.text@
            &&& props[key].datum_type == v.type_label@
            &&& props[key].datum_id == datum_id_of(entries@[k].1)
        }),
{
    let names = entries@.map_values(|e: (DatumRef, DatumRef)| datum_of(p, e.0).text@);
    let values = entries@.map_values(|e: (DatumRef, DatumRef)| datum_value(p, e.1, false));
    assert forall|j: int| k < j < names.len() implies #[trigger] names[j] != names[k] by {
        assert(names[j] == datum_of(p, entries@[j].0).text@);
    }
    lemma_named_last(names, values, k);
}

/// Each property of an inspected script instance, under its name (the
/// last property with that name), shows its value datum in full: the
/// datum's printed text, type and id.
pub proof fn law_inspected_instance_properties_are_full(
    p: DirPlayer,
    id: usize,
    inst: ScriptInstance,
    k: int,
)
    requires
        datum_ref_by_id(p, id) is Some,
        datum_of(p, datum_ref_by_id(p, id)->Some_0).kind == DatumKind::ScriptInstanceRef(inst),
        0 <= k < inst.properties@.len(),
        forall|j: int| k < j < inst.properties@.len() ==> (#[trigger] inst.properties@[j]).0@ != inst.properties@[k].0@,
    ensures
        datum_inspection(p, id) is Ok,
        datum_inspection(p, id)->Ok_0.properties is Some,
        ({
            let props = datum_inspection(p, id)->Ok_0.properties->Some_0;
            let key = inst.properties@[k].0@;
            let v = datum_of(p, inst.properties@[k].1);
            &&& props.dom().contains(key)
            &&& props[key].value == v.text@
            &&& props[key].datum_type == v.type_label@
            &&& props[key].datum_id == datum_id_of(inst.properties@[k].1)
        }),
{
    let names = inst.properties@.map_values(|e: (String, DatumRef)| e.0@);
    let values = inst.properties@.map_values(|e: (String, DatumRef)| datum_value(p, e.1, false));
    assert forall|j: int| k < j < names.len() implies #[trigger] names[j] != names[k] by {
        assert(names[j] == inst.properties@[j].0@);
    }
    lemma_named_last(names, values, k);
}

} // verus!
