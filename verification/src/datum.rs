//! Datums as the queries show them: id, type, and printed value, in full or
//! in a short form for summaries.
use vstd::prelude::*;
use vstd::utf8::{
    decode_utf8, encode_utf8, encode_utf8_decode_utf8, encode_utf8_valid_utf8, is_char_boundary,
    is_char_boundary_start_end_of_seq,
};
use vstd::string::StringSliceAdditionalSpecFns;
use fxhash::FxHashMap;
use crate::datum_map::{datum_map_entries, datum_map_insert, datum_map_new, datum_map_view};
use crate::lookup::{find_script_by_ref, script_by_ref};
use crate::model::{Datum, DatumKind, DatumRef, DirPlayer};
use crate::response::{DatumValueView, McpDatumValue};
use crate::text::{decimal, push_decimal, push_decimal_usize, push_string};

verus! {

/// The datum a reference leads to; a void reference leads to the player's
/// void datum.
pub open spec fn datum_of(p: DirPlayer, r: DatumRef) -> Datum {
    match r {
        DatumRef::Void => p.void_datum,
        DatumRef::Ref(_, d) => *d,
    }
}

/// The id of a reference; none for a void reference.
pub open spec fn datum_id_of(r: DatumRef) -> Option<usize> {
    match r {
        DatumRef::Void => None,
        DatumRef::Ref(id, _) => Some(id),
    }
}

/// The last character boundary of `b` at or before byte `k`.
pub open spec fn boundary_at_or_before(b: Seq<u8>, k: int) -> int
    decreases k,
{
    if k <= 0 {
        0
    } else if is_char_boundary(b, k) {
        k
    } else {
        boundary_at_or_before(b, k - 1)
    }
}

/// A string in quotes; when it is longer than 58 bytes, only the characters
/// that fit in its first 55 bytes are kept, followed by an ellipsis.
pub open spec fn quoted_short(s: Seq<char>) -> Seq<char> {
    let b = encode_utf8(s);
    if b.len() > 58 {
        "\""@ + decode_utf8(b.subrange(0, boundary_at_or_before(b, 55))) + "...\""@
    } else {
        "\""@ + s + "\""@
    }
}

/// The short form of a datum: numbers, symbols and short strings as they
/// are, long strings cut, lists and property lists by their size, script
/// instances and scripts by name, anything else by type and id.
pub open spec fn short_form(p: DirPlayer, d: Datum, id: Option<usize>) -> Seq<char> {
    match d.kind {
        DatumKind::Int(i) => decimal(i as int),
        DatumKind::Float(t) => t@,
        DatumKind::Symbol(s) => "#"@ + s@,
        DatumKind::Void => "Void"@,
        DatumKind::Null => "<Null>"@,
        DatumKind::Str(s) => quoted_short(s@),
        DatumKind::StringChunk(s) => quoted_short(s@),
        DatumKind::List(n) => "<list:"@ + decimal(n as int) + ">"@,
        DatumKind::PropList(entries) => "<propList:"@ + decimal(entries@.len() as int) + ">"@,
        DatumKind::ScriptInstanceRef(inst) => match script_by_ref(p.casts@, inst.script) {
            Some(s) => "<"@ + s.name@ + ":"@ + decimal(inst.id as int) + ">"@,
            None => "<instance:"@ + decimal(inst.id as int) + ">"@,
        },
        DatumKind::ScriptRef(r) => match script_by_ref(p.casts@, r) {
            Some(s) => "<script:"@ + s.name@ + ">"@,
            None => "<script:"@ + decimal(r.cast_lib as int) + ","@ + decimal(r.cast_member as int)
                + ">"@,
        },
        DatumKind::Other => match id {
            Some(i) => "<"@ + d.type_label@ + ":"@ + decimal(i as int) + ">"@,
            None => "<"@ + d.type_label@ + ">"@,
        },
    }
}

fn quote_short(s: &String) -> (r: String)
    ensures
        r@ == quoted_short(s@),
{
    let t: &str = s.as_str();
    let byte_len = t.as_bytes().len();
    if byte_len > 58 {
        let ghost b = encode_utf8(s@);
        let mut k: usize = 55;
        while k > 0 && !t.is_char_boundary(k)
            invariant
                k <= 55,
                b == encode_utf8(s@),
                b == t.spec_bytes(),
                boundary_at_or_before(b, 55) == boundary_at_or_before(b, k as int),
            decreases k,
        {
            k = k - 1;
        }
        proof {
            encode_utf8_valid_utf8(s@);
            is_char_boundary_start_end_of_seq(b);
        }
        assert(boundary_at_or_before(b, k as int) == k);
        let (head, _) = t.split_at(k);
        proof {
            encode_utf8_decode_utf8(head@);
        }
        let mut r = String::from_str("\"");
        r.append(head);
        r.append("...\"");
        r
    } else {
        let mut r = String::from_str("\"");
        r.append(t);
        r.append("\"");
        r
    }
}

/// Formats a datum in its short form.
pub fn format_datum_compact(d: &Datum, player: &DirPlayer, datum_id: Option<usize>) -> (r: String)
    ensures
        r@ == short_form(*player, *d, datum_id),
{
    match &d.kind {
        DatumKind::Int(i) => {
            let mut r = String::new();
            push_decimal(&mut r, *i as i64);
            assert(r@ =~= decimal(*i as int));
            r
        },
        DatumKind::Float(t) => t.clone(),
        DatumKind::Symbol(s) => {
            let mut r = String::from_str("#");
            push_string(&mut r, s);
            r
        },
        DatumKind::Void => String::from_str("Void"),
        DatumKind::Null => String::from_str("<Null>"),
        DatumKind::Str(s) => quote_short(s),
        DatumKind::StringChunk(s) => quote_short(s),
        DatumKind::List(n) => {
            let mut r = String::from_str("<list:");
            push_decimal_usize(&mut r, *n);
            r.append(">");
            r
        },
        DatumKind::PropList(entries) => {
            let mut r = String::from_str("<propList:");
            push_decimal_usize(&mut r, entries.len());
            r.append(">");
            r
        },
        DatumKind::ScriptInstanceRef(inst) => match find_script_by_ref(&player.casts, inst.script) {
            Some((c, s)) => {
                let mut r = String::from_str("<");
                push_string(&mut r, &player.casts[c].scripts[s].1.name);
                r.append(":");
                push_decimal(&mut r, inst.id as i64);
                r.append(">");
                r
            },
            None => {
                let mut r = String::from_str("<instance:");
                push_decimal(&mut r, inst.id as i64);
                r.append(">");
                r
            },
        },
        DatumKind::ScriptRef(mr) => match find_script_by_ref(&player.casts, *mr) {
            Some((c, s)) => {
                let mut r = String::from_str("<script:");
                push_string(&mut r, &player.casts[c].scripts[s].1.name);
                r.append(">");
                r
            },
            None => {
                let mut r = String::from_str("<script:");
                push_decimal(&mut r, mr.cast_lib as i64);
                r.append(",");
                push_decimal(&mut r, mr.cast_member as i64);
                r.append(">");
                r
            },
        },
        DatumKind::Other => match datum_id {
            Some(id) => {
                let mut r = String::from_str("<");
                push_string(&mut r, &d.type_label);
                r.append(":");
                push_decimal_usize(&mut r, id);
                r.append(">");
                r
            },
            None => {
                let mut r = String::from_str("<");
                push_string(&mut r, &d.type_label);
                r.append(">");
                r
            },
        },
    }
}

/// A datum as a query shows it: in full, or in short form.
pub open spec fn datum_value(p: DirPlayer, r: DatumRef, compact: bool) -> DatumValueView {
    let d = datum_of(p, r);
    let id = datum_id_of(r);
    DatumValueView {
        datum_id: id,
        datum_type: d.type_label@,
        value: if compact { short_form(p, d, id) } else { d.text@ },
    }
}

/// The datum a reference leads to.
pub fn get_datum<'a>(player: &'a DirPlayer, r: &'a DatumRef) -> (d: &'a Datum)
    ensures
        *d == datum_of(*player, *r),
{
    match r {
        DatumRef::Void => &player.void_datum,
        DatumRef::Ref(_, d) => d,
    }
}

/// Shows a datum in full or in short form.
pub fn datum_to_mcp_value_with_options(player: &DirPlayer, datum_ref: &DatumRef, compact: bool) -> (r: McpDatumValue)
    ensures
        r.deep_view() == datum_value(*player, *datum_ref, compact),
{
    let datum = get_datum(player, datum_ref);
    let datum_id: Option<usize> = match datum_ref {
        DatumRef::Void => None,
        DatumRef::Ref(id, _) => Some(*id),
    };
    let value = if compact {
        format_datum_compact(datum, player, datum_id)
    } else {
        datum.text.clone()
    };
    McpDatumValue { datum_id, datum_type: datum.type_label.clone(), value }
}

/// Shows a datum in full.
pub fn datum_to_mcp_value(player: &DirPlayer, datum_ref: &DatumRef) -> (r: McpDatumValue)
    ensures
        r.deep_view() == datum_value(*player, *datum_ref, false),
{
    datum_to_mcp_value_with_options(player, datum_ref, false)
}

/// Shows a datum in short form.
pub fn datum_to_mcp_value_compact(player: &DirPlayer, datum_ref: &DatumRef) -> (r: McpDatumValue)
    ensures
        r.deep_view() == datum_value(*player, *datum_ref, true),
{
    datum_to_mcp_value_with_options(player, datum_ref, true)
}

/// The map that inserting `(names[i], values[i])` in order into an empty
/// map gives: a later entry under an equal name replaces an earlier one.
pub open spec fn named_values(names: Seq<Seq<char>>, values: Seq<DatumValueView>) -> Map<Seq<char>, DatumValueView>
    decreases names.len(),
{
    if names.len() == 0 || names.len() != values.len() {
        Map::empty()
    } else {
        named_values(names.drop_last(), values.drop_last()).insert(names.last(), values.last())
    }
}

/// Builds a datum map from names and values, inserting in order.
pub fn build_datum_map(names: Vec<String>, values: Vec<McpDatumValue>) -> (m: FxHashMap<String, McpDatumValue>)
    requires
        names@.len() == values@.len(),
    ensures
        datum_map_view(m) == named_values(names.deep_view(), values.deep_view()),
{
    let ghost nv = names.deep_view();
    let ghost vv = values.deep_view();
    let mut m = datum_map_new();
    let mut names = names;
    let mut values = values;
    let n = names.len();
    let mut i: usize = 0;
    proof {
        assert(datum_map_view(m) =~= named_values(nv.take(0), vv.take(0)));
    }
    while i < n
        invariant
            n == nv.len(),
            nv.len() == vv.len(),
            i <= n,
            names@.len() == n - i,
            values@.len() == n - i,
            forall|k: int| 0 <= k < n - i ==> #[trigger] names@[k]@ == nv[i + k],
            forall|k: int| 0 <= k < n - i ==> #[trigger] values@[k].deep_view() == vv[i + k],
            datum_map_view(m) =~= named_values(nv.take(i as int), vv.take(i as int)),
        decreases n - i,
    {
        let ghost old_names = names@;
        let ghost old_values = values@;
        let key = names.remove(0);
        let value = values.remove(0);
        let ghost kv = key@;
        let ghost vd = value.deep_view();
        let ghost before = datum_map_entries(m);
        datum_map_insert(&mut m, key, value);
        proof {
            assert(nv.take(i + 1).drop_last() =~= nv.take(i as int));
            assert(vv.take(i + 1).drop_last() =~= vv.take(i as int));
            assert(kv == nv[i as int]);
            assert(vd == vv[i as int]);
            assert(datum_map_view(m) =~= datum_map_view_of(before).insert(kv, vd));
            assert(kv == old_names[0]@);
            assert forall|k: int| 0 <= k < n - (i + 1) implies #[trigger] names@[k]@ == nv[(i + 1) + k] by {
                assert(names@[k] == old_names[k + 1]);
            }
            assert forall|k: int| 0 <= k < n - (i + 1) implies #[trigger] values@[k].deep_view() == vv[(i + 1) + k] by {
                assert(values@[k] == old_values[k + 1]);
            }
        }
        i = i + 1;
    }
    assert(nv.take(n as int) =~= nv);
    assert(vv.take(n as int) =~= vv);
    m
}

/// The entries of a datum map, values by their deep view.
pub open spec fn datum_map_view_of(e: Map<Seq<char>, McpDatumValue>) -> Map<Seq<char>, DatumValueView> {
    e.map_values(|v: McpDatumValue| v.deep_view())
}

} // verus!
