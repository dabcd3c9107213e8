//! Queries on the running player: call stack, execution position and
//! state, variables, datums, breakpoints, evaluation results.
use vstd::prelude::*;
use crate::datum::{
    build_datum_map, datum_id_of, datum_of, datum_to_mcp_value, datum_to_mcp_value_compact,
    datum_value, get_datum, named_values,
};
use crate::lookup::{cast_index, cast_pos, find_script_by_ref, first_index, lemma_first_index_found, lemma_first_index_none, script_by_ref};
use crate::model::{CastMemberRef, DatumKind, DatumRef, DirPlayer, Handler, Scope, Script, ScriptError};
use crate::response::{
    answers, ArgInfoView, BreakpointInfoView, BreakpointListView, CallStackView, ContextView,
    DatumInspectionView, DatumValueView, EvalResultView, ExecutionStateView, GlobalsResultView,
    LocalsResultView, McpArgInfo, McpBreakpointInfo, McpBreakpointList, McpCallStack, McpContext,
    McpDatumInspection, McpDatumValue, McpError, McpEvalResult, McpExecutionState,
    McpGlobalsResult, McpLocalsResult, McpScopeInfo, McpScopeSummary, ScopeInfoView,
    ScopeSummaryView,
};
use crate::scripts::{get_argument_names, get_handler_name, name_from, name_or, names_from, names_or, table_of};
use crate::text::{decimal, numbered, numbered_text_usize, push_decimal_usize};

verus! {

// ---------------------------------------------------------------------------
// Scopes
// ---------------------------------------------------------------------------

/// A placeholder scope: one whose script reference is `(0, 0)`.
pub open spec fn is_placeholder(s: Scope) -> bool {
    s.script_ref.cast_lib == 0 && s.script_ref.cast_member == 0
}

/// The indices of the scopes that are not placeholders, bottom to top.
pub open spec fn real_scopes(s: Seq<Scope>) -> Seq<usize>
    decreases s.len(),
{
    if s.len() == 0 {
        Seq::empty()
    } else if is_placeholder(s.last()) {
        real_scopes(s.drop_last())
    } else {
        real_scopes(s.drop_last()).push((s.len() - 1) as usize)
    }
}

pub proof fn lemma_real_scopes_bound(s: Seq<Scope>)
    requires
        s.len() <= usize::MAX,
    ensures
        real_scopes(s).len() <= s.len(),
        forall|k: int| 0 <= k < real_scopes(s).len() ==> (#[trigger] real_scopes(s)[k]) < s.len(),
    decreases s.len(),
{
    if s.len() > 0 {
        lemma_real_scopes_bound(s.drop_last());
    }
}

/// Finds the scopes that are not placeholders.
fn collect_real_scopes(scopes: &Vec<Scope>) -> (r: Vec<usize>)
    ensures
        r@ == real_scopes(scopes@),
        forall|k: int| 0 <= k < r@.len() ==> (#[trigger] r@[k]) < scopes@.len(),
        scopes@.len() <= usize::MAX,
{
    let mut r: Vec<usize> = Vec::new();
    let mut i: usize = 0;
    while i < scopes.len()
        invariant
            i <= scopes@.len(),
            r@ == real_scopes(scopes@.take(i as int)),
        decreases scopes@.len() - i,
    {
        proof {
            assert(scopes@.take(i + 1).drop_last() =~= scopes@.take(i as int));
        }
        let sr = scopes[i].script_ref;
        if sr.cast_lib != 0 || sr.cast_member != 0 {
            r.push(i);
        }
        i = i + 1;
    }
    assert(scopes@.take(i as int) =~= scopes@);
    proof {
        lemma_real_scopes_bound(scopes@);
    }
    r
}

/// The name table of the cast library a script reference points into.
pub open spec fn names_for(p: DirPlayer, r: CastMemberRef) -> Option<Seq<String>> {
    match cast_pos(p.casts@, r.cast_lib as u32) {
        Some(c) => match p.casts@[c].lctx {
            Some(l) => Some(l.names@),
            None => None,
        },
        None => None,
    }
}

/// Finds the name table of the cast library a script reference points into.
fn get_names_for<'a>(player: &'a DirPlayer, r: CastMemberRef) -> (t: Option<&'a Vec<String>>)
    ensures
        table_of(t) == names_for(*player, r),
{
    match cast_index(&player.casts, r.cast_lib as u32) {
        Some(c) => match &player.casts[c].lctx {
            Some(l) => Some(&l.names),
            None => None,
        },
        None => None,
    }
}

/// The name of the script a reference points to, `unknown` if there is none.
pub open spec fn script_name_for(p: DirPlayer, r: CastMemberRef) -> Seq<char> {
    match script_by_ref(p.casts@, r) {
        Some(s) => s.name@,
        None => "unknown"@,
    }
}

fn get_script_name(player: &DirPlayer, r: CastMemberRef) -> (n: String)
    ensures
        n@ == script_name_for(*player, r),
{
    match find_script_by_ref(&player.casts, r) {
        Some((c, s)) => player.casts[c].scripts[s].1.name.clone(),
        None => String::from_str("unknown"),
    }
}

/// The names of a scope's locals.
pub open spec fn local_names(names: Option<Seq<String>>, locals: Seq<(u16, DatumRef)>) -> Seq<Seq<char>> {
    locals.map_values(|e: (u16, DatumRef)| name_or(names, e.0, "local_"@))
}

/// The values of a scope's locals.
pub open spec fn local_values(p: DirPlayer, locals: Seq<(u16, DatumRef)>, compact: bool) -> Seq<DatumValueView> {
    locals.map_values(|e: (u16, DatumRef)| datum_value(p, e.1, compact))
}

/// The values of a list of datums.
pub open spec fn values_of(p: DirPlayer, refs: Seq<DatumRef>, compact: bool) -> Seq<DatumValueView> {
    refs.map_values(|r: DatumRef| datum_value(p, r, compact))
}

/// The locals of a scope, by name.
pub open spec fn locals_map(p: DirPlayer, s: Scope, compact: bool) -> Map<Seq<char>, DatumValueView> {
    named_values(local_names(names_for(p, s.script_ref), s.locals@), local_values(p, s.locals@, compact))
}

/// The names and values of a scope's locals.
fn scope_locals(player: &DirPlayer, names: Option<&Vec<String>>, scope: &Scope, compact: bool) -> (r: (Vec<String>, Vec<McpDatumValue>))
    ensures
        r.0.deep_view() == local_names(table_of(names), scope.locals@),
        r.1.deep_view() == local_values(*player, scope.locals@, compact),
        r.0@.len() == r.1@.len(),
{
    let mut ns: Vec<String> = Vec::new();
    let mut vs: Vec<McpDatumValue> = Vec::new();
    let mut i: usize = 0;
    while i < scope.locals.len()
        invariant
            i <= scope.locals@.len(),
            ns.deep_view() =~= local_names(table_of(names), scope.locals@.take(i as int)),
            vs.deep_view() =~= local_values(*player, scope.locals@.take(i as int), compact),
            ns@.len() == i,
            vs@.len() == i,
        decreases scope.locals@.len() - i,
    {
        let entry = &scope.locals[i];
        let n = name_from(names, entry.0, "local_");
        let v = if compact {
            datum_to_mcp_value_compact(player, &entry.1)
        } else {
            datum_to_mcp_value(player, &entry.1)
        };
        let ghost pn = ns.deep_view();
        let ghost pv = vs.deep_view();
        let ghost nv = n@;
        let ghost vv = v.deep_view();
        ns.push(n);
        vs.push(v);
        proof {
            assert(ns.deep_view() =~= pn.push(nv));
            assert(vs.deep_view() =~= pv.push(vv));
        }
        i = i + 1;
    }
    assert(scope.locals@.take(i as int) =~= scope.locals@);
    (ns, vs)
}

/// The values of a list of datums.
fn datum_values(player: &DirPlayer, refs: &Vec<DatumRef>, compact: bool) -> (r: Vec<McpDatumValue>)
    ensures
        r.deep_view() == values_of(*player, refs@, compact),
{
    let mut vs: Vec<McpDatumValue> = Vec::new();
    let mut i: usize = 0;
    while i < refs.len()
        invariant
            i <= refs@.len(),
            vs.deep_view() =~= values_of(*player, refs@.take(i as int), compact),
        decreases refs@.len() - i,
    {
        let v = if compact {
            datum_to_mcp_value_compact(player, &refs[i])
        } else {
            datum_to_mcp_value(player, &refs[i])
        };
        let ghost pv = vs.deep_view();
        let ghost vv = v.deep_view();
        vs.push(v);
        proof {
            assert(vs.deep_view() =~= pv.push(vv));
        }
        i = i + 1;
    }
    assert(refs@.take(i as int) =~= refs@);
    vs
}

/// A scope of the call stack, its locals and arguments in short form when
/// asked for.
pub open spec fn scope_info(p: DirPlayer, index: usize, include_locals: bool) -> ScopeInfoView {
    let s = p.scopes@[index as int];
    let names = names_for(p, s.script_ref);
    ScopeInfoView {
        index,
        script_name: script_name_for(p, s.script_ref),
        cast_lib: s.script_ref.cast_lib,
        cast_member: s.script_ref.cast_member,
        handler_name: name_or(names, s.handler_name_id, "handler_"@),
        bytecode_index: s.bytecode_index,
        locals: if include_locals { Some(locals_map(p, s, true)) } else { None },
        args: if include_locals { Some(values_of(p, s.args@, true)) } else { None },
        stack_depth: s.stack_len,
    }
}

/// The scopes a call stack query shows: the top `depth` live scopes, or all.
pub open spec fn shown_scopes(p: DirPlayer, depth: Option<usize>) -> Seq<usize> {
    let live = real_scopes(p.scopes@);
    match depth {
        Some(d) => if d < live.len() { live.skip(live.len() - d) } else { live },
        None => live,
    }
}

/// The answer to a call stack query.
pub open spec fn call_stack(p: DirPlayer, depth: Option<usize>, include_locals: bool) -> CallStackView {
    let shown = shown_scopes(p, depth);
    CallStackView {
        scopes: shown.map_values(|i: usize| scope_info(p, i, include_locals)),
        current_scope_index: if shown.len() == 0 { None } else { Some((shown.len() - 1) as usize) },
    }
}

pub proof fn lemma_real_scopes_real(s: Seq<Scope>, k: int)
    requires
        s.len() <= usize::MAX,
        0 <= k < real_scopes(s).len(),
    ensures
        real_scopes(s)[k] < s.len(),
        !is_placeholder(s[real_scopes(s)[k] as int]),
    decreases s.len(),
{
    lemma_real_scopes_bound(s);
    let d = s.drop_last();
    lemma_real_scopes_bound(d);
    if is_placeholder(s.last()) {
        lemma_real_scopes_real(d, k);
        assert(s[real_scopes(s)[k] as int] == d[real_scopes(d)[k] as int]);
    } else if k < real_scopes(d).len() {
        lemma_real_scopes_real(d, k);
        assert(real_scopes(s)[k] == real_scopes(d)[k]);
        assert(s[real_scopes(s)[k] as int] == d[real_scopes(d)[k] as int]);
    } else {
        assert(real_scopes(s)[k] == s.len() - 1);
    }
}

fn build_scope_info(player: &DirPlayer, index: usize, include_locals: bool) -> (r: McpScopeInfo)
    requires
        index < player.scopes@.len(),
    ensures
        r.deep_view() == scope_info(*player, index, include_locals),
{
    let scope = &player.scopes[index];
    let names = get_names_for(player, scope.script_ref);
    let script_name = get_script_name(player, scope.script_ref);
    let handler_name = get_handler_name(names, scope.handler_name_id);
    let (locals, args) = if include_locals {
        let (ns, vs) = scope_locals(player, names, scope, true);
        (Some(build_datum_map(ns, vs)), Some(datum_values(player, &scope.args, true)))
    } else {
        (None, None)
    };
    McpScopeInfo {
        index,
        script_name,
        cast_lib: scope.script_ref.cast_lib,
        cast_member: scope.script_ref.cast_member,
        handler_name,
        bytecode_index: scope.bytecode_index,
        locals,
        args,
        stack_depth: scope.stack_len,
    }
}

/// The call stack, the top `depth` scopes or all, placeholders left out;
/// with each scope's locals and arguments in short form when asked for.
pub fn mcp_get_call_stack(player: &DirPlayer, depth: Option<usize>, include_locals: bool) -> (r: McpCallStack)
    ensures
        r.deep_view() == call_stack(*player, depth, include_locals),
{
    let live = collect_real_scopes(&player.scopes);
    let total_count = live.len();
    let start: usize = match depth {
        Some(d) => if d < total_count { total_count - d } else { 0 },
        None => 0,
    };
    let ghost shown = shown_scopes(*player, depth);
    assert(shown =~= live@.skip(start as int));
    let mut scopes: Vec<McpScopeInfo> = Vec::new();
    let mut k: usize = start;
    while k < total_count
        invariant
            start <= k <= total_count,
            total_count == live@.len(),
            live@ == real_scopes(player.scopes@),
            shown == live@.skip(start as int),
            player.scopes@.len() <= usize::MAX,
            forall|j: int| 0 <= j < live@.len() ==> (#[trigger] live@[j]) < player.scopes@.len(),
            scopes.deep_view() =~= shown.take(k - start).map_values(|i: usize| scope_info(*player, i, include_locals)),
        decreases total_count - k,
    {
        let index = live[k];
        proof {
            lemma_real_scopes_real(player.scopes@, k as int);
        }
        let info = build_scope_info(player, index, include_locals);
        let ghost prev = scopes.deep_view();
        let ghost iv = info.deep_view();
        scopes.push(info);
        proof {
            assert(scopes.deep_view() =~= prev.push(iv));
            assert(shown.take(k + 1 - start) =~= shown.take(k - start).push(index));
        }
        k = k + 1;
    }
    assert(shown.take(k - start) =~= shown);
    let current_scope_index = if scopes.len() == 0 {
        None
    } else {
        Some(scopes.len() - 1)
    };
    McpCallStack { scopes, current_scope_index }
}

/// Where a live scope is.
pub open spec fn scope_summary(p: DirPlayer, index: usize) -> ScopeSummaryView {
    let s = p.scopes@[index as int];
    ScopeSummaryView {
        index,
        script_name: script_name_for(p, s.script_ref),
        handler_name: name_or(names_for(p, s.script_ref), s.handler_name_id, "handler_"@),
        bytecode_index: s.bytecode_index,
    }
}

/// The answer to a context query: play state, and the topmost live scope.
pub open spec fn context(p: DirPlayer) -> ContextView {
    let live = real_scopes(p.scopes@);
    ContextView {
        is_playing: p.is_playing,
        is_paused: p.is_script_paused,
        at_breakpoint: p.at_breakpoint,
        current_frame: p.current_frame,
        current_handler: if live.len() == 0 { None } else { Some(scope_summary(p, live.last())) },
        scope_count: live.len() as usize,
    }
}

/// The current execution position, in one call.
pub fn mcp_get_context(player: &DirPlayer) -> (r: McpContext)
    ensures
        r.deep_view() == context(*player),
{
    let live = collect_real_scopes(&player.scopes);
    let current_handler = if live.len() == 0 {
        None
    } else {
        let index = live[live.len() - 1];
        let scope = &player.scopes[index];
        let names = get_names_for(player, scope.script_ref);
        Some(
            McpScopeSummary {
                index,
                script_name: get_script_name(player, scope.script_ref),
                handler_name: get_handler_name(names, scope.handler_name_id),
                bytecode_index: scope.bytecode_index,
            },
        )
    };
    McpContext {
        is_playing: player.is_playing,
        is_paused: player.is_script_paused,
        at_breakpoint: player.at_breakpoint,
        current_frame: player.current_frame,
        current_handler,
        scope_count: live.len(),
    }
}

// ---------------------------------------------------------------------------
// Execution state
// ---------------------------------------------------------------------------

/// The largest end frame of the spans, 0 when there are none.
pub open spec fn last_frame(s: Seq<crate::model::SpriteSpan>) -> int
    decreases s.len(),
{
    if s.len() == 0 {
        0
    } else {
        let m = last_frame(s.drop_last());
        if m >= s.last().end_frame { m } else { s.last().end_frame as int }
    }
}

/// The answer to an execution state query.
pub open spec fn execution_state(p: DirPlayer) -> ExecutionStateView {
    ExecutionStateView {
        is_playing: p.is_playing,
        is_paused: p.is_script_paused,
        current_frame: p.current_frame,
        total_frames: last_frame(p.sprite_spans@) as usize,
        at_breakpoint: p.at_breakpoint,
        movie_loaded: p.sprite_spans@.len() > 0,
        movie_title: p.title@,
        stage_width: p.stage_size.0,
        stage_height: p.stage_size.1,
    }
}

/// The player's execution state; the movie's length is its last sprite
/// span's end frame.
pub fn mcp_get_execution_state(player: &DirPlayer) -> (r: McpExecutionState)
    ensures
        r.deep_view() == execution_state(*player),
{
    let mut total: u32 = 0;
    let mut i: usize = 0;
    while i < player.sprite_spans.len()
        invariant
            i <= player.sprite_spans@.len(),
            total == last_frame(player.sprite_spans@.take(i as int)),
        decreases player.sprite_spans@.len() - i,
    {
        proof {
            assert(player.sprite_spans@.take(i + 1).drop_last() =~= player.sprite_spans@.take(i as int));
        }
        let e = player.sprite_spans[i].end_frame;
        if e > total {
            total = e;
        }
        i = i + 1;
    }
    assert(player.sprite_spans@.take(i as int) =~= player.sprite_spans@);
    McpExecutionState {
        is_playing: player.is_playing,
        is_paused: player.is_script_paused,
        current_frame: player.current_frame,
        total_frames: total as usize,
        at_breakpoint: player.at_breakpoint,
        movie_loaded: player.sprite_spans.len() > 0,
        movie_title: player.title.clone(),
        stage_width: player.stage_size.0,
        stage_height: player.stage_size.1,
    }
}

// ---------------------------------------------------------------------------
// Globals and locals
// ---------------------------------------------------------------------------

/// The answer to a globals query: every global by name, in full.
pub open spec fn globals(p: DirPlayer) -> GlobalsResultView {
    GlobalsResultView {
        globals: named_values(
            p.globals@.map_values(|e: (String, DatumRef)| e.0@),
            p.globals@.map_values(|e: (String, DatumRef)| datum_value(p, e.1, false)),
        ),
    }
}

/// All global variables.
pub fn mcp_get_globals(player: &DirPlayer) -> (r: McpGlobalsResult)
    ensures
        r.deep_view() == globals(*player),
{
    let mut ns: Vec<String> = Vec::new();
    let mut vs: Vec<McpDatumValue> = Vec::new();
    let mut i: usize = 0;
    while i < player.globals.len()
        invariant
            i <= player.globals@.len(),
            ns.deep_view() =~= player.globals@.take(i as int).map_values(|e: (String, DatumRef)| e.0@),
            vs.deep_view() =~= player.globals@.take(i as int).map_values(|e: (String, DatumRef)| datum_value(*player, e.1, false)),
            ns@.len() == i,
            vs@.len() == i,
        decreases player.globals@.len() - i,
    {
        let n = player.globals[i].0.clone();
        let v = datum_to_mcp_value(player, &player.globals[i].1);
        let ghost pn = ns.deep_view();
        let ghost pv = vs.deep_view();
        let ghost nv = n@;
        let ghost vv = v.deep_view();
        ns.push(n);
        vs.push(v);
        proof {
            assert(ns.deep_view() =~= pn.push(nv));
            assert(vs.deep_view() =~= pv.push(vv));
        }
        i = i + 1;
    }
    assert(player.globals@.take(i as int) =~= player.globals@);
    McpGlobalsResult { globals: build_datum_map(ns, vs) }
}

/// Index predicate: the handler entry at `i` has name id `id`.
pub open spec fn handler_with_id(s: Seq<(String, Handler)>, id: u16) -> spec_fn(int) -> bool {
    |i: int| s[i].1.name_id == id
}

/// The handler of a script with name id `id`.
pub open spec fn own_handler_by_id(script: Script, id: u16) -> Option<Handler> {
    match first_index(script.handlers@.len() as int, handler_with_id(script.handlers@, id)) {
        Some(i) => Some(script.handlers@[i].1),
        None => None,
    }
}

fn get_own_handler_by_name_id(script: &Script, id: u16) -> (r: Option<usize>)
    ensures
        r matches Some(i) ==> i < script.handlers@.len() && own_handler_by_id(*script, id) == Some(script.handlers@[i as int].1),
        r is None ==> own_handler_by_id(*script, id) is None,
{
    let mut i: usize = 0;
    while i < script.handlers.len()
        invariant
            i <= script.handlers@.len(),
            forall|j: int| 0 <= j < i ==> script.handlers@[j].1.name_id != id,
        decreases script.handlers@.len() - i,
    {
        if script.handlers[i].1.name_id == id {
            proof {
                lemma_first_index_found(script.handlers@.len() as int, handler_with_id(script.handlers@, id), i as int);
            }
            return Some(i);
        }
        i = i + 1;
    }
    proof {
        lemma_first_index_none(script.handlers@.len() as int, handler_with_id(script.handlers@, id));
    }
    None
}

/// The argument names a scope's handler declares; none if the script or
/// handler is not found.
pub open spec fn declared_args(p: DirPlayer, s: Scope) -> Seq<Seq<char>> {
    match script_by_ref(p.casts@, s.script_ref) {
        Some(script) => match own_handler_by_id(script, s.handler_name_id) {
            Some(h) => names_or(names_for(p, s.script_ref), h.argument_name_ids@, "arg_"@),
            None => Seq::empty(),
        },
        None => Seq::empty(),
    }
}

/// An argument of a scope: its declared name, or `argN`, and its value.
pub open spec fn arg_info(p: DirPlayer, declared: Seq<Seq<char>>, args: Seq<DatumRef>, i: int) -> ArgInfoView {
    ArgInfoView {
        name: if i < declared.len() { declared[i] } else { numbered("arg"@, i) },
        value: datum_value(p, args[i], false),
    }
}

/// The scope a locals query is about: the given one, or the top one.
pub open spec fn locals_index(p: DirPlayer, scope_index: Option<usize>) -> usize {
    match scope_index {
        Some(i) => i,
        None => if p.scopes@.len() > 0 { (p.scopes@.len() - 1) as usize } else { 0 },
    }
}

/// "Scope index N not found"
pub open spec fn scope_not_found_msg(i: usize) -> Seq<char> {
    "Scope index "@ + decimal(i as int) + " not found"@
}

/// The answer to a locals query.
pub open spec fn locals(p: DirPlayer, scope_index: Option<usize>) -> Result<LocalsResultView, Seq<char>> {
    let index = locals_index(p, scope_index);
    if index < p.scopes@.len() {
        let s = p.scopes@[index as int];
        let declared = declared_args(p, s);
        Ok(
            LocalsResultView {
                scope_index: index,
                handler_name: name_or(names_for(p, s.script_ref), s.handler_name_id, "handler_"@),
                locals: locals_map(p, s, false),
                args: Seq::new(s.args@.len(), |i: int| arg_info(p, declared, s.args@, i)),
            },
        )
    } else {
        Err(scope_not_found_msg(index))
    }
}

/// The locals and arguments of a scope (the top one by default), in full.
pub fn mcp_get_locals(player: &DirPlayer, scope_index: Option<usize>) -> (r: Result<McpLocalsResult, McpError>)
    ensures
        answers(r, locals(*player, scope_index)),
{
    let index: usize = match scope_index {
        Some(i) => i,
        None => if player.scopes.len() > 0 { player.scopes.len() - 1 } else { 0 },
    };
    if index >= player.scopes.len() {
        let mut msg = String::from_str("Scope index ");
        push_decimal_usize(&mut msg, index);
        msg.append(" not found");
        return Err(McpError { error: msg });
    }
    let scope = &player.scopes[index];
    let names = get_names_for(player, scope.script_ref);
    let arg_names: Vec<String> = match find_script_by_ref(&player.casts, scope.script_ref) {
        Some((c, s)) => {
            let script = &player.casts[c].scripts[s].1;
            match get_own_handler_by_name_id(script, scope.handler_name_id) {
                Some(h) => get_argument_names(names, &script.handlers[h].1.argument_name_ids),
                None => Vec::new(),
            }
        },
        None => Vec::new(),
    };
    let ghost declared = declared_args(*player, *scope);
    assert(arg_names.deep_view() =~= declared);
    let (ns, vs) = scope_locals(player, names, scope, false);
    let mut args: Vec<McpArgInfo> = Vec::new();
    let mut i: usize = 0;
    while i < scope.args.len()
        invariant
            i <= scope.args@.len(),
            arg_names.deep_view() == declared,
            args.deep_view() =~= Seq::new(i as nat, |k: int| arg_info(*player, declared, scope.args@, k)),
        decreases scope.args@.len() - i,
    {
        let name = if i < arg_names.len() {
            arg_names[i].clone()
        } else {
            numbered_text_usize("arg", i)
        };
        let info = McpArgInfo { name, value: datum_to_mcp_value(player, &scope.args[i]) };
        let ghost prev = args.deep_view();
        let ghost iv = info.deep_view();
        args.push(info);
        proof {
            assert(args.deep_view() =~= prev.push(iv));
        }
        i = i + 1;
    }
    Ok(
        McpLocalsResult {
            scope_index: index,
            handler_name: get_handler_name(names, scope.handler_name_id),
            locals: build_datum_map(ns, vs),
            args,
        },
    )
}

// ---------------------------------------------------------------------------
// Datums
// ---------------------------------------------------------------------------

/// Index predicate: the allocator entry at `i` is the datum with id `id`.
pub open spec fn datum_with_id(s: Seq<DatumRef>, id: usize) -> spec_fn(int) -> bool {
    |i: int| s[i] matches DatumRef::Ref(j, _) && j == id
}

/// The allocator's reference to the datum with id `id`.
pub open spec fn datum_ref_by_id(p: DirPlayer, id: usize) -> Option<DatumRef> {
    match first_index(p.datums@.len() as int, datum_with_id(p.datums@, id)) {
        Some(i) => Some(p.datums@[i]),
        None => None,
    }
}

fn get_datum_ref(player: &DirPlayer, id: usize) -> (r: Option<usize>)
    ensures
        r matches Some(i) ==> i < player.datums@.len() && datum_ref_by_id(*player, id) == Some(player.datums@[i as int]),
        r is None ==> datum_ref_by_id(*player, id) is None,
{
    let mut i: usize = 0;
    while i < player.datums.len()
        invariant
            i <= player.datums@.len(),
            forall|j: int| 0 <= j < i ==> !(#[trigger] player.datums@[j] matches DatumRef::Ref(k, _) && k == id),
        decreases player.datums@.len() - i,
    {
        let found = match &player.datums[i] {
            DatumRef::Ref(k, _) => *k == id,
            DatumRef::Void => false,
        };
        if found {
            proof {
                lemma_first_index_found(player.datums@.len() as int, datum_with_id(player.datums@, id), i as int);
            }
            return Some(i);
        }
        i = i + 1;
    }
    proof {
        lemma_first_index_none(player.datums@.len() as int, datum_with_id(player.datums@, id));
    }
    None
}

/// The properties a datum inspection shows: a script instance's properties
/// by name, a property list's entries by printed key; none for other datums.
pub open spec fn datum_properties(p: DirPlayer, kind: DatumKind) -> Option<Map<Seq<char>, DatumValueView>> {
    match kind {
        DatumKind::ScriptInstanceRef(inst) => Some(
            named_values(
                inst.properties@.map_values(|e: (String, DatumRef)| e.0@),
                inst.properties@.map_values(|e: (String, DatumRef)| datum_value(p, e.1, false)),
            ),
        ),
        DatumKind::PropList(entries) => Some(
            named_values(
                entries@.map_values(|e: (DatumRef, DatumRef)| datum_of(p, e.0).text@),
                entries@.map_values(|e: (DatumRef, DatumRef)| datum_value(p, e.1, false)),
            ),
        ),
        _ => None,
    }
}

/// "Datum with ID N not found"
pub open spec fn datum_not_found_msg(id: usize) -> Seq<char> {
    "Datum with ID "@ + decimal(id as int) + " not found"@
}

/// The answer to a datum inspection.
pub open spec fn datum_inspection(p: DirPlayer, id: usize) -> Result<DatumInspectionView, Seq<char>> {
    match datum_ref_by_id(p, id) {
        Some(r) => {
            let d = datum_of(p, r);
            Ok(
                DatumInspectionView {
                    datum_id: id,
                    datum_type: d.type_label@,
                    value: d.text@,
                    properties: datum_properties(p, d.kind),
                },
            )
        },
        None => Err(datum_not_found_msg(id)),
    }
}

/// Inspects a datum by id: its type, value and properties.
pub fn mcp_inspect_datum(player: &DirPlayer, datum_id: usize) -> (r: Result<McpDatumInspection, McpError>)
    ensures
        answers(r, datum_inspection(*player, datum_id)),
{
    let k = match get_datum_ref(player, datum_id) {
        Some(k) => k,
        None => {
            let mut msg = String::from_str("Datum with ID ");
            push_decimal_usize(&mut msg, datum_id);
            msg.append(" not found");
            return Err(McpError { error: msg });
        },
    };
    let datum = get_datum(player, &player.datums[k]);
    let properties = match &datum.kind {
        DatumKind::ScriptInstanceRef(inst) => {
            let mut ns: Vec<String> = Vec::new();
            let mut vs: Vec<McpDatumValue> = Vec::new();
            let mut i: usize = 0;
            while i < inst.properties.len()
                invariant
                    i <= inst.properties@.len(),
                    ns.deep_view() =~= inst.properties@.take(i as int).map_values(|e: (String, DatumRef)| e.0@),
                    vs.deep_view() =~= inst.properties@.take(i as int).map_values(|e: (String, DatumRef)| datum_value(*player, e.1, false)),
                    ns@.len() == i,
                    vs@.len() == i,
                decreases inst.properties@.len() - i,
            {
                let n = inst.properties[i].0.clone();
                let v = datum_to_mcp_value(player, &inst.properties[i].1);
                let ghost pn = ns.deep_view();
                let ghost pv = vs.deep_view();
                let ghost nv = n@;
                let ghost vv = v.deep_view();
                ns.push(n);
                vs.push(v);
                proof {
                    assert(ns.deep_view() =~= pn.push(nv));
                    assert(vs.deep_view() =~= pv.push(vv));
                }
                i = i + 1;
            }
            assert(inst.properties@.take(i as int) =~= inst.properties@);
            Some(build_datum_map(ns, vs))
        },
        DatumKind::PropList(entries) => {
            let mut ns: Vec<String> = Vec::new();
            let mut vs: Vec<McpDatumValue> = Vec::new();
            let mut i: usize = 0;
            while i < entries.len()
                invariant
                    i <= entries@.len(),
                    ns.deep_view() =~= entries@.take(i as int).map_values(|e: (DatumRef, DatumRef)| datum_of(*player, e.0).text@),
                    vs.deep_view() =~= entries@.take(i as int).map_values(|e: (DatumRef, DatumRef)| datum_value(*player, e.1, false)),
                    ns@.len() == i,
                    vs@.len() == i,
                decreases entries@.len() - i,
            {
                let n = get_datum(player, &entries[i].0).text.clone();
                let v = datum_to_mcp_value(player, &entries[i].1);
                let ghost pn = ns.deep_view();
                let ghost pv = vs.deep_view();
                let ghost nv = n@;
                let ghost vv = v.deep_view();
                ns.push(n);
                vs.push(v);
                proof {
                    assert(ns.deep_view() =~= pn.push(nv));
                    assert(vs.deep_view() =~= pv.push(vv));
                }
                i = i + 1;
            }
            assert(entries@.take(i as int) =~= entries@);
            Some(build_datum_map(ns, vs))
        },
        _ => None,
    };
    Ok(
        McpDatumInspection {
            datum_id,
            datum_type: datum.type_label.clone(),
            value: datum.text.clone(),
            properties,
        },
    )
}

// ---------------------------------------------------------------------------
// Breakpoints and evaluation
// ---------------------------------------------------------------------------

/// The answer to a breakpoint listing.
pub open spec fn breakpoint_list(p: DirPlayer) -> BreakpointListView {
    BreakpointListView {
        breakpoints: p.breakpoints@.map_values(|b: crate::model::Breakpoint| BreakpointInfoView {
            script_name: b.script_name@,
            handler_name: b.handler_name@,
            bytecode_index: b.bytecode_index,
        }),
    }
}

/// All breakpoints.
pub fn mcp_list_breakpoints(player: &DirPlayer) -> (r: McpBreakpointList)
    ensures
        r.deep_view() == breakpoint_list(*player),
{
    let ghost want = breakpoint_list(*player).breakpoints;
    let mut breakpoints: Vec<McpBreakpointInfo> = Vec::new();
    let mut i: usize = 0;
    while i < player.breakpoints.len()
        invariant
            i <= player.breakpoints@.len(),
            want == breakpoint_list(*player).breakpoints,
            breakpoints.deep_view() =~= want.take(i as int),
        decreases player.breakpoints@.len() - i,
    {
        let bp = &player.breakpoints[i];
        let info = McpBreakpointInfo {
            script_name: bp.script_name.clone(),
            handler_name: bp.handler_name.clone(),
            bytecode_index: bp.bytecode_index,
        };
        let ghost prev = breakpoints.deep_view();
        let ghost iv = info.deep_view();
        breakpoints.push(info);
        proof {
            assert(breakpoints.deep_view() =~= prev.push(iv));
            assert(want.take(i + 1) =~= want.take(i as int).push(iv));
        }
        i = i + 1;
    }
    assert(want.take(i as int) =~= want);
    McpBreakpointList { breakpoints }
}

/// The answer for an evaluation: the value's type, printed form and id, or
/// the error's message.
pub open spec fn eval_result(p: DirPlayer, result: Result<DatumRef, ScriptError>) -> EvalResultView {
    match result {
        Ok(r) => EvalResultView {
            success: true,
            result_type: Some(datum_of(p, r).type_label@),
            result_value: Some(datum_of(p, r).text@),
            datum_id: datum_id_of(r),
            error: None,
        },
        Err(e) => EvalResultView {
            success: false,
            result_type: None,
            result_value: None,
            datum_id: None,
            error: Some(e.message@),
        },
    }
}

/// Describes the outcome of an evaluation.
pub fn mcp_format_eval_result(player: &DirPlayer, result: Result<DatumRef, ScriptError>) -> (r: McpEvalResult)
    ensures
        r.deep_view() == eval_result(*player, result),
{
    match result {
        Ok(datum_ref) => {
            let datum = get_datum(player, &datum_ref);
            let datum_id: Option<usize> = match &datum_ref {
                DatumRef::Void => None,
                DatumRef::Ref(id, _) => Some(*id),
            };
            McpEvalResult {
                success: true,
                result_type: Some(datum.type_label.clone()),
                result_value: Some(datum.text.clone()),
                datum_id,
                error: None,
            }
        },
        Err(err) => McpEvalResult {
            success: false,
            result_type: None,
            result_value: None,
            datum_id: None,
            error: Some(err.message),
        },
    }
}

} // verus!
