//! Script queries: listing, details, disassembly, decompilation.
use vstd::prelude::*;
use crate::lookup::{cast_pos, find_script_by_ref, script_pos};
use crate::model::{CastLib, CastMemberRef, DecompiledLine, DirPlayer, Handler, Script};
use crate::response::{
    answers, DecompileResultView, DisassemblyResultView, HandlerInfoView, McpBytecodeInstruction,
    McpDecompileResult, McpDisassemblyResult, McpError, McpHandlerInfo, McpScriptDetails,
    McpScriptInfo, McpScriptList, ScriptDetailsView, ScriptInfoView, ScriptListView,
    BytecodeInstructionView,
};
use crate::text::{
    copy_strings, indentation, joined, lowercase, numbered, numbered_text, push_indentation,
    push_string, script_type_label, script_type_str, to_lowercase, decimal, push_decimal,
};

verus! {

// ---------------------------------------------------------------------------
// Names from a script context
// ---------------------------------------------------------------------------

/// The name with id `id` in a name table, or `prefix` and the id when the
/// table is missing or too short.
pub open spec fn name_or(names: Option<Seq<String>>, id: u16, prefix: Seq<char>) -> Seq<char> {
    match names {
        Some(t) => if (id as int) < t.len() {
            t[id as int]@
        } else {
            numbered(prefix, id as int)
        },
        None => numbered(prefix, id as int),
    }
}

/// The names of a list of ids.
pub open spec fn names_or(names: Option<Seq<String>>, ids: Seq<u16>, prefix: Seq<char>) -> Seq<Seq<char>> {
    ids.map_values(|id: u16| name_or(names, id, prefix))
}

/// The name table of an optional script context.
pub open spec fn table_of(names: Option<&Vec<String>>) -> Option<Seq<String>> {
    match names {
        Some(t) => Some(t@),
        None => None,
    }
}

/// Looks up a name, with `prefix` and the id as the fallback.
pub fn name_from(names: Option<&Vec<String>>, id: u16, prefix: &str) -> (r: String)
    ensures
        r@ == name_or(table_of(names), id, prefix@),
{
    match names {
        Some(t) => {
            if (id as usize) < t.len() {
                return t[id as usize].clone();
            }
        },
        None => {},
    }
    numbered_text(prefix, id as i64)
}

/// The name of a handler from its name id (`handler_N` if unknown).
pub fn get_handler_name(names: Option<&Vec<String>>, name_id: u16) -> (r: String)
    ensures
        r@ == name_or(table_of(names), name_id, "handler_"@),
{
    name_from(names, name_id, "handler_")
}

/// Looks up each name of a list of ids.
pub fn names_from(names: Option<&Vec<String>>, ids: &Vec<u16>, prefix: &str) -> (r: Vec<String>)
    ensures
        r.deep_view() == names_or(table_of(names), ids@, prefix@),
{
    let mut r: Vec<String> = Vec::new();
    let mut i: usize = 0;
    while i < ids.len()
        invariant
            i <= ids@.len(),
            r.deep_view() =~= names_or(table_of(names), ids@.take(i as int), prefix@),
        decreases ids@.len() - i,
    {
        let n = name_from(names, ids[i], prefix);
        let ghost prev = r.deep_view();
        let ghost nv = n@;
        r.push(n);
        proof {
            assert(r.deep_view() =~= prev.push(nv));
            assert(r.deep_view() =~= names_or(table_of(names), ids@.take(i + 1), prefix@));
        }
        i = i + 1;
    }
    assert(ids@.take(i as int) =~= ids@);
    r
}

/// The argument names of a handler (`arg_N` if unknown).
pub fn get_argument_names(names: Option<&Vec<String>>, arg_ids: &Vec<u16>) -> (r: Vec<String>)
    ensures
        r.deep_view() == names_or(table_of(names), arg_ids@, "arg_"@),
{
    names_from(names, arg_ids, "arg_")
}

// ---------------------------------------------------------------------------
// Script listing
// ---------------------------------------------------------------------------

/// A script in a listing.
pub open spec fn script_info(s: Script) -> ScriptInfoView {
    ScriptInfoView {
        cast_lib: s.member_ref.cast_lib,
        cast_member: s.member_ref.cast_member,
        name: s.name@,
        script_type: script_type_label(s.script_type),
        handlers: s.handler_names.deep_view(),
    }
}

/// Summarises a script.
pub fn get_script_info(script: &Script) -> (r: McpScriptInfo)
    ensures
        r.deep_view() == script_info(*script),
{
    McpScriptInfo {
        cast_lib: script.member_ref.cast_lib,
        cast_member: script.member_ref.cast_member,
        name: script.name.clone(),
        script_type: String::from_str(script_type_str(&script.script_type)),
        handlers: copy_strings(&script.handler_names),
    }
}

/// Whether a cast passes the listing's filter (its number, as an `i32`).
pub open spec fn cast_selected(cast: CastLib, cast_lib: Option<i32>) -> bool {
    match cast_lib {
        Some(lib) => cast.number as i32 == lib,
        None => true,
    }
}

/// The scripts of a cast, in table order.
pub open spec fn cast_script_infos(cast: CastLib) -> Seq<ScriptInfoView> {
    cast.scripts@.map_values(|e: (u32, Script)| script_info(e.1))
}

/// The scripts of the selected casts, cast by cast.
pub open spec fn all_script_infos(casts: Seq<CastLib>, cast_lib: Option<i32>) -> Seq<ScriptInfoView>
    decreases casts.len(),
{
    if casts.len() == 0 {
        Seq::empty()
    } else if cast_selected(casts.last(), cast_lib) {
        all_script_infos(casts.drop_last(), cast_lib) + cast_script_infos(casts.last())
    } else {
        all_script_infos(casts.drop_last(), cast_lib)
    }
}

/// A page of `s`: `offset` items skipped, at most `limit` items kept.
pub open spec fn page<A>(s: Seq<A>, offset: nat, limit: Option<usize>) -> Seq<A> {
    let rest = if offset <= s.len() { s.skip(offset as int) } else { Seq::empty() };
    match limit {
        Some(l) => if l < rest.len() { rest.take(l as int) } else { rest },
        None => rest,
    }
}

/// The answer to a script listing: the page, the number of scripts in all,
/// the offset when it is not 0, and the limit.
pub open spec fn script_list(
    p: DirPlayer,
    cast_lib: Option<i32>,
    limit: Option<usize>,
    offset: Option<usize>,
) -> ScriptListView {
    let all = all_script_infos(p.casts@, cast_lib);
    let off: usize = match offset {
        Some(o) => o,
        None => 0,
    };
    ScriptListView {
        scripts: page(all, off as nat, limit),
        total_count: all.len() as usize,
        offset: if off > 0 { Some(off) } else { None },
        limit,
    }
}

/// Lists the scripts of the movie, or of one cast library, a page at a time.
pub fn mcp_list_scripts(
    player: &DirPlayer,
    cast_lib: Option<i32>,
    limit: Option<usize>,
    offset: Option<usize>,
) -> (r: McpScriptList)
    ensures
        r.deep_view() == script_list(*player, cast_lib, limit, offset),
{
    let mut all_scripts: Vec<McpScriptInfo> = Vec::new();
    let mut c: usize = 0;
    while c < player.casts.len()
        invariant
            c <= player.casts@.len(),
            all_scripts.deep_view() =~= all_script_infos(player.casts@.take(c as int), cast_lib),
        decreases player.casts@.len() - c,
    {
        let cast = &player.casts[c];
        let selected = match cast_lib {
            Some(lib) => cast.number as i32 == lib,
            None => true,
        };
        let ghost before = all_scripts.deep_view();
        proof {
            assert(player.casts@.take(c + 1).drop_last() =~= player.casts@.take(c as int));
        }
        if selected {
            let mut k: usize = 0;
            while k < cast.scripts.len()
                invariant
                    k <= cast.scripts@.len(),
                    all_scripts.deep_view() =~= before + cast_script_infos(*cast).take(k as int),
                decreases cast.scripts@.len() - k,
            {
                let info = get_script_info(&cast.scripts[k].1);
                let ghost prev = all_scripts.deep_view();
                let ghost iv = info.deep_view();
                all_scripts.push(info);
                proof {
                    assert(all_scripts.deep_view() =~= prev.push(iv));
                    assert(cast_script_infos(*cast).take(k + 1) =~= cast_script_infos(*cast).take(k as int).push(iv));
                }
                k = k + 1;
            }
            assert(cast_script_infos(*cast).take(k as int) =~= cast_script_infos(*cast));
        }
        c = c + 1;
    }
    assert(player.casts@.take(c as int) =~= player.casts@);
    let total_count = all_scripts.len();
    let offset_val: usize = match offset {
        Some(o) => o,
        None => 0,
    };
    let ghost all = all_scripts.deep_view();
    let mut scripts: Vec<McpScriptInfo> = Vec::new();
    let mut i: usize = offset_val;
    let max_count: usize = match limit {
        Some(l) => l,
        None => usize::MAX,
    };
    let mut taken: usize = 0;
    let ghost rest = if offset_val <= all.len() { all.skip(offset_val as int) } else { Seq::<ScriptInfoView>::empty() };
    let mut all_scripts = all_scripts;
    while i < all_scripts.len() && taken < max_count
        invariant
            all_scripts.deep_view() == all,
            offset_val <= all.len() ==> rest == all.skip(offset_val as int),
            offset_val <= i,
            taken == i - offset_val,
            i <= all.len() ==> scripts.deep_view() =~= rest.take(taken as int),
            i > all.len() ==> taken == 0 && scripts@.len() == 0,
            taken <= max_count,
        decreases all.len() - i,
    {
        let item = McpScriptInfo {
            cast_lib: all_scripts[i].cast_lib,
            cast_member: all_scripts[i].cast_member,
            name: all_scripts[i].name.clone(),
            script_type: all_scripts[i].script_type.clone(),
            handlers: copy_strings(&all_scripts[i].handlers),
        };
        let ghost prev = scripts.deep_view();
        let ghost iv = item.deep_view();
        assert(iv == all[i as int]);
        scripts.push(item);
        proof {
            assert(scripts.deep_view() =~= prev.push(iv));
            assert(rest.take(taken + 1) =~= rest.take(taken as int).push(iv));
        }
        i = i + 1;
        taken = taken + 1;
    }
    proof {
        if offset_val > all.len() {
            assert(scripts.deep_view() =~= page(all, offset_val as nat, limit));
        } else {
            assert(scripts.deep_view() =~= page(all, offset_val as nat, limit));
        }
    }
    McpScriptList {
        scripts,
        total_count,
        offset: if offset_val > 0 { Some(offset_val) } else { None },
        limit,
    }
}

// ---------------------------------------------------------------------------
// Script context
// ---------------------------------------------------------------------------

/// "Script not found at cast_lib=N, cast_member=M"
pub open spec fn script_not_found_msg(cast_lib: i32, cast_member: i32) -> Seq<char> {
    "Script not found at cast_lib="@ + decimal(cast_lib as int) + ", cast_member="@ + decimal(
        cast_member as int,
    )
}

/// The script a reference names, with its cast library, when that library
/// has a script context; else the error.
pub open spec fn script_context(p: DirPlayer, r: CastMemberRef) -> Result<(CastLib, Script), Seq<char>> {
    match cast_pos(p.casts@, r.cast_lib as u32) {
        Some(c) => match script_pos(p.casts@[c].scripts@, r.cast_member as u32) {
            Some(s) => match p.casts@[c].lctx {
                Some(_) => Ok((p.casts@[c], p.casts@[c].scripts@[s].1)),
                None => Err("Script context not available"@),
            },
            None => Err(script_not_found_msg(r.cast_lib, r.cast_member)),
        },
        None => Err(script_not_found_msg(r.cast_lib, r.cast_member)),
    }
}

/// The names of the script context of a cast that has one.
pub open spec fn context_names(cast: CastLib) -> Seq<String> {
    match cast.lctx {
        Some(l) => l.names@,
        None => Seq::empty(),
    }
}

/// Finds the script a reference names and its cast library, which must
/// have a script context: the indices of the cast and of the script.
pub fn get_script_context(player: &DirPlayer, member_ref: &CastMemberRef) -> (r: Result<(usize, usize), McpError>)
    ensures
        match (r, script_context(*player, *member_ref)) {
            (Ok((c, s)), Ok((cast, script))) => {
                &&& c < player.casts@.len()
                &&& s < player.casts@[c as int].scripts@.len()
                &&& player.casts@[c as int] == cast
                &&& player.casts@[c as int].scripts@[s as int].1 == script
                &&& cast.lctx is Some
            },
            (Err(e), Err(m)) => e.error@ == m,
            _ => false,
        },
{
    let (c, s) = match find_script_by_ref(&player.casts, *member_ref) {
        Some(found) => found,
        None => {
            let mut msg = String::from_str("Script not found at cast_lib=");
            push_decimal(&mut msg, member_ref.cast_lib as i64);
            msg.append(", cast_member=");
            push_decimal(&mut msg, member_ref.cast_member as i64);
            return Err(McpError { error: msg });
        },
    };
    match &player.casts[c].lctx {
        Some(_) => Ok((c, s)),
        None => Err(McpError { error: String::from_str("Script context not available") }),
    }
}

// ---------------------------------------------------------------------------
// Script details
// ---------------------------------------------------------------------------

/// A handler of a script, names taken from the script context.
pub open spec fn handler_info(names: Seq<String>, entry: (String, Handler)) -> HandlerInfoView {
    HandlerInfoView {
        name: entry.0@,
        arguments: names_or(Some(names), entry.1.argument_name_ids@, "arg_"@),
        locals: names_or(Some(names), entry.1.local_name_ids@, "local_"@),
        bytecode_count: entry.1.bytecode_array@.len() as usize,
    }
}

/// The answer to a script query.
pub open spec fn script_details(p: DirPlayer, cast_lib: i32, cast_member: i32) -> Result<ScriptDetailsView, Seq<char>> {
    match script_context(p, CastMemberRef { cast_lib, cast_member }) {
        Ok((cast, script)) => Ok(
            ScriptDetailsView {
                cast_lib: script.member_ref.cast_lib,
                cast_member: script.member_ref.cast_member,
                name: script.name@,
                script_type: script_type_label(script.script_type),
                handlers: script.handlers@.map_values(|e: (String, Handler)| handler_info(context_names(cast), e)),
                properties: script.properties.deep_view(),
            },
        ),
        Err(m) => Err(m),
    }
}

/// Describes a script: its handlers with their arguments, locals and
/// bytecode length, and its properties.
pub fn mcp_get_script(player: &DirPlayer, cast_lib: i32, cast_member: i32) -> (r: Result<McpScriptDetails, McpError>)
    ensures
        answers(r, script_details(*player, cast_lib, cast_member)),
{
    let member_ref = CastMemberRef { cast_lib, cast_member };
    let (c, s) = match get_script_context(player, &member_ref) {
        Ok(found) => found,
        Err(e) => {
            return Err(e);
        },
    };
    let cast = &player.casts[c];
    let script = &cast.scripts[s].1;
    let names: &Vec<String> = &cast.lctx.as_ref().unwrap().names;
    let ghost want = script.handlers@.map_values(|e: (String, Handler)| handler_info(context_names(*cast), e));
    let mut handlers: Vec<McpHandlerInfo> = Vec::new();
    let mut i: usize = 0;
    while i < script.handlers.len()
        invariant
            i <= script.handlers@.len(),
            names@ == context_names(*cast),
            want == script.handlers@.map_values(|e: (String, Handler)| handler_info(context_names(*cast), e)),
            handlers.deep_view() =~= want.take(i as int),
        decreases script.handlers@.len() - i,
    {
        let entry = &script.handlers[i];
        let info = McpHandlerInfo {
            name: entry.0.clone(),
            arguments: get_argument_names(Some(names), &entry.1.argument_name_ids),
            locals: names_from(Some(names), &entry.1.local_name_ids, "local_"),
            bytecode_count: entry.1.bytecode_array.len(),
        };
        let ghost prev = handlers.deep_view();
        let ghost iv = info.deep_view();
        assert(iv == want[i as int]);
        handlers.push(info);
        proof {
            assert(handlers.deep_view() =~= prev.push(iv));
            assert(want.take(i + 1) =~= want.take(i as int).push(iv));
        }
        i = i + 1;
    }
    assert(want.take(i as int) =~= want);
    Ok(
        McpScriptDetails {
            cast_lib: script.member_ref.cast_lib,
            cast_member: script.member_ref.cast_member,
            name: script.name.clone(),
            script_type: String::from_str(script_type_str(&script.script_type)),
            handlers,
            properties: copy_strings(&script.properties),
        },
    )
}

// ---------------------------------------------------------------------------
// Handlers
// ---------------------------------------------------------------------------

/// Index predicate: the handler entry at `i` is named `name`.
pub open spec fn handler_named(s: Seq<(String, Handler)>, name: Seq<char>) -> spec_fn(int) -> bool {
    |i: int| s[i].0@ == name
}

/// The handler a script holds under `name`.
pub open spec fn own_handler(script: Script, name: Seq<char>) -> Option<Handler> {
    match crate::lookup::first_index(script.handlers@.len() as int, handler_named(script.handlers@, name)) {
        Some(i) => Some(script.handlers@[i].1),
        None => None,
    }
}

/// Finds the handler a script holds under `name`.
pub fn get_own_handler(script: &Script, name: &String) -> (r: Option<usize>)
    ensures
        r matches Some(i) ==> i < script.handlers@.len() && own_handler(*script, name@) == Some(
            script.handlers@[i as int].1,
        ),
        r is None ==> own_handler(*script, name@) is None,
{
    let mut i: usize = 0;
    while i < script.handlers.len()
        invariant
            i <= script.handlers@.len(),
            forall|j: int| 0 <= j < i ==> script.handlers@[j].0@ != name@,
        decreases script.handlers@.len() - i,
    {
        if script.handlers[i].0 == *name {
            proof {
                crate::lookup::lemma_first_index_found(script.handlers@.len() as int, handler_named(script.handlers@, name@), i as int);
            }
            return Some(i);
        }
        i = i + 1;
    }
    proof {
        crate::lookup::lemma_first_index_none(script.handlers@.len() as int, handler_named(script.handlers@, name@));
    }
    None
}

/// "Handler 'NAME' not found in script"
pub open spec fn handler_not_found_msg(name: Seq<char>) -> Seq<char> {
    "Handler '"@ + name + "' not found in script"@
}

fn handler_not_found(name: &str) -> (e: McpError)
    ensures
        e.error@ == handler_not_found_msg(name@),
{
    let mut msg = String::from_str("Handler '");
    msg.append(name);
    msg.append("' not found in script");
    McpError { error: msg }
}

/// The handler a query names, in the script it names (the name taken in
/// lower case).
pub open spec fn handler_lookup(p: DirPlayer, cast_lib: i32, cast_member: i32, handler_name: Seq<char>) -> Result<(CastLib, Handler), Seq<char>> {
    match script_context(p, CastMemberRef { cast_lib, cast_member }) {
        Ok((cast, script)) => match own_handler(script, lowercase(handler_name)) {
            Some(h) => Ok((cast, h)),
            None => Err(handler_not_found_msg(handler_name)),
        },
        Err(m) => Err(m),
    }
}

/// A disassembled instruction.
pub open spec fn instruction(b: crate::model::Bytecode) -> BytecodeInstructionView {
    BytecodeInstructionView { pos: b.pos, opcode: b.opcode@, operand: b.obj, text: b.text@ }
}

/// The answer to a disassembly query.
pub open spec fn disassembly(p: DirPlayer, cast_lib: i32, cast_member: i32, handler_name: Seq<char>) -> Result<DisassemblyResultView, Seq<char>> {
    match handler_lookup(p, cast_lib, cast_member, handler_name) {
        Ok((cast, h)) => Ok(
            DisassemblyResultView {
                handler_name,
                arguments: names_or(Some(context_names(cast)), h.argument_name_ids@, "arg_"@),
                bytecode: h.bytecode_array@.map_values(|b: crate::model::Bytecode| instruction(b)),
            },
        ),
        Err(m) => Err(m),
    }
}

/// Disassembles a handler: its arguments and its bytecode.
pub fn mcp_disassemble_handler(player: &DirPlayer, cast_lib: i32, cast_member: i32, handler_name: &str) -> (r: Result<McpDisassemblyResult, McpError>)
    ensures
        answers(r, disassembly(*player, cast_lib, cast_member, handler_name@)),
{
    let member_ref = CastMemberRef { cast_lib, cast_member };
    let (c, s) = match get_script_context(player, &member_ref) {
        Ok(found) => found,
        Err(e) => {
            return Err(e);
        },
    };
    let cast = &player.casts[c];
    let script = &cast.scripts[s].1;
    let key = to_lowercase(handler_name);
    let h = match get_own_handler(script, &key) {
        Some(h) => h,
        None => {
            return Err(handler_not_found(handler_name));
        },
    };
    let handler = &script.handlers[h].1;
    let names: &Vec<String> = &cast.lctx.as_ref().unwrap().names;
    let ghost want = handler.bytecode_array@.map_values(|b: crate::model::Bytecode| instruction(b));
    let mut bytecode: Vec<McpBytecodeInstruction> = Vec::new();
    let mut i: usize = 0;
    while i < handler.bytecode_array.len()
        invariant
            i <= handler.bytecode_array@.len(),
            want == handler.bytecode_array@.map_values(|b: crate::model::Bytecode| instruction(b)),
            bytecode.deep_view() =~= want.take(i as int),
        decreases handler.bytecode_array@.len() - i,
    {
        let bc = &handler.bytecode_array[i];
        let item = McpBytecodeInstruction {
            pos: bc.pos,
            opcode: bc.opcode.clone(),
            operand: bc.obj,
            text: bc.text.clone(),
        };
        let ghost prev = bytecode.deep_view();
        let ghost iv = item.deep_view();
        assert(iv == want[i as int]);
        bytecode.push(item);
        proof {
            assert(bytecode.deep_view() =~= prev.push(iv));
            assert(want.take(i + 1) =~= want.take(i as int).push(iv));
        }
        i = i + 1;
    }
    assert(want.take(i as int) =~= want);
    Ok(
        McpDisassemblyResult {
            handler_name: String::from_str(handler_name),
            arguments: get_argument_names(Some(names), &handler.argument_name_ids),
            bytecode,
        },
    )
}

/// A decompiled line, indented by two spaces per level.
pub open spec fn line_text(l: DecompiledLine) -> Seq<char> {
    indentation(l.indent as nat) + l.text@
}

/// The Lingo source of a decompiled handler: its lines joined by newlines.
pub open spec fn decompiled_source(lines: Seq<DecompiledLine>) -> Seq<char> {
    joined(lines.map_values(|l: DecompiledLine| line_text(l)), "\n"@)
}

/// The answer to a decompilation query.
pub open spec fn decompilation(p: DirPlayer, cast_lib: i32, cast_member: i32, handler_name: Seq<char>) -> Result<DecompileResultView, Seq<char>> {
    match handler_lookup(p, cast_lib, cast_member, handler_name) {
        Ok((cast, h)) => Ok(
            DecompileResultView {
                handler_name: h.decompiled.name@,
                arguments: h.decompiled.arguments.deep_view(),
                source: decompiled_source(h.decompiled.lines@),
            },
        ),
        Err(m) => Err(m),
    }
}

/// Joins decompiled lines into source text.
pub fn decompiled_text(lines: &Vec<DecompiledLine>) -> (r: String)
    ensures
        r@ == decompiled_source(lines@),
{
    let ghost parts = lines@.map_values(|l: DecompiledLine| line_text(l));
    let mut s = String::new();
    let mut i: usize = 0;
    while i < lines.len()
        invariant
            i <= lines@.len(),
            parts == lines@.map_values(|l: DecompiledLine| line_text(l)),
            s@ == joined(parts.take(i as int), "\n"@),
        decreases lines@.len() - i,
    {
        let ghost before = s@;
        if i > 0 {
            s.append("\n");
        }
        push_indentation(&mut s, lines[i].indent);
        push_string(&mut s, &lines[i].text);
        proof {
            assert(parts.take(i + 1).drop_last() =~= parts.take(i as int));
            assert(parts.take(i + 1).last() == line_text(lines@[i as int]));
            if i == 0 {
                assert(s@ =~= joined(parts.take(1), "\n"@));
            } else {
                assert(s@ =~= before + "\n"@ + line_text(lines@[i as int]));
            }
        }
        i = i + 1;
    }
    assert(parts.take(i as int) =~= parts);
    s
}

/// Decompiles a handler: its name, arguments and Lingo source.
pub fn mcp_decompile_handler(player: &DirPlayer, cast_lib: i32, cast_member: i32, handler_name: &str) -> (r: Result<McpDecompileResult, McpError>)
    ensures
        answers(r, decompilation(*player, cast_lib, cast_member, handler_name@)),
{
    let member_ref = CastMemberRef { cast_lib, cast_member };
    let (c, s) = match get_script_context(player, &member_ref) {
        Ok(found) => found,
        Err(e) => {
            return Err(e);
        },
    };
    let script = &player.casts[c].scripts[s].1;
    let key = to_lowercase(handler_name);
    let h = match get_own_handler(script, &key) {
        Some(h) => h,
        None => {
            return Err(handler_not_found(handler_name));
        },
    };
    let decompiled = &script.handlers[h].1.decompiled;
    let source = decompiled_text(&decompiled.lines);
    Ok(
        McpDecompileResult {
            handler_name: decompiled.name.clone(),
            arguments: copy_strings(&decompiled.arguments),
            source,
        },
    )
}

} // verus!
