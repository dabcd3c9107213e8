use dirplayer_mcp::model::{
    Breakpoint, CastLib, CastMemberRef, Datum, DatumKind, DatumRef, DirPlayer, Handler, DecompiledHandler, Scope,
    Script, ScriptContext, ScriptError, ScriptInstance, ScriptType, SpriteSpan,
};
use dirplayer_mcp::player::{
    mcp_format_eval_result, mcp_get_call_stack, mcp_get_context, mcp_get_execution_state, mcp_get_globals,
    mcp_get_locals, mcp_inspect_datum, mcp_list_breakpoints,
};

fn datum(type_label: &str, text: &str, kind: DatumKind) -> Datum {
    Datum { type_label: type_label.to_string(), text: text.to_string(), kind }
}

fn int_ref(id: usize, v: i32) -> DatumRef {
    DatumRef::Ref(id, Box::new(datum("int", &v.to_string(), DatumKind::Int(v))))
}

fn str_ref(id: usize, s: &str) -> DatumRef {
    DatumRef::Ref(id, Box::new(datum("string", &format!("\"{}\"", s), DatumKind::Str(s.to_string()))))
}

fn handler(name_id: u16, args: Vec<u16>) -> Handler {
    Handler {
        name_id,
        argument_name_ids: args,
        local_name_ids: vec![],
        bytecode_array: vec![],
        decompiled: DecompiledHandler { name: String::new(), arguments: vec![], lines: vec![] },
    }
}

fn scope(cast_lib: i32, cast_member: i32, handler_name_id: u16, locals: Vec<(u16, DatumRef)>, args: Vec<DatumRef>) -> Scope {
    Scope {
        script_ref: CastMemberRef { cast_lib, cast_member },
        handler_name_id,
        bytecode_index: handler_name_id as usize * 10,
        locals,
        args,
        stack_len: 2,
    }
}

fn base_player() -> DirPlayer {
    DirPlayer {
        casts: vec![CastLib {
            number: 1,
            name: "internal".to_string(),
            members: vec![],
            scripts: vec![(
                2,
                Script {
                    member_ref: CastMemberRef { cast_lib: 1, cast_member: 2 },
                    name: "Hero".to_string(),
                    script_type: ScriptType::Parent,
                    handler_names: vec!["walk".to_string()],
                    handlers: vec![("walk".to_string(), handler(0, vec![1, 2]))],
                    properties: vec![],
                },
            )],
            lctx: Some(ScriptContext {
                names: vec!["walk".to_string(), "me".to_string(), "speed".to_string(), "steps".to_string()],
            }),
        }],
        scopes: vec![],
        globals: vec![],
        datums: vec![],
        void_datum: datum("void", "<Void>", DatumKind::Void),
        breakpoints: vec![],
        is_playing: true,
        is_script_paused: false,
        at_breakpoint: false,
        current_frame: 7,
        dir_version: 1000,
        sprite_spans: vec![],
        title: "Hotel".to_string(),
        stage_size: (720, 540),
    }
}

/// Scopes: a placeholder at 0, the hero's walk at 1, a placeholder at 2,
/// an unknown script at 3, the hero's walk again at 4.
fn player_with_stack() -> DirPlayer {
    let mut p = base_player();
    let long = "x".repeat(70);
    p.scopes = vec![
        scope(0, 0, 0, vec![], vec![]),
        scope(1, 2, 0, vec![(3, int_ref(11, 5)), (9, str_ref(12, &long))], vec![int_ref(13, 1)]),
        scope(0, 0, 0, vec![], vec![]),
        scope(4, 4, 2, vec![], vec![]),
        scope(1, 2, 0, vec![], vec![str_ref(14, "hi"), int_ref(15, 2), DatumRef::Void]),
    ];
    p
}

#[test]
fn call_stack_skips_placeholders() {
    let p = player_with_stack();
    let cs = mcp_get_call_stack(&p, None, false);
    let indices: Vec<usize> = cs.scopes.iter().map(|s| s.index).collect();
    assert_eq!(indices, vec![1, 3, 4]);
    assert_eq!(cs.current_scope_index, Some(2));
    assert_eq!(cs.scopes[0].script_name, "Hero");
    assert_eq!(cs.scopes[0].handler_name, "walk");
    assert_eq!(cs.scopes[0].cast_lib, 1);
    assert_eq!(cs.scopes[0].cast_member, 2);
    assert_eq!(cs.scopes[0].bytecode_index, 0);
    assert_eq!(cs.scopes[0].stack_depth, 2);
    assert!(cs.scopes[0].locals.is_none());
    assert!(cs.scopes[0].args.is_none());
    assert_eq!(cs.scopes[1].script_name, "unknown");
    assert_eq!(cs.scopes[1].handler_name, "handler_2");
}

#[test]
fn call_stack_depth_takes_the_top() {
    let p = player_with_stack();
    let top2 = mcp_get_call_stack(&p, Some(2), false);
    let indices: Vec<usize> = top2.scopes.iter().map(|s| s.index).collect();
    assert_eq!(indices, vec![3, 4]);
    assert_eq!(top2.current_scope_index, Some(1));
    let all = mcp_get_call_stack(&p, Some(10), false);
    assert_eq!(all.scopes.len(), 3);
    let none = mcp_get_call_stack(&p, Some(0), false);
    assert!(none.scopes.is_empty());
    assert_eq!(none.current_scope_index, None);
}

#[test]
fn call_stack_with_locals_uses_short_forms() {
    let p = player_with_stack();
    let cs = mcp_get_call_stack(&p, None, true);
    let locals = cs.scopes[0].locals.as_ref().unwrap();
    assert_eq!(locals.len(), 2);
    let steps = locals.get("steps").unwrap();
    assert_eq!(steps.datum_id, Some(11));
    assert_eq!(steps.datum_type, "int");
    assert_eq!(steps.value, "5");
    let long = locals.get("local_9").unwrap();
    assert_eq!(long.value, format!("\"{}...\"", "x".repeat(55)));
    let args = cs.scopes[0].args.as_ref().unwrap();
    assert_eq!(args.len(), 1);
    assert_eq!(args[0].value, "1");
    let top_args = cs.scopes[2].args.as_ref().unwrap();
    assert_eq!(top_args[0].value, "\"hi\"");
    assert_eq!(top_args[2].datum_id, None);
    assert_eq!(top_args[2].datum_type, "void");
    assert_eq!(top_args[2].value, "Void");
    assert!(cs.scopes[1].locals.as_ref().unwrap().is_empty());
}

#[test]
fn empty_call_stack() {
    let p = base_player();
    let cs = mcp_get_call_stack(&p, None, true);
    assert!(cs.scopes.is_empty());
    assert_eq!(cs.current_scope_index, None);
    let ctx = mcp_get_context(&p);
    assert_eq!(ctx.scope_count, 0);
    assert!(ctx.current_handler.is_none());
}

#[test]
fn context_shows_the_top_real_scope() {
    let mut p = player_with_stack();
    p.scopes.push(scope(0, 0, 0, vec![], vec![]));
    p.at_breakpoint = true;
    p.is_script_paused = true;
    let ctx = mcp_get_context(&p);
    assert!(ctx.is_playing);
    assert!(ctx.is_paused);
    assert!(ctx.at_breakpoint);
    assert_eq!(ctx.current_frame, 7);
    assert_eq!(ctx.scope_count, 3);
    let h = ctx.current_handler.unwrap();
    assert_eq!(h.index, 4);
    assert_eq!(h.script_name, "Hero");
    assert_eq!(h.handler_name, "walk");
    assert_eq!(h.bytecode_index, 0);
    let cs = mcp_get_call_stack(&p, None, false);
    assert_eq!(cs.scopes.len(), 3);
    assert_eq!(cs.scopes.last().unwrap().index, 4);
}

#[test]
fn execution_state() {
    let mut p = base_player();
    let s = mcp_get_execution_state(&p);
    assert!(!s.movie_loaded);
    assert_eq!(s.total_frames, 0);
    assert_eq!(s.movie_title, "Hotel");
    assert_eq!((s.stage_width, s.stage_height), (720, 540));
    assert_eq!(s.current_frame, 7);
    assert!(s.is_playing);
    assert!(!s.is_paused);
    assert!(!s.at_breakpoint);
    p.sprite_spans = vec![
        SpriteSpan { channel_number: 1, start_frame: 1, end_frame: 12 },
        SpriteSpan { channel_number: 2, start_frame: 3, end_frame: 40 },
        SpriteSpan { channel_number: 3, start_frame: 1, end_frame: 5 },
    ];
    let s = mcp_get_execution_state(&p);
    assert!(s.movie_loaded);
    assert_eq!(s.total_frames, 40);
}

#[test]
fn globals_by_name() {
    let mut p = base_player();
    p.globals = vec![
        ("gScore".to_string(), int_ref(1, 10)),
        ("gName".to_string(), str_ref(2, "Bob")),
        ("gNothing".to_string(), DatumRef::Void),
    ];
    let g = mcp_get_globals(&p).globals;
    assert_eq!(g.len(), 3);
    assert_eq!(g.get("gScore").unwrap().value, "10");
    assert_eq!(g.get("gScore").unwrap().datum_id, Some(1));
    assert_eq!(g.get("gName").unwrap().value, "\"Bob\"");
    assert_eq!(g.get("gName").unwrap().datum_type, "string");
    assert_eq!(g.get("gNothing").unwrap().datum_id, None);
    assert_eq!(g.get("gNothing").unwrap().value, "<Void>");
    assert!(mcp_get_globals(&base_player()).globals.is_empty());
}

#[test]
fn locals_of_the_top_scope() {
    let p = player_with_stack();
    let l = mcp_get_locals(&p, None).unwrap();
    assert_eq!(l.scope_index, 4);
    assert_eq!(l.handler_name, "walk");
    assert!(l.locals.is_empty());
    let names: Vec<&str> = l.args.iter().map(|a| a.name.as_str()).collect();
    assert_eq!(names, vec!["me", "speed", "arg2"]);
    assert_eq!(l.args[0].value.value, "\"hi\"");
    assert_eq!(l.args[1].value.value, "2");
    assert_eq!(l.args[2].value.value, "<Void>");
}

#[test]
fn locals_of_a_given_scope() {
    let p = player_with_stack();
    let l = mcp_get_locals(&p, Some(1)).unwrap();
    assert_eq!(l.scope_index, 1);
    assert_eq!(l.locals.get("steps").unwrap().value, "5");
    // Full values are the datum's printed form, not the short one.
    let long = "x".repeat(70);
    assert_eq!(l.locals.get("local_9").unwrap().value, format!("\"{}\"", long));
    let u = mcp_get_locals(&p, Some(3)).unwrap();
    assert_eq!(u.handler_name, "handler_2");
    // A placeholder scope is still a scope here.
    let z = mcp_get_locals(&p, Some(0)).unwrap();
    assert_eq!(z.scope_index, 0);
}

#[test]
fn locals_errors() {
    let p = player_with_stack();
    assert_eq!(mcp_get_locals(&p, Some(5)).unwrap_err().error, "Scope index 5 not found");
    let empty = base_player();
    assert_eq!(mcp_get_locals(&empty, None).unwrap_err().error, "Scope index 0 not found");
}

#[test]
fn inspect_plain_datum() {
    let mut p = base_player();
    p.datums = vec![int_ref(3, 42), str_ref(8, "hello")];
    let d = mcp_inspect_datum(&p, 8).unwrap();
    assert_eq!(d.datum_id, 8);
    assert_eq!(d.datum_type, "string");
    assert_eq!(d.value, "\"hello\"");
    assert!(d.properties.is_none());
    assert_eq!(mcp_inspect_datum(&p, 42).unwrap_err().error, "Datum with ID 42 not found");
}

#[test]
fn inspect_prop_list_and_instance() {
    let mut p = base_player();
    let key_a = DatumRef::Ref(20, Box::new(datum("symbol", "#a", DatumKind::Symbol("a".to_string()))));
    let key_b = DatumRef::Ref(21, Box::new(datum("string", "\"b\"", DatumKind::Str("b".to_string()))));
    let plist = DatumRef::Ref(
        30,
        Box::new(datum(
            "propList",
            "[#a: 1, \"b\": 2]",
            DatumKind::PropList(vec![(key_a, int_ref(22, 1)), (key_b, int_ref(23, 2))]),
        )),
    );
    let inst = DatumRef::Ref(
        31,
        Box::new(datum(
            "instance",
            "<offspring \"Hero\" 2>",
            DatumKind::ScriptInstanceRef(ScriptInstance {
                id: 2,
                script: CastMemberRef { cast_lib: 1, cast_member: 2 },
                properties: vec![("pSpeed".to_string(), int_ref(24, 9)), ("pName".to_string(), str_ref(25, "x"))],
            }),
        )),
    );
    p.datums = vec![plist, inst];
    let d = mcp_inspect_datum(&p, 30).unwrap();
    assert_eq!(d.datum_type, "propList");
    assert_eq!(d.value, "[#a: 1, \"b\": 2]");
    let props = d.properties.unwrap();
    assert_eq!(props.len(), 2);
    assert_eq!(props.get("#a").unwrap().value, "1");
    assert_eq!(props.get("\"b\"").unwrap().datum_id, Some(23));
    let i = mcp_inspect_datum(&p, 31).unwrap();
    let props = i.properties.unwrap();
    assert_eq!(props.get("pSpeed").unwrap().value, "9");
    assert_eq!(props.get("pName").unwrap().value, "\"x\"");
}

#[test]
fn breakpoints_are_listed() {
    let mut p = base_player();
    assert!(mcp_list_breakpoints(&p).breakpoints.is_empty());
    p.breakpoints = vec![
        Breakpoint { script_name: "Hero".to_string(), handler_name: "walk".to_string(), bytecode_index: 3 },
        Breakpoint { script_name: "Main".to_string(), handler_name: "startMovie".to_string(), bytecode_index: 0 },
    ];
    let l = mcp_list_breakpoints(&p).breakpoints;
    assert_eq!(l.len(), 2);
    assert_eq!(l[0].script_name, "Hero");
    assert_eq!(l[0].handler_name, "walk");
    assert_eq!(l[0].bytecode_index, 3);
    assert_eq!(l[1].handler_name, "startMovie");
}

#[test]
fn eval_results() {
    let p = base_player();
    let ok = mcp_format_eval_result(&p, Ok(int_ref(5, 12)));
    assert!(ok.success);
    assert_eq!(ok.result_type, Some("int".to_string()));
    assert_eq!(ok.result_value, Some("12".to_string()));
    assert_eq!(ok.datum_id, Some(5));
    assert_eq!(ok.error, None);
    let void = mcp_format_eval_result(&p, Ok(DatumRef::Void));
    assert!(void.success);
    assert_eq!(void.result_type, Some("void".to_string()));
    assert_eq!(void.result_value, Some("<Void>".to_string()));
    assert_eq!(void.datum_id, None);
    let err = mcp_format_eval_result(&p, Err(ScriptError { message: "Variable x not found".to_string() }));
    assert!(!err.success);
    assert_eq!(err.error, Some("Variable x not found".to_string()));
    assert_eq!(err.result_type, None);
    assert_eq!(err.result_value, None);
    assert_eq!(err.datum_id, None);
}

#[test]
fn locals_agree_with_the_call_stack() {
    let p = player_with_stack();
    let cs = mcp_get_call_stack(&p, None, false);
    for s in cs.scopes.iter() {
        let l = mcp_get_locals(&p, Some(s.index)).unwrap();
        assert_eq!(l.scope_index, s.index);
        assert_eq!(l.handler_name, s.handler_name);
    }
}

#[test]
fn call_stack_cuts_wide_strings_at_a_character() {
    let mut p = player_with_stack();
    // A string whose byte 55 falls inside a two-byte character.
    let bad = format!("{}é{}", "d".repeat(54), "e".repeat(10));
    p.scopes[1].args.push(str_ref(16, &bad));
    let cs = mcp_get_call_stack(&p, None, true);
    let args = cs.scopes[0].args.as_ref().unwrap();
    assert_eq!(args[1].value, format!("\"{}...\"", "d".repeat(54)));
    assert_eq!(args[1].datum_id, Some(16));
}

#[test]
fn call_stack_views_agree() {
    let p = player_with_stack();
    let with = mcp_get_call_stack(&p, None, true);
    let without = mcp_get_call_stack(&p, None, false);
    assert_eq!(with.scopes.len(), without.scopes.len());
    assert_eq!(with.current_scope_index, without.current_scope_index);
    for (a, b) in with.scopes.iter().zip(without.scopes.iter()) {
        assert_eq!((a.index, &a.script_name, &a.handler_name, a.bytecode_index, a.stack_depth), (b.index, &b.script_name, &b.handler_name, b.bytecode_index, b.stack_depth));
        assert!(b.locals.is_none() && b.args.is_none());
    }
    for d in 0..5usize {
        let part = mcp_get_call_stack(&p, Some(d), false);
        let n = without.scopes.len();
        let start = if d < n { n - d } else { 0 };
        let want: Vec<usize> = without.scopes[start..].iter().map(|s| s.index).collect();
        let got: Vec<usize> = part.scopes.iter().map(|s| s.index).collect();
        assert_eq!(got, want);
    }
}
