use dirplayer_mcp::model::{
    Bytecode, CastLib, CastMember, CastMemberKind, CastMemberRef, Datum, DatumKind, DecompiledHandler,
    DecompiledLine, DirPlayer, Handler, Script, ScriptContext, ScriptType,
};
use dirplayer_mcp::scripts::{
    get_argument_names, get_handler_name, mcp_decompile_handler, mcp_disassemble_handler, mcp_get_script,
    mcp_list_scripts,
};
use dirplayer_mcp::text::script_type_str;

fn strings(v: &[&str]) -> Vec<String> {
    v.iter().map(|s| s.to_string()).collect()
}

fn handler(name_id: u16, args: Vec<u16>, locals: Vec<u16>, ops: usize, decompiled_name: &str) -> Handler {
    Handler {
        name_id,
        argument_name_ids: args,
        local_name_ids: locals,
        bytecode_array: (0..ops)
            .map(|i| Bytecode {
                pos: i * 2,
                opcode: format!("Op{}", i),
                obj: i as i64 - 1,
                text: format!("op {}", i),
            })
            .collect(),
        decompiled: DecompiledHandler {
            name: decompiled_name.to_string(),
            arguments: strings(&["me", "x"]),
            lines: vec![
                DecompiledLine { text: "on mouseUp me, x".to_string(), indent: 0 },
                DecompiledLine { text: "if x then".to_string(), indent: 1 },
                DecompiledLine { text: "put x".to_string(), indent: 2 },
                DecompiledLine { text: "end if".to_string(), indent: 1 },
                DecompiledLine { text: "end".to_string(), indent: 0 },
            ],
        },
    }
}

fn script(cast_lib: i32, cast_member: i32, name: &str, script_type: ScriptType, handlers: Vec<(String, Handler)>) -> Script {
    Script {
        member_ref: CastMemberRef { cast_lib, cast_member },
        name: name.to_string(),
        script_type,
        handler_names: handlers.iter().map(|(n, _)| n.clone()).collect(),
        handlers,
        properties: strings(&["pCount", "pName"]),
    }
}

fn member(name: &str, type_label: &str) -> CastMember {
    CastMember { name: name.to_string(), type_label: type_label.to_string(), kind: CastMemberKind::Other }
}

fn player_with(casts: Vec<CastLib>) -> DirPlayer {
    DirPlayer {
        casts,
        scopes: vec![],
        globals: vec![],
        datums: vec![],
        void_datum: Datum { type_label: "void".to_string(), text: "<Void>".to_string(), kind: DatumKind::Void },
        breakpoints: vec![],
        is_playing: false,
        is_script_paused: false,
        at_breakpoint: false,
        current_frame: 1,
        dir_version: 1000,
        sprite_spans: vec![],
        title: "movie".to_string(),
        stage_size: (640, 480),
    }
}

/// Cast 1 ("internal", with a name table) holds two scripts; cast 2
/// ("extra", without one) holds one.
fn sample_player() -> DirPlayer {
    let cast1 = CastLib {
        number: 1,
        name: "internal".to_string(),
        members: vec![(1, member("Main", "script")), (2, member("Hero", "script")), (3, member("bg", "bitmap"))],
        scripts: vec![
            (
                1,
                script(1, 1, "Main", ScriptType::Movie, vec![
                    ("startmovie".to_string(), handler(0, vec![], vec![], 3, "startMovie")),
                ]),
            ),
            (
                2,
                script(1, 2, "Hero", ScriptType::Parent, vec![
                    ("new".to_string(), handler(1, vec![2], vec![], 1, "new")),
                    ("myhandler".to_string(), handler(3, vec![2, 7], vec![4, 9], 4, "myHandler")),
                ]),
            ),
        ],
        lctx: Some(ScriptContext { names: strings(&["startMovie", "new", "me", "myHandler", "count"]) }),
    };
    let cast2 = CastLib {
        number: 2,
        name: "extra".to_string(),
        members: vec![(5, member("Helper", "script"))],
        scripts: vec![(5, script(2, 5, "Helper", ScriptType::Score, vec![]))],
        lctx: None,
    };
    player_with(vec![cast1, cast2])
}

#[test]
fn script_type_names() {
    assert_eq!(script_type_str(&ScriptType::Movie), "movie");
    assert_eq!(script_type_str(&ScriptType::Parent), "parent");
    assert_eq!(script_type_str(&ScriptType::Score), "score");
    assert_eq!(script_type_str(&ScriptType::Member), "member");
    assert_eq!(script_type_str(&ScriptType::Invalid), "invalid");
    assert_eq!(script_type_str(&ScriptType::Unknown), "unknown");
}

#[test]
fn names_fall_back_to_numbered_placeholders() {
    let table = strings(&["a", "b"]);
    assert_eq!(get_handler_name(Some(&table), 1), "b");
    assert_eq!(get_handler_name(Some(&table), 2), "handler_2");
    assert_eq!(get_handler_name(None, 0), "handler_0");
    assert_eq!(get_argument_names(Some(&table), &vec![0, 5, 1]), strings(&["a", "arg_5", "b"]));
    assert_eq!(get_argument_names(None, &vec![3]), strings(&["arg_3"]));
    assert!(get_argument_names(Some(&table), &vec![]).is_empty());
}

#[test]
fn list_all_scripts() {
    let p = sample_player();
    let list = mcp_list_scripts(&p, None, None, None);
    assert_eq!(list.total_count, 3);
    assert_eq!(list.offset, None);
    assert_eq!(list.limit, None);
    let names: Vec<&str> = list.scripts.iter().map(|s| s.name.as_str()).collect();
    assert_eq!(names, vec!["Main", "Hero", "Helper"]);
    assert_eq!(list.scripts[1].cast_lib, 1);
    assert_eq!(list.scripts[1].cast_member, 2);
    assert_eq!(list.scripts[1].script_type, "parent");
    assert_eq!(list.scripts[1].handlers, strings(&["new", "myhandler"]));
    assert_eq!(list.scripts[2].script_type, "score");
}

#[test]
fn list_scripts_of_one_cast() {
    let p = sample_player();
    let list = mcp_list_scripts(&p, Some(2), None, None);
    assert_eq!(list.total_count, 1);
    assert_eq!(list.scripts.len(), 1);
    assert_eq!(list.scripts[0].name, "Helper");
    let none = mcp_list_scripts(&p, Some(9), None, None);
    assert_eq!(none.total_count, 0);
    assert!(none.scripts.is_empty());
}

#[test]
fn list_scripts_a_page_at_a_time() {
    let p = sample_player();
    let page = mcp_list_scripts(&p, None, Some(1), Some(1));
    assert_eq!(page.total_count, 3);
    assert_eq!(page.offset, Some(1));
    assert_eq!(page.limit, Some(1));
    assert_eq!(page.scripts.len(), 1);
    assert_eq!(page.scripts[0].name, "Hero");
    // An offset of 0 is not reported.
    let first = mcp_list_scripts(&p, None, Some(2), Some(0));
    assert_eq!(first.offset, None);
    assert_eq!(first.scripts.len(), 2);
    // Past the end: nothing, but the total stays.
    let past = mcp_list_scripts(&p, None, None, Some(5));
    assert_eq!(past.total_count, 3);
    assert_eq!(past.offset, Some(5));
    assert!(past.scripts.is_empty());
    // A limit of 0 gives an empty page.
    let zero = mcp_list_scripts(&p, None, Some(0), None);
    assert!(zero.scripts.is_empty());
    assert_eq!(zero.limit, Some(0));
}

#[test]
fn consecutive_pages_tile_the_listing() {
    let p = sample_player();
    let all: Vec<String> = mcp_list_scripts(&p, None, None, None).scripts.into_iter().map(|s| s.name).collect();
    let mut joined: Vec<String> = Vec::new();
    for o in 0..4usize {
        let page = mcp_list_scripts(&p, None, Some(1), Some(o));
        assert!(page.scripts.len() <= 1);
        joined.extend(page.scripts.into_iter().map(|s| s.name));
    }
    assert_eq!(joined, all);
    let head: Vec<String> = mcp_list_scripts(&p, None, Some(2), Some(0)).scripts.into_iter().map(|s| s.name).collect();
    let tail: Vec<String> = mcp_list_scripts(&p, None, None, Some(2)).scripts.into_iter().map(|s| s.name).collect();
    assert_eq!([head, tail].concat(), all);
}

#[test]
fn script_details() {
    let p = sample_player();
    let d = mcp_get_script(&p, 1, 2).unwrap();
    assert_eq!(d.cast_lib, 1);
    assert_eq!(d.cast_member, 2);
    assert_eq!(d.name, "Hero");
    assert_eq!(d.script_type, "parent");
    assert_eq!(d.properties, strings(&["pCount", "pName"]));
    assert_eq!(d.handlers.len(), 2);
    assert_eq!(d.handlers[0].name, "new");
    assert_eq!(d.handlers[0].arguments, strings(&["me"]));
    assert!(d.handlers[0].locals.is_empty());
    assert_eq!(d.handlers[0].bytecode_count, 1);
    assert_eq!(d.handlers[1].name, "myhandler");
    assert_eq!(d.handlers[1].arguments, strings(&["me", "arg_7"]));
    assert_eq!(d.handlers[1].locals, strings(&["count", "local_9"]));
    assert_eq!(d.handlers[1].bytecode_count, 4);
}

#[test]
fn script_details_errors() {
    let p = sample_player();
    assert_eq!(mcp_get_script(&p, 3, 4).unwrap_err().error, "Script not found at cast_lib=3, cast_member=4");
    assert_eq!(mcp_get_script(&p, 1, 3).unwrap_err().error, "Script not found at cast_lib=1, cast_member=3");
    assert_eq!(mcp_get_script(&p, -1, -2).unwrap_err().error, "Script not found at cast_lib=-1, cast_member=-2");
    assert_eq!(mcp_get_script(&p, 2, 5).unwrap_err().error, "Script context not available");
}

#[test]
fn disassemble_finds_handler_in_lower_case() {
    let p = sample_player();
    let d = mcp_disassemble_handler(&p, 1, 2, "MyHandler").unwrap();
    assert_eq!(d.handler_name, "MyHandler");
    assert_eq!(d.arguments, strings(&["me", "arg_7"]));
    assert_eq!(d.bytecode.len(), 4);
    assert_eq!(d.bytecode[2].pos, 4);
    assert_eq!(d.bytecode[2].opcode, "Op2");
    assert_eq!(d.bytecode[2].operand, 1);
    assert_eq!(d.bytecode[2].text, "op 2");
    assert_eq!(d.bytecode[0].operand, -1);
    let same = mcp_disassemble_handler(&p, 1, 2, "myhandler").unwrap();
    assert_eq!(same.handler_name, "myhandler");
    assert_eq!(same.bytecode.len(), 4);
}

#[test]
fn disassemble_errors() {
    let p = sample_player();
    assert_eq!(mcp_disassemble_handler(&p, 1, 2, "Nope").unwrap_err().error, "Handler 'Nope' not found in script");
    assert_eq!(mcp_disassemble_handler(&p, 7, 2, "new").unwrap_err().error, "Script not found at cast_lib=7, cast_member=2");
    assert_eq!(mcp_disassemble_handler(&p, 2, 5, "new").unwrap_err().error, "Script context not available");
}

#[test]
fn decompile_joins_indented_lines() {
    let p = sample_player();
    let d = mcp_decompile_handler(&p, 1, 2, "MYHANDLER").unwrap();
    assert_eq!(d.handler_name, "myHandler");
    assert_eq!(d.arguments, strings(&["me", "x"]));
    assert_eq!(d.source, "on mouseUp me, x\n  if x then\n    put x\n  end if\nend");
}

#[test]
fn decompile_errors_match_disassembly() {
    let p = sample_player();
    for (lib, mem, name) in [(1, 2, "Nope"), (9, 9, "new"), (2, 5, "x"), (1, 1, "StartMovie")] {
        let a = mcp_disassemble_handler(&p, lib, mem, name);
        let b = mcp_decompile_handler(&p, lib, mem, name);
        assert_eq!(a.is_ok(), b.is_ok());
        if let (Err(x), Err(y)) = (a, b) {
            assert_eq!(x.error, y.error);
        }
    }
    assert_eq!(mcp_decompile_handler(&p, 1, 2, "Nope").unwrap_err().error, "Handler 'Nope' not found in script");
}

#[test]
fn handler_lookup_ignores_case() {
    let p = sample_player();
    let a = mcp_disassemble_handler(&p, 1, 2, "MYHANDLER").unwrap();
    let b = mcp_disassemble_handler(&p, 1, 2, "myHandler").unwrap();
    assert_eq!(a.arguments, b.arguments);
    let ta: Vec<&str> = a.bytecode.iter().map(|x| x.text.as_str()).collect();
    let tb: Vec<&str> = b.bytecode.iter().map(|x| x.text.as_str()).collect();
    assert_eq!(ta, tb);
    assert_eq!(mcp_decompile_handler(&p, 1, 2, "NEW").unwrap().source, mcp_decompile_handler(&p, 1, 2, "new").unwrap().source);
    assert!(mcp_disassemble_handler(&p, 1, 1, "STARTMOVIE").is_ok());
}
