use dirplayer_mcp::datum::{datum_to_mcp_value, datum_to_mcp_value_compact, format_datum_compact, get_datum};
use dirplayer_mcp::model::{
    CastLib, CastMemberRef, Datum, DatumKind, DatumRef, DirPlayer, Script, ScriptInstance, ScriptType,
};

fn datum(type_label: &str, text: &str, kind: DatumKind) -> Datum {
    Datum { type_label: type_label.to_string(), text: text.to_string(), kind }
}

fn player() -> DirPlayer {
    DirPlayer {
        casts: vec![CastLib {
            number: 1,
            name: "internal".to_string(),
            members: vec![],
            scripts: vec![(
                4,
                Script {
                    member_ref: CastMemberRef { cast_lib: 1, cast_member: 4 },
                    name: "Walker".to_string(),
                    script_type: ScriptType::Parent,
                    handler_names: vec![],
                    handlers: vec![],
                    properties: vec![],
                },
            )],
            lctx: None,
        }],
        scopes: vec![],
        globals: vec![],
        datums: vec![],
        void_datum: datum("void", "<Void>", DatumKind::Void),
        breakpoints: vec![],
        is_playing: false,
        is_script_paused: false,
        at_breakpoint: false,
        current_frame: 1,
        dir_version: 1000,
        sprite_spans: vec![],
        title: String::new(),
        stage_size: (0, 0),
    }
}

fn compact(kind: DatumKind, id: Option<usize>) -> String {
    let p = player();
    format_datum_compact(&datum("t", "full", kind), &p, id)
}

#[test]
fn short_forms_of_simple_values() {
    assert_eq!(compact(DatumKind::Int(-5), None), "-5");
    assert_eq!(compact(DatumKind::Int(0), Some(3)), "0");
    assert_eq!(compact(DatumKind::Int(i32::MIN), None), "-2147483648");
    assert_eq!(compact(DatumKind::Float("1.5".to_string()), None), "1.5");
    assert_eq!(compact(DatumKind::Symbol("walk".to_string()), None), "#walk");
    assert_eq!(compact(DatumKind::Void, None), "Void");
    assert_eq!(compact(DatumKind::Null, None), "<Null>");
    assert_eq!(compact(DatumKind::List(3), Some(9)), "<list:3>");
    assert_eq!(compact(DatumKind::PropList(vec![(DatumRef::Void, DatumRef::Void)]), None), "<propList:1>");
}

#[test]
fn short_forms_of_strings() {
    assert_eq!(compact(DatumKind::Str("hi".to_string()), None), "\"hi\"");
    assert_eq!(compact(DatumKind::Str(String::new()), None), "\"\"");
    let exact = "a".repeat(58);
    assert_eq!(compact(DatumKind::Str(exact.clone()), None), format!("\"{}\"", exact));
    let longer = "b".repeat(59);
    assert_eq!(compact(DatumKind::Str(longer), None), format!("\"{}...\"", "b".repeat(55)));
    let chunk = "c".repeat(100);
    assert_eq!(compact(DatumKind::StringChunk(chunk), None), format!("\"{}...\"", "c".repeat(55)));
    // Multi-byte text is cut by bytes: 53 ASCII bytes and a two-byte
    // character end exactly at byte 55.
    let mixed = format!("{}é{}", "d".repeat(53), "e".repeat(10));
    assert_eq!(compact(DatumKind::Str(mixed), None), format!("\"{}é...\"", "d".repeat(53)));
}

#[test]
fn long_strings_are_cut_before_a_split_character() {
    // 54 ASCII bytes and a two-byte character: byte 55 is inside it, so the
    // cut falls before it.
    let inside = format!("{}é{}", "d".repeat(54), "e".repeat(10));
    assert_eq!(compact(DatumKind::Str(inside.clone()), None), format!("\"{}...\"", "d".repeat(54)));
    assert_eq!(compact(DatumKind::StringChunk(inside), None), format!("\"{}...\"", "d".repeat(54)));
    // Thirty two-byte characters: 60 bytes, cut after 27 characters.
    let wide = "é".repeat(30);
    let short = compact(DatumKind::Str(wide), None);
    assert_eq!(short, format!("\"{}...\"", "é".repeat(27)));
    assert!(short.len() <= 60);
    // Four-byte characters: byte 55 falls inside the fourteenth.
    let emoji = "😀".repeat(20);
    assert_eq!(compact(DatumKind::Str(emoji), None), format!("\"{}...\"", "😀".repeat(13)));
    let short_wide = format!("{}é", "d".repeat(54));
    assert_eq!(compact(DatumKind::Str(short_wide.clone()), None), format!("\"{}\"", short_wide));
}

#[test]
fn short_forms_of_scripts_and_instances() {
    let inst = |script: CastMemberRef| {
        DatumKind::ScriptInstanceRef(ScriptInstance { id: 7, script, properties: vec![] })
    };
    assert_eq!(compact(inst(CastMemberRef { cast_lib: 1, cast_member: 4 }), None), "<Walker:7>");
    assert_eq!(compact(inst(CastMemberRef { cast_lib: 2, cast_member: 4 }), None), "<instance:7>");
    assert_eq!(compact(DatumKind::ScriptRef(CastMemberRef { cast_lib: 1, cast_member: 4 }), None), "<script:Walker>");
    assert_eq!(compact(DatumKind::ScriptRef(CastMemberRef { cast_lib: 1, cast_member: 5 }), None), "<script:1,5>");
}

#[test]
fn short_forms_of_other_values() {
    let p = player();
    let point = datum("point", "point(1, 2)", DatumKind::Other);
    assert_eq!(format_datum_compact(&point, &p, Some(4)), "<point:4>");
    assert_eq!(format_datum_compact(&point, &p, None), "<point>");
}

#[test]
fn datum_values_full_and_short() {
    let p = player();
    let r = DatumRef::Ref(6, Box::new(datum("list", "[1, 2, 3]", DatumKind::List(3))));
    let full = datum_to_mcp_value(&p, &r);
    assert_eq!(full.datum_id, Some(6));
    assert_eq!(full.datum_type, "list");
    assert_eq!(full.value, "[1, 2, 3]");
    let short = datum_to_mcp_value_compact(&p, &r);
    assert_eq!(short.datum_id, Some(6));
    assert_eq!(short.datum_type, "list");
    assert_eq!(short.value, "<list:3>");
    let v = datum_to_mcp_value(&p, &DatumRef::Void);
    assert_eq!(v.datum_id, None);
    assert_eq!(v.datum_type, "void");
    assert_eq!(v.value, "<Void>");
    assert_eq!(get_datum(&p, &DatumRef::Void).text, "<Void>");
}
