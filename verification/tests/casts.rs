use dirplayer_mcp::casts::{mcp_inspect_cast_member, mcp_list_cast_libs, mcp_list_cast_members, reg_point_of};
use dirplayer_mcp::model::{
    BitmapInfo, BitmapMember, CastLib, CastMember, CastMemberKind, CastMemberRef, Datum, DatumKind, DirPlayer,
    Script, ScriptType,
};

fn info(width: u16, height: u16, center: bool) -> BitmapInfo {
    BitmapInfo { width, height, center_reg_point: center, bit_depth: 8, use_alpha: false, palette_id: -3 }
}

fn bitmap_member(name: &str, reg: (i16, i16), info: BitmapInfo) -> CastMember {
    CastMember {
        name: name.to_string(),
        type_label: "bitmap".to_string(),
        kind: CastMemberKind::Bitmap(BitmapMember { reg_point: reg, info, image: None }),
    }
}

fn other_member(name: &str, type_label: &str) -> CastMember {
    CastMember { name: name.to_string(), type_label: type_label.to_string(), kind: CastMemberKind::Other }
}

fn player_with(casts: Vec<CastLib>) -> DirPlayer {
    DirPlayer {
        casts,
        scopes: vec![],
        globals: vec![],
        datums: vec![],
        void_datum: Datum { type_label: "void".to_string(), text: "<Void>".to_string(), kind: DatumKind::Void },
        breakpoints: vec![],
        is_playing: false,
        is_script_paused: false,
        at_breakpoint: false,
        current_frame: 1,
        dir_version: 1000,
        sprite_spans: vec![],
        title: String::new(),
        stage_size: (0, 0),
    }
}

fn sample_player() -> DirPlayer {
    let cast1 = CastLib {
        number: 1,
        name: "internal".to_string(),
        members: vec![
            (1, bitmap_member("centered", (3, 4), info(21, 10, true))),
            (2, bitmap_member("stored", (3, 4), info(21, 10, false))),
            (3, bitmap_member("empty", (7, 8), info(0, 10, true))),
            (4, other_member("Walker", "script")),
            (5, other_member("label", "text")),
        ],
        scripts: vec![(
            4,
            Script {
                member_ref: CastMemberRef { cast_lib: 1, cast_member: 4 },
                name: "Walker".to_string(),
                script_type: ScriptType::Parent,
                handler_names: vec!["new".to_string(), "step".to_string()],
                handlers: vec![],
                properties: vec![],
            },
        )],
        lctx: None,
    };
    let cast2 = CastLib {
        number: 3,
        name: "shared".to_string(),
        members: vec![(10, other_member("sound", "sound"))],
        scripts: vec![],
        lctx: None,
    };
    player_with(vec![cast1, cast2])
}

#[test]
fn cast_libraries_are_listed_with_counts() {
    let p = sample_player();
    let libs = mcp_list_cast_libs(&p);
    assert_eq!(libs.len(), 2);
    assert_eq!(libs[0].number, 1);
    assert_eq!(libs[0].name, "internal");
    assert_eq!(libs[0].member_count, 5);
    assert_eq!(libs[0].script_count, 1);
    assert_eq!(libs[1].number, 3);
    assert_eq!(libs[1].name, "shared");
    assert_eq!(libs[1].member_count, 1);
    assert_eq!(libs[1].script_count, 0);
    assert!(mcp_list_cast_libs(&player_with(vec![])).is_empty());
}

#[test]
fn registration_point_honours_centring() {
    let centred = BitmapMember { reg_point: (3, 4), info: info(21, 10, true), image: None };
    assert_eq!(reg_point_of(&centred), (10, 5));
    let stored = BitmapMember { reg_point: (3, 4), info: info(21, 10, false), image: None };
    assert_eq!(reg_point_of(&stored), (3, 4));
    let no_width = BitmapMember { reg_point: (7, 8), info: info(0, 10, true), image: None };
    assert_eq!(reg_point_of(&no_width), (7, 8));
    let no_height = BitmapMember { reg_point: (7, 8), info: info(10, 0, true), image: None };
    assert_eq!(reg_point_of(&no_height), (7, 8));
    let big = BitmapMember { reg_point: (0, 0), info: info(65535, 65535, true), image: None };
    assert_eq!(reg_point_of(&big), (32767, 32767));
}

#[test]
fn members_are_listed_cast_by_cast() {
    let p = sample_player();
    let all = mcp_list_cast_members(&p, None);
    assert_eq!(all.len(), 6);
    let ids: Vec<(i32, i32)> = all.iter().map(|m| (m.cast_lib, m.cast_member)).collect();
    assert_eq!(ids, vec![(1, 1), (1, 2), (1, 3), (1, 4), (1, 5), (3, 10)]);
    let c = &all[0];
    assert_eq!(c.name, "centered");
    assert_eq!(c.member_type, "bitmap");
    assert_eq!((c.reg_x, c.reg_y), (10, 5));
    assert_eq!(c.bit_depth, 8);
    assert!(!c.use_alpha);
    assert_eq!(c.palette_id, -3);
    assert_eq!((c.width, c.height), (21, 10));
    assert_eq!((all[1].reg_x, all[1].reg_y), (3, 4));
    assert_eq!((all[2].reg_x, all[2].reg_y), (7, 8));
    let s = &all[3];
    assert_eq!(s.member_type, "script");
    assert_eq!((s.reg_x, s.reg_y, s.bit_depth, s.use_alpha, s.palette_id, s.width, s.height), (0, 0, 0, false, 0, 0, 0));
}

#[test]
fn members_of_one_cast() {
    let p = sample_player();
    let only = mcp_list_cast_members(&p, Some(3));
    assert_eq!(only.len(), 1);
    assert_eq!(only[0].name, "sound");
    assert_eq!(only[0].cast_lib, 3);
    assert_eq!(only[0].cast_member, 10);
    assert!(mcp_list_cast_members(&p, Some(2)).is_empty());
}

#[test]
fn inspect_script_member() {
    let p = sample_player();
    let d = mcp_inspect_cast_member(&p, 1, 4).unwrap();
    assert_eq!(d.cast_lib, 1);
    assert_eq!(d.cast_member, 4);
    assert_eq!(d.name, "Walker");
    assert_eq!(d.member_type, "script");
    assert_eq!(d.script_type, Some("parent".to_string()));
    assert_eq!(d.handlers, Some(vec!["new".to_string(), "step".to_string()]));
}

#[test]
fn inspect_plain_member() {
    let p = sample_player();
    let d = mcp_inspect_cast_member(&p, 1, 5).unwrap();
    assert_eq!(d.name, "label");
    assert_eq!(d.member_type, "text");
    assert_eq!(d.script_type, None);
    assert_eq!(d.handlers, None);
}

#[test]
fn inspect_member_errors() {
    let p = sample_player();
    assert_eq!(mcp_inspect_cast_member(&p, 9, 1).unwrap_err().error, "Cast library 9 not found");
    assert_eq!(mcp_inspect_cast_member(&p, -1, 1).unwrap_err().error, "Cast library -1 not found");
    assert_eq!(mcp_inspect_cast_member(&p, 1, 7).unwrap_err().error, "Cast member 7 not found in cast library 1");
    assert_eq!(mcp_inspect_cast_member(&p, 3, -2).unwrap_err().error, "Cast member -2 not found in cast library 3");
}

#[test]
fn inspected_members_are_listed() {
    let p = sample_player();
    let listed = mcp_list_cast_members(&p, None);
    for (lib, mem) in [(1, 1), (1, 4), (1, 5), (3, 10)] {
        let d = mcp_inspect_cast_member(&p, lib, mem).unwrap();
        let l = listed.iter().find(|m| m.cast_lib == lib && m.cast_member == mem).unwrap();
        assert_eq!(l.name, d.name);
        assert_eq!(l.member_type, d.member_type);
    }
}
