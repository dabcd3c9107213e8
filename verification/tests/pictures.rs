use base64::Engine;
use dirplayer_mcp::casts::mcp_list_cast_members;
use dirplayer_mcp::checks::check_picture_query;
use dirplayer_mcp::model::{
    Bitmap, BitmapInfo, BitmapMember, CastLib, CastMember, CastMemberKind, Datum, DatumKind, DirPlayer,
};
use dirplayer_mcp::picture::{mcp_get_cast_member_picture, picture_from_png};

fn bitmap(width: u16, height: u16, bit_depth: u8, use_alpha: bool, pixels: Vec<(u8, u8, u8, u8)>, data: Vec<u8>) -> Bitmap {
    Bitmap {
        width,
        height,
        bit_depth,
        original_bit_depth: 8,
        use_alpha,
        palette_ref: "BuiltIn(SystemMac)".to_string(),
        data,
        pixels,
    }
}

fn bitmap_member(name: &str, center: bool, image: Option<Bitmap>) -> CastMember {
    CastMember {
        name: name.to_string(),
        type_label: "bitmap".to_string(),
        kind: CastMemberKind::Bitmap(BitmapMember {
            reg_point: (1, 2),
            info: BitmapInfo { width: 4, height: 3, center_reg_point: center, bit_depth: 32, use_alpha: false, palette_id: 0 },
            image,
        }),
    }
}

fn player_with(members: Vec<(u32, CastMember)>) -> DirPlayer {
    DirPlayer {
        casts: vec![CastLib { number: 1, name: "room".to_string(), members, scripts: vec![], lctx: None }],
        scopes: vec![],
        globals: vec![],
        datums: vec![],
        void_datum: Datum { type_label: "void".to_string(), text: "<Void>".to_string(), kind: DatumKind::Void },
        breakpoints: vec![],
        is_playing: false,
        is_script_paused: false,
        at_breakpoint: false,
        current_frame: 1,
        dir_version: 1000,
        sprite_spans: vec![],
        title: String::new(),
        stage_size: (0, 0),
    }
}

fn decode(png_base64: &str) -> image::RgbaImage {
    let bytes = base64::engine::general_purpose::STANDARD.decode(png_base64).unwrap();
    assert_eq!(&bytes[..8], &[0x89, b'P', b'N', b'G', 0x0d, 0x0a, 0x1a, 0x0a]);
    image::load_from_memory(&bytes).unwrap().to_rgba8()
}

#[test]
fn opaque_32_bit_bitmap_gets_coloured_pixels_opaque() {
    let pixels = vec![(10, 0, 0, 0), (0, 0, 0, 0), (0, 0, 7, 3), (1, 2, 3, 4), (0, 0, 0, 9), (255, 255, 255, 0)];
    let data: Vec<u8> = (0..100u32).map(|i| i as u8).collect();
    let p = player_with(vec![(3, bitmap_member("tokyo_bg", false, Some(bitmap(3, 2, 32, false, pixels, data))))]);
    assert!(check_picture_query(&p, 1, 3));
    let pic = mcp_get_cast_member_picture(&p, 1, 3).unwrap();
    assert_eq!(pic.cast_lib, 1);
    assert_eq!(pic.cast_member, 3);
    assert_eq!(pic.name, "tokyo_bg");
    assert_eq!((pic.width, pic.height), (3, 2));
    assert_eq!(pic.bit_depth, 32);
    assert_eq!(pic.original_bit_depth, 8);
    assert_eq!((pic.reg_x, pic.reg_y), (1, 2));
    assert!(!pic.use_alpha);
    assert_eq!(pic.palette_ref, "BuiltIn(SystemMac)");
    assert_eq!(pic.data_len, 100);
    let want_hex: String = (0..64u32).map(|i| format!("{:02x}", i)).collect();
    assert_eq!(pic.data_head_hex, want_hex);
    let img = decode(&pic.png_base64);
    assert_eq!(img.dimensions(), (3, 2));
    assert_eq!(img.get_pixel(0, 0).0, [10, 0, 0, 255]);
    assert_eq!(img.get_pixel(1, 0).0, [0, 0, 0, 0]);
    assert_eq!(img.get_pixel(2, 0).0, [0, 0, 7, 255]);
    assert_eq!(img.get_pixel(0, 1).0, [1, 2, 3, 255]);
    assert_eq!(img.get_pixel(1, 1).0, [0, 0, 0, 9]);
    assert_eq!(img.get_pixel(2, 1).0, [255, 255, 255, 255]);
}

#[test]
fn bitmap_with_alpha_keeps_its_pixels() {
    let pixels = vec![(10, 20, 30, 40), (0, 0, 0, 0)];
    let p = player_with(vec![(3, bitmap_member("glass", true, Some(bitmap(1, 2, 32, true, pixels, vec![0xab, 0x01]))))]);
    let pic = mcp_get_cast_member_picture(&p, 1, 3).unwrap();
    assert_eq!((pic.reg_x, pic.reg_y), (2, 1));
    assert_eq!(pic.data_len, 2);
    assert_eq!(pic.data_head_hex, "ab01");
    let img = decode(&pic.png_base64);
    assert_eq!(img.dimensions(), (1, 2));
    assert_eq!(img.get_pixel(0, 0).0, [10, 20, 30, 40]);
    assert_eq!(img.get_pixel(0, 1).0, [0, 0, 0, 0]);
}

#[test]
fn eight_bit_bitmap_keeps_its_alpha() {
    let pixels = vec![(5, 5, 5, 0)];
    let p = player_with(vec![(3, bitmap_member("icon", false, Some(bitmap(1, 1, 8, false, pixels, vec![]))))]);
    let pic = mcp_get_cast_member_picture(&p, 1, 3).unwrap();
    assert_eq!(pic.data_head_hex, "");
    assert_eq!(decode(&pic.png_base64).get_pixel(0, 0).0, [5, 5, 5, 0]);
}

#[test]
fn picture_errors() {
    let other = CastMember { name: "walk".to_string(), type_label: "script".to_string(), kind: CastMemberKind::Other };
    let p = player_with(vec![(2, bitmap_member("unloaded", false, None)), (4, other)]);
    assert_eq!(mcp_get_cast_member_picture(&p, 5, 2).unwrap_err().error, "Cast library 5 not found");
    assert_eq!(mcp_get_cast_member_picture(&p, 1, 9).unwrap_err().error, "Cast member 9 not found in cast library 1");
    assert_eq!(mcp_get_cast_member_picture(&p, 1, 4).unwrap_err().error, "Cast member 1/4 is not a Bitmap (type: script)");
    assert_eq!(mcp_get_cast_member_picture(&p, 1, 2).unwrap_err().error, "Bitmap data for cast member 1/2 not loaded");
}

#[test]
fn pixel_table_must_cover_the_bitmap() {
    let short = bitmap(2, 2, 8, false, vec![(0, 0, 0, 0)], vec![]);
    let p = player_with(vec![(3, bitmap_member("broken", false, Some(short)))]);
    assert!(!check_picture_query(&p, 1, 3));
    assert!(check_picture_query(&p, 1, 8));
}

#[test]
fn bitmap_without_size_cannot_be_encoded() {
    let p = player_with(vec![(3, bitmap_member("none", false, Some(bitmap(0, 0, 8, false, vec![], vec![1]))))]);
    assert!(check_picture_query(&p, 1, 3));
    assert_eq!(mcp_get_cast_member_picture(&p, 1, 3).unwrap_err().error, "PNG encoding failed: Zero width not allowed");
    let flat = player_with(vec![(3, bitmap_member("flat", false, Some(bitmap(4, 0, 8, false, vec![], vec![]))))]);
    assert_eq!(mcp_get_cast_member_picture(&flat, 1, 3).unwrap_err().error, "PNG encoding failed: Zero height not allowed");
    let thin = player_with(vec![(3, bitmap_member("thin", false, Some(bitmap(0, 5, 8, false, vec![], vec![]))))]);
    assert_eq!(mcp_get_cast_member_picture(&thin, 1, 3).unwrap_err().error, "PNG encoding failed: Zero width not allowed");
}

#[test]
fn picture_from_encoder_result() {
    let bm = BitmapMember {
        reg_point: (5, 6),
        info: BitmapInfo { width: 8, height: 8, center_reg_point: true, bit_depth: 8, use_alpha: false, palette_id: 0 },
        image: None,
    };
    let b = bitmap(2, 1, 8, false, vec![(0, 0, 0, 0), (0, 0, 0, 0)], (0..70u32).map(|i| (i * 3) as u8).collect());
    let name = "sign".to_string();
    let e = picture_from_png(1, 2, &name, &bm, &b, Err("out of paper".to_string())).unwrap_err();
    assert_eq!(e.error, "PNG encoding failed: out of paper");
    let pic = picture_from_png(1, 2, &name, &bm, &b, Ok(vec![1, 2, 3, 250])).unwrap();
    assert_eq!(pic.png_base64, base64::engine::general_purpose::STANDARD.encode([1u8, 2, 3, 250]));
    assert_eq!(pic.png_base64, "AQID+g==");
    assert_eq!((pic.cast_lib, pic.cast_member, pic.name.as_str()), (1, 2, "sign"));
    assert_eq!((pic.reg_x, pic.reg_y), (4, 4));
    assert_eq!((pic.width, pic.height), (2, 1));
    assert_eq!(pic.data_len, 70);
    let want_hex: String = (0..64u32).map(|i| format!("{:02x}", (i * 3) as u8)).collect();
    assert_eq!(pic.data_head_hex, want_hex);
    let empty = picture_from_png(1, 2, &name, &bm, &b, Ok(vec![])).unwrap();
    assert_eq!(empty.png_base64, "");
}

#[test]
fn picture_registration_matches_the_listing() {
    let px = vec![(1, 1, 1, 255)];
    let p = player_with(vec![
        (3, bitmap_member("a", true, Some(bitmap(1, 1, 8, false, px.clone(), vec![])))),
        (4, bitmap_member("b", false, Some(bitmap(1, 1, 8, false, px, vec![])))),
    ]);
    let listed = mcp_list_cast_members(&p, Some(1));
    for m in [3, 4] {
        let pic = mcp_get_cast_member_picture(&p, 1, m).unwrap();
        let l = listed.iter().find(|e| e.cast_member == m).unwrap();
        assert_eq!((l.reg_x, l.reg_y), (pic.reg_x, pic.reg_y));
        assert_eq!(l.name, pic.name);
    }
}
