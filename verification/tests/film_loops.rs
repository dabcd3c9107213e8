use dirplayer_mcp::checks::{check_film_loop_query, check_loop_fits};
use dirplayer_mcp::filmloop::{mcp_get_film_loop_frames, raw_blend_to_percent, resolve_film_loop_frame_tempo};
use dirplayer_mcp::model::{
    BitmapInfo, BitmapMember, CastLib, CastMember, CastMemberKind, ChannelData, Datum, DatumKind, DirPlayer,
    FilmLoopMember, FrameInterval, InitEntry, IntRect, Keyframes, SpriteSpan, TempoData, TempoEntry,
};
use dirplayer_mcp::response::McpFilmLoopFrameMember;

fn blend_by_float(raw: u8) -> u8 {
    (((255.0 - raw as f32) * 100.0 / 255.0) as i32).clamp(0, 100) as u8
}

#[test]
fn blend_from_version_800_matches_the_float_formula() {
    for raw in 0..=255u8 {
        let want = if raw == 0 { 100 } else if raw == 255 { 0 } else { blend_by_float(raw) };
        assert_eq!(raw_blend_to_percent(raw, 800), want, "raw {}", raw);
        assert_eq!(raw_blend_to_percent(raw, 1200), want, "raw {}", raw);
    }
    assert_eq!(raw_blend_to_percent(128, 800), 49);
    assert_eq!(raw_blend_to_percent(64, 850), 74);
    assert_eq!(raw_blend_to_percent(204, 1000), 20);
}

#[test]
fn blend_before_version_800_is_a_percentage() {
    // Director 7 stores the percentage directly, as D5 and D6 do.
    assert_eq!(raw_blend_to_percent(0, 700), 100);
    assert_eq!(raw_blend_to_percent(50, 700), 50);
    assert_eq!(raw_blend_to_percent(200, 700), 100);
    assert_eq!(raw_blend_to_percent(50, 799), 50);
    assert_eq!(raw_blend_to_percent(0, 600), 100);
    assert_eq!(raw_blend_to_percent(1, 600), 1);
    assert_eq!(raw_blend_to_percent(50, 699), 50);
    assert_eq!(raw_blend_to_percent(100, 500), 100);
    assert_eq!(raw_blend_to_percent(101, 500), 100);
    assert_eq!(raw_blend_to_percent(255, 0), 100);
    for raw in 0..=255u8 {
        for v in [0u16, 699, 700, 799, 800, 65535] {
            let b = raw_blend_to_percent(raw, v);
            assert!(b <= 100);
            if raw == 0 {
                assert_eq!(b, 100);
            }
        }
    }
}

fn tempo(frame_idx: u32, tempo: u8, cue: u16) -> TempoEntry {
    TempoEntry { frame_idx, data: TempoData { tempo, tempo_cue_point: cue } }
}

#[test]
fn tempo_of_a_frame() {
    assert_eq!(resolve_film_loop_frame_tempo(&vec![], 1), (2, 33));
    assert_eq!(resolve_film_loop_frame_tempo(&vec![tempo(0, 246, 10)], 1), (6, 100));
    assert_eq!(resolve_film_loop_frame_tempo(&vec![tempo(0, 246, 7)], 1), (8, 142));
    assert_eq!(resolve_film_loop_frame_tempo(&vec![tempo(0, 246, 120)], 1), (0, 8));
    assert_eq!(resolve_film_loop_frame_tempo(&vec![tempo(0, 246, 0)], 1), (2, 33));
    assert_eq!(resolve_film_loop_frame_tempo(&vec![tempo(0, 247, 30)], 1), (30, 500));
    assert_eq!(resolve_film_loop_frame_tempo(&vec![tempo(0, 247, 7)], 1), (7, 116));
    assert_eq!(resolve_film_loop_frame_tempo(&vec![tempo(0, 247, 0)], 1), (2, 33));
    assert_eq!(resolve_film_loop_frame_tempo(&vec![tempo(0, 15, 0)], 1), (4, 66));
    assert_eq!(resolve_film_loop_frame_tempo(&vec![tempo(0, 1, 0)], 1), (60, 1000));
    assert_eq!(resolve_film_loop_frame_tempo(&vec![tempo(0, 120, 0)], 1), (0, 8));
    assert_eq!(resolve_film_loop_frame_tempo(&vec![tempo(0, 121, 0)], 1), (2, 33));
    assert_eq!(resolve_film_loop_frame_tempo(&vec![tempo(0, 0, 0)], 1), (2, 33));
}

#[test]
fn tempo_in_force_is_the_latest_started() {
    let t = vec![tempo(0, 10, 0), tempo(2, 247, 30), tempo(4, 20, 0)];
    assert_eq!(resolve_film_loop_frame_tempo(&t, 0), (2, 33));
    assert_eq!(resolve_film_loop_frame_tempo(&t, 1), (6, 100));
    assert_eq!(resolve_film_loop_frame_tempo(&t, 2), (6, 100));
    assert_eq!(resolve_film_loop_frame_tempo(&t, 3), (30, 500));
    assert_eq!(resolve_film_loop_frame_tempo(&t, 5), (3, 50));
    assert_eq!(resolve_film_loop_frame_tempo(&t, 100), (3, 50));
    // The scan stops at the first record that starts later.
    let unsorted = vec![tempo(0, 10, 0), tempo(5, 20, 0), tempo(1, 30, 0)];
    assert_eq!(resolve_film_loop_frame_tempo(&unsorted, 3), (6, 100));
}

fn channel(cast_lib: u16, cast_member: u16, pos: (i16, i16), size: (u16, u16), blend: u8, ink: u8, stretch: bool, rotation: f64) -> ChannelData {
    ChannelData {
        cast_lib,
        cast_member,
        pos_x: pos.0,
        pos_y: pos.1,
        width: size.0,
        height: size.1,
        rotation: rotation.to_bits(),
        skew: 0.0f64.to_bits(),
        blend,
        ink,
        stretch,
    }
}

fn entry(frame_idx: u32, channel_idx: u16, channel_number: u32, data: ChannelData) -> InitEntry {
    InitEntry { frame_idx, channel_idx, channel: channel_number, data }
}

fn bitmap(name: &str, width: u16, height: u16) -> CastMember {
    CastMember {
        name: name.to_string(),
        type_label: "bitmap".to_string(),
        kind: CastMemberKind::Bitmap(BitmapMember {
            reg_point: (0, 0),
            info: BitmapInfo { width, height, center_reg_point: false, bit_depth: 8, use_alpha: false, palette_id: 0 },
            image: None,
        }),
    }
}

fn other(name: &str, type_label: &str) -> CastMember {
    CastMember { name: name.to_string(), type_label: type_label.to_string(), kind: CastMemberKind::Other }
}

fn sample_loop() -> FilmLoopMember {
    let a = entry(1, 7, 2, channel(65535, 7, (120, 60), (5, 5), 0, 8, true, 0.0));
    let b = entry(0, 6, 1, channel(0, 6, (110, 55), (1, 1), 128, 0, false, 45.0));
    let c = entry(1, 6, 1, channel(0, 0, (112, 57), (0, 0), 255, 3, false, 10.0));
    let d = entry(2, 6, 1, channel(3, 6, (114, 59), (2, 2), 64, 1, true, 20.0));
    FilmLoopMember {
        init_data: vec![a, d, b, c],
        tempo_data: vec![tempo(2, 247, 30), tempo(0, 10, 0)],
        sprite_spans: vec![
            SpriteSpan { channel_number: 1, start_frame: 1, end_frame: 3 },
            SpriteSpan { channel_number: 0, start_frame: 1, end_frame: 3 },
        ],
        frame_count: None,
        frame_intervals: vec![
            FrameInterval { channel_index: 0, channel: 0, start_frame: 1, end_frame: 3 },
            FrameInterval { channel_index: 7, channel: 2, start_frame: 2, end_frame: 3 },
            FrameInterval { channel_index: 6, channel: 1, start_frame: 1, end_frame: 3 },
            FrameInterval { channel_index: 3, channel: 9, start_frame: 1, end_frame: 3 },
            FrameInterval { channel_index: 8, channel: 0, start_frame: 1, end_frame: 3 },
        ],
        keyframes: vec![Keyframes {
            channel: 2,
            positions: vec![(3, 200, 100)],
            sizes: vec![(3, 50, 60)],
            rotations: vec![(2, 90.0f64.to_bits())],
            skews: vec![(3, 1.5f64.to_bits())],
            blends: vec![(3, 42)],
        }],
        initial_rect: IntRect { left: 100, top: 50, right: 161, bottom: 90 },
        loops: 1,
    }
}

fn player_with_loop(fl: FilmLoopMember) -> DirPlayer {
    DirPlayer {
        casts: vec![
            CastLib {
                number: 2,
                name: "loops".to_string(),
                members: vec![
                    (5, CastMember { name: "flag".to_string(), type_label: "filmLoop".to_string(), kind: CastMemberKind::FilmLoop(fl) }),
                    (6, bitmap("pole", 30, 40)),
                    (7, other("shape", "shape")),
                ],
                scripts: vec![],
                lctx: None,
            },
            CastLib { number: 3, name: "other".to_string(), members: vec![(6, bitmap("alt", 10, 10))], scripts: vec![], lctx: None },
        ],
        scopes: vec![],
        globals: vec![],
        datums: vec![],
        void_datum: Datum { type_label: "void".to_string(), text: "<Void>".to_string(), kind: DatumKind::Void },
        breakpoints: vec![],
        is_playing: false,
        is_script_paused: false,
        at_breakpoint: false,
        current_frame: 1,
        dir_version: 1000,
        sprite_spans: vec![],
        title: String::new(),
        stage_size: (0, 0),
    }
}

fn summary(m: &McpFilmLoopFrameMember) -> (u32, i32, i32, String, i32, i32, i32, i32, u8, u8) {
    (m.channel, m.cast_lib, m.cast_member, m.name.clone(), m.loc_h, m.loc_v, m.width, m.height, m.blend, m.ink)
}

#[test]
fn film_loop_overview() {
    let p = player_with_loop(sample_loop());
    assert!(check_film_loop_query(&p, 2, 5));
    let r = mcp_get_film_loop_frames(&p, 2, 5).unwrap();
    assert_eq!(r.cast_lib, 2);
    assert_eq!(r.cast_member, 5);
    assert_eq!(r.name, "flag");
    assert_eq!(r.frame_count, 3);
    assert_eq!((r.width, r.height), (61, 40));
    assert_eq!((r.reg_x, r.reg_y), (30, 20));
    assert!(r.loops);
    assert_eq!(r.default_duration_ms, 100);
    let spans: Vec<(u32, u32, u32)> = r.sprite_spans.iter().map(|s| (s.channel, s.start_frame, s.end_frame)).collect();
    assert_eq!(spans, vec![(1, 1, 3), (0, 1, 3)]);
    let frames: Vec<(u32, u32, u32)> = r.frames.iter().map(|f| (f.frame, f.duration_ticks, f.duration_ms)).collect();
    assert_eq!(frames, vec![(1, 6, 100), (2, 6, 100), (3, 30, 500)]);
}

#[test]
fn film_loop_frame_sprites() {
    let p = player_with_loop(sample_loop());
    let r = mcp_get_film_loop_frames(&p, 2, 5).unwrap();
    // Frame 1: only channel 1 is live; its bitmap does not stretch.
    let f1: Vec<_> = r.frames[0].members.iter().map(summary).collect();
    assert_eq!(f1, vec![(1, 2, 6, "pole".to_string(), 10, 5, 30, 40, 49, 0)]);
    assert_eq!(r.frames[0].members[0].rotation, 45.0f64.to_bits());
    // Frame 2: channel 1 keeps its member and size, channel 2 joins.
    let f2: Vec<_> = r.frames[1].members.iter().map(summary).collect();
    assert_eq!(
        f2,
        vec![(1, 2, 6, "pole".to_string(), 12, 7, 30, 40, 0, 3), (2, 2, 7, "shape".to_string(), 20, 10, 5, 5, 100, 8)]
    );
    assert_eq!(r.frames[1].members[0].rotation, 10.0f64.to_bits());
    assert_eq!(r.frames[1].members[1].rotation, 90.0f64.to_bits());
    assert_eq!(r.frames[1].members[1].skew, 0.0f64.to_bits());
    // Frame 3: channel 1 switches member and stretches; channel 2 follows
    // its keyframes.
    let f3: Vec<_> = r.frames[2].members.iter().map(summary).collect();
    assert_eq!(
        f3,
        vec![(1, 3, 6, "alt".to_string(), 14, 9, 2, 2, 74, 1), (2, 2, 7, "shape".to_string(), 100, 50, 50, 60, 42, 8)]
    );
    assert_eq!(r.frames[2].members[1].rotation, 0.0f64.to_bits());
    assert_eq!(r.frames[2].members[1].skew, 1.5f64.to_bits());
}

#[test]
fn film_loop_sprites_are_in_channel_order() {
    let p = player_with_loop(sample_loop());
    let r = mcp_get_film_loop_frames(&p, 2, 5).unwrap();
    for (i, f) in r.frames.iter().enumerate() {
        assert_eq!(f.frame as usize, i + 1);
        for w in f.members.windows(2) {
            assert!(w[0].channel <= w[1].channel);
        }
    }
    assert_eq!(r.default_duration_ms, r.frames[0].duration_ms);
}

#[test]
fn film_loop_from_score_spans_and_stated_count() {
    let mut fl = sample_loop();
    fl.frame_intervals = vec![];
    fl.frame_count = Some(2);
    fl.loops = 0;
    fl.initial_rect = IntRect { left: 10, top: 10, right: 10, bottom: 5 };
    let p = player_with_loop(fl);
    let r = mcp_get_film_loop_frames(&p, 2, 5).unwrap();
    assert_eq!(r.frame_count, 2);
    assert_eq!(r.frames.len(), 2);
    assert!(!r.loops);
    assert_eq!((r.width, r.height), (1, 1));
    assert_eq!((r.reg_x, r.reg_y), (0, 0));
    // Only the channel-1 score span is a sprite span here.
    for f in r.frames.iter() {
        assert!(f.members.iter().all(|m| m.channel == 1));
    }
    assert_eq!(r.frames[1].members.len(), 1);
    assert_eq!(r.frames[1].members[0].loc_h, 102);
}

#[test]
fn film_loop_skips_spans_without_member() {
    let fl = FilmLoopMember {
        init_data: vec![
            entry(0, 6, 1, channel(0, 0, (0, 0), (4, 4), 0, 0, true, 0.0)),
            entry(1, 6, 1, channel(0, 7, (3, 4), (0, 0), 0, 0, true, 0.0)),
        ],
        tempo_data: vec![],
        sprite_spans: vec![],
        frame_count: None,
        frame_intervals: vec![FrameInterval { channel_index: 6, channel: 1, start_frame: 1, end_frame: 5 }],
        keyframes: vec![],
        initial_rect: IntRect { left: 0, top: 0, right: 8, bottom: 8 },
        loops: 1,
    };
    let p = player_with_loop(fl);
    let r = mcp_get_film_loop_frames(&p, 2, 5).unwrap();
    assert_eq!(r.frame_count, 5);
    assert!(r.frames[0].members.is_empty());
    let m = &r.frames[1].members[0];
    assert_eq!((m.cast_lib, m.cast_member, m.name.as_str()), (2, 7, "shape"));
    assert_eq!((m.width, m.height), (4, 4));
    assert_eq!((m.loc_h, m.loc_v), (3, 4));
    assert_eq!(r.frames[4].members.len(), 1);
    assert!(r.frames.iter().all(|f| (f.duration_ticks, f.duration_ms) == (2, 33)));
    assert_eq!(r.default_duration_ms, 33);
}

#[test]
fn empty_film_loops() {
    let empty = FilmLoopMember {
        init_data: vec![],
        tempo_data: vec![],
        sprite_spans: vec![],
        frame_count: None,
        frame_intervals: vec![],
        keyframes: vec![],
        initial_rect: IntRect { left: 0, top: 0, right: 0, bottom: 0 },
        loops: 0,
    };
    let r = mcp_get_film_loop_frames(&player_with_loop(empty), 2, 5).unwrap();
    assert_eq!(r.frame_count, 1);
    assert_eq!(r.frames.len(), 1);
    assert!(r.frames[0].members.is_empty());
    assert_eq!(r.default_duration_ms, 33);
    let mut none = sample_loop();
    none.frame_count = Some(0);
    let r = mcp_get_film_loop_frames(&player_with_loop(none), 2, 5).unwrap();
    assert!(r.frames.is_empty());
    assert_eq!(r.default_duration_ms, 33);
}

#[test]
fn film_loop_errors() {
    let p = player_with_loop(sample_loop());
    assert_eq!(mcp_get_film_loop_frames(&p, 4, 5).unwrap_err().error, "Cast library 4 not found");
    assert_eq!(mcp_get_film_loop_frames(&p, 2, 9).unwrap_err().error, "Cast member 9 not found in cast library 2");
    assert_eq!(mcp_get_film_loop_frames(&p, 2, 6).unwrap_err().error, "Cast member 2/6 is not a FilmLoop (type: bitmap)");
    assert_eq!(mcp_get_film_loop_frames(&p, 2, 7).unwrap_err().error, "Cast member 2/7 is not a FilmLoop (type: shape)");
}

#[test]
fn film_loops_out_of_range_are_detected() {
    assert!(check_loop_fits(&sample_loop()));
    let mut far = sample_loop();
    far.initial_rect = IntRect { left: i32::MIN, top: 0, right: 0, bottom: 10 };
    assert!(!check_loop_fits(&far));
    let mut far_entry = sample_loop();
    far_entry.initial_rect = IntRect { left: i32::MIN, top: 0, right: i32::MIN + 10, bottom: 10 };
    assert!(!check_loop_fits(&far_entry));
    let mut last_frame = sample_loop();
    last_frame.tempo_data.push(tempo(u32::MAX, 10, 0));
    assert!(!check_loop_fits(&last_frame));
    let p = player_with_loop(far_entry);
    assert!(!check_film_loop_query(&p, 2, 5));
    assert!(check_film_loop_query(&p, 2, 6));
    assert!(check_film_loop_query(&p, 9, 9));
}

#[test]
fn only_shown_sprites_need_to_fit() {
    let left = i32::MIN + 100;
    let fl = FilmLoopMember {
        init_data: vec![
            entry(0, 6, 1, channel(0, 7, (10, 3), (4, 4), 0, 0, true, 0.0)),
            // Channel 5 has no span: its far position is never placed.
            entry(0, 10, 5, channel(0, 7, (500, 3), (4, 4), 0, 0, true, 0.0)),
        ],
        tempo_data: vec![],
        sprite_spans: vec![],
        frame_count: Some(2),
        frame_intervals: vec![FrameInterval { channel_index: 6, channel: 1, start_frame: 1, end_frame: 2 }],
        keyframes: vec![Keyframes {
            channel: 1,
            // Frame 7 is past the loop's end.
            positions: vec![(7, 1000, 0)],
            sizes: vec![],
            rotations: vec![],
            skews: vec![],
            blends: vec![],
        }],
        initial_rect: IntRect { left, top: 0, right: left + 100, bottom: 50 },
        loops: 1,
    };
    assert!(check_loop_fits(&fl));
    let p = player_with_loop(fl);
    assert!(check_film_loop_query(&p, 2, 5));
    let r = mcp_get_film_loop_frames(&p, 2, 5).unwrap();
    assert_eq!(r.frames.len(), 2);
    assert_eq!(r.frames[1].members.len(), 1);
    assert_eq!(r.frames[1].members[0].loc_h, 2147483558);
    assert_eq!(r.frames[1].members[0].loc_v, 3);
    assert_eq!((r.width, r.height), (100, 50));
    // A keyframe position that is placed must fit too.
    let mut bad = player_with_loop(FilmLoopMember {
        init_data: vec![entry(0, 6, 1, channel(0, 7, (10, 3), (4, 4), 0, 0, true, 0.0))],
        tempo_data: vec![],
        sprite_spans: vec![],
        frame_count: Some(2),
        frame_intervals: vec![FrameInterval { channel_index: 6, channel: 1, start_frame: 1, end_frame: 2 }],
        keyframes: vec![Keyframes { channel: 1, positions: vec![(2, 1000, 0)], sizes: vec![], rotations: vec![], skews: vec![], blends: vec![] }],
        initial_rect: IntRect { left, top: 0, right: left + 100, bottom: 50 },
        loops: 1,
    });
    assert!(!check_film_loop_query(&bad, 2, 5));
    bad.casts[0].members.swap(0, 1);
    assert!(check_film_loop_query(&bad, 2, 6));
}

#[test]
fn keyframe_blends_are_capped_at_100() {
    let mut fl = sample_loop();
    fl.keyframes[0].blends = vec![(2, 150), (3, 100)];
    let r = mcp_get_film_loop_frames(&player_with_loop(fl), 2, 5).unwrap();
    assert_eq!(r.frames[1].members[1].blend, 100);
    assert_eq!(r.frames[2].members[1].blend, 100);
    for f in r.frames.iter() {
        assert!(f.members.iter().all(|m| m.blend <= 100));
    }
}

#[test]
fn director_7_film_loops_store_the_percentage() {
    let mut p = player_with_loop(sample_loop());
    p.dir_version = 700;
    let r = mcp_get_film_loop_frames(&p, 2, 5).unwrap();
    // Raw 128 is above 100: a full percentage before version 800.
    assert_eq!(r.frames[0].members[0].blend, 100);
    assert_eq!(r.frames[2].members[0].blend, 64);
}
