//! The player state that the query functions read.
//!
//! Every value here is plain data.  Where the running player derives a value
//! with machinery outside this library (the bytecode pretty-printer, the
//! decompiler, the datum printer, keyframe interpolation, the bitmap
//! decoder, the sprite-channel numbering), the state holds the value that
//! machinery produced, and the query functions take it from there.
use vstd::prelude::*;

verus! {

/// A reference to a cast member: a cast library number and a member number.
#[derive(Clone, Copy, PartialEq, Eq, Structural, Debug)]
pub struct CastMemberRef {
    pub cast_lib: i32,
    pub cast_member: i32,
}

/// The kind of a Lingo script.
#[derive(Clone, Copy, PartialEq, Eq, Structural, Debug)]
pub enum ScriptType {
    Movie,
    Parent,
    Score,
    Member,
    Invalid,
    Unknown,
}

/// The name table of a cast library's script context.
pub struct ScriptContext {
    pub names: Vec<String>,
}

/// One bytecode instruction of a handler.
pub struct Bytecode {
    pub pos: usize,
    /// The opcode's name.
    pub opcode: String,
    pub obj: i64,
    /// The instruction as the bytecode printer renders it.
    pub text: String,
}

/// One line of decompiled Lingo.
pub struct DecompiledLine {
    pub text: String,
    pub indent: u32,
}

/// What the decompiler makes of a handler.
pub struct DecompiledHandler {
    pub name: String,
    pub arguments: Vec<String>,
    pub lines: Vec<DecompiledLine>,
}

/// A compiled handler.
pub struct Handler {
    pub name_id: u16,
    pub argument_name_ids: Vec<u16>,
    pub local_name_ids: Vec<u16>,
    pub bytecode_array: Vec<Bytecode>,
    pub decompiled: DecompiledHandler,
}

/// A script: its handlers are listed under their (lower-case) names, in the
/// order in which the script's handler table yields them.
pub struct Script {
    pub member_ref: CastMemberRef,
    pub name: String,
    pub script_type: ScriptType,
    pub handler_names: Vec<String>,
    pub handlers: Vec<(String, Handler)>,
    /// The names of the script's properties, in table order.
    pub properties: Vec<String>,
}

/// Stored metadata of a bitmap member.
#[derive(Clone, Copy, PartialEq, Eq, Structural, Debug)]
pub struct BitmapInfo {
    pub width: u16,
    pub height: u16,
    pub center_reg_point: bool,
    pub bit_depth: u8,
    pub use_alpha: bool,
    pub palette_id: i16,
}

/// A decoded bitmap as the bitmap manager holds it.
pub struct Bitmap {
    pub width: u16,
    pub height: u16,
    pub bit_depth: u8,
    pub original_bit_depth: u8,
    pub use_alpha: bool,
    /// How the bitmap's palette reference prints.
    pub palette_ref: String,
    /// The raw pixel data.
    pub data: Vec<u8>,
    /// The palette-resolved colour of each pixel, row by row:
    /// `(r, g, b, a)` of pixel `(x, y)` at index `y * width + x`.
    pub pixels: Vec<(u8, u8, u8, u8)>,
}

/// A bitmap cast member; `image` is the decoded bitmap, if it is loaded.
pub struct BitmapMember {
    pub reg_point: (i16, i16),
    pub info: BitmapInfo,
    pub image: Option<Bitmap>,
}

/// The sprite data of one channel in one frame of a score.
#[derive(Clone, Copy, PartialEq, Eq, Structural, Debug)]
pub struct ChannelData {
    pub cast_lib: u16,
    pub cast_member: u16,
    pub pos_x: i16,
    pub pos_y: i16,
    pub width: u16,
    pub height: u16,
    /// Bit pattern of the rotation (an `f64`).
    pub rotation: u64,
    /// Bit pattern of the skew (an `f64`).
    pub skew: u64,
    pub blend: u8,
    pub ink: u8,
    pub stretch: bool,
}

/// A channel-initialisation record: zero-based frame index, raw channel
/// index, the sprite channel number that raw index denotes, and the data.
#[derive(Clone, Copy, PartialEq, Eq, Structural, Debug)]
pub struct InitEntry {
    pub frame_idx: u32,
    pub channel_idx: u16,
    pub channel: u32,
    pub data: ChannelData,
}

/// The tempo channel of one frame.
#[derive(Clone, Copy, PartialEq, Eq, Structural, Debug)]
pub struct TempoData {
    pub tempo: u8,
    pub tempo_cue_point: u16,
}

/// A tempo record at a zero-based frame index.
#[derive(Clone, Copy, PartialEq, Eq, Structural, Debug)]
pub struct TempoEntry {
    pub frame_idx: u32,
    pub data: TempoData,
}

/// A sprite span: a channel is live from `start_frame` to `end_frame`.
#[derive(Clone, Copy, PartialEq, Eq, Structural, Debug)]
pub struct SpriteSpan {
    pub channel_number: u32,
    pub start_frame: u32,
    pub end_frame: u32,
}

/// A primary frame interval of a score chunk: raw channel index, the sprite
/// channel number it denotes, first and last frame.
#[derive(Clone, Copy, PartialEq, Eq, Structural, Debug)]
pub struct FrameInterval {
    pub channel_index: u32,
    pub channel: u32,
    pub start_frame: u32,
    pub end_frame: u32,
}

/// The tweened values of one channel: each table lists, per frame, the value
/// that the keyframe track gives at that frame.
pub struct Keyframes {
    pub channel: u16,
    pub positions: Vec<(u32, i32, i32)>,
    pub sizes: Vec<(u32, i32, i32)>,
    pub rotations: Vec<(u32, u64)>,
    pub skews: Vec<(u32, u64)>,
    pub blends: Vec<(u32, u8)>,
}

/// An integer rectangle.
#[derive(Clone, Copy, PartialEq, Eq, Structural, Debug)]
pub struct IntRect {
    pub left: i32,
    pub top: i32,
    pub right: i32,
    pub bottom: i32,
}

/// A film loop member: a sub-score with its own channels and tempo.
pub struct FilmLoopMember {
    pub init_data: Vec<InitEntry>,
    pub tempo_data: Vec<TempoEntry>,
    pub sprite_spans: Vec<SpriteSpan>,
    pub frame_count: Option<u32>,
    pub frame_intervals: Vec<FrameInterval>,
    pub keyframes: Vec<Keyframes>,
    pub initial_rect: IntRect,
    pub loops: u8,
}

/// What kind of member a cast member is, where the queries care.
pub enum CastMemberKind {
    Bitmap(BitmapMember),
    FilmLoop(FilmLoopMember),
    Other,
}

/// A cast member; `type_label` is the member type's name.
pub struct CastMember {
    pub name: String,
    pub type_label: String,
    pub kind: CastMemberKind,
}

/// A cast library: members and scripts under their member numbers, in table
/// order, and the script context if the library has one.
pub struct CastLib {
    pub number: u32,
    pub name: String,
    pub members: Vec<(u32, CastMember)>,
    pub scripts: Vec<(u32, Script)>,
    pub lctx: Option<ScriptContext>,
}

/// A script instance.
pub struct ScriptInstance {
    /// The instance's number.
    pub id: u32,
    pub script: CastMemberRef,
    pub properties: Vec<(String, DatumRef)>,
}

/// What a datum is, as far as its short form depends on it.
pub enum DatumKind {
    Int(i32),
    /// A float; the text is the value as its `Display` writes it.
    Float(String),
    Symbol(String),
    Void,
    Null,
    Str(String),
    /// A string chunk and the string it resolves to.
    StringChunk(String),
    /// A list and its number of items.
    List(usize),
    PropList(Vec<(DatumRef, DatumRef)>),
    ScriptInstanceRef(ScriptInstance),
    ScriptRef(CastMemberRef),
    Other,
}

/// A datum: its type label, its full printed form, and its kind.
pub struct Datum {
    pub type_label: String,
    pub text: String,
    pub kind: DatumKind,
}

/// A reference to a datum: void, or a datum with its allocator id.
pub enum DatumRef {
    Void,
    Ref(usize, Box<Datum>),
}

/// A handler activation on the call stack.
pub struct Scope {
    pub script_ref: CastMemberRef,
    pub handler_name_id: u16,
    pub bytecode_index: usize,
    /// Locals under their name ids, in table order.
    pub locals: Vec<(u16, DatumRef)>,
    pub args: Vec<DatumRef>,
    pub stack_len: usize,
}

/// A breakpoint.
pub struct Breakpoint {
    pub script_name: String,
    pub handler_name: String,
    pub bytecode_index: usize,
}

/// A script error.
pub struct ScriptError {
    pub message: String,
}

/// The player.
pub struct DirPlayer {
    pub casts: Vec<CastLib>,
    pub scopes: Vec<Scope>,
    /// Globals under their names, in table order.
    pub globals: Vec<(String, DatumRef)>,
    /// The allocator's datums, each a `DatumRef::Ref` under its id.
    pub datums: Vec<DatumRef>,
    /// The datum the player hands out for a void reference.
    pub void_datum: Datum,
    pub breakpoints: Vec<Breakpoint>,
    pub is_playing: bool,
    pub is_script_paused: bool,
    pub at_breakpoint: bool,
    pub current_frame: u32,
    pub dir_version: u16,
    /// The movie score's sprite spans.
    pub sprite_spans: Vec<SpriteSpan>,
    pub title: String,
    pub stage_size: (u32, u32),
}

} // verus!
