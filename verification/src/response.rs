//! The answers of the queries.  Each type has a `DeepView` that gives its
//! value with strings as character sequences; the contracts speak of it.
use vstd::prelude::*;
use fxhash::FxHashMap;
use crate::datum_map::datum_map_view;

verus! {

/// A script in a script listing.
#[derive(Debug)]
pub struct McpScriptInfo {
    pub cast_lib: i32,
    pub cast_member: i32,
    pub name: String,
    pub script_type: String,
    pub handlers: Vec<String>,
}

/// The value of a [`McpScriptInfo`], strings as character sequences.
pub struct ScriptInfoView {
    pub cast_lib: i32,
    pub cast_member: i32,
    pub name: Seq<char>,
    pub script_type: Seq<char>,
    pub handlers: Seq<Seq<char>>,
}

impl DeepView for McpScriptInfo {
    type V = ScriptInfoView;

    open spec fn deep_view(&self) -> ScriptInfoView {
        ScriptInfoView {
            cast_lib: self.cast_lib,
            cast_member: self.cast_member,
            name: self.name@,
            script_type: self.script_type@,
            handlers: self.handlers.deep_view(),
        }
    }
}

/// One page of a script listing.
#[derive(Debug)]
pub struct McpScriptList {
    pub scripts: Vec<McpScriptInfo>,
    pub total_count: usize,
    pub offset: Option<usize>,
    pub limit: Option<usize>,
}

/// The value of a [`McpScriptList`], strings as character sequences.
pub struct ScriptListView {
    pub scripts: Seq<ScriptInfoView>,
    pub total_count: usize,
    pub offset: Option<usize>,
    pub limit: Option<usize>,
}

impl DeepView for McpScriptList {
    type V = ScriptListView;

    open spec fn deep_view(&self) -> ScriptListView {
        ScriptListView {
            scripts: self.scripts.deep_view(),
            total_count: self.total_count,
            offset: self.offset,
            limit: self.limit,
        }
    }
}

/// A handler of a script.
#[derive(Debug)]
pub struct McpHandlerInfo {
    pub name: String,
    pub arguments: Vec<String>,
    pub locals: Vec<String>,
    pub bytecode_count: usize,
}

/// The value of a [`McpHandlerInfo`], strings as character sequences.
pub struct HandlerInfoView {
    pub name: Seq<char>,
    pub arguments: Seq<Seq<char>>,
    pub locals: Seq<Seq<char>>,
    pub bytecode_count: usize,
}

impl DeepView for McpHandlerInfo {
    type V = HandlerInfoView;

    open spec fn deep_view(&self) -> HandlerInfoView {
        HandlerInfoView {
            name: self.name@,
            arguments: self.arguments.deep_view(),
            locals: self.locals.deep_view(),
            bytecode_count: self.bytecode_count,
        }
    }
}

/// A script with its handlers and properties.
#[derive(Debug)]
pub struct McpScriptDetails {
    pub cast_lib: i32,
    pub cast_member: i32,
    pub name: String,
    pub script_type: String,
    pub handlers: Vec<McpHandlerInfo>,
    pub properties: Vec<String>,
}

/// The value of a [`McpScriptDetails`], strings as character sequences.
pub struct ScriptDetailsView {
    pub cast_lib: i32,
    pub cast_member: i32,
    pub name: Seq<char>,
    pub script_type: Seq<char>,
    pub handlers: Seq<HandlerInfoView>,
    pub properties: Seq<Seq<char>>,
}

impl DeepView for McpScriptDetails {
    type V = ScriptDetailsView;

    open spec fn deep_view(&self) -> ScriptDetailsView {
        ScriptDetailsView {
            cast_lib: self.cast_lib,
            cast_member: self.cast_member,
            name: self.name@,
            script_type: self.script_type@,
            handlers: self.handlers.deep_view(),
            properties: self.properties.deep_view(),
        }
    }
}

/// One disassembled instruction.
#[derive(Debug)]
pub struct McpBytecodeInstruction {
    pub pos: usize,
    pub opcode: String,
    pub operand: i64,
    pub text: String,
}

/// The value of a [`McpBytecodeInstruction`], strings as character sequences.
pub struct BytecodeInstructionView {
    pub pos: usize,
    pub opcode: Seq<char>,
    pub operand: i64,
    pub text: Seq<char>,
}

impl DeepView for McpBytecodeInstruction {
    type V = BytecodeInstructionView;

    open spec fn deep_view(&self) -> BytecodeInstructionView {
        BytecodeInstructionView {
            pos: self.pos,
            opcode: self.opcode@,
            operand: self.operand,
            text: self.text@,
        }
    }
}

/// A disassembled handler.
#[derive(Debug)]
pub struct McpDisassemblyResult {
    pub handler_name: String,
    pub arguments: Vec<String>,
    pub bytecode: Vec<McpBytecodeInstruction>,
}

/// The value of a [`McpDisassemblyResult`], strings as character sequences.
pub struct DisassemblyResultView {
    pub handler_name: Seq<char>,
    pub arguments: Seq<Seq<char>>,
    pub bytecode: Seq<BytecodeInstructionView>,
}

impl DeepView for McpDisassemblyResult {
    type V = DisassemblyResultView;

    open spec fn deep_view(&self) -> DisassemblyResultView {
        DisassemblyResultView {
            handler_name: self.handler_name@,
            arguments: self.arguments.deep_view(),
            bytecode: self.bytecode.deep_view(),
        }
    }
}

/// One decompiled line with the bytecode it came from.
#[derive(Debug)]
pub struct McpDecompiledLine {
    pub text: String,
    pub indent: u32,
    pub bytecode_indices: Vec<usize>,
}

/// The value of a [`McpDecompiledLine`], strings as character sequences.
pub struct DecompiledLineView {
    pub text: Seq<char>,
    pub indent: u32,
    pub bytecode_indices: Seq<usize>,
}

impl DeepView for McpDecompiledLine {
    type V = DecompiledLineView;

    open spec fn deep_view(&self) -> DecompiledLineView {
        DecompiledLineView {
            text: self.text@,
            indent: self.indent,
            bytecode_indices: self.bytecode_indices@,
        }
    }
}

/// A decompiled handler.
#[derive(Debug)]
pub struct McpDecompileResult {
    pub handler_name: String,
    pub arguments: Vec<String>,
    pub source: String,
}

/// The value of a [`McpDecompileResult`], strings as character sequences.
pub struct DecompileResultView {
    pub handler_name: Seq<char>,
    pub arguments: Seq<Seq<char>>,
    pub source: Seq<char>,
}

impl DeepView for McpDecompileResult {
    type V = DecompileResultView;

    open spec fn deep_view(&self) -> DecompileResultView {
        DecompileResultView {
            handler_name: self.handler_name@,
            arguments: self.arguments.deep_view(),
            source: self.source@,
        }
    }
}

/// A datum: its id, type and printed value.
#[derive(Debug)]
pub struct McpDatumValue {
    pub datum_id: Option<usize>,
    pub datum_type: String,
    pub value: String,
}

/// The value of a [`McpDatumValue`], strings as character sequences.
pub struct DatumValueView {
    pub datum_id: Option<usize>,
    pub datum_type: Seq<char>,
    pub value: Seq<char>,
}

impl DeepView for McpDatumValue {
    type V = DatumValueView;

    open spec fn deep_view(&self) -> DatumValueView {
        DatumValueView {
            datum_id: self.datum_id,
            datum_type: self.datum_type@,
            value: self.value@,
        }
    }
}

/// A scope of the call stack.
#[derive(Debug)]
pub struct McpScopeInfo {
    pub index: usize,
    pub script_name: String,
    pub cast_lib: i32,
    pub cast_member: i32,
    pub handler_name: String,
    pub bytecode_index: usize,
    pub locals: Option<FxHashMap<String, McpDatumValue>>,
    pub args: Option<Vec<McpDatumValue>>,
    pub stack_depth: usize,
}

/// The value of a [`McpScopeInfo`], strings as character sequences.
pub struct ScopeInfoView {
    pub index: usize,
    pub script_name: Seq<char>,
    pub cast_lib: i32,
    pub cast_member: i32,
    pub handler_name: Seq<char>,
    pub bytecode_index: usize,
    pub locals: Option<Map<Seq<char>, DatumValueView>>,
    pub args: Option<Seq<DatumValueView>>,
    pub stack_depth: usize,
}

impl DeepView for McpScopeInfo {
    type V = ScopeInfoView;

    open spec fn deep_view(&self) -> ScopeInfoView {
        ScopeInfoView {
            index: self.index,
            script_name: self.script_name@,
            cast_lib: self.cast_lib,
            cast_member: self.cast_member,
            handler_name: self.handler_name@,
            bytecode_index: self.bytecode_index,
            locals: match self.locals { Some(m) => Some(datum_map_view(m)), None => None },
            args: self.args.deep_view(),
            stack_depth: self.stack_depth,
        }
    }
}

/// Where execution is.
#[derive(Debug)]
pub struct McpScopeSummary {
    pub index: usize,
    pub script_name: String,
    pub handler_name: String,
    pub bytecode_index: usize,
}

/// The value of a [`McpScopeSummary`], strings as character sequences.
pub struct ScopeSummaryView {
    pub index: usize,
    pub script_name: Seq<char>,
    pub handler_name: Seq<char>,
    pub bytecode_index: usize,
}

impl DeepView for McpScopeSummary {
    type V = ScopeSummaryView;

    open spec fn deep_view(&self) -> ScopeSummaryView {
        ScopeSummaryView {
            index: self.index,
            script_name: self.script_name@,
            handler_name: self.handler_name@,
            bytecode_index: self.bytecode_index,
        }
    }
}

/// The current execution position.
#[derive(Debug)]
pub struct McpContext {
    pub is_playing: bool,
    pub is_paused: bool,
    pub at_breakpoint: bool,
    pub current_frame: u32,
    pub current_handler: Option<McpScopeSummary>,
    pub scope_count: usize,
}

/// The value of a [`McpContext`], strings as character sequences.
pub struct ContextView {
    pub is_playing: bool,
    pub is_paused: bool,
    pub at_breakpoint: bool,
    pub current_frame: u32,
    pub current_handler: Option<ScopeSummaryView>,
    pub scope_count: usize,
}

impl DeepView for McpContext {
    type V = ContextView;

    open spec fn deep_view(&self) -> ContextView {
        ContextView {
            is_playing: self.is_playing,
            is_paused: self.is_paused,
            at_breakpoint: self.at_breakpoint,
            current_frame: self.current_frame,
            current_handler: self.current_handler.deep_view(),
            scope_count: self.scope_count,
        }
    }
}

/// The call stack.
#[derive(Debug)]
pub struct McpCallStack {
    pub scopes: Vec<McpScopeInfo>,
    pub current_scope_index: Option<usize>,
}

/// The value of a [`McpCallStack`], strings as character sequences.
pub struct CallStackView {
    pub scopes: Seq<ScopeInfoView>,
    pub current_scope_index: Option<usize>,
}

impl DeepView for McpCallStack {
    type V = CallStackView;

    open spec fn deep_view(&self) -> CallStackView {
        CallStackView {
            scopes: self.scopes.deep_view(),
            current_scope_index: self.current_scope_index,
        }
    }
}

/// The player's execution state.
#[derive(Debug)]
pub struct McpExecutionState {
    pub is_playing: bool,
    pub is_paused: bool,
    pub current_frame: u32,
    pub total_frames: usize,
    pub at_breakpoint: bool,
    pub movie_loaded: bool,
    pub movie_title: String,
    pub stage_width: u32,
    pub stage_height: u32,
}

/// The value of a [`McpExecutionState`], strings as character sequences.
pub struct ExecutionStateView {
    pub is_playing: bool,
    pub is_paused: bool,
    pub current_frame: u32,
    pub total_frames: usize,
    pub at_breakpoint: bool,
    pub movie_loaded: bool,
    pub movie_title: Seq<char>,
    pub stage_width: u32,
    pub stage_height: u32,
}

impl DeepView for McpExecutionState {
    type V = ExecutionStateView;

    open spec fn deep_view(&self) -> ExecutionStateView {
        ExecutionStateView {
            is_playing: self.is_playing,
            is_paused: self.is_paused,
            current_frame: self.current_frame,
            total_frames: self.total_frames,
            at_breakpoint: self.at_breakpoint,
            movie_loaded: self.movie_loaded,
            movie_title: self.movie_title@,
            stage_width: self.stage_width,
            stage_height: self.stage_height,
        }
    }
}

/// The global variables.
#[derive(Debug)]
pub struct McpGlobalsResult {
    pub globals: FxHashMap<String, McpDatumValue>,
}

/// The value of a [`McpGlobalsResult`], strings as character sequences.
pub struct GlobalsResultView {
    pub globals: Map<Seq<char>, DatumValueView>,
}

impl DeepView for McpGlobalsResult {
    type V = GlobalsResultView;

    open spec fn deep_view(&self) -> GlobalsResultView {
        GlobalsResultView {
            globals: datum_map_view(self.globals),
        }
    }
}

/// An argument of a scope.
#[derive(Debug)]
pub struct McpArgInfo {
    pub name: String,
    pub value: McpDatumValue,
}

/// The value of a [`McpArgInfo`], strings as character sequences.
pub struct ArgInfoView {
    pub name: Seq<char>,
    pub value: DatumValueView,
}

impl DeepView for McpArgInfo {
    type V = ArgInfoView;

    open spec fn deep_view(&self) -> ArgInfoView {
        ArgInfoView {
            name: self.name@,
            value: self.value.deep_view(),
        }
    }
}

/// The locals and arguments of a scope.
#[derive(Debug)]
pub struct McpLocalsResult {
    pub scope_index: usize,
    pub handler_name: String,
    pub locals: FxHashMap<String, McpDatumValue>,
    pub args: Vec<McpArgInfo>,
}

/// The value of a [`McpLocalsResult`], strings as character sequences.
pub struct LocalsResultView {
    pub scope_index: usize,
    pub handler_name: Seq<char>,
    pub locals: Map<Seq<char>, DatumValueView>,
    pub args: Seq<ArgInfoView>,
}

impl DeepView for McpLocalsResult {
    type V = LocalsResultView;

    open spec fn deep_view(&self) -> LocalsResultView {
        LocalsResultView {
            scope_index: self.scope_index,
            handler_name: self.handler_name@,
            locals: datum_map_view(self.locals),
            args: self.args.deep_view(),
        }
    }
}

/// A datum with its properties.
#[derive(Debug)]
pub struct McpDatumInspection {
    pub datum_id: usize,
    pub datum_type: String,
    pub value: String,
    pub properties: Option<FxHashMap<String, McpDatumValue>>,
}

/// The value of a [`McpDatumInspection`], strings as character sequences.
pub struct DatumInspectionView {
    pub datum_id: usize,
    pub datum_type: Seq<char>,
    pub value: Seq<char>,
    pub properties: Option<Map<Seq<char>, DatumValueView>>,
}

impl DeepView for McpDatumInspection {
    type V = DatumInspectionView;

    open spec fn deep_view(&self) -> DatumInspectionView {
        DatumInspectionView {
            datum_id: self.datum_id,
            datum_type: self.datum_type@,
            value: self.value@,
            properties: match self.properties { Some(m) => Some(datum_map_view(m)), None => None },
        }
    }
}

/// A cast library.
#[derive(Debug)]
pub struct McpCastLibInfo {
    pub number: i32,
    pub name: String,
    pub member_count: usize,
    pub script_count: usize,
}

/// The value of a [`McpCastLibInfo`], strings as character sequences.
pub struct CastLibInfoView {
    pub number: i32,
    pub name: Seq<char>,
    pub member_count: usize,
    pub script_count: usize,
}

impl DeepView for McpCastLibInfo {
    type V = CastLibInfoView;

    open spec fn deep_view(&self) -> CastLibInfoView {
        CastLibInfoView {
            number: self.number,
            name: self.name@,
            member_count: self.member_count,
            script_count: self.script_count,
        }
    }
}

/// A cast member; the bitmap fields are zero or false for other members.
#[derive(Debug)]
pub struct McpCastMemberInfo {
    pub cast_lib: i32,
    pub cast_member: i32,
    pub name: String,
    pub member_type: String,
    pub reg_x: i16,
    pub reg_y: i16,
    pub bit_depth: u8,
    pub use_alpha: bool,
    pub palette_id: i16,
    pub width: u16,
    pub height: u16,
}

/// The value of a [`McpCastMemberInfo`], strings as character sequences.
pub struct CastMemberInfoView {
    pub cast_lib: i32,
    pub cast_member: i32,
    pub name: Seq<char>,
    pub member_type: Seq<char>,
    pub reg_x: i16,
    pub reg_y: i16,
    pub bit_depth: u8,
    pub use_alpha: bool,
    pub palette_id: i16,
    pub width: u16,
    pub height: u16,
}

impl DeepView for McpCastMemberInfo {
    type V = CastMemberInfoView;

    open spec fn deep_view(&self) -> CastMemberInfoView {
        CastMemberInfoView {
            cast_lib: self.cast_lib,
            cast_member: self.cast_member,
            name: self.name@,
            member_type: self.member_type@,
            reg_x: self.reg_x,
            reg_y: self.reg_y,
            bit_depth: self.bit_depth,
            use_alpha: self.use_alpha,
            palette_id: self.palette_id,
            width: self.width,
            height: self.height,
        }
    }
}

/// A cast member, with script type and handlers for script members.
#[derive(Debug)]
pub struct McpCastMemberDetails {
    pub cast_lib: i32,
    pub cast_member: i32,
    pub name: String,
    pub member_type: String,
    pub script_type: Option<String>,
    pub handlers: Option<Vec<String>>,
}

/// The value of a [`McpCastMemberDetails`], strings as character sequences.
pub struct CastMemberDetailsView {
    pub cast_lib: i32,
    pub cast_member: i32,
    pub name: Seq<char>,
    pub member_type: Seq<char>,
    pub script_type: Option<Seq<char>>,
    pub handlers: Option<Seq<Seq<char>>>,
}

impl DeepView for McpCastMemberDetails {
    type V = CastMemberDetailsView;

    open spec fn deep_view(&self) -> CastMemberDetailsView {
        CastMemberDetailsView {
            cast_lib: self.cast_lib,
            cast_member: self.cast_member,
            name: self.name@,
            member_type: self.member_type@,
            script_type: self.script_type.deep_view(),
            handlers: self.handlers.deep_view(),
        }
    }
}

/// A bitmap member rendered to PNG.
#[derive(Debug)]
pub struct McpCastMemberPicture {
    pub cast_lib: i32,
    pub cast_member: i32,
    pub name: String,
    pub width: u16,
    pub height: u16,
    pub bit_depth: u8,
    pub original_bit_depth: u8,
    pub reg_x: i16,
    pub reg_y: i16,
    pub use_alpha: bool,
    pub palette_ref: String,
    pub data_len: usize,
    pub data_head_hex: String,
    pub png_base64: String,
}

/// The value of a [`McpCastMemberPicture`], strings as character sequences.
pub struct CastMemberPictureView {
    pub cast_lib: i32,
    pub cast_member: i32,
    pub name: Seq<char>,
    pub width: u16,
    pub height: u16,
    pub bit_depth: u8,
    pub original_bit_depth: u8,
    pub reg_x: i16,
    pub reg_y: i16,
    pub use_alpha: bool,
    pub palette_ref: Seq<char>,
    pub data_len: usize,
    pub data_head_hex: Seq<char>,
    pub png_base64: Seq<char>,
}

impl DeepView for McpCastMemberPicture {
    type V = CastMemberPictureView;

    open spec fn deep_view(&self) -> CastMemberPictureView {
        CastMemberPictureView {
            cast_lib: self.cast_lib,
            cast_member: self.cast_member,
            name: self.name@,
            width: self.width,
            height: self.height,
            bit_depth: self.bit_depth,
            original_bit_depth: self.original_bit_depth,
            reg_x: self.reg_x,
            reg_y: self.reg_y,
            use_alpha: self.use_alpha,
            palette_ref: self.palette_ref@,
            data_len: self.data_len,
            data_head_hex: self.data_head_hex@,
            png_base64: self.png_base64@,
        }
    }
}

/// A sprite of a film loop frame; rotation and skew are `f64` bit patterns.
#[derive(Debug)]
pub struct McpFilmLoopFrameMember {
    pub channel: u32,
    pub cast_lib: i32,
    pub cast_member: i32,
    pub name: String,
    pub loc_h: i32,
    pub loc_v: i32,
    pub width: i32,
    pub height: i32,
    pub rotation: u64,
    pub skew: u64,
    pub blend: u8,
    pub ink: u8,
}

/// The value of a [`McpFilmLoopFrameMember`], strings as character sequences.
pub struct FilmLoopFrameMemberView {
    pub channel: u32,
    pub cast_lib: i32,
    pub cast_member: i32,
    pub name: Seq<char>,
    pub loc_h: i32,
    pub loc_v: i32,
    pub width: i32,
    pub height: i32,
    pub rotation: u64,
    pub skew: u64,
    pub blend: u8,
    pub ink: u8,
}

impl DeepView for McpFilmLoopFrameMember {
    type V = FilmLoopFrameMemberView;

    open spec fn deep_view(&self) -> FilmLoopFrameMemberView {
        FilmLoopFrameMemberView {
            channel: self.channel,
            cast_lib: self.cast_lib,
            cast_member: self.cast_member,
            name: self.name@,
            loc_h: self.loc_h,
            loc_v: self.loc_v,
            width: self.width,
            height: self.height,
            rotation: self.rotation,
            skew: self.skew,
            blend: self.blend,
            ink: self.ink,
        }
    }
}

/// One frame of a film loop.
#[derive(Debug)]
pub struct McpFilmLoopFrame {
    pub frame: u32,
    pub duration_ticks: u32,
    pub duration_ms: u32,
    pub members: Vec<McpFilmLoopFrameMember>,
}

/// The value of a [`McpFilmLoopFrame`], strings as character sequences.
pub struct FilmLoopFrameView {
    pub frame: u32,
    pub duration_ticks: u32,
    pub duration_ms: u32,
    pub members: Seq<FilmLoopFrameMemberView>,
}

impl DeepView for McpFilmLoopFrame {
    type V = FilmLoopFrameView;

    open spec fn deep_view(&self) -> FilmLoopFrameView {
        FilmLoopFrameView {
            frame: self.frame,
            duration_ticks: self.duration_ticks,
            duration_ms: self.duration_ms,
            members: self.members.deep_view(),
        }
    }
}

/// A sprite span of a film loop.
#[derive(Clone, Copy, PartialEq, Eq, Structural, Debug)]
pub struct McpFilmLoopSpan {
    pub channel: u32,
    pub start_frame: u32,
    pub end_frame: u32,
}

impl DeepView for McpFilmLoopSpan {
    type V = McpFilmLoopSpan;

    open spec fn deep_view(&self) -> McpFilmLoopSpan {
        *self
    }
}

/// A film loop, frame by frame.
#[derive(Debug)]
pub struct McpFilmLoopFrames {
    pub cast_lib: i32,
    pub cast_member: i32,
    pub name: String,
    pub frame_count: u32,
    pub width: u16,
    pub height: u16,
    pub reg_x: i16,
    pub reg_y: i16,
    pub loops: bool,
    pub default_duration_ms: u32,
    pub sprite_spans: Vec<McpFilmLoopSpan>,
    pub frames: Vec<McpFilmLoopFrame>,
}

/// The value of a [`McpFilmLoopFrames`], strings as character sequences.
pub struct FilmLoopFramesView {
    pub cast_lib: i32,
    pub cast_member: i32,
    pub name: Seq<char>,
    pub frame_count: u32,
    pub width: u16,
    pub height: u16,
    pub reg_x: i16,
    pub reg_y: i16,
    pub loops: bool,
    pub default_duration_ms: u32,
    pub sprite_spans: Seq<McpFilmLoopSpan>,
    pub frames: Seq<FilmLoopFrameView>,
}

impl DeepView for McpFilmLoopFrames {
    type V = FilmLoopFramesView;

    open spec fn deep_view(&self) -> FilmLoopFramesView {
        FilmLoopFramesView {
            cast_lib: self.cast_lib,
            cast_member: self.cast_member,
            name: self.name@,
            frame_count: self.frame_count,
            width: self.width,
            height: self.height,
            reg_x: self.reg_x,
            reg_y: self.reg_y,
            loops: self.loops,
            default_duration_ms: self.default_duration_ms,
            sprite_spans: self.sprite_spans@,
            frames: self.frames.deep_view(),
        }
    }
}

/// A breakpoint.
#[derive(Debug)]
pub struct McpBreakpointInfo {
    pub script_name: String,
    pub handler_name: String,
    pub bytecode_index: usize,
}

/// The value of a [`McpBreakpointInfo`], strings as character sequences.
pub struct BreakpointInfoView {
    pub script_name: Seq<char>,
    pub handler_name: Seq<char>,
    pub bytecode_index: usize,
}

impl DeepView for McpBreakpointInfo {
    type V = BreakpointInfoView;

    open spec fn deep_view(&self) -> BreakpointInfoView {
        BreakpointInfoView {
            script_name: self.script_name@,
            handler_name: self.handler_name@,
            bytecode_index: self.bytecode_index,
        }
    }
}

/// All breakpoints.
#[derive(Debug)]
pub struct McpBreakpointList {
    pub breakpoints: Vec<McpBreakpointInfo>,
}

/// The value of a [`McpBreakpointList`], strings as character sequences.
pub struct BreakpointListView {
    pub breakpoints: Seq<BreakpointInfoView>,
}

impl DeepView for McpBreakpointList {
    type V = BreakpointListView;

    open spec fn deep_view(&self) -> BreakpointListView {
        BreakpointListView {
            breakpoints: self.breakpoints.deep_view(),
        }
    }
}

/// An error answer.
#[derive(Debug)]
pub struct McpError {
    pub error: String,
}

/// The value of a [`McpError`], strings as character sequences.
pub struct ErrorView {
    pub error: Seq<char>,
}

impl DeepView for McpError {
    type V = ErrorView;

    open spec fn deep_view(&self) -> ErrorView {
        ErrorView {
            error: self.error@,
        }
    }
}

/// The outcome of an evaluation.
#[derive(Debug)]
pub struct McpEvalResult {
    pub success: bool,
    pub result_type: Option<String>,
    pub result_value: Option<String>,
    pub datum_id: Option<usize>,
    pub error: Option<String>,
}

/// The value of a [`McpEvalResult`], strings as character sequences.
pub struct EvalResultView {
    pub success: bool,
    pub result_type: Option<Seq<char>>,
    pub result_value: Option<Seq<char>>,
    pub datum_id: Option<usize>,
    pub error: Option<Seq<char>>,
}

impl DeepView for McpEvalResult {
    type V = EvalResultView;

    open spec fn deep_view(&self) -> EvalResultView {
        EvalResultView {
            success: self.success,
            result_type: self.result_type.deep_view(),
            result_value: self.result_value.deep_view(),
            datum_id: self.datum_id,
            error: self.error.deep_view(),
        }
    }
}


/// `r` is the answer `a` describes: the same value, or an error with the
/// same message.
pub open spec fn answers<T: DeepView>(r: Result<T, McpError>, a: Result<T::V, Seq<char>>) -> bool {
    match (r, a) {
        (Ok(v), Ok(w)) => v.deep_view() == w,
        (Err(e), Err(m)) => e.error@ == m,
        _ => false,
    }
}

} // verus!
