//! Cast queries: libraries, members, member details.
use vstd::prelude::*;
use crate::lookup::{cast_index, cast_pos, find_script_by_ref, member_index, member_pos, script_by_ref};
use crate::messages::{cast_not_found, cast_not_found_msg, member_not_found, member_not_found_msg};
use crate::model::{BitmapMember, CastLib, CastMember, CastMemberKind, CastMemberRef, DirPlayer};
use crate::response::{
    answers, CastLibInfoView, CastMemberDetailsView, CastMemberInfoView, McpCastLibInfo,
    McpCastMemberDetails, McpCastMemberInfo, McpError,
};
use crate::scripts::cast_selected;
use crate::text::{copy_strings, script_type_label, script_type_str};

verus! {

/// A cast library in a listing.
pub open spec fn cast_lib_info(c: CastLib) -> CastLibInfoView {
    CastLibInfoView {
        number: c.number as i32,
        name: c.name@,
        member_count: c.members@.len() as usize,
        script_count: c.scripts@.len() as usize,
    }
}

/// Lists the cast libraries.
pub fn mcp_list_cast_libs(player: &DirPlayer) -> (r: Vec<McpCastLibInfo>)
    ensures
        r.deep_view() == player.casts@.map_values(|c: CastLib| cast_lib_info(c)),
{
    let ghost want = player.casts@.map_values(|c: CastLib| cast_lib_info(c));
    let mut libs: Vec<McpCastLibInfo> = Vec::new();
    let mut i: usize = 0;
    while i < player.casts.len()
        invariant
            i <= player.casts@.len(),
            want == player.casts@.map_values(|c: CastLib| cast_lib_info(c)),
            libs.deep_view() =~= want.take(i as int),
        decreases player.casts@.len() - i,
    {
        let cast = &player.casts[i];
        let info = McpCastLibInfo {
            number: cast.number as i32,
            name: cast.name.clone(),
            member_count: cast.members.len(),
            script_count: cast.scripts.len(),
        };
        let ghost prev = libs.deep_view();
        let ghost iv = info.deep_view();
        libs.push(info);
        proof {
            assert(libs.deep_view() =~= prev.push(iv));
            assert(want.take(i + 1) =~= want.take(i as int).push(iv));
        }
        i = i + 1;
    }
    assert(want.take(i as int) =~= want);
    libs
}

/// The registration point a bitmap member shows: its centre when it is set
/// to be centred and has a positive size, else the stored point.
pub open spec fn effective_reg_point(b: BitmapMember) -> (i16, i16) {
    if b.info.center_reg_point && b.info.width > 0 && b.info.height > 0 {
        ((b.info.width / 2) as i16, (b.info.height / 2) as i16)
    } else {
        b.reg_point
    }
}

/// Computes the registration point a bitmap member shows.
pub fn reg_point_of(b: &BitmapMember) -> (r: (i16, i16))
    ensures
        r == effective_reg_point(*b),
{
    if b.info.center_reg_point && b.info.width > 0 && b.info.height > 0 {
        ((b.info.width / 2) as i16, (b.info.height / 2) as i16)
    } else {
        b.reg_point
    }
}

/// A member in a listing; the bitmap fields are zero or false for members
/// that are not bitmaps.
pub open spec fn member_info(cast: CastLib, e: (u32, CastMember)) -> CastMemberInfoView {
    let base = CastMemberInfoView {
        cast_lib: cast.number as i32,
        cast_member: e.0 as i32,
        name: e.1.name@,
        member_type: e.1.type_label@,
        reg_x: 0,
        reg_y: 0,
        bit_depth: 0,
        use_alpha: false,
        palette_id: 0,
        width: 0,
        height: 0,
    };
    match e.1.kind {
        CastMemberKind::Bitmap(b) => CastMemberInfoView {
            reg_x: effective_reg_point(b).0,
            reg_y: effective_reg_point(b).1,
            bit_depth: b.info.bit_depth,
            use_alpha: b.info.use_alpha,
            palette_id: b.info.palette_id,
            width: b.info.width,
            height: b.info.height,
            ..base
        },
        _ => base,
    }
}

/// The members of the selected casts, cast by cast, in table order.
pub open spec fn member_infos(casts: Seq<CastLib>, cast_lib: Option<i32>) -> Seq<CastMemberInfoView>
    decreases casts.len(),
{
    if casts.len() == 0 {
        Seq::empty()
    } else if cast_selected(casts.last(), cast_lib) {
        member_infos(casts.drop_last(), cast_lib) + casts.last().members@.map_values(
            |e: (u32, CastMember)| member_info(casts.last(), e),
        )
    } else {
        member_infos(casts.drop_last(), cast_lib)
    }
}

fn build_member_info(cast: &CastLib, number: u32, member: &CastMember) -> (r: McpCastMemberInfo)
    ensures
        r.deep_view() == member_info(*cast, (number, *member)),
{
    let mut info = McpCastMemberInfo {
        cast_lib: cast.number as i32,
        cast_member: number as i32,
        name: member.name.clone(),
        member_type: member.type_label.clone(),
        reg_x: 0,
        reg_y: 0,
        bit_depth: 0,
        use_alpha: false,
        palette_id: 0,
        width: 0,
        height: 0,
    };
    match &member.kind {
        CastMemberKind::Bitmap(b) => {
            let (rx, ry) = reg_point_of(b);
            info.reg_x = rx;
            info.reg_y = ry;
            info.bit_depth = b.info.bit_depth;
            info.use_alpha = b.info.use_alpha;
            info.palette_id = b.info.palette_id;
            info.width = b.info.width;
            info.height = b.info.height;
        },
        _ => {},
    }
    info
}

/// Lists the members of the movie, or of one cast library.
pub fn mcp_list_cast_members(player: &DirPlayer, cast_lib: Option<i32>) -> (r: Vec<McpCastMemberInfo>)
    ensures
        r.deep_view() == member_infos(player.casts@, cast_lib),
{
    let mut members: Vec<McpCastMemberInfo> = Vec::new();
    let mut c: usize = 0;
    while c < player.casts.len()
        invariant
            c <= player.casts@.len(),
            members.deep_view() =~= member_infos(player.casts@.take(c as int), cast_lib),
        decreases player.casts@.len() - c,
    {
        let cast = &player.casts[c];
        let selected = match cast_lib {
            Some(lib) => cast.number as i32 == lib,
            None => true,
        };
        proof {
            assert(player.casts@.take(c + 1).drop_last() =~= player.casts@.take(c as int));
        }
        if selected {
            let ghost before = members.deep_view();
            let ghost want = cast.members@.map_values(|e: (u32, CastMember)| member_info(*cast, e));
            let mut k: usize = 0;
            while k < cast.members.len()
                invariant
                    k <= cast.members@.len(),
                    want == cast.members@.map_values(|e: (u32, CastMember)| member_info(*cast, e)),
                    members.deep_view() =~= before + want.take(k as int),
                decreases cast.members@.len() - k,
            {
                let info = build_member_info(cast, cast.members[k].0, &cast.members[k].1);
                let ghost prev = members.deep_view();
                let ghost iv = info.deep_view();
                members.push(info);
                proof {
                    assert(members.deep_view() =~= prev.push(iv));
                    assert(want.take(k + 1) =~= want.take(k as int).push(iv));
                }
                k = k + 1;
            }
            assert(want.take(k as int) =~= want);
        }
        c = c + 1;
    }
    assert(player.casts@.take(c as int) =~= player.casts@);
    members
}

/// The answer to a member inspection: the member, and for a script member
/// the script's type and handlers.
pub open spec fn member_details(p: DirPlayer, cast_lib: i32, cast_member: i32) -> Result<CastMemberDetailsView, Seq<char>> {
    match cast_pos(p.casts@, cast_lib as u32) {
        None => Err(cast_not_found_msg(cast_lib)),
        Some(c) => match member_pos(p.casts@[c].members@, cast_member as u32) {
            None => Err(member_not_found_msg(cast_lib, cast_member)),
            Some(m) => {
                let member = p.casts@[c].members@[m].1;
                let script = script_by_ref(p.casts@, CastMemberRef { cast_lib, cast_member });
                Ok(
                    CastMemberDetailsView {
                        cast_lib,
                        cast_member,
                        name: member.name@,
                        member_type: member.type_label@,
                        script_type: match script {
                            Some(s) => Some(script_type_label(s.script_type)),
                            None => None,
                        },
                        handlers: match script {
                            Some(s) => Some(s.handler_names.deep_view()),
                            None => None,
                        },
                    },
                )
            },
        },
    }
}

/// Inspects a cast member.
pub fn mcp_inspect_cast_member(player: &DirPlayer, cast_lib: i32, cast_member: i32) -> (r: Result<McpCastMemberDetails, McpError>)
    ensures
        answers(r, member_details(*player, cast_lib, cast_member)),
{
    let member_ref = CastMemberRef { cast_lib, cast_member };
    let c = match cast_index(&player.casts, cast_lib as u32) {
        Some(c) => c,
        None => {
            return Err(cast_not_found(cast_lib));
        },
    };
    let cast = &player.casts[c];
    let m = match member_index(&cast.members, cast_member as u32) {
        Some(m) => m,
        None => {
            return Err(member_not_found(cast_lib, cast_member));
        },
    };
    let member = &cast.members[m].1;
    let (script_type, handlers) = match find_script_by_ref(&player.casts, member_ref) {
        Some((sc, ss)) => {
            let script = &player.casts[sc].scripts[ss].1;
            (
                Some(String::from_str(script_type_str(&script.script_type))),
                Some(copy_strings(&script.handler_names)),
            )
        },
        None => (None, None),
    };
    Ok(
        McpCastMemberDetails {
            cast_lib,
            cast_member,
            name: member.name.clone(),
            member_type: member.type_label.clone(),
            script_type,
            handlers,
        },
    )
}

} // verus!
