//! The error answers of the queries.
use vstd::prelude::*;
use crate::response::McpError;
use crate::text::{decimal, push_decimal};

verus! {

/// "Cast library N not found"
pub open spec fn cast_not_found_msg(cast_lib: i32) -> Seq<char> {
    "Cast library "@ + decimal(cast_lib as int) + " not found"@
}

pub fn cast_not_found(cast_lib: i32) -> (e: McpError)
    ensures
        e.error@ == cast_not_found_msg(cast_lib),
{
    let mut s = String::from_str("Cast library ");
    push_decimal(&mut s, cast_lib as i64);
    s.append(" not found");
    McpError { error: s }
}

/// "Cast member M not found in cast library N"
pub open spec fn member_not_found_msg(cast_lib: i32, cast_member: i32) -> Seq<char> {
    "Cast member "@ + decimal(cast_member as int) + " not found in cast library "@ + decimal(
        cast_lib as int,
    )
}

pub fn member_not_found(cast_lib: i32, cast_member: i32) -> (e: McpError)
    ensures
        e.error@ == member_not_found_msg(cast_lib, cast_member),
{
    let mut s = String::from_str("Cast member ");
    push_decimal(&mut s, cast_member as i64);
    s.append(" not found in cast library ");
    push_decimal(&mut s, cast_lib as i64);
    McpError { error: s }
}

/// "Cast member N/M is not a KIND (type: TYPE)"
pub open spec fn wrong_kind_msg(
    cast_lib: i32,
    cast_member: i32,
    kind: Seq<char>,
    type_label: Seq<char>,
) -> Seq<char> {
    "Cast member "@ + decimal(cast_lib as int) + "/"@ + decimal(cast_member as int) + " is not a "@
        + kind + " (type: "@ + type_label + ")"@
}

pub fn wrong_kind(cast_lib: i32, cast_member: i32, kind: &str, type_label: &String) -> (e: McpError)
    ensures
        e.error@ == wrong_kind_msg(cast_lib, cast_member, kind@, type_label@),
{
    let mut s = String::from_str("Cast member ");
    push_decimal(&mut s, cast_lib as i64);
    s.append("/");
    push_decimal(&mut s, cast_member as i64);
    s.append(" is not a ");
    s.append(kind);
    s.append(" (type: ");
    s.append(type_label.as_str());
    s.append(")");
    McpError { error: s }
}

} // verus!
