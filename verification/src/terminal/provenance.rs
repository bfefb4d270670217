//! Which writes are remembered as a session's last command, and in what form.
//!
//! Only a write tagged as a structured command run is remembered. Raw
//! keystrokes never are: they may hold secrets typed at a prompt.

use vstd::prelude::*;
use crate::terminal::session_manager::WriteMeta;
use crate::text::{
    is_white_space, lemma_trim_is_the_inner_part, opt_text, str_eq, string_of_range,
    strip_line_breaks, survives_line_break_removal, trim, trim_bounds, truncated,
    without_line_breaks,
};

verus! {

/// The origin tag of a structured command run.
pub const COMMAND_ORIGIN: &'static str = "commanddock";

/// The most characters of a command that are remembered.
pub const COMMAND_LIMIT: usize = 512;

/// The remembered form of written data: carriage returns and line feeds
/// removed, then white space trimmed from both ends, then cut to the first
/// 512 characters.
pub open spec fn normalized_command(data: Seq<char>) -> Seq<char> {
    truncated(trim(without_line_breaks(data, false)), COMMAND_LIMIT as nat)
}

/// The form of written data that goes to the command history: carriage
/// returns removed, then white space trimmed from both ends.
pub open spec fn history_text(data: Seq<char>) -> Seq<char> {
    trim(without_line_breaks(data, true))
}

/// Whether an origin tag is that of a structured command run.
pub open spec fn is_command_origin(origin: Option<Seq<char>>) -> bool {
    origin == Some(COMMAND_ORIGIN@)
}

/// The origin tag of a write, as a sequence.
pub open spec fn origin_of(meta: WriteMeta) -> Option<Seq<char>> {
    opt_text(meta.origin)
}

/// What a write leaves as the session's last command: the normalized data if
/// the write is tagged as a command run and that form is not empty, else
/// nothing.
pub open spec fn command_to_remember(data: Seq<char>, origin: Option<Seq<char>>) -> Option<
    Seq<char>,
> {
    if is_command_origin(origin) && normalized_command(data).len() > 0 {
        Some(normalized_command(data))
    } else {
        None
    }
}

/// What a write adds to the command history: the history form of the data if
/// the write is tagged as a command run and that form is not empty, else
/// nothing.
pub open spec fn command_to_log(data: Seq<char>, origin: Option<Seq<char>>) -> Option<Seq<char>> {
    if is_command_origin(origin) && history_text(data).len() > 0 {
        Some(history_text(data))
    } else {
        None
    }
}

/// What is remembered of a command holds no carriage return and no line
/// feed, has at most 512 characters, and does not start with white space.
pub proof fn law_normalized_command_is_one_short_line(data: Seq<char>)
    ensures
        normalized_command(data).len() <= COMMAND_LIMIT,
        !normalized_command(data).contains('\r'),
        !normalized_command(data).contains('\n'),
        normalized_command(data).len() > 0 ==> !is_white_space(normalized_command(data)[0]),
{
    let kept = without_line_breaks(data, false);
    let (a, b) = lemma_trim_is_the_inner_part(kept);
    let cmd = normalized_command(data);
    assert forall|i: int| 0 <= i < cmd.len() implies cmd[i] != '\r' && cmd[i] != '\n' by {
        assert(cmd[i] == kept[a + i]);
        kept_survives(data, a + i);
    }
    if cmd.len() > 0 {
        assert(cmd[0] == kept[a]);
    }
}

/// No character that is left after the removal is a line break.
proof fn kept_survives(data: Seq<char>, i: int)
    requires
        0 <= i < without_line_breaks(data, false).len(),
    ensures
        survives_line_break_removal(without_line_breaks(data, false)[i], false),
{
    data.lemma_filter_pred(|c: char| survives_line_break_removal(c, false), i);
}

/// The remembered form of `data`.
pub fn normalize_command(data: &str) -> (cmd: String)
    ensures
        cmd@ == normalized_command(data@),
        cmd@.len() <= COMMAND_LIMIT,
{
    let kept = strip_line_breaks(data, false);
    let (a, b) = trim_bounds(&kept);
    let end = if b - a > COMMAND_LIMIT {
        a + COMMAND_LIMIT
    } else {
        b
    };
    proof {
        let t = kept@.subrange(a as int, b as int);
        assert(kept@.subrange(a as int, end as int) =~= truncated(t, COMMAND_LIMIT as nat));
    }
    string_of_range(&kept, a, end)
}

/// Tells whether a write is tagged as a structured command run.
pub fn is_command_run(meta: &WriteMeta) -> (r: bool)
    ensures
        r == is_command_origin(origin_of(*meta)),
{
    match &meta.origin {
        Some(o) => str_eq(o.as_str(), COMMAND_ORIGIN),
        None => false,
    }
}

/// What a write of `data` with `meta` leaves as the session's last command.
/// A write that is not tagged as a command run leaves nothing, whatever the
/// data looks like.
pub fn remembered_command(data: &str, meta: &WriteMeta) -> (r: Option<String>)
    ensures
        match command_to_remember(data@, origin_of(*meta)) {
            Some(c) => r matches Some(s) && s@ == c,
            None => r is None,
        },
        !is_command_origin(origin_of(*meta)) ==> r is None,
{
    if is_command_run(meta) {
        let cmd = normalize_command(data);
        if cmd.as_str().unicode_len() > 0 {
            Some(cmd)
        } else {
            None
        }
    } else {
        None
    }
}

/// What a write of `data` with origin `origin` adds to the command history.
pub fn logged_command(data: &str, origin: Option<&str>) -> (r: Option<String>)
    ensures
        match command_to_log(
            data@,
            match origin {
                Some(o) => Some(o@),
                None => None,
            },
        ) {
            Some(c) => r matches Some(s) && s@ == c,
            None => r is None,
        },
{
    let tagged = match origin {
        Some(o) => str_eq(o, COMMAND_ORIGIN),
        None => false,
    };
    if tagged {
        let kept = strip_line_breaks(data, true);
        let (a, b) = trim_bounds(&kept);
        if a < b {
            Some(string_of_range(&kept, a, b))
        } else {
            None
        }
    } else {
        None
    }
}

} // verus!
