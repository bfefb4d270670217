//! What a caller asks of a session backend: the kind of session, how to spawn
//! it, and where a write came from.

use vstd::prelude::*;

verus! {

/// Columns of a new pseudo-terminal when the caller names none.
pub const DEFAULT_COLS: u16 = 120;

/// Rows of a new pseudo-terminal when the caller names none.
pub const DEFAULT_ROWS: u16 = 30;

/// The two kinds of session. The kind is kept for the caller's bookkeeping and
/// changes nothing in a session's life.
#[derive(Clone, Copy, Debug, PartialEq, Eq, Structural)]
pub enum TerminalKind {
    Local,
    Ssh,
}

/// How to spawn one session: consumed once by the spawner.
#[derive(Clone, Debug)]
pub struct SpawnSpec {
    pub kind: TerminalKind,
    pub environment_tag: String,
    pub initial_cols: Option<u16>,
    pub initial_rows: Option<u16>,
    pub program: String,
    pub args: Vec<String>,
}

impl SpawnSpec {
    /// The size that the pseudo-terminal is opened with, as (columns, rows).
    pub open spec fn spec_size(self) -> (u16, u16) {
        (
            match self.initial_cols {
                Some(c) => c,
                None => DEFAULT_COLS,
            },
            match self.initial_rows {
                Some(r) => r,
                None => DEFAULT_ROWS,
            },
        )
    }

    /// The size that the pseudo-terminal is opened with, as (columns, rows):
    /// what the spec names, and 120 by 30 where it names nothing.
    pub fn size(&self) -> (r: (u16, u16))
        ensures
            r == self.spec_size(),
    {
        let cols = match self.initial_cols {
            Some(c) => c,
            None => DEFAULT_COLS,
        };
        let rows = match self.initial_rows {
            Some(r) => r,
            None => DEFAULT_ROWS,
        };
        (cols, rows)
    }
}

/// What accompanies a write.
#[derive(Clone, Debug)]
pub struct WriteMeta {
    /// Where the write came from, such as "user" or "commanddock". Only used
    /// for the session's in-memory record of the last command.
    pub origin: Option<String>,
}

impl Default for WriteMeta {
    fn default() -> (r: Self)
        ensures
            r.origin is None,
    {
        WriteMeta { origin: None }
    }
}

} // verus!
