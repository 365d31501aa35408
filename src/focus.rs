//! Which panel owns keyboard input.

use vstd::prelude::*;

verus! {

/// The panel that currently receives keys.
#[derive(Clone, Copy, Debug, PartialEq, Eq, Structural)]
pub enum Focus {
    Sidebar,
    Editor,
    Table,
}

impl Focus {
    /// The panel that a focus toggle moves to: sidebar, editor, table, and round.
    pub fn next(self) -> (r: Focus)
        ensures
            r == next_focus(self),
    {
        match self {
            Focus::Sidebar => Focus::Editor,
            Focus::Editor => Focus::Table,
            Focus::Table => Focus::Sidebar,
        }
    }
}

/// The cyclic order of the panels.
pub open spec fn next_focus(f: Focus) -> Focus {
    match f {
        Focus::Sidebar => Focus::Editor,
        Focus::Editor => Focus::Table,
        Focus::Table => Focus::Sidebar,
    }
}

} // verus!
