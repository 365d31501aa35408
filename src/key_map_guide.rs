//! The human-readable table of key bindings shown in the help overlay.

use vstd::prelude::*;
use crate::command::CommandCategory;
use crate::text::{contains_seq, contains_text};

verus! {

/// A binding as the guide lists it: the keys and what they do.
pub type KeyBinding = (&'static str, &'static str);

/// The global bindings, in the order the guide lists them.
pub open spec fn global_keymaps() -> Seq<KeyBinding> {
    seq![
        ("q", "Quit"),
        ("Tab", "Toggle focus"),
        ("F5", "Execute query"),
        ("?", "Show key map")
    ]
}

/// The bindings that act whatever has focus.
pub fn get_global_keymaps() -> (r: Vec<KeyBinding>)
    ensures
        r@ == global_keymaps(),
{
    let r = vec![
        ("q", "Quit"),
        ("Tab", "Toggle focus"),
        ("F5", "Execute query"),
        ("?", "Show key map")
    ];
    proof {
        assert(r@ =~= global_keymaps());
    }
    r
}

/// The data table bindings, in the order the guide lists them.
pub open spec fn data_table_keymaps() -> Seq<KeyBinding> {
    seq![
        ("[", "Previous tab"),
        ("]", "Next tab"),
        ("j / ↓", "Next row"),
        ("k / ↑", "Previous row"),
        ("PageDown / Space", "Next page"),
        ("PageUp", "Previous page"),
        ("g", "Jump to first row"),
        ("G", "Jump to last row"),
        ("l / →", "Next column"),
        ("h / ←", "Previous column"),
        (">", "Scroll right"),
        ("<", "Scroll left"),
        ("w", "Increase column width"),
        ("W", "Decrease column width"),
        ("n", "Next color"),
        ("p", "Previous color"),
        ("y", "Copy selected cell"),
        ("Y", "Copy selected row"),
        ("C", "Copy query to editor"),
        ("R", "Run selected history query"),
        ("1-9", "Set tab index")
    ]
}

/// The bindings of the result table.
pub fn get_data_table_keymaps() -> (r: Vec<KeyBinding>)
    ensures
        r@ == data_table_keymaps(),
{
    let r = vec![
        ("[", "Previous tab"),
        ("]", "Next tab"),
        ("j / ↓", "Next row"),
        ("k / ↑", "Previous row"),
        ("PageDown / Space", "Next page"),
        ("PageUp", "Previous page"),
        ("g", "Jump to first row"),
        ("G", "Jump to last row"),
        ("l / →", "Next column"),
        ("h / ←", "Previous column"),
        (">", "Scroll right"),
        ("<", "Scroll left"),
        ("w", "Increase column width"),
        ("W", "Decrease column width"),
        ("n", "Next color"),
        ("p", "Previous color"),
        ("y", "Copy selected cell"),
        ("Y", "Copy selected row"),
        ("C", "Copy query to editor"),
        ("R", "Run selected history query"),
        ("1-9", "Set tab index")
    ];
    proof {
        assert(r@ =~= data_table_keymaps());
    }
    r
}

/// The sidebar bindings, in the order the guide lists them.
pub open spec fn sidebar_keymaps() -> Seq<KeyBinding> {
    seq![
        ("Enter / Space", "Toggle selected"),
        ("←", "Collapse"),
        ("→", "Expand"),
        ("↓", "Down"),
        ("↑", "Up"),
        ("Esc", "Deselect"),
        ("Home", "Select first"),
        ("End", "Select last"),
        ("PageDown", "Scroll down"),
        ("PageUp", "Scroll up")
    ]
}

/// The bindings of the schema tree.
pub fn get_sidebar_keymaps() -> (r: Vec<KeyBinding>)
    ensures
        r@ == sidebar_keymaps(),
{
    let r = vec![
        ("Enter / Space", "Toggle selected"),
        ("←", "Collapse"),
        ("→", "Expand"),
        ("↓", "Down"),
        ("↑", "Up"),
        ("Esc", "Deselect"),
        ("Home", "Select first"),
        ("End", "Select last"),
        ("PageDown", "Scroll down"),
        ("PageUp", "Scroll up")
    ];
    proof {
        assert(r@ =~= sidebar_keymaps());
    }
    r
}

/// The editor bindings, in the order the guide lists them.
pub open spec fn editor_keymaps() -> Seq<KeyBinding> {
    seq![
        ("Normal Mode", ""),
        ("  h/j/k/l", "Move cursor"),
        ("  w/b", "Move by word"),
        ("  ^/$", "Move to line start/end"),
        ("  g/G", "Move to top/bottom"),
        ("  i/a", "Enter insert mode"),
        ("  o/O", "Insert line below/above"),
        ("  v/V", "Enter visual mode"),
        ("  d/c/y", "Delete/change/yank (operator)"),
        ("  dd/cc/yy", "Delete/change/yank line"),
        ("  p", "Paste"),
        ("  u", "Undo"),
        ("  Ctrl+r", "Redo"),
        ("Insert Mode", ""),
        ("  Esc/Ctrl+c", "Enter normal mode"),
        ("Visual Mode", ""),
        ("  Esc/v", "Enter normal mode"),
        ("  d/c/y", "Delete/change/yank selection")
    ]
}

/// The bindings of the query editor, grouped under their mode.
pub fn get_editor_keymaps() -> (r: Vec<KeyBinding>)
    ensures
        r@ == editor_keymaps(),
{
    let r = vec![
        ("Normal Mode", ""),
        ("  h/j/k/l", "Move cursor"),
        ("  w/b", "Move by word"),
        ("  ^/$", "Move to line start/end"),
        ("  g/G", "Move to top/bottom"),
        ("  i/a", "Enter insert mode"),
        ("  o/O", "Insert line below/above"),
        ("  v/V", "Enter visual mode"),
        ("  d/c/y", "Delete/change/yank (operator)"),
        ("  dd/cc/yy", "Delete/change/yank line"),
        ("  p", "Paste"),
        ("  u", "Undo"),
        ("  Ctrl+r", "Redo"),
        ("Insert Mode", ""),
        ("  Esc/Ctrl+c", "Enter normal mode"),
        ("Visual Mode", ""),
        ("  Esc/v", "Enter normal mode"),
        ("  d/c/y", "Delete/change/yank selection")
    ];
    proof {
        assert(r@ =~= editor_keymaps());
    }
    r
}

/// The bindings of one category of the guide.
pub fn keymaps_of(category: CommandCategory) -> (r: Vec<KeyBinding>)
    ensures
        r@ == match category {
            CommandCategory::Global => global_keymaps(),
            CommandCategory::Editor => editor_keymaps(),
            CommandCategory::DataTable => data_table_keymaps(),
            CommandCategory::Sidebar => sidebar_keymaps(),
        },
{
    match category {
        CommandCategory::Global => get_global_keymaps(),
        CommandCategory::Editor => get_editor_keymaps(),
        CommandCategory::DataTable => get_data_table_keymaps(),
        CommandCategory::Sidebar => get_sidebar_keymaps(),
    }
}

/// One line of the guide.
#[derive(Clone, Copy, Debug, PartialEq, Eq)]
pub enum GuideRow {
    /// A mode heading of the editor's bindings, on a line of its own.
    Heading(&'static str),
    /// Up to two bindings side by side.
    Pair(KeyBinding, Option<KeyBinding>),
}

/// In the editor's table, the entries naming a mode are headings.
pub open spec fn is_heading(b: KeyBinding, editor: bool) -> bool {
    editor && contains_seq(b.0@, " Mode"@)
}

/// The guide's lines for bindings `k` from entry `i` on: a heading alone,
/// else a binding with the next one beside it unless that one is a heading.
pub open spec fn rows_from(k: Seq<KeyBinding>, editor: bool, i: nat) -> Seq<GuideRow>
    decreases k.len() - i,
{
    if i >= k.len() {
        Seq::empty()
    } else if is_heading(k[i as int], editor) {
        seq![GuideRow::Heading(k[i as int].0)] + rows_from(k, editor, i + 1)
    } else if i + 1 < k.len() && !is_heading(k[i as int + 1], editor) {
        seq![GuideRow::Pair(k[i as int], Some(k[i as int + 1]))] + rows_from(k, editor, i + 2)
    } else {
        seq![GuideRow::Pair(k[i as int], None)] + rows_from(k, editor, i + 1)
    }
}

fn heading(b: KeyBinding, editor: bool) -> (r: bool)
    ensures
        r == is_heading(b, editor),
{
    editor && contains_text(b.0, " Mode")
}

/// The guide's lines for one category's bindings.
pub fn guide_rows(keymaps: &Vec<KeyBinding>, category: CommandCategory) -> (r: Vec<GuideRow>)
    ensures
        r@ == rows_from(keymaps@, category == CommandCategory::Editor, 0),
{
    let editor = category == CommandCategory::Editor;
    let ghost k = keymaps@;
    let n = keymaps.len();
    let mut r: Vec<GuideRow> = Vec::new();
    let mut i: usize = 0;
    while i < n
        invariant
            n == k.len(),
            k == keymaps@,
            i <= n,
            r@ + rows_from(k, editor, i as nat) == rows_from(k, editor, 0),
        decreases n - i,
    {
        let b = keymaps[i];
        let ghost before = r@;
        if heading(b, editor) {
            r.push(GuideRow::Heading(b.0));
            proof {
                assert(before + rows_from(k, editor, i as nat) =~= r@ + rows_from(k, editor, (i + 1) as nat));
            }
            i += 1;
        } else if i + 1 < n && !heading(keymaps[i + 1], editor) {
            r.push(GuideRow::Pair(b, Some(keymaps[i + 1])));
            proof {
                assert(before + rows_from(k, editor, i as nat) =~= r@ + rows_from(k, editor, (i + 2) as nat));
            }
            i += 2;
        } else {
            r.push(GuideRow::Pair(b, None));
            proof {
                assert(before + rows_from(k, editor, i as nat) =~= r@ + rows_from(k, editor, (i + 1) as nat));
            }
            i += 1;
        }
    }
    proof {
        assert(r@ + rows_from(k, editor, i as nat) =~= r@);
    }
    r
}

} // verus!
