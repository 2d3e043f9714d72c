pub mod manage_focus;
pub mod render;

use vstd::prelude::*;

use crate::text::{join_lines, join_with_newlines, split_at_newlines, split_lines, views_of};
use crate::tui::conf::Conf;
use crate::tui::my_widgets::input_field::Field;

pub use manage_focus::{ExplorerListItem, Focus, UiAction};

verus! {

/// A string divided into lines.
pub struct LinesString(pub Vec<String>);

impl View for LinesString {
    type V = Seq<Seq<char>>;

    open spec fn view(&self) -> Seq<Seq<char>> {
        views_of(self.0@)
    }
}

impl LinesString {
    pub fn from_vec(v: Vec<String>) -> (l: Self)
        ensures
            l.0 == v,
    {
        Self(v)
    }

    /// Lines copied from string slices, in order.
    pub fn from_iter(v: &[&str]) -> (l: Self)
        ensures
            l@ == v@.map_values(|s: &str| s@),
    {
        let mut lines: Vec<String> = Vec::new();
        let n = v.len();
        for i in 0..n
            invariant
                n == v@.len(),
                lines@.len() == i,
                views_of(lines@) == v@.take(i as int).map_values(|s: &str| s@),
        {
            let ghost before = lines@;
            let line = v[i].to_owned();
            lines.push(line);
            assert(v@.take(i + 1) =~= v@.take(i as int).push(v@[i as int]));
            assert(lines@ =~= before.push(lines@[i as int]));
            assert(views_of(lines@) =~= views_of(before).push(v@[i as int]@));
            assert(views_of(lines@) =~= v@.take(i + 1).map_values(|s: &str| s@));
        }
        assert(v@.take(n as int) =~= v@);
        Self::from_vec(lines)
    }

    /// The lines, in order.
    pub fn lines(&self) -> (v: Vec<&str>)
        ensures
            v@.map_values(|s: &str| s@) == self@,
    {
        let mut out: Vec<&str> = Vec::new();
        let n = self.0.len();
        for i in 0..n
            invariant
                n == self.0@.len(),
                out@.len() == i,
                out@.map_values(|s: &str| s@) == self@.take(i as int),
        {
            let ghost before = out@;
            out.push(self.0[i].as_str());
            assert(out@ =~= before.push(out@[i as int]));
            assert(out@.map_values(|s: &str| s@) =~= before.map_values(|s: &str| s@).push(self.0@[i as int]@));
            assert(out@.map_values(|s: &str| s@) =~= self@.take(i + 1));
        }
        assert(self@.take(n as int) =~= self@);
        out
    }

    /// The lines joined with newlines.
    pub fn to_string(&self) -> (s: String)
        ensures
            s@ == join_lines(self@),
    {
        join_with_newlines(&self.0)
    }

    /// The lines of `s`, split at every newline.
    pub fn from_text(s: &str) -> (l: Self)
        ensures
            l@ == split_lines(s@),
    {
        Self(split_at_newlines(s))
    }
}

impl Default for LinesString {
    fn default() -> (l: Self)
        ensures
            l@.len() == 0,
    {
        LinesString(Vec::new())
    }
}

/// The backup page being edited: its name, its description, and the state
/// of the field being typed into.
pub struct BkpCtx {
    pub name_field: String,
    pub desc_field: LinesString,
    /// Use default for inactive input fields
    pub cur_state: Field,
}

impl Default for BkpCtx {
    fn default() -> (c: Self)
        ensures
            c.name_field@.len() == 0,
            c.desc_field@.len() == 0,
            c.cur_state.cursor@ == (0int, 0int),
            c.cur_state.lines@.len() == 0,
            c.cur_state.max_lines is None,
            c.cur_state.max_line_len is None,
    {
        BkpCtx { name_field: String::new(), desc_field: LinesString::default(), cur_state: Field::default() }
    }
}

/// The application state.
pub struct State {
    /// Stores all the backups and where the application keeps its files.
    pub conf: Conf,
    pub focus: Focus,
    pub bkp_ctx: BkpCtx,
    /// Set by [`State::exec_ui_action`] when Enter is pressed on the name or
    /// description field.
    pub editing: bool,
    pub list_item: Option<ExplorerListItem>,
}

impl State {
    /// A state over the given settings: nothing focused, nothing selected,
    /// an empty backup page, not editing.
    pub fn from_conf(conf: Conf) -> (s: Self)
        ensures
            s.conf == conf,
            s.focus == Focus::Nothing,
            s.bkp_ctx.name_field@.len() == 0,
            s.bkp_ctx.desc_field@.len() == 0,
            s.bkp_ctx.cur_state.cursor@ == (0int, 0int),
            s.bkp_ctx.cur_state.lines@.len() == 0,
            s.bkp_ctx.cur_state.max_lines is None,
            s.bkp_ctx.cur_state.max_line_len is None,
            !s.editing,
            s.list_item is None,
    {
        State {
            conf,
            focus: Focus::Nothing,
            bkp_ctx: BkpCtx::default(),
            editing: false,
            list_item: None,
        }
    }

    /// Returns `true` when the backup list is empty.
    pub fn bkps_empty(&self) -> (b: bool)
        ensures
            b == (self.conf.bkps@.len() == 0),
    {
        self.conf.bkps.len() == 0
    }
}

} // verus!
