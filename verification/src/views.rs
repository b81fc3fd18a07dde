//! The views of the process table: each with its own table state, filter
//! error and focus, and the collection of views with the active one.

use vstd::prelude::*;
use crate::table_state::{ProcessTableState, TableStateModel};

verus! {

/// The part of a view that has the focus.
#[derive(Debug, Clone, Copy, PartialEq, Eq, Structural)]
pub enum ProcessTableViewFocus {
    Columns,
    Rows,
    Filter,
}

impl ProcessTableViewFocus {
    pub fn set_to_columns(&mut self)
        ensures
            *final(self) == ProcessTableViewFocus::Columns,
    {
        *self = ProcessTableViewFocus::Columns;
    }

    pub fn set_to_rows(&mut self)
        ensures
            *final(self) == ProcessTableViewFocus::Rows,
    {
        *self = ProcessTableViewFocus::Rows;
    }

    pub fn set_to_filter(&mut self)
        ensures
            *final(self) == ProcessTableViewFocus::Filter,
    {
        *self = ProcessTableViewFocus::Filter;
    }
}

impl Default for ProcessTableViewFocus {
    fn default() -> (r: Self)
        ensures
            r == ProcessTableViewFocus::Rows,
    {
        ProcessTableViewFocus::Rows
    }
}

/// A view, as values.
pub struct ViewModel {
    pub state: TableStateModel,
    pub err: Option<Seq<char>>,
    pub focus: ProcessTableViewFocus,
}

/// A view of the process table.
#[derive(Debug)]
pub struct ProcessTableView {
    table_state: ProcessTableState,
    /// The last error of the filter, if any
    filter_err_msg: Option<String>,
    focus: ProcessTableViewFocus,
}

impl View for ProcessTableView {
    type V = ViewModel;

    closed spec fn view(&self) -> ViewModel {
        ViewModel {
            state: self.table_state@,
            err: match self.filter_err_msg {
                Some(s) => Some(s@),
                None => None,
            },
            focus: self.focus,
        }
    }
}

impl ProcessTableView {
    /// A view of `table_state` with focus `focus` and no filter error.
    pub fn from_parts(table_state: ProcessTableState, focus: ProcessTableViewFocus) -> (r: Self)
        ensures
            r@ == (ViewModel { state: table_state@, err: None, focus }),
    {
        ProcessTableView { table_state, filter_err_msg: None, focus }
    }

    /// A copy of this view.
    pub fn new_from_existing(&self) -> (r: Self)
        ensures
            r@ == self@,
    {
        ProcessTableView {
            table_state: self.table_state.clone(),
            filter_err_msg: match &self.filter_err_msg {
                Some(s) => Some(s.clone()),
                None => None,
            },
            focus: self.focus,
        }
    }

    pub fn table_state(&self) -> (r: &ProcessTableState)
        ensures
            r@ == self@.state,
    {
        &self.table_state
    }

    /// The table state, to edit.
    pub fn mut_table_state(&mut self) -> (r: &mut ProcessTableState)
        ensures
            r@ == old(self)@.state,
            final(self)@ == (ViewModel { state: final(r)@, ..old(self)@ }),
    {
        &mut self.table_state
    }

    pub fn view_focus(&self) -> (r: &ProcessTableViewFocus)
        ensures
            *r == self@.focus,
    {
        &self.focus
    }

    /// The focus, to edit.
    pub fn mut_view_focus(&mut self) -> (r: &mut ProcessTableViewFocus)
        ensures
            *r == old(self)@.focus,
            final(self)@ == (ViewModel { focus: *final(r), ..old(self)@ }),
    {
        &mut self.focus
    }

    pub fn set_filter_err_msg(&mut self, s: &str)
        ensures
            final(self)@ == (ViewModel { err: Some(s@), ..old(self)@ }),
    {
        self.filter_err_msg = Some(crate::text::string_of(s));
    }

    pub fn set_filter_err_msg_to_none(&mut self)
        ensures
            final(self)@ == (ViewModel { err: None, ..old(self)@ }),
    {
        self.filter_err_msg = None;
    }

    pub fn filter_err_msg(&self) -> (r: Option<&String>)
        ensures
            match r {
                Some(s) => self@.err == Some(s@),
                None => self@.err is None,
            },
    {
        match &self.filter_err_msg {
            Some(s) => Some(s),
            None => None,
        }
    }
}

impl Default for ProcessTableView {
    fn default() -> (r: Self)
        ensures
            crate::table_state::default_table_state(r@.state),
            r@.err is None,
            r@.focus == ProcessTableViewFocus::Rows,
    {
        ProcessTableView {
            table_state: ProcessTableState::default(),
            filter_err_msg: None,
            focus: ProcessTableViewFocus::Rows,
        }
    }
}

impl Clone for ProcessTableView {
    fn clone(&self) -> (r: Self)
        ensures
            r@ == self@,
    {
        self.new_from_existing()
    }
}

/// A copy of each view of `views`.
pub fn copy_views(views: &Vec<ProcessTableView>) -> (r: Vec<ProcessTableView>)
    ensures
        r@.map_values(|v: ProcessTableView| v@) == views@.map_values(|v: ProcessTableView| v@),
{
    let mut copy: Vec<ProcessTableView> = Vec::new();
    let mut i: usize = 0;
    while i < views.len()
        invariant
            i <= views@.len(),
            copy@.len() == i,
            forall|j: int| 0 <= j < i ==> (#[trigger] copy@[j])@ == views@[j]@,
        decreases views@.len() - i,
    {
        let v = views[i].new_from_existing();
        copy.push(v);
        i = i + 1;
    }
    proof {
        assert(copy@.map_values(|v: ProcessTableView| v@) =~= views@.map_values(
            |v: ProcessTableView| v@,
        ));
    }
    copy
}

/// How the views are laid out on the screen.
#[derive(Debug, Clone, Copy, PartialEq, Eq, Structural)]
pub enum ViewsOrientation {
    SplitHorizontal,
    SplitVertical,
}

impl ViewsOrientation {
    pub fn set_to_split_horizontal(&mut self)
        ensures
            *final(self) == ViewsOrientation::SplitHorizontal,
    {
        *self = ViewsOrientation::SplitHorizontal;
    }

    pub fn set_to_split_vertical(&mut self)
        ensures
            *final(self) == ViewsOrientation::SplitVertical,
    {
        *self = ViewsOrientation::SplitVertical;
    }
}

/// The views, as values.
pub struct ViewsModel {
    pub views: Seq<ViewModel>,
    pub selection: usize,
    pub orientation: ViewsOrientation,
    pub capacity: usize,
}

impl ViewsModel {
    /// The active view.
    pub open spec fn active(self) -> ViewModel {
        self.views[self.selection as int]
    }

    /// These views with the active one replaced by `v`.
    pub open spec fn with_active(self, v: ViewModel) -> ViewsModel {
        ViewsModel { views: self.views.update(self.selection as int, v), ..self }
    }

    /// There is a view and the selection names one.
    pub open spec fn wf(self) -> bool {
        0 < self.views.len() && self.selection < self.views.len()
    }

    /// These views with the next one active, the first after the last.
    pub open spec fn after_inc(self) -> ViewsModel {
        ViewsModel {
            selection: if self.selection + 1 < self.views.len() {
                (self.selection + 1) as usize
            } else {
                0
            },
            ..self
        }
    }

    /// These views with the previous one active, the last before the first.
    pub open spec fn after_dec(self) -> ViewsModel {
        ViewsModel {
            selection: if self.selection > 0 {
                (self.selection - 1) as usize
            } else {
                (self.views.len() - 1) as usize
            },
            ..self
        }
    }
}

/// Making the next view active and then the previous one comes back to the
/// same view, and so does the other way round; each keeps the views whole.
pub proof fn law_views_inc_dec_inverse(vs: ViewsModel)
    requires
        vs.wf(),
        vs.views.len() <= usize::MAX,
    ensures
        vs.after_inc().wf(),
        vs.after_dec().wf(),
        vs.after_inc().after_dec() == vs,
        vs.after_dec().after_inc() == vs,
{
}

/// The number of views a new collection may hold.
pub const DEFAULT_VIEWS_CAPACITY: usize = 2;

/// The views and the index of the active one.
#[derive(Debug)]
struct ViewList {
    /// The views; never empty
    views: Vec<ProcessTableView>,
    /// The index of the active view; always names a view
    selection: usize,
}

impl ViewList {
    #[verifier::type_invariant]
    spec fn inv(&self) -> bool {
        0 < self.views@.len() && self.selection < self.views@.len()
    }

    closed spec fn models(&self) -> Seq<ViewModel> {
        self.views@.map_values(|v: ProcessTableView| v@)
    }

    closed spec fn sel(&self) -> usize {
        self.selection
    }

    fn wf(&self) -> (r: bool)
        ensures
            r,
            0 < self.models().len(),
            self.sel() < self.models().len(),
    {
        proof {
            use_type_invariant(self);
        }
        true
    }

    fn new(views: Vec<ProcessTableView>, selection: usize) -> (r: Self)
        requires
            0 < views@.len(),
            selection < views@.len(),
        ensures
            r.models() == views@.map_values(|v: ProcessTableView| v@),
            r.sel() == selection,
    {
        ViewList { views, selection }
    }

    /// Moves the views out, leaving a single default view in their place.
    fn take(&mut self) -> (r: (Vec<ProcessTableView>, usize))
        ensures
            r.0@.map_values(|v: ProcessTableView| v@) == old(self).models(),
            r.1 == old(self).sel(),
            r.1 < r.0@.len(),
    {
        proof {
            use_type_invariant(&*self);
        }
        let sel = self.selection;
        self.selection = 0;
        let mut views = vec![ProcessTableView::default()];
        std::mem::swap(&mut views, &mut self.views);
        (views, sel)
    }

    fn active(&self) -> (r: &ProcessTableView)
        ensures
            r@ == self.models()[self.sel() as int],
            self.sel() < self.models().len(),
    {
        proof {
            use_type_invariant(self);
        }
        &self.views[self.selection]
    }

    fn mut_at(&mut self, i: usize) -> (r: &mut ProcessTableView)
        requires
            i < old(self).models().len(),
        ensures
            r@ == old(self).models()[i as int],
            final(self).models() == old(self).models().update(i as int, final(r)@),
            final(self).sel() == old(self).sel(),
    {
        proof {
            use_type_invariant(&*self);
        }
        let ghost before = self.views@;
        let r = &mut self.views[i];
        proof {
            assert forall|v: ProcessTableView| #![auto] true implies before.update(i as int, v).map_values(
                |x: ProcessTableView| x@,
            ) =~= before.map_values(|x: ProcessTableView| x@).update(i as int, v@) by {}
        }
        r
    }

    fn at(&self, i: usize) -> (r: &ProcessTableView)
        requires
            i < self.models().len(),
        ensures
            r@ == self.models()[i as int],
    {
        &self.views[i]
    }

    fn all(&self) -> (r: &Vec<ProcessTableView>)
        ensures
            r@.map_values(|x: ProcessTableView| x@) == self.models(),
    {
        &self.views
    }

    fn len(&self) -> (r: usize)
        ensures
            r == self.models().len(),
    {
        self.views.len()
    }

    fn selection(&self) -> (r: usize)
        ensures
            r == self.sel(),
    {
        self.selection
    }

    fn select(&mut self, i: usize)
        requires
            i < old(self).models().len(),
        ensures
            final(self).models() == old(self).models(),
            final(self).sel() == i,
    {
        self.selection = i;
    }
}

/// The views of the process table, one of them active.
#[derive(Debug)]
pub struct ProcessTableViews {
    /// The views and the active one
    views: ViewList,
    /// How the views are laid out on the screen
    views_orientation: ViewsOrientation,
    /// Largest number of views that `create_new_view_from_active` makes
    capacity: usize,
}

impl View for ProcessTableViews {
    type V = ViewsModel;

    closed spec fn view(&self) -> ViewsModel {
        ViewsModel {
            views: self.views.models(),
            selection: self.views.sel(),
            orientation: self.views_orientation,
            capacity: self.capacity,
        }
    }
}

impl ProcessTableViews {
    /// Every collection of views has one and names one.
    pub fn well_formed(&self) -> (r: bool)
        ensures
            r,
            self@.wf(),
    {
        self.views.wf()
    }

    /// Views as they were stored; `None` when there is no view or the
    /// selection names none.
    pub fn from_parts(
        views: Vec<ProcessTableView>,
        views_selection: usize,
        views_orientation: ViewsOrientation,
        capacity: usize,
    ) -> (r: Option<Self>)
        ensures
            (views@.len() > 0 && views_selection < views@.len()) <==> r is Some,
            r matches Some(v) ==> v@ == (ViewsModel {
                views: views@.map_values(|x: ProcessTableView| x@),
                selection: views_selection,
                orientation: views_orientation,
                capacity,
            }),
    {
        if views.len() == 0 || views_selection >= views.len() {
            None
        } else {
            Some(
                ProcessTableViews {
                    views: ViewList::new(views, views_selection),
                    views_orientation,
                    capacity,
                },
            )
        }
    }

    /// Adds a copy of the active view after the others, unless there are
    /// as many views as the capacity.
    pub fn create_new_view_from_active(&mut self)
        ensures
            final(self)@.wf(),
            old(self)@.views.len() == old(self)@.capacity ==> final(self)@ == old(self)@,
            old(self)@.views.len() != old(self)@.capacity ==> final(self)@ == (ViewsModel {
                views: old(self)@.views.push(old(self)@.active()),
                ..old(self)@
            }),
    {
        self.views.wf();
        if self.views.len() == self.capacity {
            return ;
        }
        let copy = self.views.active().new_from_existing();
        let (mut views, sel) = self.views.take();
        let ghost before = views@;
        views.push(copy);
        proof {
            assert(views@.map_values(|x: ProcessTableView| x@) =~= before.map_values(
                |x: ProcessTableView| x@,
            ).push(copy@));
        }
        self.views = ViewList::new(views, sel);
    }

    /// Removes the active view, unless it is the only one; the view before
    /// it becomes active (the first, when it was the first).
    pub fn remove_active_view(&mut self)
        ensures
            final(self)@.wf(),
            old(self)@.views.len() == 1 ==> final(self)@ == old(self)@,
            old(self)@.views.len() != 1 ==> final(self)@ == (ViewsModel {
                views: old(self)@.views.remove(old(self)@.selection as int),
                selection: if old(self)@.selection == 0 {
                    0
                } else {
                    (old(self)@.selection - 1) as usize
                },
                ..old(self)@
            }),
    {
        self.views.wf();
        if self.views.len() == 1 {
            return ;
        }
        let (mut views, sel) = self.views.take();
        let new_sel = if sel == 0 {
            0
        } else {
            sel - 1
        };
        let ghost before = views@;
        views.remove(sel);
        proof {
            assert(views@.map_values(|x: ProcessTableView| x@) =~= before.map_values(
                |x: ProcessTableView| x@,
            ).remove(sel as int));
        }
        self.views = ViewList::new(views, new_sel);
    }

    /// Makes the next view active, the first after the last.
    pub fn inc_selection(&mut self)
        ensures
            final(self)@.wf(),
            final(self)@ == old(self)@.after_inc(),
    {
        self.views.wf();
        let len = self.views.len();
        let sel = self.views.selection();
        self.views.select(
            if sel + 1 < len {
                sel + 1
            } else {
                0
            },
        );
    }

    /// Makes the previous view active, the last before the first.
    pub fn dec_selection(&mut self)
        ensures
            final(self)@.wf(),
            final(self)@ == old(self)@.after_dec(),
    {
        self.views.wf();
        let len = self.views.len();
        let sel = self.views.selection();
        self.views.select(
            if sel > 0 {
                sel - 1
            } else {
                len - 1
            },
        );
    }

    /// The active view.
    pub fn active_view(&self) -> (r: &ProcessTableView)
        ensures
            r@ == self@.active(),
            self@.wf(),
    {
        self.views.wf();
        self.views.active()
    }

    /// The active view, to edit.
    pub fn mut_active_view(&mut self) -> (r: &mut ProcessTableView)
        ensures
            old(self)@.wf(),
            r@ == old(self)@.active(),
            final(self)@ == old(self)@.with_active(final(r)@),
    {
        self.views.wf();
        let i = self.views.selection();
        self.views.mut_at(i)
    }

    /// The view at `i`.
    pub fn view_at(&self, i: usize) -> (r: &ProcessTableView)
        requires
            i < self@.views.len(),
        ensures
            r@ == self@.views[i as int],
    {
        self.views.at(i)
    }

    /// The view at `i`, to edit.
    pub fn mut_view_at(&mut self, i: usize) -> (r: &mut ProcessTableView)
        requires
            i < old(self)@.views.len(),
        ensures
            r@ == old(self)@.views[i as int],
            final(self)@ == (ViewsModel { views: old(self)@.views.update(i as int, final(r)@), ..old(self)@ }),
    {
        self.views.mut_at(i)
    }

    /// The views, in order.
    pub fn views(&self) -> (r: &Vec<ProcessTableView>)
        ensures
            r@.map_values(|x: ProcessTableView| x@) == self@.views,
    {
        self.views.all()
    }

    pub fn views_selection(&self) -> (r: usize)
        ensures
            r == self@.selection,
    {
        self.views.selection()
    }

    pub fn views_orientation(&self) -> (r: &ViewsOrientation)
        ensures
            *r == self@.orientation,
    {
        &self.views_orientation
    }

    /// The orientation, to edit.
    pub fn mut_views_orientation(&mut self) -> (r: &mut ViewsOrientation)
        ensures
            *r == old(self)@.orientation,
            final(self)@ == (ViewsModel { orientation: *final(r), ..old(self)@ }),
    {
        &mut self.views_orientation
    }

    pub fn capacity(&self) -> (r: usize)
        ensures
            r == self@.capacity,
    {
        self.capacity
    }

    pub fn count_views(&self) -> (r: usize)
        ensures
            r == self@.views.len(),
    {
        self.views.len()
    }
}

impl Default for ProcessTableViews {
    fn default() -> (r: Self)
        ensures
            r@.views.len() == 1,
            crate::table_state::default_table_state(r@.views[0].state),
            r@.views[0].err is None,
            r@.views[0].focus == ProcessTableViewFocus::Rows,
            r@.selection == 0,
            r@.orientation == ViewsOrientation::SplitVertical,
            r@.capacity == DEFAULT_VIEWS_CAPACITY,
    {
        let views = vec![ProcessTableView::default()];
        proof {
            assert(views@.map_values(|x: ProcessTableView| x@)[0] == views@[0]@);
        }
        ProcessTableViews {
            views: ViewList::new(views, 0),
            views_orientation: ViewsOrientation::SplitVertical,
            capacity: DEFAULT_VIEWS_CAPACITY,
        }
    }
}

} // verus!
