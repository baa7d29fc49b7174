//! The interactive selection engine: filter state, cursor and viewport
//! bookkeeping, and the event-to-state transition function.
//!
//! The surrounding terminal layer owns the blocking input loop; it hands
//! each decoded [`UserEvent`] to [`Tui::handle_event`] and stops as soon
//! as a terminal outcome ([`Ret`]) is produced.

use vstd::prelude::*;

use crate::Action;
use crate::Target;
use crate::TargetModel;
use crate::color::ColorTheme;
use crate::event::UserEvent;
use crate::input::TextInput;
use crate::matcher::Matcher;

verus! {

/// One surviving entry of the filtered list: the index of its target in
/// the full sequence, and the matched character offsets of its name.
#[derive(Debug)]
pub struct FilteredTarget {
    pub index: usize,
    pub match_indices: Vec<usize>,
}

#[verifier::ext_equal]
pub ghost struct FilteredTargetModel {
    pub index: int,
    pub match_indices: Seq<usize>,
}

impl View for FilteredTarget {
    type V = FilteredTargetModel;

    open spec fn view(&self) -> FilteredTargetModel {
        FilteredTargetModel { index: self.index as int, match_indices: self.match_indices@ }
    }
}

impl DeepView for FilteredTarget {
    type V = FilteredTargetModel;

    open spec fn deep_view(&self) -> FilteredTargetModel {
        self.view()
    }
}

/// The surviving entries for `query`, in original target order.
pub open spec fn spec_filtered(targets: Seq<TargetModel>, query: Seq<char>, m: Matcher) -> Seq<
    FilteredTargetModel,
>
    decreases targets.len(),
{
    if targets.len() == 0 {
        Seq::empty()
    } else {
        let prefix = spec_filtered(targets.drop_last(), query, m);
        match m.spec_match(targets.last().name, query) {
            Some(pos) => prefix.push(
                FilteredTargetModel { index: targets.len() - 1, match_indices: pos },
            ),
            None => prefix,
        }
    }
}

/// Filtering keeps the original relative order: indices are strictly
/// increasing, every index is in range and carries exactly what the
/// matcher reported, and every target the matcher accepts survives.
pub proof fn lemma_filter_preserves_order(targets: Seq<TargetModel>, query: Seq<char>, m: Matcher)
    ensures
        spec_filtered(targets, query, m).len() <= targets.len(),
        forall|k: int| 0 <= k < spec_filtered(targets, query, m).len() ==> {
            &&& 0 <= (#[trigger] spec_filtered(targets, query, m)[k]).index < targets.len()
            &&& m.spec_match(targets[spec_filtered(targets, query, m)[k].index].name, query)
                == Some(spec_filtered(targets, query, m)[k].match_indices)
        },
        forall|a: int, b: int| 0 <= a < b < spec_filtered(targets, query, m).len()
            ==> (#[trigger] spec_filtered(targets, query, m)[a]).index < (
        #[trigger] spec_filtered(targets, query, m)[b]).index,
        forall|t: int| 0 <= t < targets.len() && m.spec_match(
            (#[trigger] targets[t]).name,
            query,
        ) is Some ==> exists|k: int| 0 <= k < spec_filtered(targets, query, m).len() && (
        #[trigger] spec_filtered(targets, query, m)[k]).index == t,
    decreases targets.len(),
{
    if targets.len() > 0 {
        lemma_filter_preserves_order(targets.drop_last(), query, m);
        let prefix = spec_filtered(targets.drop_last(), query, m);
        let f = spec_filtered(targets, query, m);
        assert forall|t: int|
            0 <= t < targets.len() && m.spec_match((#[trigger] targets[t]).name, query) is Some
        implies exists|k: int| 0 <= k < f.len() && (#[trigger] f[k]).index == t by {
            if t == targets.len() - 1 {
                assert(targets.last() == targets[t]);
                assert(f[f.len() - 1].index == t);
            } else {
                assert(targets.drop_last()[t] == targets[t]);
                let k = choose|k: int| 0 <= k < prefix.len() && (#[trigger] prefix[k]).index == t;
                assert(f[k].index == t);
            }
        }
    }
}

/// The terminal outcome of one interactive session.
#[derive(Debug)]
pub enum Ret {
    Quit,
    Selected(Target, Action),
    NotSelected,
}

/// The whole engine state for one session.
#[derive(Debug)]
pub struct Tui {
    pub targets: Vec<Target>,
    pub filtered: Vec<FilteredTarget>,
    pub cursor: usize,
    pub input: TextInput,
    pub action: Action,
    pub list_height: usize,
    pub list_offset: usize,
    pub matcher: Matcher,
    pub theme: ColorTheme,
}

/// The list height a terminal of `h` rows leaves after the input row,
/// floored at one row.
pub open spec fn spec_list_height(h: u16) -> int {
    if h <= 1 {
        1
    } else {
        h - 1
    }
}

impl Tui {
    /// Well-formedness: the filtered list always reflects the current
    /// query, and the cursor and scroll offset stay in bounds.
    pub open spec fn wf(self) -> bool {
        &&& self.input.wf()
        &&& self.list_height >= 1
        &&& self.filtered.deep_view() == spec_filtered(
            self.targets.deep_view(),
            self.input.text@,
            self.matcher,
        )
        &&& (self.filtered@.len() == 0 ==> self.cursor == 0 && self.list_offset == 0)
        &&& (self.filtered@.len() > 0 ==> self.cursor < self.filtered@.len())
        &&& self.list_offset <= self.cursor
    }

    /// The scroll window contains the cursor.  Holds after construction
    /// and across every navigation event; a resize may break it until the
    /// next navigation event, as the next one restores it only gradually.
    pub open spec fn viewport_holds(self) -> bool {
        self.cursor < self.list_offset + self.list_height
    }

    pub fn calc_list_height(h: u16) -> (r: usize)
        ensures
            r == spec_list_height(h),
    {
        if h <= 1 {
            1
        } else {
            (h - 1) as usize
        }
    }

    pub fn new(targets: Vec<Target>, term_height: u16, matcher: Matcher, theme: ColorTheme) -> (r:
        Tui)
        ensures
            r.wf(),
            r.viewport_holds(),
            r.targets@ == targets@,
            r.cursor == 0,
            r.list_offset == 0,
            r.input.text@ == Seq::<char>::empty(),
            r.input.cursor == 0,
            r.action == Action::Run,
            r.list_height == spec_list_height(term_height),
            r.matcher == matcher,
            r.theme == theme,
    {
        let mut tui = Tui {
            targets,
            filtered: Vec::new(),
            cursor: 0,
            input: TextInput::new(),
            action: Action::Run,
            list_height: Tui::calc_list_height(term_height),
            list_offset: 0,
            matcher,
            theme,
        };
        tui.update_filter();
        tui
    }

    /// Recomputes the filtered list for the current query and collapses
    /// the selection back to the top.
    pub fn update_filter(&mut self)
        requires
            old(self).input.wf(),
            old(self).list_height >= 1,
        ensures
            final(self).wf(),
            final(self).viewport_holds(),
            final(self).cursor == 0,
            final(self).list_offset == 0,
            final(self).targets == old(self).targets,
            final(self).input == old(self).input,
            final(self).action == old(self).action,
            final(self).matcher == old(self).matcher,
            final(self).theme == old(self).theme,
            final(self).list_height == old(self).list_height,
    {
        let s = self.input.value();
        let mut filtered: Vec<FilteredTarget> = Vec::new();
        let n = self.targets.len();
        let mut idx: usize = 0;
        while idx < n
            invariant
                *self == *old(self),
                n == self.targets@.len(),
                idx <= n,
                s@ == self.input.text@,
                filtered.deep_view() == spec_filtered(
                    self.targets.deep_view().take(idx as int),
                    s@,
                    self.matcher,
                ),
            decreases n - idx,
        {
            let ghost pre = filtered.deep_view();
            let name = self.targets[idx].name.as_str();
            match self.matcher.match_indices(name, s.as_str()) {
                Some(ind) => {
                    filtered.push(FilteredTarget { index: idx, match_indices: ind });
                },
                None => {},
            }
            proof {
                let tv = self.targets.deep_view();
                assert(tv.take(idx + 1).drop_last() =~= tv.take(idx as int));
                assert(tv.take(idx + 1).last() == tv[idx as int]);
                assert(filtered.deep_view() =~= spec_filtered(tv.take(idx + 1), s@, self.matcher));
            }
            idx = idx + 1;
        }
        proof {
            assert(self.targets.deep_view().take(n as int) =~= self.targets.deep_view());
        }
        self.filtered = filtered;
        self.cursor = 0;
        self.list_offset = 0;
    }

    /// Moves the cursor one entry down; a no-op at the last entry or on
    /// an empty list.  Scrolls by exactly one row when the cursor was on
    /// the viewport's bottom row.
    pub fn select_next(&mut self)
        requires
            old(self).wf(),
        ensures
            final(self).wf(),
            old(self).viewport_holds() ==> final(self).viewport_holds(),
            old(self).filtered@.len() == 0 || old(self).cursor == old(self).filtered@.len() - 1
                ==> *final(self) == *old(self),
            old(self).filtered@.len() > 0 && old(self).cursor < old(self).filtered@.len() - 1 ==> {
                &&& final(self).cursor == old(self).cursor + 1
                &&& final(self).list_offset == if old(self).cursor - old(self).list_offset
                    == old(self).list_height - 1 {
                    old(self).list_offset + 1
                } else {
                    old(self).list_offset as int
                }
            },
            final(self).targets == old(self).targets,
            final(self).filtered == old(self).filtered,
            final(self).input == old(self).input,
            final(self).action == old(self).action,
            final(self).matcher == old(self).matcher,
            final(self).theme == old(self).theme,
            final(self).list_height == old(self).list_height,
    {
        let len = self.filtered.len();
        if len > 0 && self.cursor < len - 1 {
            if self.cursor - self.list_offset == self.list_height - 1 {
                self.list_offset = self.list_offset + 1;
            }
            self.cursor = self.cursor + 1;
        }
    }

    /// Moves the cursor one entry up; a no-op at the first entry.  Scrolls
    /// by exactly one row when the cursor was on the viewport's top row.
    pub fn select_prev(&mut self)
        requires
            old(self).wf(),
        ensures
            final(self).wf(),
            old(self).viewport_holds() ==> final(self).viewport_holds(),
            old(self).cursor == 0 ==> *final(self) == *old(self),
            old(self).cursor > 0 ==> {
                &&& final(self).cursor == old(self).cursor - 1
                &&& final(self).list_offset == if old(self).cursor == old(self).list_offset {
                    old(self).list_offset - 1
                } else {
                    old(self).list_offset as int
                }
            },
            final(self).targets == old(self).targets,
            final(self).filtered == old(self).filtered,
            final(self).input == old(self).input,
            final(self).action == old(self).action,
            final(self).matcher == old(self).matcher,
            final(self).theme == old(self).theme,
            final(self).list_height == old(self).list_height,
    {
        if self.cursor > 0 {
            if self.cursor - self.list_offset == 0 {
                self.list_offset = self.list_offset - 1;
            }
            self.cursor = self.cursor - 1;
        }
    }

    /// Flips the invocation mode; filter and cursor are untouched.
    pub fn toggle_action(&mut self)
        requires
            old(self).wf(),
        ensures
            final(self).wf(),
            final(self).action == old(self).action.toggled(),
            final(self).targets == old(self).targets,
            final(self).filtered == old(self).filtered,
            final(self).cursor == old(self).cursor,
            final(self).input == old(self).input,
            final(self).matcher == old(self).matcher,
            final(self).theme == old(self).theme,
            final(self).list_height == old(self).list_height,
            final(self).list_offset == old(self).list_offset,
    {
        self.action = match self.action {
            Action::Run => Action::Build,
            Action::Build => Action::Run,
        };
    }

    /// Feeds one event to the engine: the spec's transition function.
    /// Returns the terminal outcome when the event ends the session, and
    /// `None` while the session stays active.
    pub fn handle_event(&mut self, event: UserEvent) -> (r: Option<Ret>)
        requires
            old(self).wf(),
        ensures
            final(self).wf(),
            final(self).matcher == old(self).matcher,
            final(self).theme == old(self).theme,
            match event {
                UserEvent::Quit => ({
                    &&& r == Some(Ret::Quit)
                    &&& *final(self) == *old(self)
                }),
                UserEvent::Down => ({
                    &&& r is None
                    &&& (old(self).viewport_holds() ==> final(self).viewport_holds())
                    &&& (old(self).filtered@.len() == 0 || old(self).cursor == old(
                        self,
                    ).filtered@.len() - 1 ==> *final(self) == *old(self))
                    &&& (old(self).filtered@.len() > 0 && old(self).cursor < old(
                        self,
                    ).filtered@.len() - 1 ==> final(self).cursor == old(self).cursor + 1
                        && final(self).list_offset == (if old(self).cursor - old(self).list_offset
                        == old(self).list_height - 1 {
                        old(self).list_offset + 1
                    } else {
                        old(self).list_offset as int
                    }))
                    &&& final(self).filtered == old(self).filtered
                    &&& final(self).input == old(self).input
                    &&& final(self).action == old(self).action
                    &&& final(self).targets == old(self).targets
                    &&& final(self).list_height == old(self).list_height
                }),
                UserEvent::Up => ({
                    &&& r is None
                    &&& (old(self).viewport_holds() ==> final(self).viewport_holds())
                    &&& (old(self).cursor == 0 ==> *final(self) == *old(self))
                    &&& (old(self).cursor > 0 ==> final(self).cursor == old(self).cursor - 1
                        && final(self).list_offset == (if old(self).cursor == old(
                        self,
                    ).list_offset {
                        old(self).list_offset - 1
                    } else {
                        old(self).list_offset as int
                    }))
                    &&& final(self).filtered == old(self).filtered
                    &&& final(self).input == old(self).input
                    &&& final(self).action == old(self).action
                    &&& final(self).targets == old(self).targets
                    &&& final(self).list_height == old(self).list_height
                }),
                UserEvent::ToggleAction => ({
                    &&& r is None
                    &&& final(self).action == old(self).action.toggled()
                    &&& final(self).cursor == old(self).cursor
                    &&& final(self).list_offset == old(self).list_offset
                    &&& final(self).filtered == old(self).filtered
                    &&& final(self).input == old(self).input
                    &&& final(self).targets == old(self).targets
                    &&& final(self).list_height == old(self).list_height
                    &&& (old(self).viewport_holds() ==> final(self).viewport_holds())
                }),
                UserEvent::Resize(h) => ({
                    &&& r is None
                    &&& final(self).list_height == spec_list_height(h)
                    &&& final(self).cursor == old(self).cursor
                    &&& final(self).list_offset == old(self).list_offset
                    &&& final(self).filtered == old(self).filtered
                    &&& final(self).input == old(self).input
                    &&& final(self).action == old(self).action
                    &&& final(self).targets == old(self).targets
                }),
                UserEvent::Execute => ({
                    &&& *final(self) == *old(self)
                    &&& (old(self).filtered@.len() == 0 ==> r == Some(Ret::NotSelected))
                    &&& (old(self).filtered@.len() > 0 ==> (r matches Some(ret) && ret matches Ret::Selected(t, a)
                        && t@ == old(self).targets.deep_view()[old(self).filtered.deep_view()[old(
                        self,
                    ).cursor as int].index] && a == old(self).action))
                }),
                UserEvent::Edit(op) => ({
                    &&& r is None
                    &&& final(self).input.text@ == TextInput::spec_apply(
                        old(self).input.text@,
                        old(self).input.cursor as int,
                        op,
                    ).0
                    &&& final(self).input.cursor as int == TextInput::spec_apply(
                        old(self).input.text@,
                        old(self).input.cursor as int,
                        op,
                    ).1
                    &&& final(self).cursor == 0
                    &&& final(self).list_offset == 0
                    &&& final(self).viewport_holds()
                    &&& final(self).targets == old(self).targets
                    &&& final(self).action == old(self).action
                    &&& final(self).list_height == old(self).list_height
                }),
            },
    {
        match event {
            UserEvent::Quit => Some(Ret::Quit),
            UserEvent::Down => {
                self.select_next();
                None
            },
            UserEvent::Up => {
                self.select_prev();
                None
            },
            UserEvent::ToggleAction => {
                self.toggle_action();
                None
            },
            UserEvent::Resize(h) => {
                self.list_height = Tui::calc_list_height(h);
                None
            },
            UserEvent::Execute => {
                match self.get_current_target() {
                    Some(target) => Some(Ret::Selected(target, self.action)),
                    None => Some(Ret::NotSelected),
                }
            },
            UserEvent::Edit(op) => {
                self.input.apply(op);
                self.update_filter();
                None
            },
        }
    }

    /// The target under the cursor, if the filtered list is non-empty.
    pub fn get_current_target(&self) -> (r: Option<Target>)
        requires
            self.wf(),
        ensures
            self.filtered@.len() == 0 ==> r is None,
            self.filtered@.len() > 0 ==> (r matches Some(t) && t@
                == self.targets.deep_view()[self.filtered.deep_view()[self.cursor as int].index]),
    {
        if self.filtered.len() == 0 {
            return None;
        }
        proof {
            let tv = self.targets.deep_view();
            let q = self.input.text@;
            lemma_filter_preserves_order(tv, q, self.matcher);
            assert(self.filtered.deep_view() == spec_filtered(tv, q, self.matcher));
            assert(self.filtered.deep_view()[self.cursor as int]
                == spec_filtered(tv, q, self.matcher)[self.cursor as int]);
            assert(tv.len() == self.targets@.len());
        }
        let ft = &self.filtered[self.cursor];
        let t = &self.targets[ft.index];
        Some(t.duplicate())
    }
}

} // verus!
