//! The label of an entry, which can turn into an input to rename it.
use vstd::prelude::*;
use vstd::string::{StrSliceExecFns, StringExecFns};

verus! {

/// A label that shows a name and, on request, lets the user edit it.
#[derive(Debug, PartialEq, Eq)]
pub struct RenamableLabel {
    text: String,
    request_renaming: bool,
}

/// What one frame of editing leaves behind.
#[derive(Debug, PartialEq, Eq)]
pub struct EditOutcome {
    /// The new name, where the user has finished and it is not empty.
    pub submitted: Option<String>,
    /// The text to go on editing in the next frame, where the user has not
    /// finished.
    pub kept: Option<String>,
}

/// How a label is shown in a frame.
#[derive(Debug, Clone, Copy, PartialEq, Eq, Structural)]
pub enum LabelMode {
    /// An edit is under way: the input shows the text kept from the last
    /// frame.
    Editing,
    /// An edit starts in this frame: the input shows the label's own text,
    /// all of it selected.
    StartEditing,
    /// The plain label.
    Showing,
}

impl RenamableLabel {
    /// The name on the label.
    pub closed spec fn text(&self) -> Seq<char> {
        self.text@
    }

    /// Whether the label was asked to turn into an input.
    pub closed spec fn renaming_requested(&self) -> bool {
        self.request_renaming
    }

    /// A plain label for `text`.
    pub fn new(text: String) -> (label: Self)
        ensures
            label.text() == text@,
            !label.renaming_requested(),
    {
        RenamableLabel { text, request_renaming: false }
    }

    /// Asks for the label to turn into an input when it is shown.
    pub fn rename(&mut self) -> (label: &mut Self)
        ensures
            label.renaming_requested(),
            label.text() == old(self).text(),
            *final(self) == *final(label),
    {
        self.request_renaming = true;
        self
    }

    /// The name on the label.
    pub fn get_text(&self) -> (text: &String)
        ensures
            text@ == self.text(),
    {
        &self.text
    }

    /// Gives up the label for its text.
    pub fn into_text(self) -> (text: String)
        ensures
            text@ == self.text(),
    {
        self.text
    }

    /// How the label is to be shown, given whether an edit of it is under
    /// way: an edit under way goes on whatever was requested.
    pub fn mode(&self, edit_under_way: bool) -> (mode: LabelMode)
        ensures
            mode == if edit_under_way {
                LabelMode::Editing
            } else if self.renaming_requested() {
                LabelMode::StartEditing
            } else {
                LabelMode::Showing
            },
    {
        if edit_under_way {
            LabelMode::Editing
        } else if self.request_renaming {
            LabelMode::StartEditing
        } else {
            LabelMode::Showing
        }
    }
}

/// What one frame of editing submits, and what it keeps for the next frame.
pub open spec fn edit_outcome_spec(lost_focus: bool, text: Seq<char>) -> (Option<Seq<char>>, Option<
    Seq<char>,
>) {
    if lost_focus {
        (
            if text.len() == 0 {
                None
            } else {
                Some(text)
            },
            None,
        )
    } else {
        (None, Some(text))
    }
}

/// Settles one frame of editing. While the input keeps the focus the text
/// is kept for the next frame and nothing is submitted. Once the focus is
/// lost the edit is over: the text is submitted unless it is empty.
pub fn finish_edit(lost_focus: bool, text: String) -> (outcome: EditOutcome)
    ensures
        match outcome.submitted {
            Some(name) => edit_outcome_spec(lost_focus, text@).0 == Some(name@),
            None => edit_outcome_spec(lost_focus, text@).0 is None,
        },
        match outcome.kept {
            Some(kept) => edit_outcome_spec(lost_focus, text@).1 == Some(kept@),
            None => edit_outcome_spec(lost_focus, text@).1 is None,
        },
{
    if lost_focus {
        if text.as_str().is_empty() {
            EditOutcome { submitted: None, kept: None }
        } else {
            EditOutcome { submitted: Some(text), kept: None }
        }
    } else {
        EditOutcome { submitted: None, kept: Some(text) }
    }
}

/// Whether a character separates the components of a path.
pub open spec fn is_separator(c: char) -> bool {
    c == '/' || c == '\\'
}

/// The text without the separators it starts with.
pub open spec fn trim_start(text: Seq<char>) -> Seq<char>
    decreases text.len(),
{
    if text.len() > 0 && is_separator(text.first()) {
        trim_start(text.drop_first())
    } else {
        text
    }
}

/// The text without the separators it ends with.
pub open spec fn trim_end(text: Seq<char>) -> Seq<char>
    decreases text.len(),
{
    if text.len() > 0 && is_separator(text.last()) {
        trim_end(text.drop_last())
    } else {
        text
    }
}

/// The name of a component as the path bar shows it: without separators
/// at either end.
pub open spec fn crumb_label(component: Seq<char>) -> Seq<char> {
    trim_end(trim_start(component))
}

/// One button of the path bar.
#[derive(Debug, PartialEq, Eq)]
pub struct Crumb {
    /// The name on the button.
    pub label: String,
    /// Where a click on the button leads.
    pub path: String,
    /// Whether an arrow head follows the button: it does unless the
    /// component is the last of the path.
    pub arrow: bool,
}

/// The mathematical value of a [`Crumb`].
pub struct CrumbView {
    pub label: Seq<char>,
    pub path: Seq<char>,
    pub arrow: bool,
}

impl View for Crumb {
    type V = CrumbView;

    open spec fn view(&self) -> CrumbView {
        CrumbView { label: self.label@, path: self.path@, arrow: self.arrow }
    }
}

impl DeepView for Crumb {
    type V = CrumbView;

    open spec fn deep_view(&self) -> CrumbView {
        self.view()
    }
}

/// The path that the first `n` components add up to: every component that
/// has a name, as it stands, with a `/` behind it.
pub open spec fn crumb_path(components: Seq<Seq<char>>, n: int) -> Seq<char>
    decreases n,
{
    if n <= 0 || n > components.len() {
        Seq::empty()
    } else if crumb_label(components[n - 1]).len() > 0 {
        crumb_path(components, n - 1) + components[n - 1] + seq!['/']
    } else {
        crumb_path(components, n - 1)
    }
}

/// The buttons for the first `n` components of a path: one for each
/// component that has a name, in order.
pub open spec fn crumbs(components: Seq<Seq<char>>, n: int) -> Seq<CrumbView>
    decreases n,
{
    if n <= 0 || n > components.len() {
        Seq::empty()
    } else if crumb_label(components[n - 1]).len() > 0 {
        crumbs(components, n - 1).push(
            CrumbView {
                label: crumb_label(components[n - 1]),
                path: crumb_path(components, n),
                arrow: n < components.len(),
            },
        )
    } else {
        crumbs(components, n - 1)
    }
}

/// The name of a component, without separators at either end.
pub fn trim_separators(component: &str) -> (label: &str)
    ensures
        label@ == crumb_label(component@),
{
    let len = component.unicode_len();
    let mut start: usize = 0;
    assert(component@.skip(0) =~= component@);
    while start < len && (component.get_char(start) == '/' || component.get_char(start) == '\\')
        invariant
            start <= len,
            len == component@.len(),
            trim_start(component@) == trim_start(component@.skip(start as int)),
        decreases len - start,
    {
        proof {
            let rest = component@.skip(start as int);
            assert(rest.drop_first() =~= component@.skip(start + 1));
        }
        start += 1;
    }
    let ghost rest = component@.skip(start as int);
    assert(trim_start(component@) == rest);
    let mut end: usize = len;
    while end > start && (component.get_char(end - 1) == '/' || component.get_char(end - 1)
        == '\\')
        invariant
            start <= end <= len,
            len == component@.len(),
            rest == component@.skip(start as int),
            trim_end(rest) == trim_end(component@.subrange(start as int, end as int)),
        decreases end - start,
    {
        proof {
            let kept = component@.subrange(start as int, end as int);
            assert(kept.drop_last() =~= component@.subrange(start as int, end - 1));
        }
        end -= 1;
    }
    component.substring_char(start, end)
}

/// The buttons of the path bar for a path given by its components.
pub fn breadcrumbs(components: &Vec<String>) -> (bar: Vec<Crumb>)
    ensures
        bar.deep_view() == crumbs(components.deep_view(), components@.len() as int),
{
    let ghost parts = components.deep_view();
    let mut bar: Vec<Crumb> = Vec::new();
    let mut path = String::new();
    let mut i: usize = 0;
    while i < components.len()
        invariant
            i <= components.len(),
            parts == components.deep_view(),
            bar.deep_view() == crumbs(parts, i as int),
            path@ == crumb_path(parts, i as int),
        decreases components.len() - i,
    {
        let label = trim_separators(components[i].as_str());
        if !label.is_empty() {
            path.append(components[i].as_str());
            path.append("/");
            proof {
                reveal_strlit("/");
                assert("/"@ =~= seq!['/']);
            }
            let crumb = Crumb {
                label: String::from_str(label),
                path: path.clone(),
                arrow: i + 1 < components.len(),
            };
            bar.push(crumb);
        }
        i += 1;
    }
    bar
}

} // verus!
