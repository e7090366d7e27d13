//! The singleton "problem" viewer window: an explicit, label-keyed registry
//! standing for the native window manager's window table, and the controller
//! that locates or creates the viewer on each open request.
use vstd::prelude::*;
use vstd::string::StringExecFns;
use crate::text::str_eq;

verus! {

/// Target path of the problem viewer for a problem identifier. The
/// identifier is interpolated verbatim: no escaping or validation is
/// performed, so an identifier holding path separators or quote characters
/// reaches the path — and through it the navigation script — unchanged.
/// Callers that accept untrusted identifiers should restrict them to a safe
/// character set first.
pub open spec fn spec_problem_path(id: Seq<char>) -> Seq<char> {
    "/problems/"@ + id
}

/// The script handed to the embedded renderer to navigate in place: it
/// replaces the current browsing location without adding a history entry.
pub open spec fn spec_navigation_script(url: Seq<char>) -> Seq<char> {
    "window.location.replace('"@ + url + "');"@
}

/// The label under which the problem viewer is registered.
pub open spec fn spec_problem_label() -> Seq<char> {
    "problem"@
}

/// Builds `/problems/<id>`.
pub fn problem_path(problem_id: &str) -> (r: String)
    ensures
        r@ == spec_problem_path(problem_id@),
{
    let mut s: String = "/problems/".to_owned();
    s.append(problem_id);
    s
}

/// Builds the in-place navigation script for a url.
pub fn navigation_script(url: &str) -> (r: String)
    ensures
        r@ == spec_navigation_script(url@),
{
    let mut s: String = "window.location.replace('".to_owned();
    s.append(url);
    s.append("');");
    s
}

/// One native window as the shell models it: its label, current location,
/// current title, and the two creation options the problem viewer sets.
pub struct Window {
    pub label: String,
    pub location: String,
    pub title: String,
    pub always_on_top: bool,
    pub has_menu: bool,
}

/// Mathematical image of a `Window`.
pub ghost struct WindowView {
    pub label: Seq<char>,
    pub location: Seq<char>,
    pub title: Seq<char>,
    pub always_on_top: bool,
    pub has_menu: bool,
}

impl View for Window {
    type V = WindowView;

    open spec fn view(&self) -> WindowView {
        WindowView {
            label: self.label@,
            location: self.location@,
            title: self.title@,
            always_on_top: self.always_on_top,
            has_menu: self.has_menu,
        }
    }
}

/// No two windows share a label.
pub open spec fn labels_distinct(s: Seq<WindowView>) -> bool {
    forall|i: int, j: int| 0 <= i < j < s.len() ==> s[i].label != s[j].label
}

/// Some window in `s` carries `label`.
pub open spec fn has_label(s: Seq<WindowView>, label: Seq<char>) -> bool {
    exists|i: int| 0 <= i < s.len() && s[i].label == label
}

/// The problem window retargeted: the same window, its location and title
/// replaced.
pub open spec fn retargeted(w: WindowView, id: Seq<char>, title: Seq<char>) -> WindowView {
    WindowView {
        label: w.label,
        location: spec_problem_path(id),
        title: title,
        always_on_top: w.always_on_top,
        has_menu: w.has_menu,
    }
}

/// The problem window as it is first created: bare (no menu), pinned above
/// other windows, already at its target path.
pub open spec fn created(id: Seq<char>, title: Seq<char>) -> WindowView {
    WindowView {
        label: spec_problem_label(),
        location: spec_problem_path(id),
        title: title,
        always_on_top: true,
        has_menu: false,
    }
}

/// What one open request does to the window table: retarget the problem
/// window where one exists, create the singleton where none does.
pub open spec fn open_transition(s: Seq<WindowView>, id: Seq<char>, title: Seq<char>) -> Seq<
    WindowView,
> {
    if has_label(s, spec_problem_label()) {
        s.map(
            |i: int, w: WindowView|
                if w.label == spec_problem_label() {
                    retargeted(w, id, title)
                } else {
                    w
                },
        )
    } else {
        s.push(created(id, title))
    }
}

/// With labels distinct, at most one window carries any one label.
pub proof fn lemma_at_most_one_label(s: Seq<WindowView>, label: Seq<char>, i: int, j: int)
    requires
        labels_distinct(s),
        0 <= i < s.len(),
        0 <= j < s.len(),
        s[i].label == label,
        s[j].label == label,
    ensures
        i == j,
{
}

/// Law: an open request never produces a second problem window. The
/// transition keeps labels distinct and leaves exactly one window labeled
/// "problem" — whatever the identifier, the title, and the table it starts
/// from.
pub proof fn lemma_singleton_problem_window(s: Seq<WindowView>, id: Seq<char>, title: Seq<char>)
    requires
        labels_distinct(s),
    ensures
        labels_distinct(open_transition(s, id, title)),
        has_label(open_transition(s, id, title), spec_problem_label()),
{
    let t = open_transition(s, id, title);
    if has_label(s, spec_problem_label()) {
        let i: int = choose|i: int| 0 <= i < s.len() && s[i].label == spec_problem_label();
        assert(t[i].label == spec_problem_label());
        assert forall|x: int| 0 <= x < t.len() implies t[x].label == s[x].label by {
            if s[x].label == spec_problem_label() {
                assert(t[x] == retargeted(s[x], id, title));
            } else {
                assert(t[x] == s[x]);
            }
        }
        assert forall|x: int, y: int| 0 <= x < y < t.len() implies t[x].label != t[y].label by {
            assert(s[x].label != s[y].label);
        }
    } else {
        assert(t == s.push(created(id, title)));
        assert(t[s.len() as int].label == spec_problem_label());
        assert forall|x: int, y: int| 0 <= x < y < t.len() implies t[x].label != t[y].label by {
            if y < s.len() {
                assert(s[x].label != s[y].label);
            } else {
                assert(t[x] == s[x]);
                assert(!(s[x].label == spec_problem_label()));
            }
        }
    }
}

/// Law: opening the problem view twice in a row with the same identifier
/// and title leaves the window table exactly as the first call left it:
/// still one problem window, in the same navigated state.
pub proof fn lemma_open_idempotent(s: Seq<WindowView>, id: Seq<char>, title: Seq<char>)
    ensures
        open_transition(open_transition(s, id, title), id, title) == open_transition(
            s,
            id,
            title,
        ),
{
    let t1 = open_transition(s, id, title);
    let t2 = open_transition(t1, id, title);
    if has_label(s, spec_problem_label()) {
        let i: int = choose|i: int| 0 <= i < s.len() && s[i].label == spec_problem_label();
        assert(t1[i] == retargeted(s[i], id, title));
        assert(t1[i].label == spec_problem_label());
        assert(has_label(t1, spec_problem_label()));
        assert forall|j: int| 0 <= j < t1.len() implies t2[j] == t1[j] by {
            if s[j].label == spec_problem_label() {
                assert(t1[j] == retargeted(s[j], id, title));
                assert(t2[j] == retargeted(t1[j], id, title));
            } else {
                assert(t1[j] == s[j]);
                assert(t2[j] == t1[j]);
            }
        }
        assert(t2 =~= t1);
    } else {
        assert(t1 == s.push(created(id, title)));
        assert(t1[s.len() as int] == created(id, title));
        assert(t1[s.len() as int].label == spec_problem_label());
        assert(has_label(t1, spec_problem_label()));
        assert forall|j: int| 0 <= j < t1.len() implies t2[j] == t1[j] by {
            if j < s.len() {
                assert(!(s[j].label == spec_problem_label()));
                assert(t1[j] == s[j]);
                assert(t2[j] == t1[j]);
            } else {
                assert(t2[j] == retargeted(created(id, title), id, title));
                assert(retargeted(created(id, title), id, title) == created(id, title));
            }
        }
        assert(t2 =~= t1);
    }
}

/// What the native layer must perform after one open request. `Created`
/// carries the url and title of the window to build; a native creation
/// failure is fatal to the call. `Retargeted` carries the navigation script
/// and the new title for the existing window; applying either is
/// best-effort on the native side.
pub enum OpenOutcome {
    Created { url: String, title: String },
    Retargeted { script: String, title: String },
}

/// An explicit, label-keyed registry standing for the native window
/// manager's window table. It is re-consulted on every request: a window
/// the user closed is reported through `close_window` and found absent on
/// the next open request.
pub struct WindowRegistry {
    pub windows: Vec<Window>,
}

impl View for WindowRegistry {
    type V = Seq<WindowView>;

    open spec fn view(&self) -> Seq<WindowView> {
        self.windows@.map(|i: int, w: Window| w@)
    }
}

impl WindowRegistry {
    /// Well-formed: no two windows share a label.
    pub open spec fn wf(&self) -> bool {
        labels_distinct(self@)
    }

    /// An empty registry: no window exists yet.
    pub fn new() -> (r: WindowRegistry)
        ensures
            r@ == Seq::<WindowView>::empty(),
            r.wf(),
    {
        let r = WindowRegistry { windows: Vec::new() };
        proof {
            assert(r@ =~= Seq::<WindowView>::empty());
        }
        r
    }

    /// Index of the window carrying `label`, if any.
    fn find_index(&self, label: &str) -> (r: Option<usize>)
        ensures
            (match r {
                Some(i) => i < self@.len() && self@[i as int].label == label@,
                None => !has_label(self@, label@),
            }),
    {
        let n: usize = self.windows.len();
        let mut k: usize = 0;
        while k < n
            invariant
                n == self.windows@.len(),
                k <= n,
                forall|j: int| 0 <= j < k ==> self@[j].label != label@,
            decreases n - k,
        {
            if str_eq(self.windows[k].label.as_str(), label) {
                return Some(k);
            }
            k += 1;
        }
        None
    }

    /// Whether a window carrying `label` exists right now.
    pub fn has_window(&self, label: &str) -> (r: bool)
        ensures
            r == has_label(self@, label@),
    {
        match self.find_index(label) {
            Some(i) => {
                proof {
                    assert(has_label(self@, label@));
                }
                true
            },
            None => false,
        }
    }

    /// Locates or creates the problem viewer. With no "problem" window
    /// present, records the singleton window — bare, always on top, at
    /// `/problems/<id>` with the given title — and returns the creation
    /// order for the native layer. With one present, updates its location
    /// and title in place and returns the navigation script and title to
    /// apply; no second window ever appears.
    pub fn open_problem_view(&mut self, problem_id: &str, title: &str) -> (outcome: OpenOutcome)
        requires
            old(self).wf(),
        ensures
            final(self).wf(),
            final(self)@ == open_transition(old(self)@, problem_id@, title@),
            has_label(final(self)@, spec_problem_label()),
            (match outcome {
                OpenOutcome::Created { url, title: t } => !has_label(
                    old(self)@,
                    spec_problem_label(),
                ) && url@ == spec_problem_path(problem_id@) && t@ == title@,
                OpenOutcome::Retargeted { script, title: t } => has_label(
                    old(self)@,
                    spec_problem_label(),
                ) && script@ == spec_navigation_script(spec_problem_path(problem_id@)) && t@
                    == title@,
            }),
    {
        let url = problem_path(problem_id);
        match self.find_index("problem") {
            Some(i) => {
                let script = navigation_script(url.as_str());
                let aot = self.windows[i].always_on_top;
                let hm = self.windows[i].has_menu;
                let lbl = self.windows[i].label.clone();
                self.windows[i] = Window {
                    label: lbl,
                    location: url,
                    title: title.to_owned(),
                    always_on_top: aot,
                    has_menu: hm,
                };
                proof {
                    let s0 = old(self)@;
                    let t = open_transition(s0, problem_id@, title@);
                    assert(s0[i as int].label == spec_problem_label());
                    assert(has_label(s0, spec_problem_label()));
                    assert forall|j: int| 0 <= j < s0.len() implies self@[j] == t[j] by {
                        if j == i as int {
                            assert(self@[j] == retargeted(s0[j], problem_id@, title@));
                        } else {
                            assert(s0[j].label != spec_problem_label()) by {
                                lemma_at_most_one_label_contra(s0, spec_problem_label(), i as int, j);
                            }
                            assert(self@[j] == s0[j]);
                        }
                    }
                    assert(self@ =~= t);
                    lemma_singleton_problem_window(s0, problem_id@, title@);
                }
                OpenOutcome::Retargeted { script, title: title.to_owned() }
            },
            None => {
                let window_url = url.clone();
                self.windows.push(
                    Window {
                        label: "problem".to_owned(),
                        location: window_url,
                        title: title.to_owned(),
                        always_on_top: true,
                        has_menu: false,
                    },
                );
                proof {
                    let s0 = old(self)@;
                    let t = open_transition(s0, problem_id@, title@);
                    assert(self@.len() == s0.len() + 1);
                    assert(self@[s0.len() as int] == created(problem_id@, title@));
                    assert forall|j: int| 0 <= j < s0.len() implies self@[j] == s0[j] by {}
                    assert(self@ =~= t);
                    lemma_singleton_problem_window(s0, problem_id@, title@);
                }
                OpenOutcome::Created { url, title: title.to_owned() }
            },
        }
    }

    /// Records that the window carrying `label` is gone — the user closed
    /// it natively, outside this controller's control. Returns whether such
    /// a window existed.
    pub fn close_window(&mut self, label: &str) -> (closed: bool)
        requires
            old(self).wf(),
        ensures
            final(self).wf(),
            closed == has_label(old(self)@, label@),
            !has_label(final(self)@, label@),
            closed ==> exists|i: int|
                0 <= i < old(self)@.len() && old(self)@[i].label == label@ && final(self)@ == old(
                    self,
                )@.remove(i),
            !closed ==> final(self)@ == old(self)@,
    {
        match self.find_index(label) {
            Some(i) => {
                self.windows.remove(i);
                proof {
                    let s0 = old(self)@;
                    assert(s0[i as int].label == label@);
                    assert(has_label(s0, label@));
                    assert(self@.len() == s0.len() - 1);
                    assert forall|j: int| 0 <= j < self@.len() implies self@[j] == s0.remove(
                        i as int,
                    )[j] by {
                        if j < i as int {
                            assert(self@[j] == s0[j]);
                        } else {
                            assert(self@[j] == s0[j + 1]);
                        }
                    }
                    assert(self@ =~= s0.remove(i as int));
                    assert forall|j: int| 0 <= j < self@.len() implies self@[j].label != label@ by {
                        if j < i as int {
                            lemma_at_most_one_label_contra(s0, label@, i as int, j);
                        } else {
                            lemma_at_most_one_label_contra(s0, label@, i as int, j + 1);
                        }
                    }
                    assert forall|x: int, y: int| 0 <= x < y < self@.len() implies self@[x].label
                        != self@[y].label by {
                        let x0: int = if x < i as int { x } else { x + 1 };
                        let y0: int = if y < i as int { y } else { y + 1 };
                        assert(self@[x] == s0[x0]);
                        assert(self@[y] == s0[y0]);
                        assert(s0[x0].label != s0[y0].label);
                    }
                }
                true
            },
            None => false,
        }
    }
}

/// With labels distinct, a second index never carries the label the first
/// one carries.
pub proof fn lemma_at_most_one_label_contra(s: Seq<WindowView>, label: Seq<char>, i: int, j: int)
    requires
        labels_distinct(s),
        0 <= i < s.len(),
        0 <= j < s.len(),
        i != j,
        s[i].label == label,
    ensures
        s[j].label != label,
{
}

} // verus!
