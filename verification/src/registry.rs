//! The window registry: which native window shows which content view.

use vstd::prelude::*;

verus! {

/// Identifier of a native window. The registry allots them in rising order.
#[derive(Clone, Copy, Debug, PartialEq, Eq, Structural, Hash)]
pub struct WindowId(pub u64);

/// Identifier of a content view. The engine mints these; the registry only
/// stores them.
#[derive(Clone, Copy, Debug, PartialEq, Eq, Structural, Hash)]
pub struct ViewId(pub u64);

/// What the coordinator knows of one native window.
#[derive(Clone, Copy, Debug, PartialEq, Eq, Structural)]
pub struct Window {
    pub id: WindowId,
    pub view: ViewId,
    pub animating: bool,
}

/// Why a window could not be registered.
#[derive(Clone, Copy, Debug, PartialEq, Eq, Structural)]
pub enum RegistryError {
    /// Every window identifier has been handed out.
    Exhausted,
    /// Another window already shows the view.
    ViewBound,
}

/// The mathematical content of a registry: its windows, oldest first, and
/// the identifier that the next window will get.
pub struct RegistryModel {
    pub entries: Seq<Window>,
    pub next: u64,
}

/// Position of the first window with identifier `id`, or the length of
/// `entries` if there is none.
pub open spec fn index_of_window(entries: Seq<Window>, id: WindowId) -> int
    decreases entries.len(),
{
    if entries.len() == 0 {
        0
    } else if entries[0].id == id {
        0
    } else {
        1 + index_of_window(entries.drop_first(), id)
    }
}

/// Position of the first window that shows `view`, or the length of
/// `entries` if there is none.
pub open spec fn index_of_view(entries: Seq<Window>, view: ViewId) -> int
    decreases entries.len(),
{
    if entries.len() == 0 {
        0
    } else if entries[0].view == view {
        0
    } else {
        1 + index_of_view(entries.drop_first(), view)
    }
}

impl RegistryModel {
    /// The registry that holds no window and has allotted no identifier.
    pub open spec fn empty() -> RegistryModel {
        RegistryModel { entries: Seq::empty(), next: 0 }
    }

    /// The registry that holds no window and allots `first` first.
    pub open spec fn empty_from(first: u64) -> RegistryModel {
        RegistryModel { entries: Seq::empty(), next: first }
    }

    /// Identifiers rise strictly from the oldest window to the newest, all of
    /// them lie below the next identifier, and no two windows show one view.
    pub open spec fn wf(self) -> bool {
        &&& forall|i: int, j: int|
            0 <= i < j < self.entries.len() ==> (#[trigger] self.entries[i]).id.0 < (
            #[trigger] self.entries[j]).id.0
        &&& forall|i: int|
            0 <= i < self.entries.len() ==> (#[trigger] self.entries[i]).id.0 < self.next
        &&& forall|i: int, j: int|
            0 <= i < j < self.entries.len() ==> (#[trigger] self.entries[i]).view != (
            #[trigger] self.entries[j]).view
    }

    /// Whether a window with identifier `id` is registered.
    pub open spec fn has_window(self, id: WindowId) -> bool {
        index_of_window(self.entries, id) < self.entries.len()
    }

    /// Whether some window shows `view`.
    pub open spec fn has_view(self, view: ViewId) -> bool {
        index_of_view(self.entries, view) < self.entries.len()
    }

    /// The window with identifier `id`.
    pub open spec fn window(self, id: WindowId) -> Option<Window> {
        if self.has_window(id) {
            Some(self.entries[index_of_window(self.entries, id)])
        } else {
            None
        }
    }

    /// The window that shows `view`.
    pub open spec fn owner_of(self, view: ViewId) -> Option<WindowId> {
        if self.has_view(view) {
            Some(self.entries[index_of_view(self.entries, view)].id)
        } else {
            None
        }
    }

    /// The view of the oldest window.
    pub open spec fn primary_view(self) -> Option<ViewId> {
        if self.entries.len() > 0 {
            Some(self.entries[0].view)
        } else {
            None
        }
    }

    /// Whether some window is animating.
    pub open spec fn any_animating(self) -> bool {
        exists|i: int| 0 <= i < self.entries.len() && (#[trigger] self.entries[i]).animating
    }

    /// Why `insert` would refuse `view`, if it would.
    pub open spec fn insert_error(self, view: ViewId) -> Option<RegistryError> {
        if self.next == u64::MAX {
            Some(RegistryError::Exhausted)
        } else if self.has_view(view) {
            Some(RegistryError::ViewBound)
        } else {
            None
        }
    }

    /// The registry after a window for `view` has been asked for.
    pub open spec fn insert(self, view: ViewId) -> RegistryModel {
        if self.insert_error(view) is Some {
            self
        } else {
            RegistryModel {
                entries: self.entries.push(
                    Window { id: WindowId(self.next), view, animating: false },
                ),
                next: (self.next + 1) as u64,
            }
        }
    }

    /// The registry without the window `id`.
    pub open spec fn remove(self, id: WindowId) -> RegistryModel {
        if self.has_window(id) {
            RegistryModel {
                entries: self.entries.remove(index_of_window(self.entries, id)),
                next: self.next,
            }
        } else {
            self
        }
    }

    /// The registry with the animation flag of window `id` set to `animating`.
    pub open spec fn set_animating(self, id: WindowId, animating: bool) -> RegistryModel {
        if self.has_window(id) {
            let i = index_of_window(self.entries, id);
            RegistryModel {
                entries: self.entries.update(
                    i,
                    Window { id: self.entries[i].id, view: self.entries[i].view, animating },
                ),
                next: self.next,
            }
        } else {
            self
        }
    }
}

/// `index_of_window` stays within the sequence, finds a window with the
/// identifier when it stops short of the end, and has passed none before.
pub proof fn lemma_index_of_window(entries: Seq<Window>, id: WindowId)
    ensures
        0 <= index_of_window(entries, id) <= entries.len(),
        index_of_window(entries, id) < entries.len() ==> entries[index_of_window(
            entries,
            id,
        )].id == id,
        forall|k: int| 0 <= k < index_of_window(entries, id) ==> (#[trigger] entries[k]).id != id,
    decreases entries.len(),
{
    if entries.len() > 0 && entries[0].id != id {
        let rest = entries.drop_first();
        lemma_index_of_window(rest, id);
        assert forall|k: int| 0 <= k < index_of_window(entries, id) implies (
        #[trigger] entries[k]).id != id by {
            if k > 0 {
                assert(rest[k - 1] == entries[k]);
            }
        }
    }
}

/// `index_of_view` stays within the sequence, finds a window with the view
/// when it stops short of the end, and has passed none before.
pub proof fn lemma_index_of_view(entries: Seq<Window>, view: ViewId)
    ensures
        0 <= index_of_view(entries, view) <= entries.len(),
        index_of_view(entries, view) < entries.len() ==> entries[index_of_view(
            entries,
            view,
        )].view == view,
        forall|k: int|
            0 <= k < index_of_view(entries, view) ==> (#[trigger] entries[k]).view != view,
    decreases entries.len(),
{
    if entries.len() > 0 && entries[0].view != view {
        let rest = entries.drop_first();
        lemma_index_of_view(rest, view);
        assert forall|k: int| 0 <= k < index_of_view(entries, view) implies (
        #[trigger] entries[k]).view != view by {
            if k > 0 {
                assert(rest[k - 1] == entries[k]);
            }
        }
    }
}

/// The position that `index_of_window` gives is the one place that no window
/// with the identifier comes before and that is the end or holds one.
pub proof fn lemma_index_of_window_is(entries: Seq<Window>, id: WindowId, i: int)
    requires
        0 <= i <= entries.len(),
        forall|k: int| 0 <= k < i ==> (#[trigger] entries[k]).id != id,
        i < entries.len() ==> entries[i].id == id,
    ensures
        index_of_window(entries, id) == i,
    decreases entries.len(),
{
    if i > 0 {
        let rest = entries.drop_first();
        assert(entries[0].id != id);
        assert forall|k: int| 0 <= k < i - 1 implies (#[trigger] rest[k]).id != id by {
            assert(rest[k] == entries[k + 1]);
        }
        lemma_index_of_window_is(rest, id, i - 1);
    }
}

/// The position that `index_of_view` gives is the one place that no window
/// with the view comes before and that is the end or holds one.
pub proof fn lemma_index_of_view_is(entries: Seq<Window>, view: ViewId, i: int)
    requires
        0 <= i <= entries.len(),
        forall|k: int| 0 <= k < i ==> (#[trigger] entries[k]).view != view,
        i < entries.len() ==> entries[i].view == view,
    ensures
        index_of_view(entries, view) == i,
    decreases entries.len(),
{
    if i > 0 {
        let rest = entries.drop_first();
        assert(entries[0].view != view);
        assert forall|k: int| 0 <= k < i - 1 implies (#[trigger] rest[k]).view != view by {
            assert(rest[k] == entries[k + 1]);
        }
        lemma_index_of_view_is(rest, view, i - 1);
    }
}

/// The window that `owner_of` names is registered and shows the view.
pub proof fn lemma_owner_is_registered(m: RegistryModel, view: ViewId)
    requires
        m.wf(),
    ensures
        match m.owner_of(view) {
            Some(id) => m.window(id) is Some && m.window(id).unwrap().id == id && m.window(
                id,
            ).unwrap().view == view,
            None => true,
        },
{
    lemma_index_of_view(m.entries, view);
    if m.has_view(view) {
        let i = index_of_view(m.entries, view);
        let id = m.entries[i].id;
        lemma_index_of_window(m.entries, id);
        let j = index_of_window(m.entries, id);
        if j < i {
            assert(m.entries[j].id.0 < m.entries[i].id.0);
        }
        lemma_index_of_window_is(m.entries, id, i);
    }
}

/// The registry of live windows. Only the event-loop thread holds it.
pub struct WindowRegistry {
    entries: Vec<Window>,
    next_id: u64,
}

impl View for WindowRegistry {
    type V = RegistryModel;

    closed spec fn view(&self) -> RegistryModel {
        RegistryModel { entries: self.entries@, next: self.next_id }
    }
}

impl WindowRegistry {
    /// The registry's invariant: that of its model.
    pub open spec fn wf(&self) -> bool {
        self@.wf()
    }

    /// A registry without windows.
    pub fn new() -> (r: WindowRegistry)
        ensures
            r@ == RegistryModel::empty(),
            r.wf(),
    {
        WindowRegistry { entries: Vec::new(), next_id: 0 }
    }

    /// A registry without windows whose first window gets the identifier
    /// `first`.
    pub fn with_first_id(first: u64) -> (r: WindowRegistry)
        ensures
            r@ == RegistryModel::empty_from(first),
            r.wf(),
    {
        WindowRegistry { entries: Vec::new(), next_id: first }
    }

    fn position_of_window(&self, id: WindowId) -> (i: usize)
        ensures
            i == index_of_window(self@.entries, id),
            i <= self@.entries.len(),
    {
        let mut i: usize = 0;
        while i < self.entries.len() && self.entries[i].id != id
            invariant
                i <= self.entries.len(),
                forall|k: int| 0 <= k < i ==> (#[trigger] self.entries@[k]).id != id,
            decreases self.entries.len() - i,
        {
            i = i + 1;
        }
        proof {
            lemma_index_of_window_is(self.entries@, id, i as int);
        }
        i
    }

    fn position_of_view(&self, view: ViewId) -> (i: usize)
        ensures
            i == index_of_view(self@.entries, view),
            i <= self@.entries.len(),
    {
        let mut i: usize = 0;
        while i < self.entries.len() && self.entries[i].view != view
            invariant
                i <= self.entries.len(),
                forall|k: int| 0 <= k < i ==> (#[trigger] self.entries@[k]).view != view,
            decreases self.entries.len() - i,
        {
            i = i + 1;
        }
        proof {
            lemma_index_of_view_is(self.entries@, view, i as int);
        }
        i
    }

    /// Registers a new window that shows `view` and returns its identifier.
    /// Fails, and changes nothing, when the identifiers are used up or when a
    /// window already shows `view`.
    pub fn insert(&mut self, view: ViewId) -> (r: Result<WindowId, RegistryError>)
        requires
            old(self).wf(),
        ensures
            final(self).wf(),
            final(self)@ == old(self)@.insert(view),
            match r {
                Ok(id) => old(self)@.insert_error(view) is None && id == WindowId(
                    old(self)@.next,
                ),
                Err(e) => old(self)@.insert_error(view) == Some(e),
            },
    {
        if self.next_id == u64::MAX {
            return Err(RegistryError::Exhausted);
        }
        if self.position_of_view(view) < self.entries.len() {
            return Err(RegistryError::ViewBound);
        }
        let id = WindowId(self.next_id);
        proof {
            lemma_insert_keeps_wf(self@, view);
        }
        self.entries.push(Window { id, view, animating: false });
        self.next_id = self.next_id + 1;
        Ok(id)
    }

    /// The window that shows `view`, if there is one.
    pub fn lookup_by_view(&self, view: ViewId) -> (r: Option<WindowId>)
        ensures
            r == self@.owner_of(view),
    {
        let i = self.position_of_view(view);
        if i < self.entries.len() {
            Some(self.entries[i].id)
        } else {
            None
        }
    }

    /// The window with identifier `id`, if it is registered.
    pub fn get(&self, id: WindowId) -> (r: Option<Window>)
        ensures
            r == self@.window(id),
    {
        let i = self.position_of_window(id);
        if i < self.entries.len() {
            Some(self.entries[i])
        } else {
            None
        }
    }

    /// Whether a window with identifier `id` is registered.
    pub fn contains(&self, id: WindowId) -> (r: bool)
        ensures
            r == self@.has_window(id),
    {
        self.position_of_window(id) < self.entries.len()
    }

    /// Takes the window `id` out of the registry and returns it. Without
    /// such a window nothing changes.
    pub fn remove(&mut self, id: WindowId) -> (r: Option<Window>)
        requires
            old(self).wf(),
        ensures
            final(self).wf(),
            final(self)@ == old(self)@.remove(id),
            r == old(self)@.window(id),
    {
        let i = self.position_of_window(id);
        if i < self.entries.len() {
            proof {
                lemma_remove_keeps_wf(self@, id);
            }
            let window = self.entries.remove(i);
            Some(window)
        } else {
            None
        }
    }

    /// Records whether the window `id` is animating. Returns whether the
    /// window is registered.
    pub fn set_animating(&mut self, id: WindowId, animating: bool) -> (r: bool)
        requires
            old(self).wf(),
        ensures
            final(self).wf(),
            final(self)@ == old(self)@.set_animating(id, animating),
            r == old(self)@.has_window(id),
    {
        let i = self.position_of_window(id);
        if i < self.entries.len() {
            proof {
                lemma_set_animating_keeps_wf(self@, id, animating);
            }
            let window = self.entries[i];
            self.entries[i] = Window { id: window.id, view: window.view, animating };
            true
        } else {
            false
        }
    }

    /// The number of registered windows.
    pub fn len(&self) -> (n: usize)
        ensures
            n == self@.entries.len(),
    {
        self.entries.len()
    }

    /// Whether no window is registered.
    pub fn is_empty(&self) -> (r: bool)
        ensures
            r == (self@.entries.len() == 0),
    {
        self.entries.len() == 0
    }

    /// The view of the oldest window.
    pub fn primary_view(&self) -> (r: Option<ViewId>)
        ensures
            r == self@.primary_view(),
    {
        if self.entries.len() > 0 {
            Some(self.entries[0].view)
        } else {
            None
        }
    }

    /// Whether some window is animating.
    pub fn any_animating(&self) -> (r: bool)
        ensures
            r == self@.any_animating(),
    {
        let mut i: usize = 0;
        while i < self.entries.len()
            invariant
                i <= self.entries.len(),
                forall|k: int| 0 <= k < i ==> !(#[trigger] self.entries@[k]).animating,
            decreases self.entries.len() - i,
        {
            if self.entries[i].animating {
                assert(self@.entries[i as int].animating);
                return true;
            }
            i = i + 1;
        }
        false
    }

    /// The registered windows, oldest first.
    pub fn windows(&self) -> (r: Vec<Window>)
        ensures
            r@ == self@.entries,
    {
        self.entries.clone()
    }
}

/// Registering a view keeps the registry's invariant.
pub proof fn lemma_insert_keeps_wf(m: RegistryModel, view: ViewId)
    requires
        m.wf(),
    ensures
        m.insert(view).wf(),
{
    if m.insert_error(view) is None {
        lemma_index_of_view(m.entries, view);
        let after = m.insert(view);
        assert forall|i: int, j: int| 0 <= i < j < after.entries.len() implies (
        #[trigger] after.entries[i]).view != (#[trigger] after.entries[j]).view by {
            if j == m.entries.len() {
                assert(m.entries[i].view != view);
            } else {
                assert(m.entries[i].view != m.entries[j].view);
            }
        }
    }
}

/// Removing a window keeps the registry's invariant.
pub proof fn lemma_remove_keeps_wf(m: RegistryModel, id: WindowId)
    requires
        m.wf(),
    ensures
        m.remove(id).wf(),
{
    lemma_index_of_window(m.entries, id);
}

/// Setting an animation flag keeps the registry's invariant.
pub proof fn lemma_set_animating_keeps_wf(m: RegistryModel, id: WindowId, animating: bool)
    requires
        m.wf(),
    ensures
        m.set_animating(id, animating).wf(),
{
    lemma_index_of_window(m.entries, id);
}

/// A change to the registry.
pub enum RegistryOp {
    Insert(ViewId),
    Remove(WindowId),
    SetAnimating(WindowId, bool),
}

impl RegistryModel {
    /// The registry after one change.
    pub open spec fn apply(self, op: RegistryOp) -> RegistryModel {
        match op {
            RegistryOp::Insert(view) => self.insert(view),
            RegistryOp::Remove(id) => self.remove(id),
            RegistryOp::SetAnimating(id, animating) => self.set_animating(id, animating),
        }
    }

    /// The registry after the changes in the order given.
    pub open spec fn apply_all(self, ops: Seq<RegistryOp>) -> RegistryModel
        decreases ops.len(),
    {
        if ops.len() == 0 {
            self
        } else {
            self.apply_all(ops.drop_last()).apply(ops.last())
        }
    }
}

/// In a well-formed registry a view is shown by at most one window: two
/// entries with one view are one entry.
pub proof fn lemma_view_has_one_window(m: RegistryModel, i: int, j: int)
    requires
        m.wf(),
        0 <= i < m.entries.len(),
        0 <= j < m.entries.len(),
        m.entries[i].view == m.entries[j].view,
    ensures
        i == j,
{
    if i < j {
        assert(m.entries[i].view != m.entries[j].view);
    } else if j < i {
        assert(m.entries[j].view != m.entries[i].view);
    }
}

/// For the view of any registered window, the lookup by view gives exactly
/// that window.
pub proof fn lemma_lookup_finds_the_window(m: RegistryModel, i: int)
    requires
        m.wf(),
        0 <= i < m.entries.len(),
    ensures
        m.owner_of(m.entries[i].view) == Some(m.entries[i].id),
{
    let view = m.entries[i].view;
    lemma_index_of_view(m.entries, view);
    let k = index_of_view(m.entries, view);
    if k < i {
        lemma_view_has_one_window(m, k, i);
    }
    if k > i {
        assert(m.entries[i].view != view);
    }
}

/// A view that no registered window shows is not found.
pub proof fn lemma_lookup_misses_unknown_view(m: RegistryModel, view: ViewId)
    requires
        forall|i: int| 0 <= i < m.entries.len() ==> (#[trigger] m.entries[i]).view != view,
    ensures
        m.owner_of(view) is None,
{
    lemma_index_of_view(m.entries, view);
}

/// Whatever is inserted, removed or flagged, and in whatever order, the
/// registry stays well-formed: no view is ever shown by two windows.
pub proof fn lemma_changes_keep_wf(m: RegistryModel, ops: Seq<RegistryOp>)
    requires
        m.wf(),
    ensures
        m.apply_all(ops).wf(),
    decreases ops.len(),
{
    if ops.len() > 0 {
        lemma_changes_keep_wf(m, ops.drop_last());
        let before = m.apply_all(ops.drop_last());
        match ops.last() {
            RegistryOp::Insert(view) => lemma_insert_keeps_wf(before, view),
            RegistryOp::Remove(id) => lemma_remove_keeps_wf(before, id),
            RegistryOp::SetAnimating(id, animating) => lemma_set_animating_keeps_wf(
                before,
                id,
                animating,
            ),
        }
    }
}

/// An inserted window is found under its view, and a removed window's view
/// is found no more.
pub proof fn lemma_insert_then_lookup(m: RegistryModel, view: ViewId)
    requires
        m.wf(),
        m.insert_error(view) is None,
    ensures
        m.insert(view).owner_of(view) == Some(WindowId(m.next)),
{
    let after = m.insert(view);
    lemma_insert_keeps_wf(m, view);
    lemma_lookup_finds_the_window(after, after.entries.len() - 1);
}

/// Once a window is removed, no window shows its view.
pub proof fn lemma_remove_then_lookup(m: RegistryModel, id: WindowId)
    requires
        m.wf(),
        m.has_window(id),
    ensures
        m.remove(id).owner_of(m.window(id).unwrap().view) is None,
        !m.remove(id).has_window(id),
{
    lemma_index_of_window(m.entries, id);
    let i = index_of_window(m.entries, id);
    let view = m.entries[i].view;
    let after = m.remove(id);
    assert forall|k: int| 0 <= k < after.entries.len() implies (#[trigger] after.entries[k]).view
        != view && after.entries[k].id != id by {
        if k < i {
            assert(after.entries[k] == m.entries[k]);
            assert(m.entries[k].view != m.entries[i].view);
            assert(m.entries[k].id.0 < m.entries[i].id.0);
        } else {
            assert(after.entries[k] == m.entries[k + 1]);
            assert(m.entries[i].view != m.entries[k + 1].view);
            assert(m.entries[i].id.0 < m.entries[k + 1].id.0);
        }
    }
    lemma_lookup_misses_unknown_view(after, view);
    lemma_index_of_window(after.entries, id);
}

} // verus!
