//! The selection state: three slots (draft, current, old), each holding the
//! stored text of at most one selection, and the operations that move
//! selections between them.
//!
//! The slots live in a [`SlotStore`], which the caller loads from durable
//! storage and saves back after each operation; the library decides what
//! every slot holds.

use vstd::prelude::*;
use vstd::string::*;

use crate::text::{same_text, split_first};

verus! {

/// A selection as mathematics: each field is absent or a text.
pub struct SelectionView {
    pub exe_path: Option<Seq<char>>,
    pub appname: Option<Seq<char>>,
}

/// The selection in effect: which executable runs, and under which app
/// namespace.
#[derive(Debug, PartialEq, Eq)]
pub struct State {
    pub exe_path: Option<String>,
    pub appname: Option<String>,
}

/// The text an optional string holds, if any.
pub open spec fn text_view(o: Option<String>) -> Option<Seq<char>> {
    match o {
        Some(s) => Some(s@),
        None => None,
    }
}

impl View for State {
    type V = SelectionView;

    open spec fn view(&self) -> SelectionView {
        SelectionView { exe_path: text_view(self.exe_path), appname: text_view(self.appname) }
    }
}

/// The text of an optional value, with the empty text for an absent one.
pub open spec fn text_or_empty(t: Option<Seq<char>>) -> Seq<char> {
    match t {
        Some(t) => t,
        None => Seq::empty(),
    }
}

/// A field read back from its stored text: the empty text is an absent field.
pub open spec fn field_of(t: Seq<char>) -> Option<Seq<char>> {
    if t.len() == 0 {
        None
    } else {
        Some(t)
    }
}

/// The text a selection is stored as: the executable path, a newline, then
/// the app namespace, each empty when absent.
pub open spec fn encoding(s: SelectionView) -> Seq<char> {
    text_or_empty(s.exe_path) + seq!['\n'] + text_or_empty(s.appname)
}

/// The position of the first newline in a text that holds one.
pub open spec fn first_newline(blob: Seq<char>) -> int
    recommends
        blob.contains('\n'),
{
    choose|i: int| 0 <= i < blob.len() && blob[i] == '\n' && !blob.take(i).contains('\n')
}

/// The selection a stored text holds: the text before its first newline is
/// the path and all that follows it is the namespace. A text without a
/// newline is malformed and holds none.
pub open spec fn decoding(blob: Seq<char>) -> Option<SelectionView> {
    if blob.contains('\n') {
        let i = first_newline(blob);
        Some(SelectionView { exe_path: field_of(blob.take(i)), appname: field_of(blob.skip(i + 1)) })
    } else {
        None
    }
}

/// A selection that reads back unchanged once stored: no field is present
/// but empty, and the path holds no newline.
pub open spec fn is_storable(s: SelectionView) -> bool {
    &&& s.exe_path != Some(Seq::<char>::empty())
    &&& s.appname != Some(Seq::<char>::empty())
    &&& !text_or_empty(s.exe_path).contains('\n')
}

/// A text cut at a newline that has no newline before it decodes to the two
/// sides of the cut.
proof fn lemma_decoding_at_cut(a: Seq<char>, b: Seq<char>)
    requires
        !a.contains('\n'),
    ensures
        decoding(a + seq!['\n'] + b) == Some(
            SelectionView { exe_path: field_of(a), appname: field_of(b) },
        ),
{
    let blob = a + seq!['\n'] + b;
    let n = a.len() as int;
    assert(blob.take(n) =~= a);
    assert(blob[n] == '\n');
    assert(0 <= n < blob.len() && blob[n] == '\n' && !blob.take(n).contains('\n'));
    assert(blob.contains('\n'));
    let i = first_newline(blob);
    if i < n {
        assert(a[i] == '\n');
    }
    if i > n {
        assert(blob.take(i)[n] == '\n');
    }
    assert(i == n);
    assert(blob.skip(i + 1) =~= b);
}

/// Stored selections read back unchanged.
pub proof fn lemma_encoding_round_trip(s: SelectionView)
    requires
        is_storable(s),
    ensures
        decoding(encoding(s)) == Some(s),
{
    lemma_decoding_at_cut(text_or_empty(s.exe_path), text_or_empty(s.appname));
    lemma_field_of_text(s.exe_path);
    lemma_field_of_text(s.appname);
}

/// A field that is absent or holds a non-empty text reads back unchanged.
proof fn lemma_field_of_text(t: Option<Seq<char>>)
    requires
        t != Some(Seq::<char>::empty()),
    ensures
        field_of(text_or_empty(t)) == t,
{
    if let Some(x) = t {
        if x.len() == 0 {
            assert(x =~= Seq::<char>::empty());
        }
    }
}

fn copy_text(o: &Option<String>) -> (r: Option<String>)
    ensures
        r == *o,
{
    match o {
        Some(t) => Some(t.clone()),
        None => None,
    }
}

fn text_or_default(o: Option<String>) -> (r: String)
    ensures
        r@ == text_or_empty(text_view(o)),
{
    match o {
        Some(t) => t,
        None => String::new(),
    }
}

fn field_from(t: String) -> (r: Option<String>)
    ensures
        text_view(r) == field_of(t@),
{
    if t.as_str().is_empty() {
        None
    } else {
        Some(t)
    }
}

impl State {
    /// The text this selection is stored as.
    pub fn encode(&self) -> (r: String)
        ensures
            r@ == encoding(self@),
    {
        let mut r = text_or_default(copy_text(&self.exe_path));
        let tail = text_or_default(copy_text(&self.appname));
        proof {
            reveal_strlit("\n");
        }
        r.append("\n");
        r.append(tail.as_str());
        r
    }

    /// The selection a stored text holds; `None` where the text is malformed.
    pub fn decode(blob: &str) -> (r: Option<State>)
        ensures
            match r {
                Some(s) => decoding(blob@) == Some(s@),
                None => decoding(blob@) is None,
            },
    {
        match split_first(blob, '\n') {
            Some((a, b)) => {
                proof {
                    lemma_decoding_at_cut(a@, b@);
                }
                Some(State { exe_path: field_from(a), appname: field_from(b) })
            },
            None => None,
        }
    }
}

/// One of the three slots.
#[derive(Clone, Copy, Debug, PartialEq, Eq, Structural)]
pub enum StateKind {
    /// The selection that takes effect at the next run of the executable.
    Draft,
    /// The selection committed by the last run.
    Current,
    /// One step of history, used by rotation.
    Old,
}

/// The three slots as mathematics: what each holds (absent when it was
/// never written), and the selection to fall back on.
pub struct SlotsView {
    pub draft: Option<Seq<char>>,
    pub current: Option<Seq<char>>,
    pub old: Option<Seq<char>>,
    pub system_exe: Option<Seq<char>>,
}

/// The three slots, each holding a stored text or nothing, and the path of
/// the executable found outside this tool's own directory, if any.
pub struct SlotStore {
    pub draft: Option<String>,
    pub current: Option<String>,
    pub old: Option<String>,
    pub system_exe: Option<String>,
}

impl View for SlotStore {
    type V = SlotsView;

    open spec fn view(&self) -> SlotsView {
        SlotsView {
            draft: text_view(self.draft),
            current: text_view(self.current),
            old: text_view(self.old),
            system_exe: text_view(self.system_exe),
        }
    }
}

/// What a slot holds.
pub open spec fn slot(v: SlotsView, kind: StateKind) -> Option<Seq<char>> {
    match kind {
        StateKind::Draft => v.draft,
        StateKind::Current => v.current,
        StateKind::Old => v.old,
    }
}

/// The slots after `blob` is stored in one of them.
pub open spec fn with_slot(v: SlotsView, kind: StateKind, blob: Seq<char>) -> SlotsView {
    match kind {
        StateKind::Draft => SlotsView { draft: Some(blob), ..v },
        StateKind::Current => SlotsView { current: Some(blob), ..v },
        StateKind::Old => SlotsView { old: Some(blob), ..v },
    }
}

/// The selection a slot falls back on: the executable found on the system,
/// no namespace.
pub open spec fn default_selection(v: SlotsView) -> SelectionView {
    SelectionView { exe_path: v.system_exe, appname: None }
}

/// The selection read from a slot: what it holds, or the default where it
/// holds nothing or a malformed text.
pub open spec fn read_slot(v: SlotsView, kind: StateKind) -> SelectionView {
    match slot(v, kind) {
        Some(blob) => match decoding(blob) {
            Some(s) => s,
            None => default_selection(v),
        },
        None => default_selection(v),
    }
}

/// The slots after a read: an empty slot is initialised with the default.
pub open spec fn after_read(v: SlotsView, kind: StateKind) -> SlotsView {
    match slot(v, kind) {
        Some(_) => v,
        None => with_slot(v, kind, encoding(default_selection(v))),
    }
}

/// The slots after a selection is written: the draft holds it.
pub open spec fn written(v: SlotsView, s: SelectionView) -> SlotsView {
    with_slot(v, StateKind::Draft, encoding(s))
}

/// The text a slot stands for: what it holds, or the stored default where
/// it was never written (every slot starts as the default selection).
pub open spec fn slot_text(v: SlotsView, kind: StateKind) -> Seq<char> {
    match slot(v, kind) {
        Some(blob) => blob,
        None => encoding(default_selection(v)),
    }
}

/// The slots after a commit: the current slot holds a copy of the draft.
pub open spec fn committed(v: SlotsView) -> SlotsView {
    SlotsView { current: Some(slot_text(v, StateKind::Draft)), ..v }
}

/// The slots after a rotation, comparing and copying the texts the slots
/// stand for. Where draft and current agree, current and old swap and the
/// draft follows the new current; otherwise the pending draft moves to old
/// and the draft reverts to current.
pub open spec fn rotated(v: SlotsView) -> SlotsView {
    let draft = slot_text(v, StateKind::Draft);
    let current = slot_text(v, StateKind::Current);
    let old = slot_text(v, StateKind::Old);
    if draft == current {
        SlotsView { draft: Some(old), current: Some(old), old: Some(current), ..v }
    } else {
        SlotsView { draft: Some(current), old: Some(draft), ..v }
    }
}

impl StateKind {
    /// The file name under which the slot is kept.
    pub fn path(&self) -> (r: &'static str)
        ensures
            r@ == slot_file_name(*self),
    {
        proof {
            reveal_strlit("draft.shim");
            reveal_strlit("current.shim");
            reveal_strlit("old.shim");
        }
        match self {
            StateKind::Draft => "draft.shim",
            StateKind::Current => "current.shim",
            StateKind::Old => "old.shim",
        }
    }

    fn slot_ref<'a>(&self, store: &'a SlotStore) -> (r: &'a Option<String>)
        ensures
            text_view(*r) == slot(store@, *self),
    {
        match self {
            StateKind::Draft => &store.draft,
            StateKind::Current => &store.current,
            StateKind::Old => &store.old,
        }
    }

    /// What the slot holds.
    pub fn read(&self, store: &SlotStore) -> (r: Option<String>)
        ensures
            text_view(r) == slot(store@, *self),
    {
        copy_text(self.slot_ref(store))
    }

    /// Stores `content` in the slot.
    pub fn write(&self, store: &mut SlotStore, content: String)
        ensures
            final(store)@ == with_slot(old(store)@, *self, content@),
    {
        match self {
            StateKind::Draft => store.draft = Some(content),
            StateKind::Current => store.current = Some(content),
            StateKind::Old => store.old = Some(content),
        }
    }

    /// The text the slot stands for: what it holds, or the stored default
    /// where it was never written.
    pub fn content(&self, store: &SlotStore) -> (r: String)
        ensures
            r@ == slot_text(store@, *self),
    {
        match self.slot_ref(store) {
            Some(t) => t.clone(),
            None => State::system_default(store).encode(),
        }
    }

    /// Stores in this slot a copy of the text `kind` stands for.
    pub fn replace_with(&self, store: &mut SlotStore, kind: StateKind)
        ensures
            final(store)@ == with_slot(old(store)@, *self, slot_text(old(store)@, kind)),
    {
        let content = kind.content(store);
        self.write(store, content);
    }

    /// Whether the two slots stand for the same text.
    pub fn same_content(&self, store: &SlotStore, rhs: StateKind) -> (r: bool)
        ensures
            r == (slot_text(store@, *self) == slot_text(store@, rhs)),
    {
        let a = self.content(store);
        let b = rhs.content(store);
        a.eq(&b)
    }
}

/// The file name of each slot.
pub open spec fn slot_file_name(kind: StateKind) -> Seq<char> {
    match kind {
        StateKind::Draft => "draft.shim"@,
        StateKind::Current => "current.shim"@,
        StateKind::Old => "old.shim"@,
    }
}

impl State {
    /// The selection a slot falls back on: the executable found on the
    /// system, with no namespace.
    pub fn system_default(store: &SlotStore) -> (r: State)
        ensures
            r@ == default_selection(store@),
    {
        State { exe_path: copy_text(&store.system_exe), appname: None }
    }

    /// Reads the draft, initialising it with the default where it is empty.
    pub fn read(store: &mut SlotStore) -> (r: State)
        ensures
            r@ == read_slot(old(store)@, StateKind::Draft),
            final(store)@ == after_read(old(store)@, StateKind::Draft),
    {
        Self::read_from(store, StateKind::Draft)
    }

    /// Reads a slot, initialising it with the default where it is empty. A
    /// malformed text reads as the default and is left as it is.
    pub fn read_from(store: &mut SlotStore, kind: StateKind) -> (r: State)
        ensures
            r@ == read_slot(old(store)@, kind),
            final(store)@ == after_read(old(store)@, kind),
    {
        match kind.read(store) {
            Some(content) => match State::decode(content.as_str()) {
                Some(s) => s,
                None => Self::system_default(store),
            },
            None => {
                let state = Self::system_default(store);
                state.write_to(store, kind);
                state
            },
        }
    }

    /// Writes this selection to the draft; current and old are untouched.
    pub fn write(&self, store: &mut SlotStore)
        ensures
            final(store)@ == written(old(store)@, self@),
    {
        self.write_to(store, StateKind::Draft);
    }

    /// Writes this selection to a slot.
    pub fn write_to(&self, store: &mut SlotStore, kind: StateKind)
        ensures
            final(store)@ == with_slot(old(store)@, kind, encoding(self@)),
    {
        let content = self.encode();
        kind.write(store, content);
    }

    /// Goes one step back: undoes a pending draft, or else swaps current
    /// and old.
    pub fn use_older_state(store: &mut SlotStore)
        ensures
            final(store)@ == rotated(old(store)@),
    {
        if StateKind::Draft.same_content(store, StateKind::Current) {
            StateKind::Draft.replace_with(store, StateKind::Old);
            StateKind::Old.replace_with(store, StateKind::Current);
            StateKind::Current.replace_with(store, StateKind::Draft);
        } else {
            StateKind::Old.replace_with(store, StateKind::Draft);
            StateKind::Draft.replace_with(store, StateKind::Current);
        }
    }

    /// Commits the draft: current becomes a copy of it.
    pub fn draft_to_current(store: &mut SlotStore)
        ensures
            final(store)@ == committed(old(store)@),
    {
        StateKind::Current.replace_with(store, StateKind::Draft);
    }
}

/// A selection written to the draft is what the next read returns, and that
/// read leaves the slots as the write left them.
pub proof fn lemma_read_after_write(v: SlotsView, s: SelectionView)
    requires
        is_storable(s),
    ensures
        read_slot(written(v, s), StateKind::Draft) == s,
        after_read(written(v, s), StateKind::Draft) == written(v, s),
{
    lemma_encoding_round_trip(s);
}

/// Committing twice in a row leaves the slots as committing once does.
pub proof fn lemma_commit_idempotent(v: SlotsView)
    ensures
        committed(committed(v)) == committed(v),
{
}

/// From a committed state (draft and current both hold `x`, old holds `y`),
/// one rotation makes `y` current and a second brings back `x`: the two
/// rotations restore every slot.
pub proof fn lemma_rotate_self_inverse(v: SlotsView, x: Seq<char>, y: Seq<char>)
    requires
        v.draft == Some(x),
        v.current == Some(x),
        v.old == Some(y),
    ensures
        rotated(v).current == Some(y),
        rotated(rotated(v)).current == Some(x),
        rotated(rotated(v)) == v,
{
}

/// With a pending draft `d` that differs from current `c`, a rotation keeps
/// current, moves `c` into the draft and stashes `d` in old.
pub proof fn lemma_rotate_discards_draft(v: SlotsView, d: Seq<char>, c: Seq<char>)
    requires
        v.draft == Some(d),
        v.current == Some(c),
        d != c,
    ensures
        rotated(v).current == v.current,
        rotated(v).draft == Some(c),
        rotated(v).old == Some(d),
{
}

/// On a fresh installation where no executable is found on the system, the
/// first read gives the empty selection. After a selection is written and
/// the shim runs (a read of the draft, then a commit), current holds that
/// selection and the draft is unchanged; one rotation then brings current
/// back to what it read as before the run.
pub proof fn lemma_fresh_install(v: SlotsView, s: SelectionView)
    requires
        v.draft is None,
        v.current is None,
        v.old is None,
        v.system_exe is None,
        is_storable(s),
    ensures
        read_slot(v, StateKind::Draft) == (SelectionView { exe_path: None, appname: None }),
        ({
            let v1 = written(after_read(v, StateKind::Draft), s);
            let v2 = committed(after_read(v1, StateKind::Draft));
            &&& read_slot(v2, StateKind::Current) == s
            &&& v2.draft == v1.draft
            &&& read_slot(rotated(v2), StateKind::Current) == read_slot(v1, StateKind::Current)
        }),
{
    lemma_encoding_round_trip(s);
    let empty = Seq::<char>::empty();
    assert(!empty.contains('\n'));
}

/// On a fresh installation, a selection `x` is used (the draft is read,
/// then `x` written) and then restored twice: the first restore discards
/// the pending `x` into old, the second brings it back as both draft and
/// current.
pub proof fn lemma_fresh_use_then_restore_twice(v: SlotsView, x: SelectionView)
    requires
        v.draft is None,
        v.current is None,
        v.old is None,
    ensures
        ({
            let v1 = written(after_read(v, StateKind::Draft), x);
            let v3 = rotated(rotated(v1));
            &&& v3.draft == Some(encoding(x))
            &&& v3.current == Some(encoding(x))
            &&& (is_storable(x) ==> read_slot(v3, StateKind::Draft) == x && read_slot(
                v3,
                StateKind::Current,
            ) == x)
        }),
{
    if is_storable(x) {
        lemma_encoding_round_trip(x);
    }
}

/// The directory that holds a path, by `Path::parent`.
pub uninterp spec fn parent_of(path: Seq<char>) -> Option<Seq<char>>;

/// Whether two paths are the same, by `Path`'s equality.
pub uninterp spec fn paths_equal(a: Seq<char>, b: Seq<char>) -> bool;

/// Relies on `Path::parent`: the path without its final component, where
/// it has one.
#[verifier::external_body]
fn path_parent(path: &str) -> (r: Option<String>)
    ensures
        text_view(r) == parent_of(path@),
{
    std::path::Path::new(path).parent().map(|p| p.to_string_lossy().into_owned())
}

/// Relies on `<Path as PartialEq>::eq`: whether two paths have the same
/// components.
#[verifier::external_body]
fn same_path(a: &str, b: &str) -> (r: bool)
    ensures
        r == paths_equal(a@, b@),
{
    std::path::Path::new(a) == std::path::Path::new(b)
}

/// A path whose directory is known and is not `dir`.
pub open spec fn lies_outside(path: Seq<char>, dir: Seq<char>) -> bool {
    match parent_of(path) {
        Some(p) => !paths_equal(p, dir),
        None => false,
    }
}

/// The executable a fresh slot falls back on: the first of `candidates`
/// (the executables of that name found on the search path, in order) that
/// does not lie in `bin_dir`, this tool's own directory; `None` where all
/// do.
pub fn system_executable(candidates: &Vec<String>, bin_dir: &str) -> (r: Option<String>)
    ensures
        match r {
            Some(p) => exists|i: int|
                0 <= i < candidates@.len() && candidates@[i]@ == p@ && lies_outside(
                    candidates@[i]@,
                    bin_dir@,
                ) && forall|j: int| 0 <= j < i ==> !lies_outside(#[trigger] candidates@[j]@, bin_dir@),
            None => forall|i: int|
                0 <= i < candidates@.len() ==> !lies_outside(#[trigger] candidates@[i]@, bin_dir@),
        },
{
    let mut i: usize = 0;
    while i < candidates.len()
        invariant
            i <= candidates@.len(),
            forall|j: int| 0 <= j < i ==> !lies_outside(#[trigger] candidates@[j]@, bin_dir@),
        decreases candidates@.len() - i,
    {
        let path = &candidates[i];
        if let Some(parent) = path_parent(path.as_str()) {
            if !same_path(parent.as_str(), bin_dir) {
                return Some(path.clone());
            }
        }
        i += 1;
    }
    None
}

/// The name that selects the executable found on the system.
pub const SYSTEM_VERSION: &'static str = "system";

/// The executable a `use` of `version` selects: the one found on the
/// system for [`SYSTEM_VERSION`], else `installed_exe`, the executable of
/// that version's installation.
pub fn selected_exe(version: &str, installed_exe: String, store: &SlotStore) -> (r: Option<String>)
    ensures
        text_view(r) == if version@ == SYSTEM_VERSION@ {
            store@.system_exe
        } else {
            Some(installed_exe@)
        },
{
    if same_text(version, SYSTEM_VERSION) {
        copy_text(&store.system_exe)
    } else {
        Some(installed_exe)
    }
}

} // verus!
