//! The viewport set controller: one host viewport identifier per secondary
//! window, derived from the window's index alone.

use crate::decimal::{decimal_digits, decimal_string, lemma_decimal_injective};
use vstd::prelude::*;

verus! {

/// The largest number of secondary windows that can be asked for.
pub const MAX_WINDOWS: usize = 10;

/// `egui::ViewportId`, the key by which the host tells windows apart. It is
/// opaque here: its values are made by egui and carried, never looked into.
#[verifier::external_type_specification]
#[verifier::external_body]
pub struct ExViewportId(egui::ViewportId);

/// The viewport identifier that egui derives from a label, as
/// `egui::ViewportId(egui::Id::new(label))` computes it from an owned string.
///
/// egui hashes the label with a hasher whose seeds are fixed in its source,
/// so within one build of a program the identifier depends on the label's
/// characters and on nothing else. Nothing more is known of it here; in
/// particular two labels are not known to get different identifiers.
pub uninterp spec fn viewport_id_of(label: Seq<char>) -> egui::ViewportId;

/// The label of the secondary window at `index`: the letter `w`, then the
/// index in decimal.
pub open spec fn label_of(index: nat) -> Seq<char> {
    seq!['w'] + decimal_digits(index)
}

/// The identifiers of the first `count` secondary windows, in index order.
pub open spec fn viewport_ids_for(count: nat) -> Seq<egui::ViewportId> {
    Seq::new(count, |i: int| viewport_id_of(label_of(i as nat)))
}

/// The window count that a request leads to: the request itself up to
/// `MAX_WINDOWS`, and `MAX_WINDOWS` beyond.
pub open spec fn clamp_window_count(requested: nat) -> nat {
    if requested > MAX_WINDOWS {
        MAX_WINDOWS as nat
    } else {
        requested
    }
}

/// Whether `ids` is a set that the controller can hold: at most
/// `MAX_WINDOWS` identifiers, each the one that belongs to its index.
pub open spec fn is_viewport_set(ids: Seq<egui::ViewportId>) -> bool {
    &&& ids.len() <= MAX_WINDOWS
    &&& ids == viewport_ids_for(ids.len())
}

/// The set that follows `current` when `requested` windows are asked for:
/// `current` itself where the count does not change, and otherwise the
/// identifiers of the new count, derived afresh.
pub open spec fn after_request(current: Seq<egui::ViewportId>, requested: nat) -> Seq<
    egui::ViewportId,
> {
    if clamp_window_count(requested) == current.len() {
        current
    } else {
        viewport_ids_for(clamp_window_count(requested))
    }
}

/// Calls `egui::Id::new` on the label and wraps the result in
/// `egui::ViewportId`. Trusted: the identifier is the one that
/// `viewport_id_of` names for the label's characters.
#[verifier::external_body]
fn hashed_viewport_id(label: String) -> (id: egui::ViewportId)
    ensures
        id == viewport_id_of(label@),
{
    egui::ViewportId(egui::Id::new(label))
}

/// The label of the secondary window at `index`.
pub fn viewport_label(index: usize) -> (label: String)
    ensures
        label@ == label_of(index as nat),
{
    let mut label = String::from_str("w");
    let digits = decimal_string(index);
    label.append(digits.as_str());
    proof {
        reveal_strlit("w");
        assert(label@ =~= label_of(index as nat));
    }
    label
}

/// The host identifier of the secondary window at `index`.
pub fn viewport_id(index: usize) -> (id: egui::ViewportId)
    ensures
        id == viewport_id_of(label_of(index as nat)),
{
    hashed_viewport_id(viewport_label(index))
}

/// The application state: the identifiers of the secondary windows that are
/// to be shown, one per window, in index order.
pub struct TemplateApp {
    viewport_ids: Vec<egui::ViewportId>,
}

impl View for TemplateApp {
    type V = Seq<egui::ViewportId>;

    closed spec fn view(&self) -> Seq<egui::ViewportId> {
        self.viewport_ids@
    }
}

impl TemplateApp {
    #[verifier::type_invariant]
    closed spec fn well_formed(self) -> bool {
        is_viewport_set(self.viewport_ids@)
    }

    /// The state at start: no secondary window.
    pub fn new() -> (app: Self)
        ensures
            app@ == Seq::<egui::ViewportId>::empty(),
            is_viewport_set(app@),
    {
        let viewport_ids: Vec<egui::ViewportId> = Vec::new();
        assert(viewport_ids@ =~= viewport_ids_for(0));
        TemplateApp { viewport_ids }
    }

    /// The number of secondary windows.
    pub fn window_count(&self) -> (count: usize)
        ensures
            count == self@.len(),
            count <= MAX_WINDOWS,
    {
        proof {
            use_type_invariant(self);
        }
        self.viewport_ids.len()
    }

    /// The identifiers of the secondary windows, in the order in which the
    /// windows are to be shown.
    pub fn viewport_ids(&self) -> (ids: &Vec<egui::ViewportId>)
        ensures
            ids@ == self@,
            is_viewport_set(self@),
    {
        proof {
            use_type_invariant(self);
        }
        &self.viewport_ids
    }

    /// Applies the window count that the slider reports.
    ///
    /// A request above `MAX_WINDOWS` counts as `MAX_WINDOWS`. Where the count
    /// does not change, nothing is touched and the result is `false`; where it
    /// does, all identifiers are derived afresh from their indices and the
    /// result is `true`.
    pub fn set_window_count(&mut self, requested: usize) -> (changed: bool)
        ensures
            final(self)@ == viewport_ids_for(clamp_window_count(requested as nat)),
            final(self)@ == after_request(old(self)@, requested as nat),
            final(self)@.len() == clamp_window_count(requested as nat),
            changed == (clamp_window_count(requested as nat) != old(self)@.len()),
            !changed ==> *final(self) == *old(self),
    {
        proof {
            use_type_invariant(&*self);
        }
        let target = if requested > MAX_WINDOWS {
            MAX_WINDOWS
        } else {
            requested
        };
        if target == self.viewport_ids.len() {
            return false;
        }
        let mut ids: Vec<egui::ViewportId> = Vec::new();
        let mut index: usize = 0;
        while index < target
            invariant
                index <= target,
                ids@ == viewport_ids_for(index as nat),
            decreases target - index,
        {
            ids.push(viewport_id(index));
            index += 1;
        }
        self.viewport_ids = ids;
        true
    }
}

impl Default for TemplateApp {
    fn default() -> (app: Self)
        ensures
            app@ == Seq::<egui::ViewportId>::empty(),
    {
        TemplateApp::new()
    }
}

/// Windows at different indices have different labels.
pub proof fn lemma_labels_distinct(i: nat, j: nat)
    requires
        i != j,
    ensures
        label_of(i) != label_of(j),
{
    if label_of(i) == label_of(j) {
        assert(label_of(i).subrange(1, label_of(i).len() as int) =~= decimal_digits(i));
        assert(label_of(j).subrange(1, label_of(j).len() as int) =~= decimal_digits(j));
        lemma_decimal_injective(i, j);
    }
}

/// Asking for `requested` windows gives a set of exactly that many
/// identifiers, and of `MAX_WINDOWS` where more were asked for; the
/// identifier at each index belongs to a label that no other index has.
pub proof fn lemma_request_sets_count(current: Seq<egui::ViewportId>, requested: nat)
    requires
        is_viewport_set(current),
    ensures
        is_viewport_set(after_request(current, requested)),
        after_request(current, requested).len() == clamp_window_count(requested),
        requested <= MAX_WINDOWS ==> after_request(current, requested).len() == requested,
        after_request(current, requested).len() <= MAX_WINDOWS,
        forall|i: int|
            0 <= i < after_request(current, requested).len() ==> #[trigger] after_request(
                current,
                requested,
            )[i] == viewport_id_of(label_of(i as nat)),
        forall|i: nat, j: nat| i != j ==> #[trigger] label_of(i) != #[trigger] label_of(j),
{
    assert forall|i: nat, j: nat| i != j implies #[trigger] label_of(i) != #[trigger] label_of(
        j,
    ) by {
        lemma_labels_distinct(i, j);
    }
}

/// Asking for the same count twice in a row changes nothing the second time.
pub proof fn lemma_request_idempotent(current: Seq<egui::ViewportId>, requested: nat)
    ensures
        after_request(after_request(current, requested), requested) == after_request(
            current,
            requested,
        ),
{
}

/// A change of the count keeps the identifiers of the windows that stay:
/// growing appends the identifiers of the new indices to the old set, and
/// shrinking cuts the old set down to its first identifiers. Since each
/// identifier depends on its index alone, shrinking and then growing back
/// restores the set that was there before.
pub proof fn lemma_resize_keeps_prefix(current: Seq<egui::ViewportId>, requested: nat)
    requires
        is_viewport_set(current),
    ensures
        clamp_window_count(requested) >= current.len() ==> after_request(current, requested)
            == current + Seq::new(
            (clamp_window_count(requested) - current.len()) as nat,
            |k: int| viewport_id_of(label_of((current.len() + k) as nat)),
        ),
        clamp_window_count(requested) <= current.len() ==> after_request(current, requested)
            == current.take(clamp_window_count(requested) as int),
        forall|i: int|
            0 <= i < current.len() && i < clamp_window_count(requested) ==> after_request(
                current,
                requested,
            )[i] == #[trigger] current[i],
        after_request(after_request(current, requested), current.len()) == current,
{
    let next = after_request(current, requested);
    let target = clamp_window_count(requested);
    if target >= current.len() {
        assert(next =~= current + Seq::new(
            (target - current.len()) as nat,
            |k: int| viewport_id_of(label_of((current.len() + k) as nat)),
        ));
    }
    if target <= current.len() {
        assert(next =~= current.take(target as int));
    }
    assert(after_request(next, current.len()) =~= current);
}

} // verus!
