//! The live book of pending orders, one entry per identifier, with the index
//! of the entry under the cursor.

use vstd::prelude::*;
use crate::order::{Order, OrderView};
use crate::tags::{DecodeError, decode_tags, order_from_tags};

verus! {

/// `s` without the entries of identifier `id`, the others in their order.
pub open spec fn without_id(s: Seq<OrderView>, id: u128) -> Seq<OrderView>
    decreases s.len(),
{
    if s.len() == 0 {
        s
    } else {
        let rest = without_id(s.drop_last(), id);
        if s.last().id == Some(id) {
            rest
        } else {
            rest.push(s.last())
        }
    }
}

/// The entries after one projection is applied: one without an identifier is
/// dropped; otherwise it supersedes every entry of its identifier, and stays
/// only while it is pending.
pub open spec fn applied(s: Seq<OrderView>, p: OrderView) -> Seq<OrderView> {
    match p.id {
        None => s,
        Some(id) => {
            let kept = without_id(s, id);
            if p.is_pending() {
                kept.push(p)
            } else {
                kept
            }
        },
    }
}

/// The cursor once the book holds `len` entries: none in an empty book, the
/// first entry when the book was empty, else the old index kept in bounds.
pub open spec fn clamped(sel: Option<int>, len: int) -> Option<int> {
    if len <= 0 {
        None
    } else {
        match sel {
            None => Some(0),
            Some(i) => if i < len {
                Some(i)
            } else {
                Some(len - 1)
            },
        }
    }
}

/// The cursor moved by `delta`, held within `0..len`.
pub open spec fn scrolled(sel: Option<int>, len: int, delta: int) -> Option<int> {
    match sel {
        None => None,
        Some(i) => if i + delta < 0 {
            Some(0)
        } else if i + delta >= len {
            Some(len - 1)
        } else {
            Some(i + delta)
        },
    }
}

/// The cursor `sel` of a list of `len` entries moved by `delta`, held within
/// the list.
pub fn scroll_index(sel: Option<usize>, len: usize, delta: i64) -> (r: Option<usize>)
    requires
        selection_wf(
            match sel {
                Some(i) => Some(i as int),
                None => None,
            },
            len as int,
        ),
    ensures
        match scrolled(
            match sel {
                Some(i) => Some(i as int),
                None => None,
            },
            len as int,
            delta as int,
        ) {
            Some(i) => r == Some(i as usize) && 0 <= i < len,
            None => r is None,
        },
{
    match sel {
        None => None,
        Some(k) => {
            let target: i128 = k as i128 + delta as i128;
            if target < 0 {
                Some(0)
            } else if target >= len as i128 {
                Some(len - 1)
            } else {
                Some(target as usize)
            }
        },
    }
}

/// Every entry is pending and has an identifier, and no two share one.
pub open spec fn entries_wf(s: Seq<OrderView>) -> bool {
    &&& forall|i: int| 0 <= i < s.len() ==> (#[trigger] s[i]).id is Some && s[i].is_pending()
    &&& forall|i: int, j: int|
        0 <= i < s.len() && 0 <= j < s.len() && i != j ==> (#[trigger] s[i]).id != (#[trigger] s[j]).id
}

/// A cursor is set exactly when there are entries, and points at one.
pub open spec fn selection_wf(sel: Option<int>, len: int) -> bool {
    match sel {
        None => len == 0,
        Some(i) => 0 <= i < len,
    }
}

/// How far the first fill of the book has come.
#[derive(Clone, Copy, Debug, PartialEq, Eq, Structural)]
pub enum LoadingState {
    Idle,
    Loading,
    Loaded,
}

/// The book of pending orders.
pub struct OrderBook {
    orders: Vec<Order>,
    selected: Option<usize>,
    loading_state: LoadingState,
}

impl OrderBook {
    /// The entries, in the order in which they came.
    pub closed spec fn entries(&self) -> Seq<OrderView> {
        self.orders@.map_values(|o: Order| o@)
    }

    /// The index of the entry under the cursor.
    pub closed spec fn selection(&self) -> Option<int> {
        match self.selected {
            Some(i) => Some(i as int),
            None => None,
        }
    }

    pub closed spec fn loading(&self) -> LoadingState {
        self.loading_state
    }

    pub open spec fn wf(&self) -> bool {
        &&& entries_wf(self.entries())
        &&& selection_wf(self.selection(), self.entries().len() as int)
    }

    /// An empty book.
    pub fn new() -> (r: OrderBook)
        ensures
            r.wf(),
            r.entries() == Seq::<OrderView>::empty(),
            r.selection() is None,
            r.loading() == LoadingState::Idle,
    {
        let r = OrderBook { orders: Vec::new(), selected: None, loading_state: LoadingState::Idle };
        assert(r.entries() =~= Seq::<OrderView>::empty());
        r
    }

    /// The number of entries.
    pub fn len(&self) -> (r: usize)
        ensures
            r == self.entries().len(),
    {
        self.orders.len()
    }

    pub fn is_empty(&self) -> (r: bool)
        ensures
            r == (self.entries().len() == 0),
    {
        self.orders.len() == 0
    }

    /// The index of the entry under the cursor.
    pub fn selected(&self) -> (r: Option<usize>)
        ensures
            match r {
                Some(i) => self.selection() == Some(i as int),
                None => self.selection() is None,
            },
    {
        self.selected
    }

    /// A copy of the entry at `i`.
    pub fn get(&self, i: usize) -> (r: Option<Order>)
        ensures
            match r {
                Some(o) => i < self.entries().len() && o@ == self.entries()[i as int],
                None => i >= self.entries().len(),
            },
    {
        if i < self.orders.len() {
            Some(self.orders[i].copy())
        } else {
            None
        }
    }

    /// A copy of the entry under the cursor, taken so that later events do not
    /// change it.
    pub fn selected_order(&self) -> (r: Option<Order>)
        requires
            self.wf(),
        ensures
            match self.selection() {
                Some(i) => r is Some && r->Some_0@ == self.entries()[i],
                None => r is None,
            },
    {
        match self.selected {
            Some(i) => self.get(i),
            None => None,
        }
    }

    /// Applies the projection decoded from one event: it replaces every entry
    /// of its identifier and is kept only while pending; one without an
    /// identifier changes nothing. The cursor stays in bounds, and goes to
    /// the first entry when the book stops being empty.
    pub fn apply(&mut self, projection: Order)
        requires
            old(self).wf(),
        ensures
            final(self).wf(),
            final(self).entries() == applied(old(self).entries(), projection@),
            final(self).selection() == clamped(old(self).selection(), final(self).entries().len() as int),
            final(self).loading() == old(self).loading(),
    {
        let id = match projection.id {
            Some(id) => id,
            None => {
                assert(clamped(self.selection(), self.entries().len() as int) == self.selection());
                return;
            },
        };
        let ghost s = self.entries();
        let mut kept: Vec<Order> = Vec::new();
        let mut i: usize = 0;
        while i < self.orders.len()
            invariant
                i <= self.orders.len(),
                s == self.entries(),
                s.len() == self.orders.len(),
                kept@.map_values(|o: Order| o@) == without_id(s.take(i as int), id),
            decreases self.orders.len() - i,
        {
            let ghost before = s.take(i as int);
            let ghost after = s.take(i + 1);
            assert(after.drop_last() =~= before);
            assert(after.last() == self.orders@[i as int]@);
            let keep = match self.orders[i].id {
                Some(other) => other != id,
                None => true,
            };
            if keep {
                kept.push(self.orders[i].copy());
                assert(kept@.map_values(|o: Order| o@) =~= without_id(before, id).push(after.last()));
            }
            i = i + 1;
        }
        assert(s.take(s.len() as int) =~= s);
        proof {
            lemma_without_id_wf(s, id);
        }
        if projection.is_pending() {
            let ghost p = projection@;
            kept.push(projection);
            assert(kept@.map_values(|o: Order| o@) =~= without_id(s, id).push(p));
            proof {
                lemma_without_id_members(s, id);
                lemma_push_fresh_wf(without_id(s, id), p);
            }
        }
        self.orders = kept;
        let n = self.orders.len();
        if n == 0 {
            self.selected = None;
        } else {
            match self.selected {
                None => self.selected = Some(0),
                Some(k) => if k >= n {
                    self.selected = Some(n - 1);
                },
            }
        }
    }

    pub fn loading_state(&self) -> (r: LoadingState)
        ensures
            r == self.loading(),
    {
        self.loading_state
    }

    pub fn set_loading_state(&mut self, state: LoadingState)
        requires
            old(self).wf(),
        ensures
            final(self).wf(),
            final(self).entries() == old(self).entries(),
            final(self).selection() == old(self).selection(),
            final(self).loading() == state,
    {
        self.loading_state = state;
    }

    /// Takes in one order event: its tags are decoded and the order applied;
    /// an event whose tags do not decode leaves the book as it was.
    pub fn handle_order_event(&mut self, created_at: u64, tags: &Vec<Vec<String>>) -> (r: Result<(), DecodeError>)
        requires
            old(self).wf(),
        ensures
            final(self).wf(),
            match decode_tags(created_at, tags.deep_view()) {
                Ok(p) => {
                    &&& r is Ok
                    &&& final(self).entries() == applied(old(self).entries(), p)
                    &&& final(self).selection() == clamped(old(self).selection(), final(self).entries().len() as int)
                    &&& final(self).loading() == LoadingState::Loaded
                },
                Err(e) => {
                    &&& r == Err::<(), DecodeError>(e)
                    &&& final(self).entries() == old(self).entries()
                    &&& final(self).selection() == old(self).selection()
                    &&& final(self).loading() == old(self).loading()
                },
            },
    {
        let order = match order_from_tags(created_at, tags) {
            Ok(o) => o,
            Err(e) => return Err(e),
        };
        self.apply(order);
        self.loading_state = LoadingState::Loaded;
        Ok(())
    }

    /// Moves the cursor by `delta` entries, stopping at the first and the last.
    pub fn scroll(&mut self, delta: i64)
        requires
            old(self).wf(),
        ensures
            final(self).wf(),
            final(self).entries() == old(self).entries(),
            final(self).loading() == old(self).loading(),
            final(self).selection() == scrolled(old(self).selection(), old(self).entries().len() as int, delta as int),
    {
        self.selected = scroll_index(self.selected, self.orders.len(), delta);
    }

    /// Moves the cursor one entry down, stopping at the last.
    pub fn scroll_down(&mut self)
        requires
            old(self).wf(),
        ensures
            final(self).wf(),
            final(self).entries() == old(self).entries(),
            final(self).loading() == old(self).loading(),
            final(self).selection() == scrolled(old(self).selection(), old(self).entries().len() as int, 1),
    {
        self.scroll(1);
    }

    /// Moves the cursor one entry up, stopping at the first.
    pub fn scroll_up(&mut self)
        requires
            old(self).wf(),
        ensures
            final(self).wf(),
            final(self).entries() == old(self).entries(),
            final(self).loading() == old(self).loading(),
            final(self).selection() == scrolled(old(self).selection(), old(self).entries().len() as int, -1),
    {
        self.scroll(-1);
    }
}

/// Every entry of `without_id(s, id)` is an entry of `s` of another identifier.
proof fn lemma_without_id_members(s: Seq<OrderView>, id: u128)
    ensures
        forall|x: OrderView| #[trigger] without_id(s, id).contains(x) ==> s.contains(x) && x.id != Some(id),
    decreases s.len(),
{
    if s.len() > 0 {
        let init = s.drop_last();
        lemma_without_id_members(init, id);
        assert forall|x: OrderView| #[trigger] without_id(s, id).contains(x) implies s.contains(x) && x.id != Some(id) by {
            let rest = without_id(init, id);
            if s.last().id != Some(id) && x == s.last() {
                assert(s[s.len() - 1] == x);
            } else {
                if s.last().id != Some(id) {
                    let k = choose|k: int| 0 <= k < rest.push(s.last()).len() && rest.push(s.last())[k] == x;
                    assert(k < rest.len());
                    assert(rest.contains(x));
                }
                assert(rest.contains(x));
                let k = choose|k: int| 0 <= k < init.len() && init[k] == x;
                assert(s[k] == x);
            }
        }
    }
}

/// Removing an identifier keeps a well-formed list well formed.
proof fn lemma_without_id_wf(s: Seq<OrderView>, id: u128)
    requires
        entries_wf(s),
    ensures
        entries_wf(without_id(s, id)),
    decreases s.len(),
{
    if s.len() > 0 {
        let init = s.drop_last();
        assert forall|i: int, j: int|
            0 <= i < init.len() && 0 <= j < init.len() && i != j implies (#[trigger] init[i]).id != (#[trigger] init[j]).id by {
            assert(init[i] == s[i] && init[j] == s[j]);
        }
        assert forall|i: int| 0 <= i < init.len() implies (#[trigger] init[i]).id is Some && init[i].is_pending() by {
            assert(init[i] == s[i]);
        }
        lemma_without_id_wf(init, id);
        if s.last().id != Some(id) {
            let rest = without_id(init, id);
            lemma_without_id_members(init, id);
            assert forall|x: OrderView| rest.contains(x) implies x.id != s.last().id by {
                let k = choose|k: int| 0 <= k < init.len() && init[k] == x;
                assert(s[k] == x);
                assert(s[s.len() - 1] == s.last());
            }
            lemma_push_fresh_wf(rest, s.last());
        }
    }
}

/// Appending an entry of a new identifier keeps a list well formed.
proof fn lemma_push_fresh_wf(s: Seq<OrderView>, p: OrderView)
    requires
        entries_wf(s),
        p.id is Some,
        p.is_pending(),
        forall|x: OrderView| s.contains(x) ==> x.id != p.id,
    ensures
        entries_wf(s.push(p)),
{
    let t = s.push(p);
    assert forall|i: int, j: int|
        0 <= i < t.len() && 0 <= j < t.len() && i != j implies (#[trigger] t[i]).id != (#[trigger] t[j]).id by {
        if i < s.len() {
            assert(t[i] == s[i] && s.contains(s[i]));
        }
        if j < s.len() {
            assert(t[j] == s[j] && s.contains(s[j]));
        }
    }
    assert forall|i: int| 0 <= i < t.len() implies (#[trigger] t[i]).id is Some && t[i].is_pending() by {
        if i < s.len() {
            assert(t[i] == s[i]);
        }
    }
}

proof fn lemma_without_id_idempotent(s: Seq<OrderView>, id: u128)
    ensures
        without_id(without_id(s, id), id) == without_id(s, id),
    decreases s.len(),
{
    if s.len() > 0 {
        let init = s.drop_last();
        lemma_without_id_idempotent(init, id);
        if s.last().id != Some(id) {
            let rest = without_id(init, id);
            assert(rest.push(s.last()).drop_last() =~= rest);
        }
    }
}

proof fn lemma_without_id_push_same(s: Seq<OrderView>, p: OrderView, id: u128)
    requires
        p.id == Some(id),
    ensures
        without_id(s.push(p), id) == without_id(s, id),
{
    assert(s.push(p).drop_last() =~= s);
}

/// A later projection of an identifier fully replaces an earlier one: applying
/// `first` and then `second` of the same identifier leaves the book as
/// applying `second` alone does, so no field of `first` survives. In a book
/// that was empty, a pending `second` is then the one entry.
pub proof fn lemma_later_projection_replaces(s: Seq<OrderView>, first: OrderView, second: OrderView)
    requires
        first.id is Some,
        second.id == first.id,
    ensures
        applied(applied(s, first), second) == applied(s, second),
        second.is_pending() ==> applied(applied(Seq::<OrderView>::empty(), first), second) == seq![second],
{
    let id = first.id->Some_0;
    lemma_without_id_idempotent(s, id);
    lemma_without_id_push_same(without_id(s, id), first, id);
    let e = Seq::<OrderView>::empty();
    lemma_without_id_push_same(without_id(e, id), first, id);
    assert(without_id(e, id) == e);
    assert(e.push(second) =~= seq![second]);
}

/// Of two events whose tags decode to the same identifier, the later one
/// fully replaces the earlier: the book is as if only the later had come.
pub proof fn lemma_later_event_replaces(
    s: Seq<OrderView>,
    first_at: u64,
    first_tags: Seq<Seq<Seq<char>>>,
    second_at: u64,
    second_tags: Seq<Seq<Seq<char>>>,
)
    requires
        decode_tags(first_at, first_tags) is Ok,
        decode_tags(second_at, second_tags) is Ok,
        decode_tags(first_at, first_tags)->Ok_0.id is Some,
        decode_tags(second_at, second_tags)->Ok_0.id == decode_tags(first_at, first_tags)->Ok_0.id,
    ensures
        applied(applied(s, decode_tags(first_at, first_tags)->Ok_0), decode_tags(second_at, second_tags)->Ok_0)
            == applied(s, decode_tags(second_at, second_tags)->Ok_0),
{
    lemma_later_projection_replaces(s, decode_tags(first_at, first_tags)->Ok_0, decode_tags(second_at, second_tags)->Ok_0);
}

/// A projection that is not pending leaves no entry of its identifier.
pub proof fn lemma_not_pending_leaves_book(s: Seq<OrderView>, p: OrderView)
    requires
        p.id is Some,
        !p.is_pending(),
    ensures
        forall|i: int| 0 <= i < applied(s, p).len() ==> (#[trigger] applied(s, p)[i]).id != p.id,
{
    let id = p.id->Some_0;
    lemma_without_id_members(s, id);
    let w = applied(s, p);
    assert forall|i: int| 0 <= i < w.len() implies (#[trigger] w[i]).id != p.id by {
        assert(w.contains(w[i]));
    }
}

/// Applying a projection twice leaves the book, cursor included, as applying
/// it once.
pub proof fn lemma_apply_idempotent(s: Seq<OrderView>, sel: Option<int>, p: OrderView)
    ensures
        applied(applied(s, p), p) == applied(s, p),
        clamped(clamped(sel, applied(s, p).len() as int), applied(s, p).len() as int)
            == clamped(sel, applied(s, p).len() as int),
{
    if p.id is Some {
        lemma_later_projection_replaces(s, p, p);
    }
}

} // verus!
