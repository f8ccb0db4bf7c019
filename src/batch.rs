use vstd::prelude::*;
use crate::error::AppError;

verus! {

/// The number of lookups that may be in flight at once unless a caller asks
/// for another ceiling.
pub const MAX_CONCURRENT_REQUESTS: usize = 10;

/// What `str::trim` leaves of a text.
pub uninterp spec fn trimmed(s: Seq<char>) -> Seq<char>;

/// Relies on `str::trim`: the text without leading and trailing whitespace.
#[verifier::external_body]
fn trim_text(s: &str) -> (r: String)
    ensures
        r@ == trimmed(s@),
{
    s.trim().to_string()
}

/// The texts of a sequence of strings.
pub open spec fn texts(v: Seq<String>) -> Seq<Seq<char>> {
    v.map_values(|s: String| s@)
}

/// A line counts as an item when something other than whitespace is on it.
pub open spec fn is_item_line(line: Seq<char>) -> bool {
    trimmed(line).len() > 0
}

/// The items among the first `n` lines, trimmed, in their order.
pub open spec fn items_in(lines: Seq<Seq<char>>, n: nat) -> Seq<Seq<char>>
    decreases n,
{
    if n == 0 {
        Seq::empty()
    } else {
        let before = items_in(lines, (n - 1) as nat);
        if is_item_line(lines[n - 1]) {
            before.push(trimmed(lines[n - 1]))
        } else {
            before
        }
    }
}

/// The items of a list of lines: each non-blank line, trimmed, in order.
pub open spec fn batch_items(lines: Seq<Seq<char>>) -> Seq<Seq<char>> {
    items_in(lines, lines.len())
}

/// How many of the first `n` lines are not blank.
pub open spec fn non_blank_in(lines: Seq<Seq<char>>, n: nat) -> nat
    decreases n,
{
    if n == 0 {
        0
    } else {
        non_blank_in(lines, (n - 1) as nat) + if is_item_line(lines[n - 1]) {
            1nat
        } else {
            0nat
        }
    }
}

proof fn lemma_items_count(lines: Seq<Seq<char>>, n: nat)
    ensures
        items_in(lines, n).len() == non_blank_in(lines, n),
    decreases n,
{
    if n > 0 {
        lemma_items_count(lines, (n - 1) as nat);
    }
}

/// A batch holds one item for each non-blank line, none dropped or
/// duplicated.
pub proof fn lemma_batch_completeness(lines: Seq<Seq<char>>)
    ensures
        batch_items(lines).len() == non_blank_in(lines, lines.len()),
{
    lemma_items_count(lines, lines.len());
}

/// The items of a list of lines: blank lines are dropped, the others trimmed
/// and kept in their order.
pub fn batch_lines(lines: &Vec<String>) -> (r: Vec<String>)
    ensures
        texts(r@) == batch_items(texts(lines@)),
{
    let ghost lv = texts(lines@);
    let mut out: Vec<String> = Vec::new();
    let mut i: usize = 0;
    while i < lines.len()
        invariant
            lv == texts(lines@),
            i <= lines.len(),
            texts(out@) == items_in(lv, i as nat),
        decreases lines.len() - i,
    {
        let t = trim_text(lines[i].as_str());
        if t.unicode_len() > 0 {
            out.push(t);
            assert(texts(out@) =~= items_in(lv, (i + 1) as nat));
        }
        i = i + 1;
    }
    out
}

/// The outcome of one item: the line as the caller gave it, with the feed
/// address found for it or the error that ended its lookup.
#[derive(Debug)]
pub struct ItemOutcome {
    pub input: String,
    pub result: Result<String, AppError>,
}

/// A copy of a lookup's result.
fn copy_result(r: &Result<String, AppError>) -> (c: Result<String, AppError>)
    ensures
        c == *r,
{
    match r {
        Ok(s) => Ok(s.clone()),
        Err(e) => Err(e.duplicate()),
    }
}

/// How many of the first `n` slots still wait for an outcome.
pub open spec fn open_in(slots: Seq<Option<Result<String, AppError>>>, n: nat) -> nat
    decreases n,
{
    if n == 0 {
        0
    } else {
        open_in(slots, (n - 1) as nat) + if slots[n - 1] is None {
            1nat
        } else {
            0nat
        }
    }
}

proof fn lemma_open_same(
    a: Seq<Option<Result<String, AppError>>>,
    b: Seq<Option<Result<String, AppError>>>,
    n: nat,
)
    requires
        n <= a.len(),
        n <= b.len(),
        forall|i: int| 0 <= i < n ==> a[i] == b[i],
    ensures
        open_in(a, n) == open_in(b, n),
    decreases n,
{
    if n > 0 {
        lemma_open_same(a, b, (n - 1) as nat);
    }
}

proof fn lemma_open_fill(
    slots: Seq<Option<Result<String, AppError>>>,
    n: nat,
    k: int,
    v: Result<String, AppError>,
)
    requires
        0 <= k < n <= slots.len(),
        slots[k] is None,
    ensures
        open_in(slots.update(k, Some(v)), n) + 1 == open_in(slots, n),
    decreases n,
{
    if k == n - 1 {
        lemma_open_same(slots, slots.update(k, Some(v)), (n - 1) as nat);
    } else {
        lemma_open_fill(slots, (n - 1) as nat, k, v);
    }
}

proof fn lemma_open_none(slots: Seq<Option<Result<String, AppError>>>, n: nat)
    requires
        n <= slots.len(),
        open_in(slots, n) == 0,
    ensures
        forall|i: int| 0 <= i < n ==> slots[i] is Some,
    decreases n,
{
    if n > 0 {
        lemma_open_none(slots, (n - 1) as nat);
    }
}

/// The bookkeeping of one batch of lookups. Items are handed out in order, at
/// most `ceiling` of them are in flight at once, and each outcome goes into
/// the slot of its own item, whatever the order in which lookups finish.
pub struct Batch {
    lines: Ghost<Seq<Seq<char>>>,
    items: Vec<String>,
    slots: Vec<Option<Result<String, AppError>>>,
    next: usize,
    in_flight: usize,
    ceiling: usize,
}

impl Batch {
    /// The lines the batch was made from.
    pub closed spec fn lines(&self) -> Seq<Seq<char>> {
        self.lines@
    }

    /// The items of the batch, in input order.
    pub closed spec fn items(&self) -> Seq<Seq<char>> {
        texts(self.items@)
    }

    /// For each item, its outcome once it has one.
    pub closed spec fn slots(&self) -> Seq<Option<Result<String, AppError>>> {
        self.slots@
    }

    /// How many items have been handed out.
    pub closed spec fn dispatched(&self) -> nat {
        self.next as nat
    }

    /// How many handed-out items still wait for their outcome.
    pub closed spec fn in_flight(&self) -> nat {
        self.in_flight as nat
    }

    /// The most items that may be in flight at once.
    pub closed spec fn ceiling(&self) -> nat {
        self.ceiling as nat
    }

    /// Every item is handed out before it has an outcome, the count of items
    /// in flight is exact, and it never passes the ceiling.
    pub closed spec fn wf(&self) -> bool {
        &&& texts(self.items@) == batch_items(self.lines@)
        &&& self.slots@.len() == self.items@.len()
        &&& self.next <= self.items@.len()
        &&& 1 <= self.ceiling
        &&& self.in_flight == open_in(self.slots@, self.next as nat)
        &&& self.in_flight <= self.ceiling
        &&& forall|i: int| self.next <= i < self.slots@.len() ==> self.slots@[i] is None
    }

    /// Whether every item has been handed out and has its outcome.
    pub open spec fn finished(&self) -> bool {
        self.dispatched() == self.items().len() && self.in_flight() == 0
    }

    /// A batch over the items of `lines`, of which at most `ceiling` may be in
    /// flight at once.
    pub fn new(lines: &Vec<String>, ceiling: usize) -> (r: Batch)
        requires
            ceiling >= 1,
        ensures
            r.wf(),
            r.lines() == texts(lines@),
            r.items() == batch_items(texts(lines@)),
            r.ceiling() == ceiling,
            r.dispatched() == 0,
            r.in_flight() == 0,
            forall|i: int| 0 <= i < r.items().len() ==> r.slots()[i] is None,
    {
        let items = batch_lines(lines);
        let mut slots: Vec<Option<Result<String, AppError>>> = Vec::new();
        let mut i: usize = 0;
        while i < items.len()
            invariant
                i <= items.len(),
                slots@.len() == i,
                forall|j: int| 0 <= j < i ==> slots@[j] is None,
            decreases items.len() - i,
        {
            slots.push(None);
            i = i + 1;
        }
        Batch { lines: Ghost(texts(lines@)), items, slots, next: 0, in_flight: 0, ceiling }
    }

    /// A batch under the default ceiling.
    pub fn with_default_ceiling(lines: &Vec<String>) -> (r: Batch)
        ensures
            r.wf(),
            r.lines() == texts(lines@),
            r.items() == batch_items(texts(lines@)),
            r.ceiling() == MAX_CONCURRENT_REQUESTS,
            r.dispatched() == 0,
            r.in_flight() == 0,
            forall|i: int| 0 <= i < r.items().len() ==> r.slots()[i] is None,
    {
        Self::new(lines, MAX_CONCURRENT_REQUESTS)
    }

    /// The number of items.
    pub fn len(&self) -> (r: usize)
        requires
            self.wf(),
        ensures
            r == self.items().len(),
    {
        self.items.len()
    }

    /// How many items are in flight.
    pub fn in_flight_count(&self) -> (r: usize)
        requires
            self.wf(),
        ensures
            r == self.in_flight(),
    {
        self.in_flight
    }

    /// Hands out the next item, with its index, where one is left and a slot
    /// under the ceiling is free; otherwise hands out nothing and changes
    /// nothing.
    pub fn dispatch(&mut self) -> (r: Option<(usize, String)>)
        requires
            old(self).wf(),
        ensures
            final(self).wf(),
            final(self).lines() == old(self).lines(),
            final(self).items() == old(self).items(),
            final(self).slots() == old(self).slots(),
            final(self).ceiling() == old(self).ceiling(),
            if old(self).dispatched() < old(self).items().len() && old(self).in_flight() < old(
                self,
            ).ceiling() {
                &&& r matches Some(p)
                &&& p.0 == old(self).dispatched()
                &&& p.1@ == old(self).items()[p.0 as int]
                &&& final(self).dispatched() == old(self).dispatched() + 1
                &&& final(self).in_flight() == old(self).in_flight() + 1
            } else {
                &&& r is None
                &&& final(self).dispatched() == old(self).dispatched()
                &&& final(self).in_flight() == old(self).in_flight()
            },
    {
        if self.next < self.items.len() && self.in_flight < self.ceiling {
            let index = self.next;
            let item = self.items[index].clone();
            proof {
                assert(self.slots@[index as int] is None);
            }
            self.next = self.next + 1;
            self.in_flight = self.in_flight + 1;
            Some((index, item))
        } else {
            None
        }
    }

    /// Records the outcome of the item at `index`, where that item is in
    /// flight; otherwise records nothing and changes nothing. The answer says
    /// which.
    pub fn complete(&mut self, index: usize, result: Result<String, AppError>) -> (accepted: bool)
        requires
            old(self).wf(),
        ensures
            final(self).wf(),
            final(self).lines() == old(self).lines(),
            final(self).items() == old(self).items(),
            final(self).ceiling() == old(self).ceiling(),
            final(self).dispatched() == old(self).dispatched(),
            accepted == (index < old(self).dispatched() && old(self).slots()[index as int] is None),
            accepted ==> final(self).slots() == old(self).slots().update(index as int, Some(result))
                && final(self).in_flight() + 1 == old(self).in_flight(),
            !accepted ==> final(self).slots() == old(self).slots() && final(self).in_flight()
                == old(self).in_flight(),
    {
        if index >= self.next {
            return false;
        }
        if self.slots[index].is_some() {
            return false;
        }
        proof {
            lemma_open_fill(self.slots@, self.next as nat, index as int, result);
        }
        self.slots.set(index, Some(result));
        self.in_flight = self.in_flight - 1;
        true
    }

    /// Whether every item has been handed out and has its outcome.
    pub fn is_finished(&self) -> (r: bool)
        requires
            self.wf(),
        ensures
            r == self.finished(),
    {
        self.next == self.items.len() && self.in_flight == 0
    }

    /// The outcomes of a finished batch: one for each non-blank line, the
    /// i-th for the i-th such line, whatever the order in which the lookups
    /// finished.
    pub fn outcomes(&self) -> (r: Vec<ItemOutcome>)
        requires
            self.wf(),
            self.finished(),
        ensures
            r@.len() == self.items().len(),
            r@.len() == non_blank_in(self.lines(), self.lines().len()),
            forall|i: int| 0 <= i < r@.len() ==> r@[i].input@ == batch_items(self.lines())[i],
            forall|i: int|
                0 <= i < r@.len() ==> r@[i].input@ == self.items()[i] && self.slots()[i] == Some(
                    r@[i].result,
                ),
    {
        proof {
            lemma_open_none(self.slots@, self.next as nat);
            lemma_batch_completeness(self.lines@);
        }
        let mut out: Vec<ItemOutcome> = Vec::new();
        let mut i: usize = 0;
        while i < self.items.len()
            invariant
                self.wf(),
                self.finished(),
                forall|j: int| 0 <= j < self.slots@.len() ==> self.slots@[j] is Some,
                i <= self.items@.len(),
                out@.len() == i,
                forall|j: int|
                    0 <= j < i ==> out@[j].input@ == self.items()[j] && self.slots()[j] == Some(
                        out@[j].result,
                    ),
            decreases self.items@.len() - i,
        {
            let result = match &self.slots[i] {
                Some(r) => copy_result(r),
                None => Err(AppError::FeedNotFound),
            };
            out.push(ItemOutcome { input: self.items[i].clone(), result });
            i = i + 1;
        }
        out
    }
}

/// The ceiling holds in every well-formed state of a batch: never are more
/// items in flight than it allows.
pub proof fn lemma_ceiling_holds(b: &Batch)
    requires
        b.wf(),
    ensures
        b.in_flight() <= b.ceiling(),
{
}

} // verus!
