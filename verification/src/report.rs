//! Rows in order: what is found out about the hops may come in any order,
//! but it leaves in the order of the hops.

use vstd::prelude::*;

verus! {

/// The highest time-to-live a row can have.
pub const LAST_TTL: u8 = 255;

/// Rows that wait for their turn, each under the time-to-live of its hop.
/// A row leaves once every row before it has left.
pub struct ReportBoard<T> {
    next: u16,
    waiting: Vec<Option<T>>,
}

/// A board as contracts see it.
pub struct BoardView<T> {
    /// The time-to-live of the next row to leave; one more than the highest
    /// where all have left.
    pub next: int,
    /// The rows that wait, by time-to-live.
    pub pending: Map<int, T>,
}

/// What holds of a board at every moment: the rows that wait are those of
/// hops whose turn has not come yet.
pub open spec fn board_well_formed<T>(board: BoardView<T>) -> bool {
    &&& 1 <= board.next <= LAST_TTL + 1
    &&& forall|ttl: int| board.pending.contains_key(ttl) ==> board.next <= ttl <= LAST_TTL
}

/// Whether the rows `rows` are exactly those that can leave `board`: the
/// rows of the hops from `board.next` on, without a gap, up to the first hop
/// whose row is not there yet.
pub open spec fn leaves_in_order<T>(board: BoardView<T>, rows: Seq<(u8, T)>) -> bool {
    &&& forall|j: int|
        0 <= j < rows.len() ==> board.pending.contains_key(board.next + j) && (#[trigger] rows[j])
            == ((board.next + j) as u8, board.pending[board.next + j])
    &&& !board.pending.contains_key(board.next + rows.len())
}

impl<T> View for ReportBoard<T> {
    type V = BoardView<T>;

    closed spec fn view(&self) -> BoardView<T> {
        BoardView {
            next: self.next as int,
            pending: Map::new(
                |ttl: int|
                    self.next <= ttl < self.next + self.waiting@.len() && self.waiting@[ttl
                        - self.next] is Some,
                |ttl: int| self.waiting@[ttl - self.next]->Some_0,
            ),
        }
    }
}

impl<T> ReportBoard<T> {
    #[verifier::type_invariant]
    spec fn holds(self) -> bool {
        1 <= self.next && self.next + self.waiting@.len() <= LAST_TTL + 1
    }

    /// An empty board; the first row to leave is that of hop 1.
    pub fn new() -> (board: ReportBoard<T>)
        ensures
            board@.next == 1,
            board@.pending == Map::<int, T>::empty(),
            board_well_formed(board@),
    {
        ReportBoard { next: 1, waiting: Vec::new() }
    }

    /// The time-to-live of the next row to leave.
    pub fn next_ttl(&self) -> (next: u16)
        ensures
            next == self@.next,
            board_well_formed(self@),
    {
        proof {
            use_type_invariant(self);
        }
        self.next
    }

    /// Puts `row` on the board under `ttl` and says whether it was taken. It
    /// is refused, and the board stays as it is, where the row of that hop
    /// has left already or waits already.
    pub fn post(self, ttl: u8, row: T) -> (next: (ReportBoard<T>, bool))
        ensures
            next.1 == (ttl >= self@.next && !self@.pending.contains_key(ttl as int)),
            next.0@.next == self@.next,
            next.0@.pending == if next.1 {
                self@.pending.insert(ttl as int, row)
            } else {
                self@.pending
            },
            board_well_formed(next.0@),
    {
        proof {
            use_type_invariant(&self);
        }
        if (ttl as u16) < self.next {
            return (self, false);
        }
        let ReportBoard { next, waiting } = self;
        let mut waiting = waiting;
        let place: usize = (ttl as u16 - next) as usize;
        let ghost slots = waiting@;
        while waiting.len() <= place
            invariant
                place == ttl - next,
                waiting@.len() <= place + 1 || waiting@.len() == slots.len(),
                slots.len() <= waiting@.len(),
                forall|k: int| 0 <= k < slots.len() ==> waiting@[k] == slots[k],
                forall|k: int| slots.len() <= k < waiting@.len() ==> waiting@[k] is None,
            decreases place + 1 - waiting@.len(),
        {
            waiting.push(None);
        }
        let accepted = waiting[place].is_none();
        if accepted {
            waiting.set(place, Some(row));
        }
        (ReportBoard { next, waiting }, accepted)
    }

    /// Takes from the board the rows whose turn has come: those of the next
    /// hops, in the order of the hops, up to the first hop whose row is not
    /// there yet. Each row leaves with the time-to-live of its hop.
    pub fn flush(self) -> (next: (ReportBoard<T>, Vec<(u8, T)>))
        ensures
            leaves_in_order(self@, next.1@),
            next.0@.next == self@.next + next.1@.len(),
            next.0@.pending == self@.pending.restrict(Set::new(|ttl: int| ttl >= next.0@.next)),
            board_well_formed(next.0@),
    {
        proof {
            use_type_invariant(&self);
        }
        let ReportBoard { next, waiting } = self;
        let ghost first = next;
        let ghost slots = waiting@;
        let mut waiting = waiting;
        let mut next = next;
        let mut rows: Vec<(u8, T)> = Vec::new();
        while waiting.len() > 0 && waiting[0].is_some()
            invariant
                1 <= first,
                first + slots.len() <= LAST_TTL + 1,
                next == first + rows@.len(),
                rows@.len() + waiting@.len() == slots.len(),
                waiting@ == slots.skip(rows@.len() as int),
                forall|j: int| 0 <= j < rows@.len() ==> (#[trigger] slots[j]) is Some,
                forall|j: int|
                    0 <= j < rows@.len() ==> (#[trigger] rows@[j]).0 == first + j && rows@[j].1
                        == slots[j]->Some_0,
            decreases waiting@.len(),
        {
            match waiting.remove(0) {
                Some(row) => {
                    rows.push((next as u8, row));
                    next = next + 1;
                },
                None => {},
            }
        }
        (ReportBoard { next, waiting }, rows)
    }
}

} // verus!
