//! Segment fetcher: gathers the outcomes of concurrent fetches by the place
//! of their address and joins the bodies in that order.
//!
//! The segments are fetched concurrently by the caller. Each outcome is put
//! on a board at the place of its address as it arrives; the join goes by
//! that place and by nothing else, so the order in which the fetches
//! completed has no part in it.

use crate::http::{
    bytes_of, bytes_result_view, reply_bytes, Fetched, NetworkError, NetworkErrorView,
};
use vstd::prelude::*;

verus! {

/// Why a segment that never reported an outcome counts as failed.
pub const NO_OUTCOME: &'static str = "no outcome was reported for this segment";

/// A board with one place for each address of a stream, on which the
/// outcomes of the fetches are gathered as they arrive.
#[derive(Debug, PartialEq, Eq)]
pub struct SegmentBoard {
    /// The outcome at each place, or `None` where none has arrived yet.
    pub slots: Vec<Option<Fetched>>,
}

impl View for SegmentBoard {
    type V = Seq<Option<Fetched>>;

    open spec fn view(&self) -> Seq<Option<Fetched>> {
        self.slots@
    }
}

/// A board with `count` places and nothing on it.
pub open spec fn empty_board(count: nat) -> Seq<Option<Fetched>> {
    Seq::new(count, |i: int| None)
}

/// The board after an outcome arrived for `place`. The first outcome for a
/// place stays; an outcome for a place that the board does not have is
/// dropped.
pub open spec fn recorded(slots: Seq<Option<Fetched>>, place: int, outcome: Fetched) -> Seq<
    Option<Fetched>,
> {
    if 0 <= place < slots.len() && slots[place] is None {
        slots.update(place, Some(outcome))
    } else {
        slots
    }
}

/// The board after the outcomes arrived in the given order, each with the
/// place of its address.
pub open spec fn after_arrivals(slots: Seq<Option<Fetched>>, arrivals: Seq<(int, Fetched)>) -> Seq<
    Option<Fetched>,
>
    decreases arrivals.len(),
{
    if arrivals.len() == 0 {
        slots
    } else {
        recorded(
            after_arrivals(slots, arrivals.drop_last()),
            arrivals.last().0,
            arrivals.last().1,
        )
    }
}

/// `outcome` is what a place of the board stands for: the outcome that
/// arrived for it, or a failed fetch where none arrived.
pub open spec fn stands_for(slot: Option<Fetched>, outcome: Fetched) -> bool {
    match slot {
        Some(arrived) => outcome == arrived,
        None => outcome matches Err(reason) && reason@ == NO_OUTCOME@,
    }
}

/// Every arrival is for a place of the board, and no two are for the same
/// place.
pub open spec fn one_arrival_per_place(count: nat, arrivals: Seq<(int, Fetched)>) -> bool {
    &&& forall|k: int| 0 <= k < arrivals.len() ==> 0 <= (#[trigger] arrivals[k]).0 < count
    &&& forall|j: int, k: int|
        0 <= j < k < arrivals.len() ==> (#[trigger] arrivals[j]).0 != (#[trigger] arrivals[k]).0
}

impl SegmentBoard {
    /// A board for `count` segments, with nothing on it.
    pub fn new(count: usize) -> (board: SegmentBoard)
        ensures
            board@ == empty_board(count as nat),
    {
        let mut slots: Vec<Option<Fetched>> = Vec::new();
        let mut i: usize = 0;
        while i < count
            invariant
                i <= count,
                slots@ == empty_board(i as nat),
            decreases count - i,
        {
            slots.push(None);
            assert(slots@ =~= empty_board((i + 1) as nat));
            i = i + 1;
        }
        SegmentBoard { slots }
    }

    /// Puts the outcome that arrived for `place` on the board.
    pub fn record(&mut self, place: usize, outcome: Fetched)
        ensures
            final(self)@ == recorded(old(self)@, place as int, outcome),
    {
        if place < self.slots.len() && self.slots[place].is_none() {
            self.slots.set(place, Some(outcome));
        }
    }

    /// Hands out the outcomes in the order of their places, whatever the
    /// order in which they arrived. A place for which nothing arrived
    /// counts as a fetch that failed.
    pub fn into_outcomes(self) -> (outcomes: Vec<Fetched>)
        ensures
            outcomes@.len() == self@.len(),
            forall|i: int| 0 <= i < self@.len() ==> stands_for(self@[i], #[trigger] outcomes@[i]),
    {
        let ghost all = self.slots@;
        let mut outcomes: Vec<Fetched> = Vec::new();
        for slot in it: self.slots
            invariant
                it.seq() == all,
                outcomes@.len() == it.index(),
                forall|i: int| 0 <= i < it.index() ==> stands_for(all[i], #[trigger] outcomes@[i]),
        {
            match slot {
                Some(arrived) => outcomes.push(arrived),
                None => outcomes.push(Err(NO_OUTCOME.to_owned())),
            }
        }
        outcomes
    }
}

/// The parts joined end to end, in the order of the list.
pub open spec fn concatenated(parts: Seq<Seq<u8>>) -> Seq<u8>
    decreases parts.len(),
{
    if parts.len() == 0 {
        Seq::empty()
    } else {
        concatenated(parts.drop_last()) + parts.last()
    }
}

/// The join of the outcomes of the fetches: the bodies end to end in the
/// order of the list if every fetch succeeded, and otherwise the failure of
/// the first fetch in the list that failed.
pub open spec fn joined_bodies(outcomes: Seq<Fetched>) -> Result<Seq<u8>, NetworkErrorView>
    decreases outcomes.len(),
{
    if outcomes.len() == 0 {
        Ok(Seq::empty())
    } else {
        match joined_bodies(outcomes.drop_last()) {
            Err(error) => Err(error),
            Ok(front) => match reply_bytes(outcomes.last()) {
                Err(error) => Err(error),
                Ok(body) => Ok(front + body),
            },
        }
    }
}

/// The body that the fetch at place `i` brought.
pub open spec fn body_at(outcomes: Seq<Fetched>, i: int) -> Seq<u8> {
    match reply_bytes(outcomes[i]) {
        Ok(body) => body,
        Err(_) => Seq::empty(),
    }
}

/// Joins the bodies of the fetched segments in the order of the list, or
/// fails with the failure of the first segment that failed. Nothing of a
/// partly fetched stream is handed out.
pub fn join_segments(outcomes: Vec<Fetched>) -> (result: Result<Vec<u8>, NetworkError>)
    ensures
        bytes_result_view(result) == joined_bodies(outcomes@),
{
    let ghost all = outcomes@;
    let mut result: Result<Vec<u8>, NetworkError> = Ok(Vec::new());
    for fetched in it: outcomes
        invariant
            it.seq() == all,
            bytes_result_view(result) == joined_bodies(all.take(it.index() as int)),
    {
        assert(all.take(it.index() + 1).drop_last() =~= all.take(it.index() as int));
        result =
        match result {
            Err(error) => Err(error),
            Ok(mut joined) => match bytes_of(fetched) {
                Err(error) => Err(error),
                Ok(mut body) => {
                    joined.append(&mut body);
                    Ok(joined)
                },
            },
        };
    }
    assert(all.take(all.len() as int) =~= all);
    result
}

/// If every segment was fetched, the join is the bodies end to end in the
/// order of the list.
pub proof fn join_keeps_the_order(outcomes: Seq<Fetched>)
    requires
        forall|i: int| 0 <= i < outcomes.len() ==> #[trigger] reply_bytes(outcomes[i]) is Ok,
    ensures
        joined_bodies(outcomes) == Ok::<Seq<u8>, NetworkErrorView>(
            concatenated(Seq::new(outcomes.len(), |i: int| body_at(outcomes, i))),
        ),
    decreases outcomes.len(),
{
    let bodies = Seq::new(outcomes.len(), |i: int| body_at(outcomes, i));
    if outcomes.len() > 0 {
        let front = outcomes.drop_last();
        assert forall|i: int| 0 <= i < front.len() implies #[trigger] reply_bytes(
            front[i],
        ) is Ok by {
            assert(front[i] == outcomes[i]);
        }
        join_keeps_the_order(front);
        assert(bodies.drop_last() =~= Seq::new(front.len(), |i: int| body_at(front, i)));
        assert(reply_bytes(outcomes[outcomes.len() - 1]) is Ok);
    }
}

/// If any one segment failed, the join fails.
pub proof fn one_failure_fails_the_join(outcomes: Seq<Fetched>, failed: int)
    requires
        0 <= failed < outcomes.len(),
        reply_bytes(outcomes[failed]) is Err,
    ensures
        joined_bodies(outcomes) is Err,
    decreases outcomes.len(),
{
    if failed < outcomes.len() - 1 {
        one_failure_fails_the_join(outcomes.drop_last(), failed);
    }
}

/// The failure of the join is that of the first segment in the list that
/// failed.
pub proof fn first_failure_decides(outcomes: Seq<Fetched>, failed: int)
    requires
        0 <= failed < outcomes.len(),
        reply_bytes(outcomes[failed]) is Err,
        forall|i: int| 0 <= i < failed ==> #[trigger] reply_bytes(outcomes[i]) is Ok,
    ensures
        joined_bodies(outcomes) == Err::<Seq<u8>, NetworkErrorView>(
            reply_bytes(outcomes[failed])->Err_0,
        ),
    decreases outcomes.len(),
{
    let front = outcomes.drop_last();
    if failed < outcomes.len() - 1 {
        first_failure_decides(front, failed);
    } else {
        assert forall|i: int| 0 <= i < front.len() implies #[trigger] reply_bytes(
            front[i],
        ) is Ok by {
            assert(front[i] == outcomes[i]);
        }
        join_keeps_the_order(front);
    }
}

/// Arrivals never change how many places a board has.
proof fn board_keeps_its_places(slots: Seq<Option<Fetched>>, arrivals: Seq<(int, Fetched)>)
    ensures
        after_arrivals(slots, arrivals).len() == slots.len(),
    decreases arrivals.len(),
{
    if arrivals.len() > 0 {
        board_keeps_its_places(slots, arrivals.drop_last());
    }
}

/// A place for which nothing arrived stays as it was.
proof fn untouched_place_stays(
    slots: Seq<Option<Fetched>>,
    arrivals: Seq<(int, Fetched)>,
    place: int,
)
    requires
        0 <= place < slots.len(),
        forall|k: int| 0 <= k < arrivals.len() ==> (#[trigger] arrivals[k]).0 != place,
    ensures
        after_arrivals(slots, arrivals)[place] == slots[place],
    decreases arrivals.len(),
{
    if arrivals.len() > 0 {
        let front = arrivals.drop_last();
        assert forall|k: int| 0 <= k < front.len() implies (#[trigger] front[k]).0 != place by {
            assert(front[k] == arrivals[k]);
        }
        untouched_place_stays(slots, front, place);
        board_keeps_its_places(slots, front);
        assert(arrivals[arrivals.len() - 1].0 != place);
    }
}

/// Each outcome lands at the place of its address, whenever it arrives: on
/// a board that started empty and saw one arrival for each of some places,
/// every arrival is found at its place and every other place is empty.
pub proof fn outcomes_land_at_their_places(count: nat, arrivals: Seq<(int, Fetched)>)
    requires
        one_arrival_per_place(count, arrivals),
    ensures
        after_arrivals(empty_board(count), arrivals).len() == count,
        forall|k: int|
            0 <= k < arrivals.len() ==> after_arrivals(empty_board(count), arrivals)[(
            #[trigger] arrivals[k]).0] == Some(arrivals[k].1),
        forall|place: int|
            0 <= place < count && (forall|k: int|
                0 <= k < arrivals.len() ==> (#[trigger] arrivals[k]).0 != place)
                ==> #[trigger] after_arrivals(empty_board(count), arrivals)[place] is None,
    decreases arrivals.len(),
{
    let start = empty_board(count);
    let board = after_arrivals(start, arrivals);
    board_keeps_its_places(start, arrivals);
    assert forall|place: int|
        0 <= place < count && (forall|k: int|
            0 <= k < arrivals.len() ==> (#[trigger] arrivals[k]).0 != place) implies #[trigger] board[place] is None by {
        untouched_place_stays(start, arrivals, place);
    }
    if arrivals.len() > 0 {
        let front = arrivals.drop_last();
        let last = arrivals.last();
        assert forall|k: int| 0 <= k < front.len() implies 0 <= (#[trigger] front[k]).0 < count by {
            assert(front[k] == arrivals[k]);
        }
        assert forall|j: int, k: int| 0 <= j < k < front.len() implies (#[trigger] front[j]).0 != (
        #[trigger] front[k]).0 by {
            assert(front[j] == arrivals[j]);
            assert(front[k] == arrivals[k]);
        }
        outcomes_land_at_their_places(count, front);
        board_keeps_its_places(start, front);
        let before = after_arrivals(start, front);
        assert(arrivals[arrivals.len() - 1] == last);
        assert forall|k: int| 0 <= k < front.len() implies (#[trigger] front[k]).0 != last.0 by {
            assert(front[k] == arrivals[k]);
        }
        untouched_place_stays(start, front, last.0);
        assert(before[last.0] is None);
        assert(board == before.update(last.0, Some(last.1)));
        assert forall|k: int| 0 <= k < arrivals.len() implies board[(#[trigger] arrivals[k]).0]
            == Some(arrivals[k].1) by {
            if k < arrivals.len() - 1 {
                assert(front[k] == arrivals[k]);
                assert(before[front[k].0] == Some(front[k].1));
            }
        }
    }
}

/// What the board hands out holds every arrival at the place of its
/// address: the list that is joined is made by place, not by arrival.
pub proof fn handed_out_by_place(
    count: nat,
    arrivals: Seq<(int, Fetched)>,
    outcomes: Seq<Fetched>,
)
    requires
        one_arrival_per_place(count, arrivals),
        outcomes.len() == count,
        forall|i: int|
            0 <= i < count ==> stands_for(
                after_arrivals(empty_board(count), arrivals)[i],
                #[trigger] outcomes[i],
            ),
    ensures
        forall|k: int|
            0 <= k < arrivals.len() ==> outcomes[(#[trigger] arrivals[k]).0] == arrivals[k].1,
{
    outcomes_land_at_their_places(count, arrivals);
}

/// The order of arrival does not matter: two runs in which the same
/// outcomes arrive for the same places, one for each place, in whatever
/// order, leave the same board.
pub proof fn arrival_order_does_not_matter(
    count: nat,
    one: Seq<(int, Fetched)>,
    other: Seq<(int, Fetched)>,
)
    requires
        one_arrival_per_place(count, one),
        one_arrival_per_place(count, other),
        forall|k: int| 0 <= k < one.len() ==> other.contains(#[trigger] one[k]),
        forall|k: int| 0 <= k < other.len() ==> one.contains(#[trigger] other[k]),
    ensures
        after_arrivals(empty_board(count), one) == after_arrivals(empty_board(count), other),
{
    let left = after_arrivals(empty_board(count), one);
    let right = after_arrivals(empty_board(count), other);
    outcomes_land_at_their_places(count, one);
    outcomes_land_at_their_places(count, other);
    assert forall|place: int| 0 <= place < count implies left[place] == right[place] by {
        if exists|k: int| 0 <= k < one.len() && (#[trigger] one[k]).0 == place {
            let k = choose|k: int| 0 <= k < one.len() && (#[trigger] one[k]).0 == place;
            assert(other.contains(one[k]));
            let j = choose|j: int| 0 <= j < other.len() && other[j] == one[k];
            assert(left[one[k].0] == Some(one[k].1));
            assert(right[other[j].0] == Some(other[j].1));
        } else {
            assert forall|j: int| 0 <= j < other.len() implies (#[trigger] other[j]).0 != place by {
                if other[j].0 == place {
                    assert(one.contains(other[j]));
                    let k = choose|k: int| 0 <= k < one.len() && one[k] == other[j];
                    assert(one[k].0 == place);
                }
            }
            assert(left[place] is None);
            assert(right[place] is None);
        }
    }
    assert(left =~= right);
}

} // verus!
