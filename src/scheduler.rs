//! One tick of the render loop: the producers' outputs, in registration
//! order, become a frame whose entries are named by their producer's index.

use vstd::prelude::*;
use crate::snapshot::{I3Block, copy_opt};
use crate::text::{decimal, decimal_string};

verus! {

/// The indices of the producers that rendered something, in order.
pub open spec fn present_indices(outputs: Seq<Option<I3Block>>) -> Seq<nat>
    decreases outputs.len(),
{
    if outputs.len() == 0 {
        Seq::empty()
    } else {
        let rest = present_indices(outputs.drop_last());
        if outputs.last() is Some {
            rest.push((outputs.len() - 1) as nat)
        } else {
            rest
        }
    }
}

/// `e` is the snapshot `b` with its name set to the text of `index`.
pub open spec fn named_as(e: I3Block, b: I3Block, index: nat) -> bool {
    &&& e.name@ == decimal(index)
    &&& e.full_text == b.full_text
    &&& e.short_text == b.short_text
    &&& e.color == b.color
    &&& e.markup == b.markup
    &&& e.tooltip == b.tooltip
}

/// `frame` is what a tick emits for `outputs`: one entry per present output,
/// in registration order, each named by its producer's index.
pub open spec fn is_frame_of(frame: Seq<I3Block>, outputs: Seq<Option<I3Block>>) -> bool {
    let idx = present_indices(outputs);
    &&& frame.len() == idx.len()
    &&& forall|k: int| 0 <= k < frame.len() ==> named_as(#[trigger] frame[k], outputs[idx[k] as int]->Some_0, idx[k])
}

/// The snapshot `b` under the name of producer `index`.
pub fn with_name(b: &I3Block, index: usize) -> (r: I3Block)
    ensures
        named_as(r, *b, index as nat),
{
    I3Block {
        full_text: b.full_text.clone(),
        short_text: copy_opt(&b.short_text),
        color: copy_opt(&b.color),
        name: decimal_string(index as u64),
        markup: b.markup,
        tooltip: copy_opt(&b.tooltip),
    }
}

/// The frame of one tick: producers that rendered `None` are left out, the
/// others keep registration order and are named by their index.
pub fn assemble_frame(outputs: &Vec<Option<I3Block>>) -> (r: Vec<I3Block>)
    ensures
        is_frame_of(r@, outputs@),
{
    let mut frame: Vec<I3Block> = Vec::new();
    let mut i: usize = 0;
    while i < outputs.len()
        invariant
            i <= outputs@.len(),
            is_frame_of(frame@, outputs@.subrange(0, i as int)),
        decreases outputs@.len() - i,
    {
        let ghost prev = outputs@.subrange(0, i as int);
        let ghost next = outputs@.subrange(0, i + 1);
        proof {
            assert(next.drop_last() =~= prev);
            lemma_present_indices_bounded(prev);
        }
        match &outputs[i] {
            Some(b) => {
                let e = with_name(b, i);
                frame.push(e);
                proof {
                    let idx = present_indices(next);
                    assert(idx == present_indices(prev).push(i as nat));
                    assert forall|k: int| 0 <= k < frame@.len() implies named_as(
                        #[trigger] frame@[k],
                        next[idx[k] as int]->Some_0,
                        idx[k],
                    ) by {
                        if k < frame@.len() - 1 {
                            assert(next[idx[k] as int] == prev[idx[k] as int]);
                        }
                    }
                }
            },
            None => {
                proof {
                    let idx = present_indices(next);
                    assert(idx == present_indices(prev));
                    assert forall|k: int| 0 <= k < frame@.len() implies named_as(
                        #[trigger] frame@[k],
                        next[idx[k] as int]->Some_0,
                        idx[k],
                    ) by {
                        assert(next[idx[k] as int] == prev[idx[k] as int]);
                    }
                }
            },
        }
        i = i + 1;
    }
    assert(outputs@.subrange(0, outputs@.len() as int) =~= outputs@);
    frame
}

/// Every present index is below the number of outputs, and they increase.
proof fn lemma_present_indices_bounded(outputs: Seq<Option<I3Block>>)
    ensures
        present_indices(outputs).len() <= outputs.len(),
        forall|k: int| 0 <= k < present_indices(outputs).len() ==> {
            &&& #[trigger] present_indices(outputs)[k] < outputs.len()
            &&& outputs[present_indices(outputs)[k] as int] is Some
        },
        forall|j: int, k: int| 0 <= j < k < present_indices(outputs).len() ==>
            present_indices(outputs)[j] < present_indices(outputs)[k],
    decreases outputs.len(),
{
    if outputs.len() > 0 {
        let prev = outputs.drop_last();
        lemma_present_indices_bounded(prev);
        let idx = present_indices(outputs);
        assert forall|k: int| 0 <= k < idx.len() implies {
            &&& #[trigger] idx[k] < outputs.len()
            &&& outputs[idx[k] as int] is Some
        } by {
            if k < present_indices(prev).len() {
                assert(idx[k] == present_indices(prev)[k]);
                assert(outputs[idx[k] as int] == prev[idx[k] as int]);
            }
        }
        assert forall|j: int, k: int| 0 <= j < k < idx.len() implies idx[j] < idx[k] by {
            if k < present_indices(prev).len() {
                assert(idx[j] == present_indices(prev)[j]);
                assert(idx[k] == present_indices(prev)[k]);
            } else {
                assert(idx[j] == present_indices(prev)[j]);
            }
        }
    }
}

/// A frame never has more entries than there are producers, and its entries
/// come in registration order: each names a distinct producer, later entries
/// name later producers, and each producer named rendered something.
pub proof fn lemma_frame_bounded_and_ordered(outputs: Seq<Option<I3Block>>, frame: Seq<I3Block>)
    requires
        is_frame_of(frame, outputs),
    ensures
        frame.len() <= outputs.len(),
        forall|k: int| 0 <= k < frame.len() ==> {
            &&& #[trigger] present_indices(outputs)[k] < outputs.len()
            &&& outputs[present_indices(outputs)[k] as int] is Some
            &&& frame[k].name@ == decimal(present_indices(outputs)[k])
        },
        forall|j: int, k: int| 0 <= j < k < frame.len() ==>
            present_indices(outputs)[j] < present_indices(outputs)[k],
{
    lemma_present_indices_bounded(outputs);
}

} // verus!
