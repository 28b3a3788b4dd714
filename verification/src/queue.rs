//! The prompt queue: an ordered, per-track list of pending period
//! configurations.  Entries carry a stable id distinct from their 1-based
//! position, which is always derived from the current order.  Every
//! operation's contract states the effect on the plain ordered list of
//! prompt data, so the queue provably behaves as an in-memory list replaying
//! the same operations.

use vstd::prelude::*;

use crate::store::{other_track, QueueEntry, Store, TrackState};
use crate::types::{Challenge, GlyfiError, PromptData, MAX_PROMPT_ID, MAX_QUEUE_LEN};

verus! {

/// The plain ordered list of prompt data a queue holds.
pub open spec fn data_seq(s: Seq<QueueEntry>) -> Seq<PromptData> {
    s.map_values(|e: QueueEntry| e.data)
}

/// What a queue operation leaves untouched: both tracks' period records and
/// pointers, the other track's queue, and the shared tables.
pub open spec fn queue_op_frame(pre: Store, post: Store, c: Challenge) -> bool {
    &&& post.glyph.weeks == pre.glyph.weeks
    &&& post.glyph.current_week == pre.glyph.current_week
    &&& post.ambigram.weeks == pre.ambigram.weeks
    &&& post.ambigram.current_week == pre.ambigram.current_week
    &&& post.tr(other_track(c)).prompts == pre.tr(other_track(c)).prompts
    &&& post.submissions == pre.submissions
    &&& post.users == pre.users
    &&& post.votes == pre.votes
}

impl TrackState {
    /// Appends an entry under a fresh id.
    fn q_add(&mut self, id: i64, data: PromptData)
        requires
            old(self).prompts@.len() < MAX_QUEUE_LEN,
        ensures
            final(self).prompts@ == old(self).prompts@.push(QueueEntry { id, data }),
            final(self).weeks == old(self).weeks,
            final(self).current_week == old(self).current_week,
    {
        self.prompts.push(QueueEntry { id, data });
    }

    /// Looks the entry at a 1-based position up.
    fn q_get(&self, position: usize) -> (r: Result<(i64, PromptData), GlyfiError>)
        ensures
            r == if 1 <= position <= self.prompts@.len() {
                Ok::<(i64, PromptData), GlyfiError>(
                    (
                        self.prompts@[position - 1].id,
                        self.prompts@[position - 1].data,
                    ),
                )
            } else {
                Err::<(i64, PromptData), GlyfiError>(GlyfiError::NotFound)
            },
    {
        if 1 <= position && position <= self.prompts.len() {
            let e = self.prompts[position - 1].clone();
            Ok((e.id, e.data))
        } else {
            Err(GlyfiError::NotFound)
        }
    }

    /// Index of the entry with the given id, if any.
    fn q_find_id(&self, id: i64) -> (r: Option<usize>)
        ensures
            match r {
                Some(i) => i < self.prompts@.len() && self.prompts@[i as int].id == id,
                None => forall|j: int|
                    0 <= j < self.prompts@.len() ==> (#[trigger] self.prompts@[j]).id != id,
            },
    {
        let mut i: usize = 0;
        while i < self.prompts.len()
            invariant
                i <= self.prompts@.len(),
                forall|j: int| 0 <= j < i ==> (#[trigger] self.prompts@[j]).id != id,
            decreases self.prompts@.len() - i,
        {
            if self.prompts[i].id == id {
                return Some(i);
            }
            i += 1;
        }
        None
    }

    /// Swaps the data of two entries; their ids keep their positions.
    fn q_swap_data(&mut self, i: usize, j: usize)
        requires
            i < old(self).prompts@.len(),
            j < old(self).prompts@.len(),
        ensures
            final(self).prompts@ == old(self).prompts@.update(
                i as int,
                (QueueEntry { id: old(self).prompts@[i as int].id, data: old(self).prompts@[j as int].data }),
            ).update(
                j as int,
                (QueueEntry { id: old(self).prompts@[j as int].id, data: old(self).prompts@[i as int].data }),
            ),
            final(self).weeks == old(self).weeks,
            final(self).current_week == old(self).current_week,
    {
        let a = self.prompts[i].clone();
        let b = self.prompts[j].clone();
        self.prompts.set(i, QueueEntry { id: a.id, data: b.data });
        self.prompts.set(j, QueueEntry { id: b.id, data: a.data });
    }

    /// Removes the entry at a 1-based position.
    fn q_delete(&mut self, position: usize) -> (r: Result<bool, GlyfiError>)
        ensures
            match r {
                Ok(b) => {
                    &&& b
                    &&& 1 <= position <= old(self).prompts@.len()
                    &&& final(self).prompts@ == old(self).prompts@.remove(position - 1)
                },
                Err(e) => {
                    &&& e == GlyfiError::NotFound
                    &&& !(1 <= position <= old(self).prompts@.len())
                    &&& *final(self) == *old(self)
                },
            },
            final(self).weeks == old(self).weeks,
            final(self).current_week == old(self).current_week,
    {
        if 1 <= position && position <= self.prompts.len() {
            self.prompts.remove(position - 1);
            assert(final(self).prompts@ =~= old(self).prompts@.remove(position - 1));
            Ok(true)
        } else {
            Err(GlyfiError::NotFound)
        }
    }
}

impl Store {
    /// Appends a prompt to its track's queue and hands its stable id back.
    /// An entry with an explicit zero size or duration is rejected before
    /// any mutation; a full queue or an exhausted id space is a storage
    /// failure.
    pub fn add_prompt(&mut self, prompt_data: &PromptData) -> (r: Result<i64, GlyfiError>)
        requires
            old(self).wf(),
        ensures
            final(self).wf(),
            match r {
                Ok(id) => {
                    &&& prompt_data.valid()
                    &&& id == old(self).next_prompt_id
                    &&& final(self).next_prompt_id == old(self).next_prompt_id + 1
                    &&& final(self).queue_entries(prompt_data.challenge) == old(
                        self,
                    ).queue_entries(prompt_data.challenge).push(
                        (QueueEntry { id, data: *prompt_data }),
                    )
                    &&& final(self).queue(prompt_data.challenge) == old(self).queue(
                        prompt_data.challenge,
                    ).push(*prompt_data)
                    &&& queue_op_frame(*old(self), *final(self), prompt_data.challenge)
                },
                Err(e) => {
                    &&& *final(self) == *old(self)
                    &&& (e == GlyfiError::Validation || e == GlyfiError::Persistence)
                    &&& (e == GlyfiError::Validation <==> !prompt_data.valid())
                    &&& (e == GlyfiError::Persistence ==> (old(self).queue_entries(
                        prompt_data.challenge,
                    ).len() == MAX_QUEUE_LEN || old(self).next_prompt_id == MAX_PROMPT_ID))
                },
            },
    {
        if !prompt_data_is_valid(prompt_data) {
            return Err(GlyfiError::Validation);
        }
        if self.next_prompt_id >= MAX_PROMPT_ID {
            return Err(GlyfiError::Persistence);
        }
        let id = self.next_prompt_id;
        let data = prompt_data.clone();
        let ghost pre = *self;
        match prompt_data.challenge {
            Challenge::Glyph => {
                if self.glyph.prompts.len() >= MAX_QUEUE_LEN {
                    return Err(GlyfiError::Persistence);
                }
                self.glyph.q_add(id, data);
            },
            Challenge::Ambigram => {
                if self.ambigram.prompts.len() >= MAX_QUEUE_LEN {
                    return Err(GlyfiError::Persistence);
                }
                self.ambigram.q_add(id, data);
            },
        }
        self.next_prompt_id = id + 1;
        proof {
            assert(self.queue(prompt_data.challenge) =~= pre.queue(prompt_data.challenge).push(
                *prompt_data,
            ));
        }
        Ok(id)
    }

    /// The stable id of the prompt at a 1-based queue position.
    pub fn get_prompt_id(&self, challenge: Challenge, position: usize) -> (r: Result<
        i64,
        GlyfiError,
    >)
        ensures
            r == if 1 <= position <= self.queue_entries(challenge).len() {
                Ok::<i64, GlyfiError>(self.queue_entries(challenge)[position - 1].id)
            } else {
                Err::<i64, GlyfiError>(GlyfiError::NotFound)
            },
    {
        let got = match challenge {
            Challenge::Glyph => self.glyph.q_get(position),
            Challenge::Ambigram => self.ambigram.q_get(position),
        };
        match got {
            Ok((id, _)) => Ok(id),
            Err(e) => Err(e),
        }
    }

    /// The data of the prompt at a 1-based queue position.
    pub fn get_prompt_data(&self, challenge: Challenge, position: usize) -> (r: Result<
        PromptData,
        GlyfiError,
    >)
        ensures
            r == if 1 <= position <= self.queue(challenge).len() {
                Ok::<PromptData, GlyfiError>(self.queue(challenge)[position - 1])
            } else {
                Err::<PromptData, GlyfiError>(GlyfiError::NotFound)
            },
    {
        let got = match challenge {
            Challenge::Glyph => self.glyph.q_get(position),
            Challenge::Ambigram => self.ambigram.q_get(position),
        };
        match got {
            Ok((_, data)) => Ok(data),
            Err(e) => Err(e),
        }
    }

    /// Id and data of the prompt at a 1-based queue position.
    pub fn get_prompt_id_data(&self, challenge: Challenge, position: usize) -> (r: Result<
        (i64, PromptData),
        GlyfiError,
    >)
        ensures
            r == if 1 <= position <= self.queue_entries(challenge).len() {
                Ok::<(i64, PromptData), GlyfiError>(
                    (
                        self.queue_entries(challenge)[position - 1].id,
                        self.queue(challenge)[position - 1],
                    ),
                )
            } else {
                Err::<(i64, PromptData), GlyfiError>(GlyfiError::NotFound)
            },
    {
        match challenge {
            Challenge::Glyph => self.glyph.q_get(position),
            Challenge::Ambigram => self.ambigram.q_get(position),
        }
    }

    /// All queued prompts of a track, in order.
    pub fn get_prompts(&self, challenge: Challenge) -> (r: Vec<PromptData>)
        ensures
            r@ == self.queue(challenge),
    {
        let ts: &TrackState = match challenge {
            Challenge::Glyph => &self.glyph,
            Challenge::Ambigram => &self.ambigram,
        };
        let ghost gq = self.queue(challenge);
        assert(gq =~= data_seq(ts.prompts@)) by {
            match challenge {
                Challenge::Glyph => {},
                Challenge::Ambigram => {},
            }
        }
        let mut r: Vec<PromptData> = Vec::new();
        let mut i: usize = 0;
        while i < ts.prompts.len()
            invariant
                i <= ts.prompts@.len(),
                gq =~= data_seq(ts.prompts@),
                r@.len() == i,
                forall|j: int| 0 <= j < i ==> r@[j] == gq[j],
            decreases ts.prompts@.len() - i,
        {
            let e = ts.prompts[i].clone();
            r.push(e.data);
            i += 1;
        }
        assert(r@ =~= gq);
        r
    }

    /// Replaces the data of the entry with the given id in the queue of the
    /// new data's track; false when no entry there carries that id (it
    /// vanished, or it sits in the other track's queue).  Invalid data is
    /// rejected before mutation.
    pub fn edit_prompt(&mut self, id: i64, prompt_data: &PromptData) -> (r: Result<
        bool,
        GlyfiError,
    >)
        requires
            old(self).wf(),
        ensures
            final(self).wf(),
            match r {
                Ok(true) => {
                    &&& prompt_data.valid()
                    &&& exists|i: int|
                        {
                            &&& 0 <= i < old(self).queue_entries(prompt_data.challenge).len()
                            &&& old(self).queue_entries(prompt_data.challenge)[i].id == id
                            &&& final(self).queue_entries(prompt_data.challenge) == old(
                                self,
                            ).queue_entries(prompt_data.challenge).update(
                                i,
                                (QueueEntry { id, data: *prompt_data }),
                            )
                        }
                    &&& final(self).next_prompt_id == old(self).next_prompt_id
                    &&& queue_op_frame(*old(self), *final(self), prompt_data.challenge)
                },
                Ok(false) => {
                    &&& *final(self) == *old(self)
                    &&& forall|i: int|
                        0 <= i < old(self).queue_entries(prompt_data.challenge).len() ==> (
                        #[trigger] old(self).queue_entries(prompt_data.challenge)[i]).id != id
                },
                Err(e) => {
                    &&& e == GlyfiError::Validation
                    &&& !prompt_data.valid()
                    &&& *final(self) == *old(self)
                },
            },
    {
        if !prompt_data_is_valid(prompt_data) {
            return Err(GlyfiError::Validation);
        }
        let data = prompt_data.clone();
        match prompt_data.challenge {
            Challenge::Glyph => {
                match self.glyph.q_find_id(id) {
                    Some(i) => {
                        self.glyph.prompts.set(i, QueueEntry { id, data });
                        Ok(true)
                    },
                    None => Ok(false),
                }
            },
            Challenge::Ambigram => {
                match self.ambigram.q_find_id(id) {
                    Some(i) => {
                        self.ambigram.prompts.set(i, QueueEntry { id, data });
                        Ok(true)
                    },
                    None => Ok(false),
                }
            },
        }
    }

    /// Removes the prompt at a 1-based queue position.
    pub fn delete_prompt(&mut self, challenge: Challenge, position: usize) -> (r: Result<
        bool,
        GlyfiError,
    >)
        requires
            old(self).wf(),
        ensures
            final(self).wf(),
            match r {
                Ok(b) => {
                    &&& b
                    &&& 1 <= position <= old(self).queue(challenge).len()
                    &&& final(self).queue_entries(challenge) == old(self).queue_entries(
                        challenge,
                    ).remove(position - 1)
                    &&& final(self).queue(challenge) == old(self).queue(challenge).remove(
                        position - 1,
                    )
                    &&& final(self).next_prompt_id == old(self).next_prompt_id
                    &&& queue_op_frame(*old(self), *final(self), challenge)
                },
                Err(e) => {
                    &&& e == GlyfiError::NotFound
                    &&& !(1 <= position <= old(self).queue(challenge).len())
                    &&& *final(self) == *old(self)
                },
            },
    {
        let ghost pre = *self;
        let r = match challenge {
            Challenge::Glyph => self.glyph.q_delete(position),
            Challenge::Ambigram => self.ambigram.q_delete(position),
        };
        proof {
            if r is Ok {
                assert(self.queue(challenge) =~= pre.queue(challenge).remove(position - 1));
                assert forall|i: int, j: int|
                    0 <= i < j < self.tr(challenge).prompts@.len() implies (#[trigger] self.tr(
                    challenge,
                ).prompts@[i]).id < (#[trigger] self.tr(challenge).prompts@[j]).id by {
                    let p = position - 1;
                    let pre_q = pre.queue_entries(challenge);
                    assert(self.queue_entries(challenge)[i] == if i < p {
                        pre_q[i]
                    } else {
                        pre_q[i + 1]
                    });
                    assert(self.queue_entries(challenge)[j] == if j < p {
                        pre_q[j]
                    } else {
                        pre_q[j + 1]
                    });
                }
            }
        }
        r
    }

    /// Swaps the prompts at two distinct 1-based positions of one queue.
    /// The two entries exchange their data; the stable ids keep their
    /// positions, as a position swap of the persisted rows does.
    pub fn swap_prompts(&mut self, challenge: Challenge, pos1: usize, pos2: usize) -> (r: Result<
        bool,
        GlyfiError,
    >)
        requires
            old(self).wf(),
        ensures
            final(self).wf(),
            match r {
                Ok(b) => {
                    &&& b
                    &&& pos1 != pos2
                    &&& 1 <= pos1 <= old(self).queue(challenge).len()
                    &&& 1 <= pos2 <= old(self).queue(challenge).len()
                    &&& final(self).queue(challenge) == old(self).queue(challenge).update(
                        pos1 - 1,
                        old(self).queue(challenge)[pos2 - 1],
                    ).update(pos2 - 1, old(self).queue(challenge)[pos1 - 1])
                    &&& forall|k: int|
                        0 <= k < old(self).queue_entries(challenge).len()
                            ==> (#[trigger] final(self).queue_entries(challenge)[k]).id
                            == old(self).queue_entries(challenge)[k].id
                    &&& final(self).next_prompt_id == old(self).next_prompt_id
                    &&& queue_op_frame(*old(self), *final(self), challenge)
                },
                Err(e) => {
                    &&& *final(self) == *old(self)
                    &&& (e == GlyfiError::Validation || e == GlyfiError::NotFound)
                    &&& (e == GlyfiError::Validation <==> pos1 == pos2)
                    &&& (e == GlyfiError::NotFound ==> !(1 <= pos1 <= old(self).queue(
                        challenge,
                    ).len() && 1 <= pos2 <= old(self).queue(challenge).len()))
                },
            },
    {
        if pos1 == pos2 {
            return Err(GlyfiError::Validation);
        }
        let len = match challenge {
            Challenge::Glyph => self.glyph.prompts.len(),
            Challenge::Ambigram => self.ambigram.prompts.len(),
        };
        if !(1 <= pos1 && pos1 <= len && 1 <= pos2 && pos2 <= len) {
            return Err(GlyfiError::NotFound);
        }
        let ghost pre = *self;
        match challenge {
            Challenge::Glyph => self.glyph.q_swap_data(pos1 - 1, pos2 - 1),
            Challenge::Ambigram => self.ambigram.q_swap_data(pos1 - 1, pos2 - 1),
        }
        proof {
            assert(self.queue(challenge) =~= pre.queue(challenge).update(
                pos1 - 1,
                pre.queue(challenge)[pos2 - 1],
            ).update(pos2 - 1, pre.queue(challenge)[pos1 - 1]));
        }
        Ok(true)
    }

    /// Moves the prompt at position `from` to position `to` by a run of
    /// adjacent data swaps toward the target.  The resulting order is
    /// exactly the plain list with the element at `from` removed and
    /// reinserted at `to`; the stable ids keep their positions throughout.
    pub fn move_prompt(&mut self, challenge: Challenge, from: usize, to: usize) -> (r: Result<
        bool,
        GlyfiError,
    >)
        requires
            old(self).wf(),
        ensures
            final(self).wf(),
            match r {
                Ok(b) => {
                    &&& b
                    &&& 1 <= from <= old(self).queue(challenge).len()
                    &&& 1 <= to <= old(self).queue(challenge).len()
                    &&& final(self).queue(challenge) == old(self).queue(challenge).remove(
                        from - 1,
                    ).insert(to - 1, old(self).queue(challenge)[from - 1])
                    &&& forall|k: int|
                        0 <= k < old(self).queue_entries(challenge).len()
                            ==> (#[trigger] final(self).queue_entries(challenge)[k]).id
                            == old(self).queue_entries(challenge)[k].id
                    &&& final(self).next_prompt_id == old(self).next_prompt_id
                    &&& queue_op_frame(*old(self), *final(self), challenge)
                },
                Err(e) => {
                    &&& e == GlyfiError::NotFound
                    &&& !(1 <= from <= old(self).queue(challenge).len() && 1 <= to <= old(
                        self,
                    ).queue(challenge).len())
                    &&& *final(self) == *old(self)
                },
            },
    {
        let len = match challenge {
            Challenge::Glyph => self.glyph.prompts.len(),
            Challenge::Ambigram => self.ambigram.prompts.len(),
        };
        if !(1 <= from && from <= len && 1 <= to && to <= len) {
            return Err(GlyfiError::NotFound);
        }
        let ghost pre = *self;
        match challenge {
            Challenge::Glyph => self.glyph.q_move(from - 1, to - 1),
            Challenge::Ambigram => self.ambigram.q_move(from - 1, to - 1),
        }
        proof {
            assert(self.queue(challenge) =~= pre.queue(challenge).remove(from - 1).insert(
                to - 1,
                pre.queue(challenge)[from - 1],
            ));
        }
        Ok(true)
    }
}

impl TrackState {
    /// Moves the entry's data at index `f` to index `t` by adjacent swaps.
    fn q_move(&mut self, f: usize, t: usize)
        requires
            f < old(self).prompts@.len(),
            t < old(self).prompts@.len(),
        ensures
            final(self).prompts@.len() == old(self).prompts@.len(),
            forall|k: int|
                0 <= k < old(self).prompts@.len() ==> (#[trigger] final(self).prompts@[k]).id
                    == old(self).prompts@[k].id,
            forall|k: int|
                0 <= k < old(self).prompts@.len() ==> (#[trigger] final(self).prompts@[k]).data
                    == if k < if f <= t {
                        f as int
                    } else {
                        t as int
                    } || k > if f <= t {
                        t as int
                    } else {
                        f as int
                    } {
                        old(self).prompts@[k].data
                    } else if k == t {
                        old(self).prompts@[f as int].data
                    } else if f <= t {
                        old(self).prompts@[k + 1].data
                    } else {
                        old(self).prompts@[k - 1].data
                    },
            final(self).weeks == old(self).weeks,
            final(self).current_week == old(self).current_week,
    {
        let ghost d0 = old(self).prompts@;
        if f < t {
            let mut i: usize = f;
            while i < t
                invariant
                    f <= i <= t < self.prompts@.len(),
                    self.prompts@.len() == d0.len(),
                    forall|k: int|
                        0 <= k < d0.len() ==> (#[trigger] self.prompts@[k]).id == d0[k].id,
                    forall|k: int|
                        f <= k < i ==> (#[trigger] self.prompts@[k]).data == d0[k + 1].data,
                    self.prompts@[i as int].data == d0[f as int].data,
                    forall|k: int|
                        (0 <= k < f || i < k < d0.len()) ==> (#[trigger] self.prompts@[k]).data
                            == d0[k].data,
                    self.weeks == old(self).weeks,
                    self.current_week == old(self).current_week,
                decreases t - i,
            {
                self.q_swap_data(i, i + 1);
                i += 1;
            }
        } else if t < f {
            let mut i: usize = f;
            while i > t
                invariant
                    t <= i <= f < self.prompts@.len(),
                    self.prompts@.len() == d0.len(),
                    forall|k: int|
                        0 <= k < d0.len() ==> (#[trigger] self.prompts@[k]).id == d0[k].id,
                    self.prompts@[i as int].data == d0[f as int].data,
                    forall|k: int|
                        i < k <= f ==> (#[trigger] self.prompts@[k]).data == d0[k - 1].data,
                    forall|k: int|
                        (0 <= k < i || f < k < d0.len()) ==> (#[trigger] self.prompts@[k]).data
                            == d0[k].data,
                    self.weeks == old(self).weeks,
                    self.current_week == old(self).current_week,
                decreases i,
            {
                self.q_swap_data(i - 1, i);
                i -= 1;
            }
        }
    }
}

/// Runtime check of the validity rule on queue entries.
fn prompt_data_is_valid(p: &PromptData) -> (b: bool)
    ensures
        b == p.valid(),
{
    let size_ok = match p.size_percentage {
        Some(s) => s != 0,
        None => true,
    };
    let dur_ok = match p.custom_duration {
        Some(d) => d != 0,
        None => true,
    };
    size_ok && dur_ok
}

} // verus!
