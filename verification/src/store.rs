//! The persistence gateway: an in-memory store for the three relational
//! tables — instructions, steps, and the join rows linking a step to its
//! instruction with a position.  The gateway owns the durable
//! representation; every multi-row operation that must be atomic either
//! completes entirely or leaves the store untouched, the way a
//! transaction's commit-or-rollback would.
//!
//! Ids are generated, positive, unique and handed out in increasing
//! order, so each table stays strictly sorted by id — the order the
//! read queries promise.

use vstd::prelude::*;
use crate::errors::StoreError;

verus! {

/// A top-level user-authored procedure with a title.
#[derive(Debug, PartialEq, Eq)]
pub struct Instruction {
    pub id: i32,
    pub title: String,
}

/// A sub-unit of an instruction, optionally carrying a duration and an
/// uploaded image's file name.
#[derive(Debug, PartialEq, Eq)]
pub struct Step {
    pub id: i32,
    pub title: String,
    pub seconds: Option<i32>,
    pub image_filename: Option<String>,
}

/// A join row linking one step to one instruction, with an ordering key.
#[derive(Debug, Clone, Copy, PartialEq, Eq, Structural)]
pub struct InstructionStep {
    pub instruction_id: i32,
    pub step_id: i32,
    pub position: i32,
}

/// The in-memory store standing in for the relational engine.
#[derive(Debug)]
pub struct Store {
    pub instructions: Vec<Instruction>,
    pub steps: Vec<Step>,
    pub joins: Vec<InstructionStep>,
    pub next_instruction_id: i32,
    pub next_step_id: i32,
}

/// Whether some instruction row in `s` carries this id.
pub open spec fn has_instruction_id(s: Seq<Instruction>, id: i32) -> bool {
    exists|k: int| 0 <= k < s.len() && (#[trigger] s[k]).id == id
}

/// Whether some step row in `s` carries this id.
pub open spec fn has_step_id(s: Seq<Step>, id: i32) -> bool {
    exists|k: int| 0 <= k < s.len() && (#[trigger] s[k]).id == id
}

/// Whether a join row links this instruction to this step.
pub open spec fn has_join(s: Seq<InstructionStep>, instruction_id: i32, step_id: i32) -> bool {
    exists|k: int|
        0 <= k < s.len() && (#[trigger] s[k]).instruction_id == instruction_id && s[k].step_id
            == step_id
}

impl Store {
    /// The relational invariant: ids are positive, below the generators,
    /// strictly increasing within each table, and every join row points
    /// at an existing instruction and an existing step.
    pub open spec fn wf(&self) -> bool {
        &&& 1 <= self.next_instruction_id
        &&& 1 <= self.next_step_id
        &&& forall|k: int|
            0 <= k < self.instructions@.len() ==> 1 <= (#[trigger] self.instructions@[k]).id
                < self.next_instruction_id
        &&& forall|k: int|
            0 <= k < self.steps@.len() ==> 1 <= (#[trigger] self.steps@[k]).id < self.next_step_id
        &&& forall|k1: int, k2: int|
            0 <= k1 < k2 < self.instructions@.len() ==> (#[trigger] self.instructions@[k1]).id < (
            #[trigger] self.instructions@[k2]).id
        &&& forall|k1: int, k2: int|
            0 <= k1 < k2 < self.steps@.len() ==> (#[trigger] self.steps@[k1]).id < (
            #[trigger] self.steps@[k2]).id
        &&& forall|k: int|
            0 <= k < self.joins@.len() ==> has_instruction_id(
                self.instructions@,
                (#[trigger] self.joins@[k]).instruction_id,
            ) && has_step_id(self.steps@, self.joins@[k].step_id)
    }

    /// Whether an instruction with this id exists.
    pub open spec fn has_instruction(&self, id: i32) -> bool {
        has_instruction_id(self.instructions@, id)
    }

    /// Whether a step with this id exists.
    pub open spec fn has_step(&self, id: i32) -> bool {
        has_step_id(self.steps@, id)
    }

    /// An empty store; ids start at 1.
    pub fn new() -> (r: Store)
        ensures
            r.wf(),
            r.instructions@.len() == 0,
            r.steps@.len() == 0,
            r.joins@.len() == 0,
            r.next_instruction_id == 1,
            r.next_step_id == 1,
    {
        Store {
            instructions: Vec::new(),
            steps: Vec::new(),
            joins: Vec::new(),
            next_instruction_id: 1,
            next_step_id: 1,
        }
    }

    /// Whether an instruction row with this id is present.
    pub fn contains_instruction(&self, id: i32) -> (r: bool)
        ensures
            r == self.has_instruction(id),
    {
        let mut k: usize = 0;
        while k < self.instructions.len()
            invariant
                0 <= k <= self.instructions@.len(),
                forall|j: int| 0 <= j < k ==> (#[trigger] self.instructions@[j]).id != id,
            decreases self.instructions@.len() - k,
        {
            if self.instructions[k].id == id {
                return true;
            }
            k += 1;
        }
        false
    }

    /// Whether a step row with this id is present.
    pub fn contains_step(&self, id: i32) -> (r: bool)
        ensures
            r == self.has_step(id),
    {
        let mut k: usize = 0;
        while k < self.steps.len()
            invariant
                0 <= k <= self.steps@.len(),
                forall|j: int| 0 <= j < k ==> (#[trigger] self.steps@[j]).id != id,
            decreases self.steps@.len() - k,
        {
            if self.steps[k].id == id {
                return true;
            }
            k += 1;
        }
        false
    }

    /// Single-row insert of an instruction; returns the stored row with
    /// its generated id.
    pub fn insert_instruction(&mut self, title: String) -> (r: Result<Instruction, StoreError>)
        requires
            old(self).wf(),
        ensures
            final(self).wf(),
            r matches Err(e) ==> e == StoreError::IdSpaceExhausted
                && old(self).next_instruction_id == i32::MAX
                && *final(self) == *old(self),
            r matches Ok(ins) ==> old(self).next_instruction_id < i32::MAX
                && ins.id == old(self).next_instruction_id
                && ins.title == title
                && final(self).instructions@ == old(self).instructions@.push(ins)
                && final(self).steps@ == old(self).steps@
                && final(self).joins@ == old(self).joins@
                && final(self).next_instruction_id == old(self).next_instruction_id + 1
                && final(self).next_step_id == old(self).next_step_id,
    {
        if self.next_instruction_id == i32::MAX {
            return Err(StoreError::IdSpaceExhausted);
        }
        let id = self.next_instruction_id;
        let row = Instruction { id, title };
        let stored = Instruction { id, title: row.title.clone() };
        self.instructions.push(row);
        self.next_instruction_id = id + 1;
        proof {
            assert forall|k: int| 0 <= k < self.joins@.len() implies has_instruction_id(
                self.instructions@,
                (#[trigger] self.joins@[k]).instruction_id,
            ) by {
                let w = choose|j: int|
                    0 <= j < old(self).instructions@.len() && (#[trigger] old(self).instructions@[j]).id == self.joins@[k].instruction_id;
                assert(self.instructions@[w].id == self.joins@[k].instruction_id);
            }
        }
        Ok(stored)
    }

    /// Single-row insert of a step; returns the stored row with its
    /// generated id.
    pub fn insert_step(
        &mut self,
        title: String,
        seconds: Option<i32>,
        image_filename: Option<String>,
    ) -> (r: Result<Step, StoreError>)
        requires
            old(self).wf(),
        ensures
            final(self).wf(),
            r matches Err(e) ==> e == StoreError::IdSpaceExhausted
                && old(self).next_step_id == i32::MAX
                && *final(self) == *old(self),
            r matches Ok(st) ==> old(self).next_step_id < i32::MAX
                && st.id == old(self).next_step_id
                && st.title == title
                && st.seconds == seconds
                && st.image_filename == image_filename
                && final(self).steps@ == old(self).steps@.push(st)
                && final(self).instructions@ == old(self).instructions@
                && final(self).joins@ == old(self).joins@
                && final(self).next_step_id == old(self).next_step_id + 1
                && final(self).next_instruction_id == old(self).next_instruction_id,
    {
        if self.next_step_id == i32::MAX {
            return Err(StoreError::IdSpaceExhausted);
        }
        let id = self.next_step_id;
        let stored = Step {
            id,
            title: title.clone(),
            seconds,
            image_filename: clone_filename(&image_filename),
        };
        let row = Step { id, title, seconds, image_filename };
        self.steps.push(row);
        self.next_step_id = id + 1;
        proof {
            assert forall|k: int| 0 <= k < self.joins@.len() implies has_step_id(
                self.steps@,
                (#[trigger] self.joins@[k]).step_id,
            ) by {
                let w = choose|j: int|
                    0 <= j < old(self).steps@.len() && (#[trigger] old(self).steps@[j]).id
                        == self.joins@[k].step_id;
                assert(self.steps@[w].id == self.joins@[k].step_id);
            }
        }
        Ok(stored)
    }

    /// Single-row insert of a join row; fails with a foreign-key
    /// violation, leaving the store unchanged, unless both referenced
    /// rows exist.
    pub fn insert_instruction_step(
        &mut self,
        instruction_id: i32,
        step_id: i32,
        position: i32,
    ) -> (r: Result<InstructionStep, StoreError>)
        requires
            old(self).wf(),
        ensures
            final(self).wf(),
            r matches Err(e) ==> e == StoreError::ForeignKeyViolation
                && !(old(self).has_instruction(instruction_id) && old(self).has_step(step_id))
                && *final(self) == *old(self),
            r matches Ok(j) ==> old(self).has_instruction(instruction_id)
                && old(self).has_step(step_id)
                && j == (InstructionStep { instruction_id, step_id, position })
                && final(self).joins@ == old(self).joins@.push(j)
                && final(self).instructions@ == old(self).instructions@
                && final(self).steps@ == old(self).steps@
                && final(self).next_instruction_id == old(self).next_instruction_id
                && final(self).next_step_id == old(self).next_step_id,
    {
        if !self.contains_instruction(instruction_id) || !self.contains_step(step_id) {
            return Err(StoreError::ForeignKeyViolation);
        }
        let j = InstructionStep { instruction_id, step_id, position };
        self.joins.push(j);
        Ok(j)
    }
}

impl Store {
    /// Field update of a step's title and duration; the image file name
    /// stays.  Fails with `NotFound`, changing nothing, if no row
    /// matched.
    pub fn update_step(&mut self, step_id: i32, title: String, seconds: Option<i32>) -> (r: Result<
        Step,
        StoreError,
    >)
        requires
            old(self).wf(),
        ensures
            final(self).wf(),
            r matches Err(e) ==> e == StoreError::NotFound && !old(self).has_step(step_id)
                && *final(self) == *old(self),
            r matches Ok(st) ==> st.id == step_id && st.title == title && st.seconds == seconds
                && exists|k: int|
                0 <= k < old(self).steps@.len() && (#[trigger] old(self).steps@[k]).id == step_id
                    && st.image_filename == old(self).steps@[k].image_filename && final(self).steps@ == old(self).steps@.update(k, st),
            r is Ok ==> final(self).instructions@ == old(self).instructions@ && final(self).joins@
                == old(self).joins@ && final(self).next_instruction_id == old(self).next_instruction_id && final(self).next_step_id == old(self).next_step_id,
    {
        let mut k: usize = 0;
        while k < self.steps.len()
            invariant
                0 <= k <= self.steps@.len(),
                *self == *old(self),
                self.wf(),
                forall|j: int| 0 <= j < k ==> (#[trigger] self.steps@[j]).id != step_id,
            decreases self.steps@.len() - k,
        {
            if self.steps[k].id == step_id {
                let fname = clone_filename(&self.steps[k].image_filename);
                let row = Step {
                    id: step_id,
                    title: title.clone(),
                    seconds,
                    image_filename: clone_filename(&fname),
                };
                let ret = Step { id: step_id, title, seconds, image_filename: fname };
                self.steps[k] = row;
                proof {
                    assert forall|j: int| 0 <= j < self.joins@.len() implies has_step_id(
                        self.steps@,
                        (#[trigger] self.joins@[j]).step_id,
                    ) by {
                        let w = choose|w: int|
                            0 <= w < old(self).steps@.len() && (#[trigger] old(self).steps@[w]).id
                                == self.joins@[j].step_id;
                        assert(self.steps@[w].id == self.joins@[j].step_id);
                    }
                }
                return Ok(ret);
            }
            k += 1;
        }
        Err(StoreError::NotFound)
    }

    /// Field update of an instruction's title.  Fails with `NotFound`,
    /// changing nothing, if no row matched.
    pub fn update_instruction(&mut self, instruction_id: i32, title: String) -> (r: Result<
        Instruction,
        StoreError,
    >)
        requires
            old(self).wf(),
        ensures
            final(self).wf(),
            r matches Err(e) ==> e == StoreError::NotFound && !old(self).has_instruction(
                instruction_id,
            ) && *final(self) == *old(self),
            r matches Ok(ins) ==> ins.id == instruction_id && ins.title == title && exists|k: int|
                0 <= k < old(self).instructions@.len() && (#[trigger] old(self).instructions@[k]).id == instruction_id && final(self).instructions@ == old(self).instructions@.update(k, ins),
            r is Ok ==> final(self).steps@ == old(self).steps@ && final(self).joins@ == old(self).joins@ && final(self).next_instruction_id == old(self).next_instruction_id && final(self).next_step_id == old(self).next_step_id,
    {
        let mut k: usize = 0;
        while k < self.instructions.len()
            invariant
                0 <= k <= self.instructions@.len(),
                *self == *old(self),
                self.wf(),
                forall|j: int| 0 <= j < k ==> (#[trigger] self.instructions@[j]).id
                    != instruction_id,
            decreases self.instructions@.len() - k,
        {
            if self.instructions[k].id == instruction_id {
                let row = Instruction { id: instruction_id, title: title.clone() };
                let ret = Instruction { id: instruction_id, title };
                self.instructions[k] = row;
                proof {
                    assert forall|j: int| 0 <= j < self.joins@.len() implies has_instruction_id(
                        self.instructions@,
                        (#[trigger] self.joins@[j]).instruction_id,
                    ) by {
                        let w = choose|w: int|
                            0 <= w < old(self).instructions@.len() && (#[trigger] old(self).instructions@[w]).id == self.joins@[j].instruction_id;
                        assert(self.instructions@[w].id == self.joins@[j].instruction_id);
                    }
                }
                return Ok(ret);
            }
            k += 1;
        }
        Err(StoreError::NotFound)
    }

    /// The transactional pair of the upload orchestration: insert a step
    /// row and its join row to the parent instruction, both or neither.
    /// A missing parent surfaces as a foreign-key violation with the
    /// store exactly as it was — the rollback a relational engine would
    /// perform.
    pub fn create_step_with_join(
        &mut self,
        instruction_id: i32,
        title: String,
        seconds: Option<i32>,
        image_filename: Option<String>,
        position: i32,
    ) -> (r: Result<(Step, InstructionStep), StoreError>)
        requires
            old(self).wf(),
        ensures
            final(self).wf(),
            r matches Err(e) ==> *final(self) == *old(self) && (e == StoreError::ForeignKeyViolation
                || e == StoreError::IdSpaceExhausted) && (e == StoreError::ForeignKeyViolation
                <==> !old(self).has_instruction(instruction_id)) && (e
                == StoreError::IdSpaceExhausted ==> old(self).next_step_id == i32::MAX),
            r matches Ok(p) ==> old(self).has_instruction(instruction_id) && p.0.id == old(self).next_step_id && p.0.title == title && p.0.seconds == seconds && p.0.image_filename
                == image_filename && p.1 == (InstructionStep {
                instruction_id,
                step_id: p.0.id,
                position,
            }) && final(self).steps@ == old(self).steps@.push(p.0) && final(self).joins@ == old(self).joins@.push(p.1) && final(self).instructions@ == old(self).instructions@ && final(self).next_step_id == old(self).next_step_id + 1 && final(self).next_instruction_id == old(self).next_instruction_id,
    {
        if !self.contains_instruction(instruction_id) {
            return Err(StoreError::ForeignKeyViolation);
        }
        if self.next_step_id == i32::MAX {
            return Err(StoreError::IdSpaceExhausted);
        }
        let st = match self.insert_step(title, seconds, image_filename) {
            Ok(st) => st,
            Err(e) => {
                proof {
                    assert(false);
                }
                return Err(e);
            },
        };
        let j = match self.insert_instruction_step(instruction_id, st.id, position) {
            Ok(j) => j,
            Err(e) => {
                proof {
                    assert(self.steps@.last().id == st.id);
                    assert(false);
                }
                return Err(e);
            },
        };
        Ok((st, j))
    }

    /// Looks one instruction up by id.
    pub fn get_instruction(&self, id: i32) -> (r: Option<Instruction>)
        ensures
            r matches Some(ins) ==> self.has_instruction(id) && ins.id == id && exists|k: int|
                0 <= k < self.instructions@.len() && (#[trigger] self.instructions@[k]) == ins,
            r is None ==> !self.has_instruction(id),
    {
        let mut k: usize = 0;
        while k < self.instructions.len()
            invariant
                0 <= k <= self.instructions@.len(),
                forall|j: int| 0 <= j < k ==> (#[trigger] self.instructions@[j]).id != id,
            decreases self.instructions@.len() - k,
        {
            if self.instructions[k].id == id {
                return Some(
                    Instruction { id: self.instructions[k].id, title: self.instructions[k].title.clone() },
                );
            }
            k += 1;
        }
        None
    }

    /// Whether a join row links this instruction to this step.
    pub fn contains_join(&self, instruction_id: i32, step_id: i32) -> (r: bool)
        ensures
            r == has_join(self.joins@, instruction_id, step_id),
    {
        let mut k: usize = 0;
        while k < self.joins.len()
            invariant
                0 <= k <= self.joins@.len(),
                forall|j: int| 0 <= j < k ==> !((#[trigger] self.joins@[j]).instruction_id
                    == instruction_id && self.joins@[j].step_id == step_id),
            decreases self.joins@.len() - k,
        {
            if self.joins[k].instruction_id == instruction_id && self.joins[k].step_id == step_id {
                return true;
            }
            k += 1;
        }
        false
    }

    /// The steps linked to this instruction by a join row, in the order
    /// they sit in the step table — ascending by step id.
    pub fn steps_of_instruction(&self, instruction_id: i32) -> (r: Vec<Step>)
        ensures
            r@ == steps_linked(self.steps@, self.joins@, instruction_id),
    {
        let mut out: Vec<Step> = Vec::new();
        let mut k: usize = 0;
        proof {
            assert(self.steps@.take(0) =~= Seq::<Step>::empty());
        }
        while k < self.steps.len()
            invariant
                0 <= k <= self.steps@.len(),
                out@ == steps_linked(self.steps@.take(k as int), self.joins@, instruction_id),
            decreases self.steps@.len() - k,
        {
            proof {
                assert(self.steps@.take(k as int + 1).drop_last() =~= self.steps@.take(k as int));
                assert(self.steps@.take(k as int + 1).last() == self.steps@[k as int]);
            }
            if self.contains_join(instruction_id, self.steps[k].id) {
                out.push(clone_step(&self.steps[k]));
            }
            k += 1;
        }
        proof {
            assert(self.steps@.take(self.steps@.len() as int) =~= self.steps@);
        }
        out
    }
}

impl Store {
    /// Deletes a step: its join rows first, then the step row itself,
    /// returning the step's prior image file name so the caller can
    /// schedule deletion of the backing file.  Fails with `NotFound`,
    /// changing nothing, when no step row matched.
    pub fn delete_step_cascade(&mut self, step_id: i32) -> (r: Result<Option<String>, StoreError>)
        requires
            old(self).wf(),
        ensures
            final(self).wf(),
            r matches Err(e) ==> e == StoreError::NotFound && !old(self).has_step(step_id)
                && *final(self) == *old(self),
            r matches Ok(f) ==> old(self).has_step(step_id)
                && exists|k: int|
                    0 <= k < old(self).steps@.len()
                    && (#[trigger] old(self).steps@[k]).id == step_id
                    && f == old(self).steps@[k].image_filename
                    && final(self).steps@ == old(self).steps@.remove(k),
            r is Ok ==> final(self).joins@ == joins_without_step(old(self).joins@, step_id)
                && !final(self).has_step(step_id)
                && final(self).instructions@ == old(self).instructions@
                && final(self).next_instruction_id == old(self).next_instruction_id
                && final(self).next_step_id == old(self).next_step_id,
    {
        let mut k: usize = 0;
        while k < self.steps.len()
            invariant
                0 <= k <= self.steps@.len(),
                *self == *old(self),
                self.wf(),
                forall|j: int| 0 <= j < k ==> (#[trigger] self.steps@[j]).id != step_id,
            decreases self.steps@.len() - k,
        {
            if self.steps[k].id == step_id {
                let mut kept: Vec<InstructionStep> = Vec::new();
                let mut i: usize = 0;
                proof {
                    assert(self.joins@.take(0) =~= Seq::<InstructionStep>::empty());
                }
                while i < self.joins.len()
                    invariant
                        0 <= i <= self.joins@.len(),
                        *self == *old(self),
                        self.wf(),
                        kept@ == joins_without_step(self.joins@.take(i as int), step_id),
                        forall|j: int|
                            0 <= j < kept@.len() ==> (#[trigger] kept@[j]).step_id != step_id
                                && self.joins@.contains(kept@[j]),
                    decreases self.joins@.len() - i,
                {
                    proof {
                        assert(self.joins@.take(i as int + 1).drop_last() =~= self.joins@.take(
                            i as int,
                        ));
                        assert(self.joins@.take(i as int + 1).last() == self.joins@[i as int]);
                    }
                    if self.joins[i].step_id != step_id {
                        kept.push(self.joins[i]);
                    }
                    i += 1;
                }
                proof {
                    assert(self.joins@.take(self.joins@.len() as int) =~= self.joins@);
                }
                let removed = self.steps.remove(k);
                self.joins = kept;
                proof {
                    assert forall|j: int| 0 <= j < self.joins@.len() implies has_instruction_id(
                        self.instructions@,
                        (#[trigger] self.joins@[j]).instruction_id,
                    ) && has_step_id(self.steps@, self.joins@[j].step_id) by {
                        let w = choose|w: int|
                            0 <= w < old(self).joins@.len() && old(self).joins@[w] == self.joins@[j];
                        assert(has_instruction_id(old(self).instructions@, self.joins@[j].instruction_id));
                        assert(has_step_id(old(self).steps@, self.joins@[j].step_id));
                        let ws = choose|ws: int|
                            0 <= ws < old(self).steps@.len() && (#[trigger] old(self).steps@[ws]).id
                                == self.joins@[j].step_id;
                        if ws < k {
                            assert(self.steps@[ws].id == self.joins@[j].step_id);
                        } else {
                            assert(ws != k);
                            assert(self.steps@[ws - 1].id == self.joins@[j].step_id);
                        }
                    }
                    assert forall|j: int| 0 <= j < self.steps@.len() implies (
                    #[trigger] self.steps@[j]).id != step_id by {
                        if j < k {
                            assert(self.steps@[j] == old(self).steps@[j]);
                        } else {
                            assert(self.steps@[j] == old(self).steps@[j + 1]);
                        }
                    }
                }
                return Ok(removed.image_filename);
            }
            k += 1;
        }
        Err(StoreError::NotFound)
    }

    /// Deletes an instruction: its join rows first, then the instruction
    /// row itself.  Fails with `NotFound`, changing nothing, when no
    /// instruction row matched.
    pub fn delete_instruction_cascade(&mut self, instruction_id: i32) -> (r: Result<
        (),
        StoreError,
    >)
        requires
            old(self).wf(),
        ensures
            final(self).wf(),
            r matches Err(e) ==> e == StoreError::NotFound && !old(self).has_instruction(
                instruction_id,
            ) && *final(self) == *old(self),
            r matches Ok(u) ==> old(self).has_instruction(instruction_id)
                && exists|k: int|
                    0 <= k < old(self).instructions@.len()
                    && (#[trigger] old(self).instructions@[k]).id == instruction_id
                    && final(self).instructions@ == old(self).instructions@.remove(k),
            r is Ok ==> final(self).joins@ == joins_without_instruction(
                old(self).joins@,
                instruction_id,
            ) && !final(self).has_instruction(instruction_id)
                && final(self).steps@ == old(self).steps@
                && final(self).next_instruction_id == old(self).next_instruction_id
                && final(self).next_step_id == old(self).next_step_id,
    {
        let mut k: usize = 0;
        while k < self.instructions.len()
            invariant
                0 <= k <= self.instructions@.len(),
                *self == *old(self),
                self.wf(),
                forall|j: int| 0 <= j < k ==> (#[trigger] self.instructions@[j]).id
                    != instruction_id,
            decreases self.instructions@.len() - k,
        {
            if self.instructions[k].id == instruction_id {
                let mut kept: Vec<InstructionStep> = Vec::new();
                let mut i: usize = 0;
                proof {
                    assert(self.joins@.take(0) =~= Seq::<InstructionStep>::empty());
                }
                while i < self.joins.len()
                    invariant
                        0 <= i <= self.joins@.len(),
                        *self == *old(self),
                        self.wf(),
                        kept@ == joins_without_instruction(
                            self.joins@.take(i as int),
                            instruction_id,
                        ),
                        forall|j: int|
                            0 <= j < kept@.len() ==> (#[trigger] kept@[j]).instruction_id
                                != instruction_id && self.joins@.contains(kept@[j]),
                    decreases self.joins@.len() - i,
                {
                    proof {
                        assert(self.joins@.take(i as int + 1).drop_last() =~= self.joins@.take(
                            i as int,
                        ));
                        assert(self.joins@.take(i as int + 1).last() == self.joins@[i as int]);
                    }
                    if self.joins[i].instruction_id != instruction_id {
                        kept.push(self.joins[i]);
                    }
                    i += 1;
                }
                proof {
                    assert(self.joins@.take(self.joins@.len() as int) =~= self.joins@);
                }
                self.instructions.remove(k);
                self.joins = kept;
                proof {
                    assert forall|j: int| 0 <= j < self.joins@.len() implies has_instruction_id(
                        self.instructions@,
                        (#[trigger] self.joins@[j]).instruction_id,
                    ) && has_step_id(self.steps@, self.joins@[j].step_id) by {
                        let w = choose|w: int|
                            0 <= w < old(self).joins@.len() && old(self).joins@[w] == self.joins@[j];
                        assert(has_instruction_id(
                            old(self).instructions@,
                            self.joins@[j].instruction_id,
                        ));
                        assert(has_step_id(old(self).steps@, self.joins@[j].step_id));
                        let ws = choose|ws: int|
                            0 <= ws < old(self).instructions@.len() && (#[trigger] old(
                                self,
                            ).instructions@[ws]).id == self.joins@[j].instruction_id;
                        if ws < k {
                            assert(self.instructions@[ws].id == self.joins@[j].instruction_id);
                        } else {
                            assert(ws != k);
                            assert(self.instructions@[ws - 1].id == self.joins@[j].instruction_id);
                        }
                    }
                    assert forall|j: int| 0 <= j < self.instructions@.len() implies (
                    #[trigger] self.instructions@[j]).id != instruction_id by {
                        if j < k {
                            assert(self.instructions@[j] == old(self).instructions@[j]);
                        } else {
                            assert(self.instructions@[j] == old(self).instructions@[j + 1]);
                        }
                    }
                }
                return Ok(());
            }
            k += 1;
        }
        Err(StoreError::NotFound)
    }
}

/// The join rows of `s` that do not reference this step.
pub open spec fn joins_without_step(s: Seq<InstructionStep>, step_id: i32) -> Seq<InstructionStep>
    decreases s.len(),
{
    if s.len() == 0 {
        Seq::empty()
    } else {
        let prefix = joins_without_step(s.drop_last(), step_id);
        if s.last().step_id == step_id {
            prefix
        } else {
            prefix.push(s.last())
        }
    }
}

/// The join rows of `s` that do not reference this instruction.
pub open spec fn joins_without_instruction(
    s: Seq<InstructionStep>,
    instruction_id: i32,
) -> Seq<InstructionStep>
    decreases s.len(),
{
    if s.len() == 0 {
        Seq::empty()
    } else {
        let prefix = joins_without_instruction(s.drop_last(), instruction_id);
        if s.last().instruction_id == instruction_id {
            prefix
        } else {
            prefix.push(s.last())
        }
    }
}

/// The steps of `steps` that a row of `joins` links to this instruction,
/// keeping the step table's order.
pub open spec fn steps_linked(
    steps: Seq<Step>,
    joins: Seq<InstructionStep>,
    instruction_id: i32,
) -> Seq<Step>
    decreases steps.len(),
{
    if steps.len() == 0 {
        Seq::empty()
    } else {
        let prefix = steps_linked(steps.drop_last(), joins, instruction_id);
        if has_join(joins, instruction_id, steps.last().id) {
            prefix.push(steps.last())
        } else {
            prefix
        }
    }
}

/// Every step the page query selects is a row of the step table.
pub proof fn lemma_steps_linked_membership(
    steps: Seq<Step>,
    joins: Seq<InstructionStep>,
    instruction_id: i32,
)
    ensures
        forall|k: int|
            0 <= k < steps_linked(steps, joins, instruction_id).len() ==> steps.contains(
                #[trigger] steps_linked(steps, joins, instruction_id)[k],
            ),
    decreases steps.len(),
{
    if steps.len() > 0 {
        lemma_steps_linked_membership(steps.drop_last(), joins, instruction_id);
        assert(steps[steps.len() - 1] == steps.last());
        assert forall|k: int|
            0 <= k < steps_linked(steps, joins, instruction_id).len() implies steps.contains(
            #[trigger] steps_linked(steps, joins, instruction_id)[k],
        ) by {
            let linked = steps_linked(steps, joins, instruction_id);
            let prefix = steps_linked(steps.drop_last(), joins, instruction_id);
            if k < prefix.len() {
                assert(steps.drop_last().contains(prefix[k]));
                let w = choose|w: int|
                    0 <= w < steps.drop_last().len() && steps.drop_last()[w] == prefix[k];
                assert(steps[w] == prefix[k]);
            } else {
                assert(linked[k] == steps.last());
            }
        }
    }
}

/// The ordering the instruction page promises: with the step table
/// ascending by id, the linked steps come out ascending by id too.
pub proof fn lemma_steps_linked_sorted(
    steps: Seq<Step>,
    joins: Seq<InstructionStep>,
    instruction_id: i32,
)
    requires
        forall|k1: int, k2: int|
            0 <= k1 < k2 < steps.len() ==> (#[trigger] steps[k1]).id < (#[trigger] steps[k2]).id,
    ensures
        forall|k1: int, k2: int|
            0 <= k1 < k2 < steps_linked(steps, joins, instruction_id).len() ==> (
            #[trigger] steps_linked(steps, joins, instruction_id)[k1]).id < (
            #[trigger] steps_linked(steps, joins, instruction_id)[k2]).id,
    decreases steps.len(),
{
    if steps.len() > 0 {
        assert forall|k1: int, k2: int|
            0 <= k1 < k2 < steps.drop_last().len() implies (#[trigger] steps.drop_last()[k1]).id < (
        #[trigger] steps.drop_last()[k2]).id by {
            assert(steps.drop_last()[k1] == steps[k1]);
            assert(steps.drop_last()[k2] == steps[k2]);
        }
        lemma_steps_linked_sorted(steps.drop_last(), joins, instruction_id);
        lemma_steps_linked_membership(steps.drop_last(), joins, instruction_id);
        let linked = steps_linked(steps, joins, instruction_id);
        let prefix = steps_linked(steps.drop_last(), joins, instruction_id);
        if has_join(joins, instruction_id, steps.last().id) {
            assert forall|k1: int, k2: int|
                0 <= k1 < k2 < linked.len() implies (#[trigger] linked[k1]).id < (
            #[trigger] linked[k2]).id by {
                if k2 < prefix.len() {
                    assert(linked[k1] == prefix[k1] && linked[k2] == prefix[k2]);
                } else {
                    assert(linked[k2] == steps.last());
                    assert(steps.drop_last().contains(prefix[k1]));
                    let w = choose|w: int|
                        0 <= w < steps.drop_last().len() && steps.drop_last()[w] == prefix[k1];
                    assert(steps[w] == prefix[k1]);
                    assert(steps[w].id < steps[steps.len() - 1].id);
                }
            }
        }
    }
}

/// Copies a step row; the copy equals the original.
fn clone_step(st: &Step) -> (r: Step)
    ensures
        r == *st,
{
    Step {
        id: st.id,
        title: st.title.clone(),
        seconds: st.seconds,
        image_filename: clone_filename(&st.image_filename),
    }
}

/// Copies an optional file name; the copy equals the original.
fn clone_filename(f: &Option<String>) -> (r: Option<String>)
    ensures
        r == *f,
{
    match f {
        Some(s) => Some(s.clone()),
        None => None,
    }
}

} // verus!
