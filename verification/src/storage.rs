//! The in-memory content-addressed store: programs keyed by their id,
//! batches keyed by their batch id. Writers take the store exclusively;
//! readers receive copies.

use crate::batch::Batch;
use crate::bend::{BendProgram, BendProgramView};
use crate::error::HVMError;
use vstd::prelude::*;
use vstd::string::*;

verus! {

/// The first program in `s` whose id reads `id`, if any.
pub open spec fn spec_find_program(s: Seq<BendProgram>, id: Seq<char>) -> Option<BendProgramView>
    decreases s.len(),
{
    if s.len() == 0 {
        None
    } else if s[0]@.id == id {
        Some(s[0]@)
    } else {
        spec_find_program(s.drop_first(), id)
    }
}

/// The in-memory store.
pub struct Storage {
    programs: Vec<BendProgram>,
    batches: Vec<Batch>,
}

impl Storage {
    /// The stored programs, in first-stored order.
    pub closed spec fn spec_programs(self) -> Seq<BendProgram> {
        self.programs@
    }

    /// The stored batches, in stored order.
    pub closed spec fn spec_batches(self) -> Seq<Batch> {
        self.batches@
    }

    /// The program stored under `id`, if any.
    pub open spec fn spec_program_at(self, id: Seq<char>) -> Option<BendProgramView> {
        spec_find_program(self.spec_programs(), id)
    }

    /// No two stored programs share an id.
    pub open spec fn wf(self) -> bool {
        forall|i: int, j: int|
            0 <= i < j < self.spec_programs().len()
                ==> self.spec_programs()[i]@.id != self.spec_programs()[j]@.id
    }

    /// An empty store.
    pub fn new() -> (r: Storage)
        ensures
            r.wf(),
            r.spec_programs().len() == 0,
            r.spec_batches().len() == 0,
    {
        Storage { programs: Vec::new(), batches: Vec::new() }
    }

    /// Stores a program under its id: an idempotent overwrite when the id
    /// is already present, an append otherwise. Afterwards exactly the given
    /// program is found under its id and every other id reads as before.
    pub fn store_program(&mut self, program: BendProgram) -> (r: Result<(), HVMError>)
        requires
            old(self).wf(),
        ensures
            final(self).wf(),
            r is Ok,
            final(self).spec_program_at(program@.id) == Some(program@),
            forall|id: Seq<char>| id != program@.id
                ==> final(self).spec_program_at(id) == old(self).spec_program_at(id),
            final(self).spec_batches() == old(self).spec_batches(),
            final(self).spec_programs().len() <= old(self).spec_programs().len() + 1,
    {
        let n = self.programs.len();
        let ghost programs0 = self.programs@;
        let mut i: usize = 0;
        while i < n
            invariant
                i <= n,
                n == self.programs@.len(),
                self.programs@ == programs0,
                programs0 == old(self).spec_programs(),
                self.batches@ == old(self).spec_batches(),
                old(self).wf(),
                forall|k: int| 0 <= k < i ==> self.programs@[k]@.id != program@.id,
            decreases n - i,
        {
            if self.programs[i].id == program.id {
                self.programs.set(i, program);
                proof {
                    assert(self.programs@[i as int]@.id == programs0[i as int]@.id);
                    assert(forall|k: int| 0 <= k < programs0.len() && k != i
                        ==> self.programs@[k] == programs0[k]);
                    lemma_find_program_update(programs0, self.programs@, i as int);
                    assert(forall|k: int| 0 <= k < programs0.len()
                        ==> self.programs@[k]@.id == programs0[k]@.id);
                    assert forall|a: int, b: int| 0 <= a < b < self.programs@.len()
                        implies self.programs@[a]@.id != self.programs@[b]@.id by {
                        assert(programs0[a]@.id != programs0[b]@.id);
                    }
                    assert(self.wf());
                }
                return Ok(());
            }
            i = i + 1;
        }
        self.programs.push(program);
        proof {
            lemma_find_program_append(programs0, program);
            assert(forall|k: int| 0 <= k < programs0.len()
                ==> self.programs@[k] == programs0[k]);
            assert(self.programs@[programs0.len() as int] == program);
            assert forall|a: int, b: int| 0 <= a < b < self.programs@.len()
                implies self.programs@[a]@.id != self.programs@[b]@.id by {
                if b < programs0.len() {
                    assert(programs0[a]@.id != programs0[b]@.id);
                } else {
                    assert(self.programs@[b] == program);
                    assert(programs0[a]@.id != program@.id);
                }
            }
            assert(self.wf());
        }
        Ok(())
    }

    /// Loads a copy of the program stored under `id`, or reports that no
    /// program has that id.
    pub fn load_program(&self, program_id: &str) -> (r: Result<BendProgram, HVMError>)
        requires
            self.wf(),
        ensures
            r matches Ok(p) ==> self.spec_program_at(program_id@) == Some(p@),
            r is Err <==> self.spec_program_at(program_id@) is None,
            r matches Err(e) ==> e matches HVMError::ProgramNotFound(_),
    {
        let want: String = program_id.to_owned();
        let n = self.programs.len();
        let mut i: usize = 0;
        while i < n
            invariant
                i <= n,
                n == self.programs@.len(),
                want@ == program_id@,
                self.wf(),
                forall|k: int| 0 <= k < i ==> self.programs@[k]@.id != program_id@,
            decreases n - i,
        {
            if self.programs[i].id == want {
                let p = self.programs[i].clone();
                proof {
                    lemma_find_program_present(self.programs@, i as int);
                }
                return Ok(p);
            }
            i = i + 1;
        }
        proof {
            lemma_find_program_absent(self.programs@, program_id@);
        }
        Err(HVMError::ProgramNotFound(String::from_str("Program not found")))
    }

    /// Stores a batch, appending it to the batch log. The log stands in for
    /// a map keyed by batch id: the sequencer hands out strictly increasing
    /// ids, so appended entries never collide, and nothing reads the log
    /// back by id.
    pub fn store_batch(&mut self, batch: Batch) -> (r: Result<(), HVMError>)
        requires
            old(self).wf(),
        ensures
            final(self).wf(),
            r is Ok,
            final(self).spec_batches() == old(self).spec_batches().push(batch),
            final(self).spec_programs() == old(self).spec_programs(),
    {
        self.batches.push(batch);
        proof {
            assert(self.programs@ == old(self).programs@);
            assert forall|a: int, b: int| 0 <= a < b < self.programs@.len()
                implies self.programs@[a]@.id != self.programs@[b]@.id by {
                assert(old(self).spec_programs()[a]@.id != old(self).spec_programs()[b]@.id);
            }
            assert(self.wf());
        }
        Ok(())
    }
}

/// If no program before `i` has the id of `s[i]`, the search finds `s[i]`.
proof fn lemma_find_program_present(s: Seq<BendProgram>, i: int)
    requires
        0 <= i < s.len(),
        forall|k: int| 0 <= k < i ==> s[k]@.id != s[i]@.id,
    ensures
        spec_find_program(s, s[i]@.id) == Some(s[i]@),
    decreases i,
{
    if i > 0 {
        assert(s.drop_first()[i - 1] == s[i]);
        assert(forall|k: int| 0 <= k < i - 1 ==> s.drop_first()[k] == s[k + 1]);
        lemma_find_program_present(s.drop_first(), i - 1);
    }
}

/// If no program at all has id `id`, the search comes back empty.
proof fn lemma_find_program_absent(s: Seq<BendProgram>, id: Seq<char>)
    requires
        forall|k: int| 0 <= k < s.len() ==> s[k]@.id != id,
    ensures
        spec_find_program(s, id) is None,
    decreases s.len(),
{
    if s.len() > 0 {
        assert(forall|k: int| 0 <= k < s.len() - 1 ==> s.drop_first()[k] == s[k + 1]);
        lemma_find_program_absent(s.drop_first(), id);
    }
}

/// Overwriting position `i` with a program of the same id changes the
/// search result only for that id.
proof fn lemma_find_program_update(s0: Seq<BendProgram>, s1: Seq<BendProgram>, i: int)
    requires
        0 <= i < s0.len(),
        s1.len() == s0.len(),
        forall|k: int| 0 <= k < s0.len() && k != i ==> s1[k] == s0[k],
        s1[i]@.id == s0[i]@.id,
        forall|k: int| 0 <= k < i ==> s0[k]@.id != s0[i]@.id,
    ensures
        spec_find_program(s1, s1[i]@.id) == Some(s1[i]@),
        forall|id: Seq<char>| id != s1[i]@.id
            ==> spec_find_program(s1, id) == spec_find_program(s0, id),
    decreases s0.len(),
{
    assert(forall|k: int| 0 <= k < i ==> s1[k]@.id != s1[i]@.id);
    lemma_find_program_present(s1, i);
    assert forall|id: Seq<char>| id != s1[i]@.id
        implies spec_find_program(s1, id) == spec_find_program(s0, id) by {
        lemma_find_program_agrees(s0, s1, i, id);
    }
}

/// Point-wise agreement of the search off the overwritten id.
proof fn lemma_find_program_agrees(s0: Seq<BendProgram>, s1: Seq<BendProgram>, i: int, id: Seq<char>)
    requires
        0 <= i < s0.len(),
        s1.len() == s0.len(),
        forall|k: int| 0 <= k < s0.len() && k != i ==> s1[k] == s0[k],
        s1[i]@.id == s0[i]@.id,
        id != s1[i]@.id,
    ensures
        spec_find_program(s1, id) == spec_find_program(s0, id),
    decreases s0.len(),
{
    if s0.len() > 0 {
        if i == 0 {
            assert(s0.drop_first() =~= s1.drop_first());
        } else {
            assert(s0.drop_first()[i - 1] == s0[i]);
            assert(forall|k: int| 0 <= k < s0.len() - 1 && k != i - 1
                ==> s1.drop_first()[k] == s0.drop_first()[k]);
            lemma_find_program_agrees(s0.drop_first(), s1.drop_first(), i - 1, id);
        }
    }
}

/// Appending a program with a fresh id adds exactly that entry to the
/// search.
proof fn lemma_find_program_append(s: Seq<BendProgram>, p: BendProgram)
    requires
        forall|k: int| 0 <= k < s.len() ==> s[k]@.id != p@.id,
    ensures
        spec_find_program(s.push(p), p@.id) == Some(p@),
        forall|id: Seq<char>| id != p@.id
            ==> spec_find_program(s.push(p), id) == spec_find_program(s, id),
    decreases s.len(),
{
    assert(s.push(p)[s.len() as int] == p);
    assert(forall|k: int| 0 <= k < s.len() ==> s.push(p)[k] == s[k]);
    lemma_find_program_present(s.push(p), s.len() as int);
    assert forall|id: Seq<char>| id != p@.id
        implies spec_find_program(s.push(p), id) == spec_find_program(s, id) by {
        lemma_find_program_append_off(s, p, id);
    }
}

/// Point-wise agreement of the search off the appended id.
proof fn lemma_find_program_append_off(s: Seq<BendProgram>, p: BendProgram, id: Seq<char>)
    requires
        id != p@.id,
    ensures
        spec_find_program(s.push(p), id) == spec_find_program(s, id),
    decreases s.len(),
{
    if s.len() == 0 {
        assert(s.push(p)[0] == p);
        assert(s.push(p).drop_first() =~= Seq::<BendProgram>::empty());
        assert(spec_find_program(Seq::<BendProgram>::empty(), id) is None);
        assert(spec_find_program(s, id) is None);
    } else {
        assert(s.push(p)[0] == s[0]);
        assert(s.push(p).drop_first() =~= s.drop_first().push(p));
        lemma_find_program_append_off(s.drop_first(), p, id);
    }
}

} // verus!
