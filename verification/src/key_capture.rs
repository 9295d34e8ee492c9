//! Where a captured keypress goes when it is meant for a block on the
//! canvas: the key block a path points at on one of the macro's strands.

use vstd::prelude::*;
use crate::instruction::{body_replaced, spec_body, InputToken, Instruction, InstructionKind, PathStep, Strand};
use crate::macros::{lemma_strand_index, strand_index, Macro};
use crate::text::str_eq;

verus! {

/// Whether `path` leads from `list` to a key block: each step but the last
/// names an instruction in the current list and one of its bodies to go
/// on in; the last names an instruction that is a key block.
pub open spec fn key_block_at(list: Seq<Instruction>, path: Seq<PathStep>) -> bool
    decreases path.len(),
{
    if path.len() == 0 {
        false
    } else {
        let i = path[0].index as int;
        if i >= list.len() {
            false
        } else if path.len() == 1 {
            list[i].kind matches InstructionKind::Token(InputToken::Key(_, _))
        } else {
            match path[0].slot {
                Some(s) => match spec_body(list[i].kind, s as int) {
                    Some(body) => key_block_at(body@, path.skip(1)),
                    None => false,
                },
                None => false,
            }
        }
    }
}

/// `b` is `a` with the key block `path` leads to (see [`key_block_at`])
/// holding `key`, in the same direction, and nothing else changed.
pub open spec fn key_set_at(a: Seq<Instruction>, b: Seq<Instruction>, path: Seq<PathStep>, key: Seq<char>) -> bool
    decreases path.len(),
{
    path.len() > 0 && {
        let i = path[0].index as int;
        &&& 0 <= i < a.len()
        &&& b.len() == a.len()
        &&& forall|j: int| 0 <= j < a.len() && j != i ==> #[trigger] b[j] == a[j]
        &&& b[i].id == a[i].id
        &&& if path.len() == 1 {
            a[i].kind matches InstructionKind::Token(InputToken::Key(_, d)) && (b[i].kind matches InstructionKind::Token(
                InputToken::Key(k, d2),
            ) && k@ == key && d2 == d)
        } else {
            path[0].slot matches Some(s) && spec_body(a[i].kind, s as int) matches Some(body) && spec_body(
                b[i].kind,
                s as int,
            ) matches Some(nb) && body_replaced(a[i].kind, b[i].kind, s as int, nb) && key_set_at(
                body@,
                nb@,
                path.skip(1),
                key,
            )
        }
    }
}

/// Whether the path from step `k` on leads from `list` to a key block.
fn find_key_block(list: &Vec<Instruction>, path: &[PathStep], k: usize) -> (r: bool)
    requires
        k <= path@.len(),
    ensures
        r == key_block_at(list@, path@.skip(k as int)),
    decreases path@.len() - k,
{
    proof {
        if k < path@.len() {
            assert(path@.skip(k as int)[0] == path@[k as int]);
            assert(path@.skip(k as int).skip(1) =~= path@.skip(k as int + 1));
        }
    }
    if k >= path.len() {
        return false;
    }
    let step = path[k];
    if step.index >= list.len() {
        return false;
    }
    if k + 1 == path.len() {
        return match &list[step.index].kind {
            InstructionKind::Token(InputToken::Key(_, _)) => true,
            _ => false,
        };
    }
    match step.slot {
        Some(s) => match list[step.index].kind.body(s) {
            Some(body) => find_key_block(body, path, k + 1),
            None => false,
        },
        None => false,
    }
}

/// Puts `key` into the key block the path from step `k` on leads to.
fn set_key_in(list: &mut Vec<Instruction>, path: &[PathStep], k: usize, key: String)
    requires
        k <= path@.len(),
        key_block_at(old(list)@, path@.skip(k as int)),
    ensures
        key_set_at(old(list)@, final(list)@, path@.skip(k as int), key@),
    decreases path@.len() - k,
{
    proof {
        assert(path@.skip(k as int)[0] == path@[k as int]);
        assert(path@.skip(k as int).skip(1) =~= path@.skip(k as int + 1));
    }
    let step = path[k];
    let i = step.index;
    if k + 1 == path.len() {
        let item = &mut list[i];
        let _ = item.kind.set_captured_key(key);
        return;
    }
    let s = match step.slot {
        Some(s) => s,
        None => {
            return;
        },
    };
    let item = &mut list[i];
    match item.kind.body_mut(s) {
        Some(body) => set_key_in(body, path, k + 1, key),
        None => {},
    }
}

impl Macro {
    /// Puts a captured key into the key block `path` points at on the
    /// first strand with id `strand_id`. Returns whether there is one
    /// there; when there is not, nothing changes.
    pub fn set_key_at(&mut self, strand_id: &str, path: &[PathStep], key: String) -> (r: bool)
        ensures
            r == (strand_index(old(self).strands@, strand_id@) matches Some(k) && key_block_at(
                old(self).strands@[k].instructions@,
                path@,
            )),
            r ==> {
                let k = strand_index(old(self).strands@, strand_id@)->Some_0;
                &&& final(self).strands@.len() == old(self).strands@.len()
                &&& forall|j: int|
                    0 <= j < old(self).strands@.len() && j != k ==> #[trigger] final(self).strands@[j]
                        == old(self).strands@[j]
                &&& final(self).strands@[k].id == old(self).strands@[k].id
                &&& final(self).strands@[k].x == old(self).strands@[k].x
                &&& final(self).strands@[k].y == old(self).strands@[k].y
                &&& key_set_at(
                    old(self).strands@[k].instructions@,
                    final(self).strands@[k].instructions@,
                    path@,
                    key@,
                )
            },
            !r ==> *final(self) == *old(self),
            final(self).id == old(self).id,
            final(self).name == old(self).name,
            final(self).description == old(self).description,
            final(self).floating_values == old(self).floating_values,
            final(self).comments == old(self).comments,
            final(self).block_defs == old(self).block_defs,
            final(self).recording_target == old(self).recording_target,
            final(self).settings == old(self).settings,
            final(self).lists == old(self).lists,
    {
        proof {
            lemma_strand_index(self.strands@, strand_id@);
            assert(path@.skip(0) =~= path@);
        }
        let n = self.strands.len();
        let mut k: usize = 0;
        while k < n
            invariant
                n == self.strands@.len(),
                k <= n,
                *self == *old(self),
                forall|j: int| 0 <= j < k ==> (#[trigger] self.strands@[j]).id@ != strand_id@,
                path@.skip(0) == path@,
                strand_index(self.strands@, strand_id@) matches Some(m) ==> 0 <= m < self.strands@.len()
                    && self.strands@[m].id@ == strand_id@ && forall|j: int|
                    0 <= j < m ==> (#[trigger] self.strands@[j]).id@ != strand_id@,
                strand_index(self.strands@, strand_id@) is None ==> forall|j: int|
                    0 <= j < self.strands@.len() ==> (#[trigger] self.strands@[j]).id@ != strand_id@,
            decreases n - k,
        {
            if str_eq(self.strands[k].id.as_str(), strand_id) {
                proof {
                    let m = strand_index(self.strands@, strand_id@)->Some_0;
                    if m < k {
                        assert(self.strands@[m].id@ != strand_id@);
                    }
                    if k < m {
                        assert(self.strands@[k as int].id@ != strand_id@);
                    }
                }
                if !find_key_block(&self.strands[k].instructions, path, 0) {
                    return false;
                }
                let strand: &mut Strand = &mut self.strands[k];
                set_key_in(&mut strand.instructions, path, 0, key);
                return true;
            }
            k += 1;
        }
        false
    }
}

} // verus!
