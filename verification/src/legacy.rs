//! Loading macros saved by older versions: flat instruction lists from
//! before strands existed, a `root` strand from before `When Ran` headers,
//! and inline comment instructions from before canvas notes.

use vstd::prelude::*;
use crate::instruction::{Instruction, InstructionKind, Strand};
use crate::macros::{
    lemma_strand_index, spec_starts_with_header, strand_index, BlockDef, Comment, FloatingValue, ListDef, Macro,
};
use crate::state::MacroSettings;
use crate::text::str_eq;
use crate::protocol::strings_view;

verus! {

/// The texts of the inline comment instructions in `body`, in the order the
/// migration collects them: for each instruction, those in its first two
/// bodies, then its own text when it is a comment.
pub open spec fn comment_texts(body: Seq<Instruction>) -> Seq<Seq<char>>
    decreases body, 0int,
{
    if body.len() == 0 {
        Seq::empty()
    } else {
        comment_texts(body.drop_last()) + instruction_comment_texts(body.last())
    }
}

/// The texts one instruction contributes (see [`comment_texts`]).
pub open spec fn instruction_comment_texts(ins: Instruction) -> Seq<Seq<char>>
    decreases ins, 1int,
{
    match ins.kind {
        InstructionKind::Comment(t) => seq![t@],
        InstructionKind::If { body, .. } => comment_texts(body@),
        InstructionKind::IfElse { then_body, else_body, .. } => comment_texts(then_body@) + comment_texts(
            else_body@,
        ),
        InstructionKind::Repeat { body, .. } => comment_texts(body@),
        InstructionKind::Forever { body } => comment_texts(body@),
        InstructionKind::While { body, .. } => comment_texts(body@),
        InstructionKind::CallBlock { branches, .. } => (if branches@.len() > 0 {
            comment_texts(branches@[0]@)
        } else {
            Seq::empty()
        }) + (if branches@.len() > 1 {
            comment_texts(branches@[1]@)
        } else {
            Seq::empty()
        }),
        _ => Seq::empty(),
    }
}

/// `b` is `a` without its comment instructions, those in the first two
/// bodies of each instruction included; everything else, ids too, is kept
/// in order.
pub open spec fn comments_stripped(a: Seq<Instruction>, b: Seq<Instruction>) -> bool
    decreases a, 0int,
{
    if a.len() == 0 {
        b.len() == 0
    } else if a.last().kind is Comment {
        comments_stripped(a.drop_last(), b)
    } else {
        &&& b.len() > 0
        &&& comments_stripped(a.drop_last(), b.drop_last())
        &&& instruction_stripped(a.last(), b.last())
    }
}

/// `y` is the instruction `x` with the comments of its first two bodies
/// removed (see [`comments_stripped`]).
pub open spec fn instruction_stripped(x: Instruction, y: Instruction) -> bool
    decreases x, 1int,
{
    &&& y.id == x.id
    &&& match x.kind {
        InstructionKind::If { condition, body } => y.kind matches InstructionKind::If { condition: c2, body: b2 }
            && c2 == condition && comments_stripped(body@, b2@),
        InstructionKind::IfElse { condition, then_body, else_body } => y.kind matches InstructionKind::IfElse {
            condition: c2,
            then_body: t2,
            else_body: e2,
        } && c2 == condition && comments_stripped(then_body@, t2@) && comments_stripped(else_body@, e2@),
        InstructionKind::Repeat { count, body } => y.kind matches InstructionKind::Repeat { count: c2, body: b2 }
            && c2 == count && comments_stripped(body@, b2@),
        InstructionKind::Forever { body } => y.kind matches InstructionKind::Forever { body: b2 } && comments_stripped(
            body@,
            b2@,
        ),
        InstructionKind::While { condition, body } => y.kind matches InstructionKind::While { condition: c2, body: b2 }
            && c2 == condition && comments_stripped(body@, b2@),
        InstructionKind::CallBlock { block_id, args, branches } => y.kind matches InstructionKind::CallBlock {
            block_id: id2,
            args: args2,
            branches: br2,
        } && id2 == block_id && args2 == args && br2@.len() == branches@.len() && (branches@.len() > 0
            ==> comments_stripped(branches@[0]@, br2@[0]@)) && (branches@.len() > 1 ==> comments_stripped(
            branches@[1]@,
            br2@[1]@,
        )) && (forall|j: int| 2 <= j < branches@.len() ==> #[trigger] br2@[j] == branches@[j]),
        _ => y.kind == x.kind,
    }
}

/// Removes the comment instructions from `body`, those in the first two
/// bodies of each instruction included, appending their texts to `out` in
/// the order of [`comment_texts`].
pub fn extract_comments(body: &mut Vec<Instruction>, out: &mut Vec<String>)
    ensures
        comments_stripped(old(body)@, final(body)@),
        strings_view(final(out)@) == strings_view(old(out)@) + comment_texts(old(body)@),
    decreases old(body)@, 0int,
{
    let ghost a = body@;
    let ghost start = strings_view(out@);
    let n = body.len();
    let mut kept: Vec<Instruction> = Vec::new();
    let mut i: usize = 0;
    assert(a.take(0) =~= Seq::<Instruction>::empty());
    assert(strings_view(out@) =~= start + comment_texts(a.take(0)));
    while i < n
        invariant
            n == a.len(),
            n == body@.len(),
            i <= n,
            a == old(body)@,
            start == strings_view(old(out)@),
            forall|j: int| i <= j < n ==> #[trigger] body@[j] == a[j],
            comments_stripped(a.take(i as int), kept@),
            strings_view(out@) == start + comment_texts(a.take(i as int)),
        decreases n - i,
    {
        let mut item = Instruction { id: String::new(), kind: InstructionKind::WhenRan };
        body.set_and_swap(i, &mut item);
        let ghost before = item;
        assert(before == a[i as int]);
        assert(decreases_to!(old(body)@ => before));
        let ghost out_before = strings_view(out@);
        let ghost kept_before = kept@;
        let is_comment = strip_instruction(&mut item, out);
        let ghost t = a.take(i + 1);
        assert(t.drop_last() =~= a.take(i as int));
        assert(t.last() == before);
        if !is_comment {
            kept.push(item);
            assert(kept@.drop_last() =~= kept_before);
        }
        assert(strings_view(out@) =~= start + comment_texts(t));
        i = i + 1;
    }
    assert(a.take(n as int) =~= a);
    *body = kept;
}

/// Removes the comments from the first two bodies of `ins` (see
/// [`extract_comments`]), appending their texts to `out`, then its own text
/// when it is a comment itself. Returns whether it is one, to be dropped.
fn strip_instruction(ins: &mut Instruction, out: &mut Vec<String>) -> (is_comment: bool)
    ensures
        is_comment == (old(ins).kind is Comment),
        !is_comment ==> instruction_stripped(*old(ins), *final(ins)),
        strings_view(final(out)@) == strings_view(old(out)@) + instruction_comment_texts(*old(ins)),
    decreases *old(ins), 1int,
{
    let ghost start = strings_view(out@);
    match &mut ins.kind {
        InstructionKind::Comment(t) => {
            out.push(t.clone());
            assert(strings_view(out@) =~= start + seq![t@]);
            true
        },
        InstructionKind::If { body, .. } => {
            extract_comments(body, out);
            false
        },
        InstructionKind::IfElse { then_body, else_body, .. } => {
            extract_comments(then_body, out);
            extract_comments(else_body, out);
            assert(strings_view(out@) =~= start + instruction_comment_texts(*old(ins)));
            false
        },
        InstructionKind::Repeat { body, .. } => {
            extract_comments(body, out);
            false
        },
        InstructionKind::Forever { body } => {
            extract_comments(body, out);
            false
        },
        InstructionKind::While { body, .. } => {
            extract_comments(body, out);
            false
        },
        InstructionKind::CallBlock { branches, .. } => {
            let ghost br = branches@;
            if branches.len() > 0 {
                let mut first: Vec<Instruction> = Vec::new();
                branches.set_and_swap(0, &mut first);
                assert(decreases_to!(*old(ins) => br[0]));
                extract_comments(&mut first, out);
                branches.set_and_swap(0, &mut first);
            }
            if branches.len() > 1 {
                let mut second: Vec<Instruction> = Vec::new();
                branches.set_and_swap(1, &mut second);
                assert(decreases_to!(*old(ins) => br[1]));
                extract_comments(&mut second, out);
                branches.set_and_swap(1, &mut second);
            }
            assert(strings_view(out@) =~= start + instruction_comment_texts(*old(ins)));
            false
        },
        _ => {
            assert(strings_view(out@) =~= start + instruction_comment_texts(*old(ins)));
            false
        },
    }
}

/// A prefix of a body has no more comment texts than the whole body.
proof fn lemma_comment_texts_prefix(a: Seq<Instruction>, k: int)
    requires
        0 <= k <= a.len(),
    ensures
        comment_texts(a.take(k)).len() <= comment_texts(a).len(),
    decreases a.len(),
{
    if k < a.len() {
        lemma_comment_texts_prefix(a.drop_last(), k);
        assert(a.drop_last().take(k) =~= a.take(k));
    } else {
        assert(a.take(k) =~= a);
    }
}

/// How many texts [`comment_texts`] finds in `body`; `None` when that many
/// do not fit a `usize`.
pub fn count_comments(body: &Vec<Instruction>) -> (r: Option<usize>)
    ensures
        match r {
            Some(n) => n == comment_texts(body@).len(),
            None => comment_texts(body@).len() > usize::MAX,
        },
    decreases body@, 0int,
{
    let ghost a = body@;
    let n = body.len();
    let mut total: usize = 0;
    let mut i: usize = 0;
    assert(a.take(0) =~= Seq::<Instruction>::empty());
    while i < n
        invariant
            n == a.len(),
            a == body@,
            i <= n,
            total == comment_texts(a.take(i as int)).len(),
        decreases n - i,
    {
        let ghost t = a.take(i + 1);
        assert(t.drop_last() =~= a.take(i as int));
        assert(t.last() == a[i as int]);
        assert(decreases_to!(body@ => a[i as int]));
        match count_instruction(&body[i]) {
            Some(c) => match total.checked_add(c) {
                Some(s) => {
                    total = s;
                },
                None => {
                    proof {
                        lemma_comment_texts_prefix(a, i + 1);
                    }
                    return None;
                },
            },
            None => {
                proof {
                    lemma_comment_texts_prefix(a, i + 1);
                }
                return None;
            },
        }
        i = i + 1;
    }
    assert(a.take(n as int) =~= a);
    Some(total)
}

/// How many texts one instruction contributes (see [`count_comments`]).
fn count_instruction(ins: &Instruction) -> (r: Option<usize>)
    ensures
        match r {
            Some(n) => n == instruction_comment_texts(*ins).len(),
            None => instruction_comment_texts(*ins).len() > usize::MAX,
        },
    decreases *ins, 1int,
{
    match &ins.kind {
        InstructionKind::Comment(_) => Some(1),
        InstructionKind::If { body, .. } => count_comments(body),
        InstructionKind::IfElse { then_body, else_body, .. } => match (count_comments(then_body), count_comments(else_body)) {
            (Some(a), Some(b)) => a.checked_add(b),
            _ => None,
        },
        InstructionKind::Repeat { body, .. } => count_comments(body),
        InstructionKind::Forever { body } => count_comments(body),
        InstructionKind::While { body, .. } => count_comments(body),
        InstructionKind::CallBlock { branches, .. } => {
            let first = if branches.len() > 0 {
                assert(decreases_to!(*ins => branches@[0]));
                count_comments(&branches[0])
            } else {
                Some(0)
            };
            let second = if branches.len() > 1 {
                assert(decreases_to!(*ins => branches@[1]));
                count_comments(&branches[1])
            } else {
                Some(0)
            };
            match (first, second) {
                (Some(a), Some(b)) => a.checked_add(b),
                _ => None,
            }
        },
        _ => Some(0),
    }
}

/// Whether the notes the migration parks next to a strand (see
/// [`strand_notes`]) have positions that fit an `i32`.
pub open spec fn notes_fit(s: Strand) -> bool {
    let n = comment_texts(s.instructions@).len();
    n > 0 ==> s.x + 40 <= i32::MAX && s.y + 40 + 30 * (n - 1) <= i32::MAX
}

/// Whether a strand's migrated notes fit (see [`notes_fit`]).
pub fn strand_notes_fit(s: &Strand) -> (r: bool)
    ensures
        r == notes_fit(*s),
{
    match count_comments(&s.instructions) {
        Some(n) => {
            if n == 0 {
                return true;
            }
            let last_y = s.y as i128 + 40 + 30 * (n as i128 - 1);
            s.x as i128 + 40 <= i32::MAX as i128 && last_y <= i32::MAX as i128
        },
        None => false,
    }
}

/// The notes the migration parks next to a strand, as (x, y, text): one per
/// comment text, 40 pixels right of and below the strand's corner and 30
/// pixels apart.
pub open spec fn strand_notes(s: Strand) -> Seq<(int, int, Seq<char>)> {
    let t = comment_texts(s.instructions@);
    Seq::new(t.len(), |i: int| (s.x + 40, s.y + 40 + 30 * i, t[i]))
}

/// The notes of every strand, strand by strand.
pub open spec fn migrated_notes(strands: Seq<Strand>) -> Seq<(int, int, Seq<char>)>
    decreases strands.len(),
{
    if strands.len() == 0 {
        Seq::empty()
    } else {
        migrated_notes(strands.drop_last()) + strand_notes(strands.last())
    }
}

/// A note as (x, y, text).
pub open spec fn note_view(c: Comment) -> (int, int, Seq<char>) {
    (c.x as int, c.y as int, c.text@)
}

/// Appends a note per text of `texts` at (`x` + 40, `y` + 40 + 30 i) for the
/// i-th text, each new, expanded and free-standing.
fn push_notes(comments: &mut Vec<Comment>, x: i32, y: i32, texts: &Vec<String>)
    requires
        texts@.len() > 0 ==> x + 40 <= i32::MAX && y + 40 + 30 * (texts@.len() - 1) <= i32::MAX,
    ensures
        final(comments)@.len() == old(comments)@.len() + texts@.len(),
        forall|j: int| 0 <= j < old(comments)@.len() ==> #[trigger] final(comments)@[j] == old(comments)@[j],
        forall|j: int| 0 <= j < texts@.len() ==> {
            let c = #[trigger] final(comments)@[old(comments)@.len() + j];
            &&& note_view(c) == (x + 40, y + 40 + 30 * j, texts@[j]@)
            &&& c.attached_to is None
            &&& !c.collapsed
            &&& crate::ids::is_fresh_id(c.id@)
        },
{
    let ghost base = comments@.len();
    let m = texts.len();
    let mut i: usize = 0;
    while i < m
        invariant
            m == texts@.len(),
            i <= m,
            m > 0 ==> x + 40 <= i32::MAX && y + 40 + 30 * (m - 1) <= i32::MAX,
            base == old(comments)@.len(),
            comments@.len() == base + i,
            forall|j: int| 0 <= j < base ==> #[trigger] comments@[j] == old(comments)@[j],
            forall|j: int| 0 <= j < i ==> {
                let c = #[trigger] comments@[base + j];
                &&& note_view(c) == (x + 40, y + 40 + 30 * j, texts@[j]@)
                &&& c.attached_to is None
                &&& !c.collapsed
                &&& crate::ids::is_fresh_id(c.id@)
            },
        decreases m - i,
    {
        let ny = y as i64 + 40 + (i as i64) * 30;
        let c = Comment::new(x + 40, ny as i32, texts[i].clone(), None);
        comments.push(c);
        i = i + 1;
    }
}

impl Macro {
    /// Moves every inline comment instruction out of the strands (see
    /// [`extract_comments`]) into a free-standing note next to its strand
    /// (see [`strand_notes`]), after the notes already there. Running it on
    /// a macro with no inline comments left changes nothing.
    pub fn migrate_legacy_comments(&mut self)
        requires
            forall|k: int| 0 <= k < old(self).strands@.len() ==> notes_fit(#[trigger] old(self).strands@[k]),
        ensures
            final(self).strands@.len() == old(self).strands@.len(),
            forall|k: int| 0 <= k < old(self).strands@.len() ==> {
                let (x, y) = (#[trigger] old(self).strands@[k], final(self).strands@[k]);
                &&& y.id == x.id
                &&& y.x == x.x
                &&& y.y == x.y
                &&& comments_stripped(x.instructions@, y.instructions@)
            },
            final(self).comments@.len() == old(self).comments@.len() + migrated_notes(old(self).strands@).len(),
            forall|j: int| 0 <= j < old(self).comments@.len() ==> #[trigger] final(self).comments@[j]
                == old(self).comments@[j],
            forall|j: int| 0 <= j < migrated_notes(old(self).strands@).len() ==> {
                let c = #[trigger] final(self).comments@[old(self).comments@.len() + j];
                &&& note_view(c) == migrated_notes(old(self).strands@)[j]
                &&& c.attached_to is None
                &&& !c.collapsed
                &&& crate::ids::is_fresh_id(c.id@)
            },
            final(self).id == old(self).id,
            final(self).name == old(self).name,
            final(self).description == old(self).description,
            final(self).floating_values == old(self).floating_values,
            final(self).block_defs == old(self).block_defs,
            final(self).recording_target == old(self).recording_target,
            final(self).settings == old(self).settings,
            final(self).lists == old(self).lists,
    {
        let ghost ss = self.strands@;
        let ghost c0 = self.comments@;
        let n = self.strands.len();
        let mut k: usize = 0;
        assert(ss.take(0) =~= Seq::<Strand>::empty());
        while k < n
            invariant
                n == ss.len(),
                n == self.strands@.len(),
                k <= n,
                ss == old(self).strands@,
                c0 == old(self).comments@,
                forall|j: int| 0 <= j < n ==> notes_fit(#[trigger] ss[j]),
                forall|j: int| k <= j < n ==> #[trigger] self.strands@[j] == ss[j],
                forall|j: int| 0 <= j < k ==> {
                    let (x, y) = (#[trigger] ss[j], self.strands@[j]);
                    &&& y.id == x.id
                    &&& y.x == x.x
                    &&& y.y == x.y
                    &&& comments_stripped(x.instructions@, y.instructions@)
                },
                self.comments@.len() == c0.len() + migrated_notes(ss.take(k as int)).len(),
                forall|j: int| 0 <= j < c0.len() ==> #[trigger] self.comments@[j] == c0[j],
                forall|j: int| 0 <= j < migrated_notes(ss.take(k as int)).len() ==> {
                    let c = #[trigger] self.comments@[c0.len() + j];
                    &&& note_view(c) == migrated_notes(ss.take(k as int))[j]
                    &&& c.attached_to is None
                    &&& !c.collapsed
                    &&& crate::ids::is_fresh_id(c.id@)
                },
                self.id == old(self).id,
                self.name == old(self).name,
                self.description == old(self).description,
                self.floating_values == old(self).floating_values,
                self.block_defs == old(self).block_defs,
                self.recording_target == old(self).recording_target,
                self.settings == old(self).settings,
                self.lists == old(self).lists,
            decreases n - k,
        {
            let mut strand = Strand { id: String::new(), x: 0, y: 0, instructions: Vec::new() };
            self.strands.set_and_swap(k, &mut strand);
            let ghost orig = strand;
            assert(orig == ss[k as int]);
            let mut texts: Vec<String> = Vec::new();
            extract_comments(&mut strand.instructions, &mut texts);
            let ghost t = comment_texts(orig.instructions@);
            assert(strings_view(texts@) =~= t);
            let ghost notes = strand_notes(orig);
            let ghost prev = migrated_notes(ss.take(k as int));
            let ghost before = self.comments@;
            assert(notes_fit(orig));
            push_notes(&mut self.comments, strand.x, strand.y, &texts);
            proof {
                assert forall|j: int| 0 <= j < t.len() implies notes[j] == (
                    strand.x + 40,
                    strand.y + 40 + 30 * j,
                    texts@[j]@,
                ) by {
                    assert(strings_view(texts@)[j] == texts@[j]@);
                }
            }
            self.strands.set_and_swap(k, &mut strand);
            proof {
                let tk = ss.take(k + 1);
                assert(tk.drop_last() =~= ss.take(k as int));
                assert(tk.last() == orig);
                assert(migrated_notes(tk) == prev + notes);
                assert forall|j: int| 0 <= j < migrated_notes(tk).len() implies {
                    let c = #[trigger] self.comments@[c0.len() + j];
                    &&& note_view(c) == migrated_notes(tk)[j]
                    &&& c.attached_to is None
                    &&& !c.collapsed
                    &&& crate::ids::is_fresh_id(c.id@)
                } by {
                    if j < prev.len() {
                        assert(migrated_notes(tk)[j] == prev[j]);
                        assert(self.comments@[c0.len() + j] == before[c0.len() + j]);
                    } else {
                        let i2 = j - prev.len();
                        assert(c0.len() + j == before.len() + i2);
                        assert(migrated_notes(tk)[j] == notes[i2]);
                    }
                }
            }
            k = k + 1;
        }
        assert(ss.take(n as int) =~= ss);
    }
}

/// With no inline comments left, stripping them keeps every instruction,
/// in order and under its id.
pub proof fn lemma_stripping_nothing_keeps_all(a: Seq<Instruction>, b: Seq<Instruction>)
    requires
        comment_texts(a).len() == 0,
        comments_stripped(a, b),
    ensures
        b.len() == a.len(),
        forall|i: int| 0 <= i < a.len() ==> #[trigger] b[i].id == a[i].id,
    decreases a.len(),
{
    if a.len() > 0 {
        assert(comment_texts(a) == comment_texts(a.drop_last()) + instruction_comment_texts(a.last()));
        if let InstructionKind::Comment(t) = a.last().kind {
            assert(instruction_comment_texts(a.last()) == seq![t@]);
        }
        assert(!(a.last().kind is Comment));
        assert(b.len() > 0 && comments_stripped(a.drop_last(), b.drop_last()) && instruction_stripped(
            a.last(),
            b.last(),
        ));
        lemma_stripping_nothing_keeps_all(a.drop_last(), b.drop_last());
        assert forall|i: int| 0 <= i < a.len() implies #[trigger] b[i].id == a[i].id by {
            if i < a.len() - 1 {
                assert(b.drop_last()[i] == b[i]);
                assert(a.drop_last()[i] == a[i]);
            } else {
                assert(b[i] == b.last() && a[i] == a.last());
            }
        }
    }
}

/// With no inline comments left, the migration parks no note.
pub proof fn lemma_nothing_to_migrate(strands: Seq<Strand>)
    requires
        forall|k: int| 0 <= k < strands.len() ==> comment_texts((#[trigger] strands[k]).instructions@).len() == 0,
    ensures
        migrated_notes(strands).len() == 0,
    decreases strands.len(),
{
    if strands.len() > 0 {
        let p = strands.drop_last();
        assert forall|k: int| 0 <= k < p.len() implies comment_texts((#[trigger] p[k]).instructions@).len() == 0 by {
            assert(p[k] == strands[k]);
        }
        lemma_nothing_to_migrate(p);
        assert(comment_texts(strands.last().instructions@).len() == 0);
    }
}

/// The id of the single strand macros had before `When Ran` headers.
pub open spec fn legacy_root_id() -> Seq<char> {
    "root"@
}

/// Gives the first strand with the legacy `root` id a `When Ran` header
/// (with a fresh id) when it does not start with a header yet; everything
/// else is left as it was.
pub fn upgrade_legacy_root(strands: &mut Vec<Strand>)
    ensures
        final(strands)@.len() == old(strands)@.len(),
        match strand_index(old(strands)@, legacy_root_id()) {
            Some(k) => if spec_starts_with_header(old(strands)@[k]) {
                final(strands)@ == old(strands)@
            } else {
                let (x, y) = (old(strands)@[k], final(strands)@[k]);
                &&& y.id == x.id && y.x == x.x && y.y == x.y
                &&& y.instructions@.len() == x.instructions@.len() + 1
                &&& y.instructions@[0].kind == InstructionKind::WhenRan
                &&& crate::ids::is_fresh_id(y.instructions@[0].id@)
                &&& y.instructions@.drop_first() == x.instructions@
                &&& forall|j: int| 0 <= j < old(strands)@.len() && j != k ==> #[trigger] final(strands)@[j]
                    == old(strands)@[j]
            },
            None => final(strands)@ == old(strands)@,
        },
{
    let n = strands.len();
    let mut i: usize = 0;
    while i < n
        invariant
            n == strands@.len(),
            i <= n,
            strands@ == old(strands)@,
            forall|j: int| 0 <= j < i ==> (#[trigger] strands@[j]).id@ != legacy_root_id(),
        decreases n - i,
    {
        if str_eq(strands[i].id.as_str(), "root") {
            proof {
                lemma_strand_index(strands@, legacy_root_id());
                let w = strand_index(strands@, legacy_root_id())->Some_0;
                if w < i {
                    assert(strands@[w].id@ != legacy_root_id());
                } else if w > i {
                    assert(strands@[i as int].id@ != legacy_root_id());
                }
            }
            if !strands[i].starts_with_header() {
                let mut strand = Strand { id: String::new(), x: 0, y: 0, instructions: Vec::new() };
                strands.set_and_swap(i, &mut strand);
                let ghost before = strand.instructions@;
                strand.instructions.insert(0, Instruction { id: crate::ids::new_id(), kind: InstructionKind::WhenRan });
                assert(strand.instructions@.drop_first() =~= before);
                strands.set_and_swap(i, &mut strand);
            }
            return;
        }
        i = i + 1;
    }
    proof {
        lemma_strand_index(strands@, legacy_root_id());
        if let Some(w) = strand_index(strands@, legacy_root_id()) {
            assert(strands@[w].id@ != legacy_root_id());
        }
    }
}

/// An instruction with no comment texts of its own, put in front, adds none.
proof fn lemma_comment_texts_prepend(w: Instruction, s: Seq<Instruction>)
    requires
        instruction_comment_texts(w).len() == 0,
    ensures
        comment_texts(seq![w] + s) == comment_texts(s),
    decreases s.len(),
{
    let t = seq![w] + s;
    if s.len() == 0 {
        assert(t.drop_last() =~= Seq::<Instruction>::empty());
        assert(t.last() == w);
        assert(comment_texts(t) == comment_texts(t.drop_last()) + instruction_comment_texts(t.last()));
        assert(comment_texts(t.drop_last()) =~= Seq::<Seq<char>>::empty());
        assert(comment_texts(t) =~= comment_texts(s));
    } else {
        assert(t.drop_last() =~= seq![w] + s.drop_last());
        assert(t.last() == s.last());
        lemma_comment_texts_prepend(w, s.drop_last());
    }
}

/// Stripping comments from a `When Ran` header followed by `xs` keeps the
/// header in front of what stripping `xs` gives.
proof fn lemma_stripped_prepend(w: Instruction, xs: Seq<Instruction>, ys: Seq<Instruction>)
    requires
        w.kind == InstructionKind::WhenRan,
        comments_stripped(seq![w] + xs, ys),
    ensures
        ys.len() > 0,
        ys[0] == w,
        comments_stripped(xs, ys.drop_first()),
    decreases xs.len(),
{
    let t = seq![w] + xs;
    if xs.len() == 0 {
        assert(t.drop_last() =~= Seq::<Instruction>::empty());
        assert(t.last() == w);
        assert(ys.len() > 0 && comments_stripped(t.drop_last(), ys.drop_last()) && instruction_stripped(w, ys.last()));
        assert(ys.drop_last().len() == 0);
        assert(ys.len() == 1);
        assert(ys[0] == ys.last());
        assert(ys.last().id == w.id && ys.last().kind == w.kind);
        assert(ys.drop_first() =~= Seq::<Instruction>::empty());
    } else {
        assert(t.drop_last() =~= seq![w] + xs.drop_last());
        assert(t.last() == xs.last());
        if xs.last().kind is Comment {
            lemma_stripped_prepend(w, xs.drop_last(), ys);
        } else {
            lemma_stripped_prepend(w, xs.drop_last(), ys.drop_last());
            assert(ys.drop_last()[0] == ys[0]);
            assert(ys.drop_first().drop_last() =~= ys.drop_last().drop_first());
            assert(ys.drop_first().last() == ys.last());
        }
    }
}

/// Strands that park the same notes one by one park the same notes in all.
proof fn lemma_migrated_notes_agree(u: Seq<Strand>, v: Seq<Strand>)
    requires
        u.len() == v.len(),
        forall|k: int| 0 <= k < u.len() ==> strand_notes(#[trigger] u[k]) == strand_notes(v[k]),
    ensures
        migrated_notes(u) == migrated_notes(v),
    decreases u.len(),
{
    if u.len() > 0 {
        let (pu, pv) = (u.drop_last(), v.drop_last());
        assert forall|k: int| 0 <= k < pu.len() implies strand_notes(#[trigger] pu[k]) == strand_notes(pv[k]) by {
            assert(pu[k] == u[k] && pv[k] == v[k]);
        }
        lemma_migrated_notes_agree(pu, pv);
        assert(strand_notes(u.last()) == strand_notes(v.last()));
    }
}

/// A saved macro as read from its file: the current shape, or the older one
/// holding a single flat instruction list.
pub enum MacroFile {
    Current {
        id: String,
        name: String,
        description: String,
        strands: Vec<Strand>,
        recording_target: Option<String>,
        floating_values: Vec<FloatingValue>,
        comments: Vec<Comment>,
        block_defs: Vec<BlockDef>,
        settings: MacroSettings,
        lists: Vec<ListDef>,
    },
    Legacy { id: String, name: String, description: String, code: Vec<Instruction> },
}

/// Whether the notes that loading parks next to the strands have positions
/// that fit an `i32` (see [`notes_fit`]); a legacy file's single strand
/// sits at the origin.
pub open spec fn file_notes_fit(f: MacroFile) -> bool {
    match f {
        MacroFile::Current { strands, .. } => forall|k: int|
            0 <= k < strands@.len() ==> notes_fit(#[trigger] strands@[k]),
        MacroFile::Legacy { code, .. } => {
            let n = comment_texts(code@).len();
            n > 0 ==> 40 + 30 * (n - 1) <= i32::MAX
        },
    }
}

/// Whether every strand's migrated notes fit (see [`notes_fit`]).
fn all_notes_fit(strands: &Vec<Strand>) -> (r: bool)
    ensures
        r == forall|k: int| 0 <= k < strands@.len() ==> notes_fit(#[trigger] strands@[k]),
{
    let n = strands.len();
    let mut k: usize = 0;
    while k < n
        invariant
            n == strands@.len(),
            k <= n,
            forall|j: int| 0 <= j < k ==> notes_fit(#[trigger] strands@[j]),
        decreases n - k,
    {
        if !strand_notes_fit(&strands[k]) {
            assert(!notes_fit(strands@[k as int]));
            return false;
        }
        k = k + 1;
    }
    true
}

/// Whether loading `f` parks its notes within range (see
/// [`file_notes_fit`]).
pub fn notes_fit_in_file(f: &MacroFile) -> (r: bool)
    ensures
        r == file_notes_fit(*f),
{
    match f {
        MacroFile::Current { strands, .. } => all_notes_fit(strands),
        MacroFile::Legacy { code, .. } => match count_comments(code) {
            Some(n) => n == 0 || 40 + 30 * (n as i128 - 1) <= i32::MAX as i128,
            None => false,
        },
    }
}

impl Macro {
    /// The macro a file holds, brought up to date: a legacy flat list
    /// becomes a single strand at the origin under a new `When Ran` header;
    /// a legacy `root` strand gains its header (see
    /// [`upgrade_legacy_root`]); and inline comments become notes (see
    /// [`Macro::migrate_legacy_comments`]). New headers and strands get
    /// fresh ids.
    pub fn from_file(file: MacroFile) -> (m: Macro)
        requires
            file_notes_fit(file),
        ensures
            file matches MacroFile::Current {
                id,
                name,
                description,
                strands,
                recording_target,
                floating_values,
                comments,
                block_defs,
                settings,
                lists,
            } ==> {
                &&& m.id == id && m.name == name && m.description == description
                &&& m.recording_target == recording_target && m.floating_values == floating_values
                &&& m.block_defs == block_defs && m.settings == settings && m.lists == lists
                &&& m.strands@.len() == strands@.len()
                &&& forall|k: int| 0 <= k < strands@.len() ==> {
                    let (x, y) = (#[trigger] strands@[k], m.strands@[k]);
                    &&& y.id == x.id && y.x == x.x && y.y == x.y
                    &&& if strand_index(strands@, legacy_root_id()) == Some(k) && !spec_starts_with_header(x) {
                        &&& y.instructions@.len() > 0
                        &&& y.instructions@[0].kind == InstructionKind::WhenRan
                        &&& crate::ids::is_fresh_id(y.instructions@[0].id@)
                        &&& comments_stripped(seq![y.instructions@[0]] + x.instructions@, y.instructions@)
                    } else {
                        comments_stripped(x.instructions@, y.instructions@)
                    }
                }
                &&& m.comments@.len() == comments@.len() + migrated_notes(strands@).len()
                &&& forall|j: int| 0 <= j < comments@.len() ==> #[trigger] m.comments@[j] == comments@[j]
                &&& forall|j: int| 0 <= j < migrated_notes(strands@).len() ==> {
                    let c = #[trigger] m.comments@[comments@.len() + j];
                    &&& note_view(c) == migrated_notes(strands@)[j]
                    &&& c.attached_to is None && !c.collapsed && crate::ids::is_fresh_id(c.id@)
                }
            },
            file matches MacroFile::Legacy { id, name, description, code } ==> {
                let t = comment_texts(code@);
                &&& m.id == id && m.name == name && m.description == description
                &&& m.recording_target is None && m.floating_values@.len() == 0 && m.block_defs@.len() == 0
                &&& m.settings == MacroSettings::default_spec() && m.lists@.len() == 0
                &&& m.strands@.len() == 1
                &&& m.strands@[0].x == 0 && m.strands@[0].y == 0
                &&& crate::ids::is_fresh_id(m.strands@[0].id@)
                &&& m.strands@[0].instructions@.len() > 0
                &&& m.strands@[0].instructions@[0].kind == InstructionKind::WhenRan
                &&& crate::ids::is_fresh_id(m.strands@[0].instructions@[0].id@)
                &&& comments_stripped(seq![m.strands@[0].instructions@[0]] + code@, m.strands@[0].instructions@)
                &&& m.comments@.len() == t.len()
                &&& forall|j: int| 0 <= j < t.len() ==> {
                    let c = #[trigger] m.comments@[j];
                    &&& note_view(c) == (40int, 40 + 30 * j, t[j])
                    &&& c.attached_to is None && !c.collapsed && crate::ids::is_fresh_id(c.id@)
                }
            },
    {
        let ghost f = file;
        let mut mac = match file {
            MacroFile::Current {
                id,
                name,
                description,
                strands,
                recording_target,
                floating_values,
                comments,
                block_defs,
                settings,
                lists,
            } => {
                let mut strands = strands;
                let ghost before = strands@;
                upgrade_legacy_root(&mut strands);
                proof {
                    assert forall|k: int| 0 <= k < before.len() implies strand_notes(#[trigger] strands@[k])
                        == strand_notes(before[k]) && notes_fit(strands@[k]) by {
                        let (x, y) = (before[k], strands@[k]);
                        if strand_index(before, legacy_root_id()) == Some(k) && !spec_starts_with_header(x) {
                            assert(y.instructions@ =~= seq![y.instructions@[0]] + x.instructions@);
                            lemma_comment_texts_prepend(y.instructions@[0], x.instructions@);
                            assert(strand_notes(y) =~= strand_notes(x));
                        }
                    }
                    lemma_migrated_notes_agree(strands@, before);
                }
                Macro {
                    id,
                    name,
                    description,
                    strands,
                    floating_values,
                    comments,
                    block_defs,
                    recording_target,
                    settings,
                    lists,
                }
            },
            MacroFile::Legacy { id, name, description, code } => {
                let mut code = code;
                let ghost given = code@;
                code.insert(0, Instruction { id: crate::ids::new_id(), kind: InstructionKind::WhenRan });
                proof {
                    assert(code@ =~= seq![code@[0]] + given);
                    lemma_comment_texts_prepend(code@[0], given);
                }
                let mut strands: Vec<Strand> = Vec::new();
                strands.push(Strand { id: crate::ids::new_id(), x: 0, y: 0, instructions: code });
                proof {
                    let s0 = strands@[0];
                    assert(strands@.drop_last() =~= Seq::<Strand>::empty());
                    assert(strands@.last() == s0);
                    assert(migrated_notes(strands@.drop_last()) =~= Seq::<(int, int, Seq<char>)>::empty());
                    assert(migrated_notes(strands@) =~= strand_notes(s0));
                }
                Macro {
                    id,
                    name,
                    description,
                    strands,
                    floating_values: Vec::new(),
                    comments: Vec::new(),
                    block_defs: Vec::new(),
                    recording_target: None,
                    settings: MacroSettings::default(),
                    lists: Vec::new(),
                }
            },
        };
        let ghost pre = mac.strands@;
        mac.migrate_legacy_comments();
        proof {
            assert forall|k: int| 0 <= k < pre.len() && pre[k].instructions@.len() > 0
                && pre[k].instructions@[0].kind == InstructionKind::WhenRan implies {
                let y = #[trigger] mac.strands@[k];
                &&& y.instructions@.len() > 0
                &&& y.instructions@[0] == pre[k].instructions@[0]
            } by {
                let p = pre[k].instructions@;
                assert(p =~= seq![p[0]] + p.drop_first());
                lemma_stripped_prepend(p[0], p.drop_first(), mac.strands@[k].instructions@);
            }
            if let MacroFile::Legacy { code, .. } = f {
                let p = pre[0].instructions@;
                assert(p =~= seq![p[0]] + code@);
                assert(mac.strands@[0].instructions@[0] == p[0]);
                assert(pre.drop_last() =~= Seq::<Strand>::empty());
                assert(migrated_notes(pre.drop_last()) =~= Seq::<(int, int, Seq<char>)>::empty());
                assert(migrated_notes(pre) =~= strand_notes(pre[0]));
                lemma_comment_texts_prepend(p[0], code@);
                let t = comment_texts(code@);
                assert forall|j: int| 0 <= j < t.len() implies {
                    let c = #[trigger] mac.comments@[j];
                    &&& note_view(c) == (40int, 40 + 30 * j, t[j])
                    &&& c.attached_to is None && !c.collapsed && crate::ids::is_fresh_id(c.id@)
                } by {
                    assert(mac.comments@[j] == mac.comments@[0 + j]);
                    assert(migrated_notes(pre)[j] == strand_notes(pre[0])[j]);
                }
            }
            if let MacroFile::Current { strands, .. } = f {
                assert forall|k: int| 0 <= k < strands@.len() implies {
                    let (x, y) = (#[trigger] strands@[k], mac.strands@[k]);
                    &&& y.id == x.id && y.x == x.x && y.y == x.y
                    &&& if strand_index(strands@, legacy_root_id()) == Some(k) && !spec_starts_with_header(x) {
                        &&& y.instructions@.len() > 0
                        &&& y.instructions@[0].kind == InstructionKind::WhenRan
                        &&& crate::ids::is_fresh_id(y.instructions@[0].id@)
                        &&& comments_stripped(seq![y.instructions@[0]] + x.instructions@, y.instructions@)
                    } else {
                        comments_stripped(x.instructions@, y.instructions@)
                    }
                } by {
                    if strand_index(strands@, legacy_root_id()) == Some(k) && !spec_starts_with_header(strands@[k]) {
                        assert(pre[k].instructions@ =~= seq![pre[k].instructions@[0]] + strands@[k].instructions@);
                    } else {
                        assert(pre[k] == strands@[k]);
                    }
                }
            }
        }
        mac
    }
}

} // verus!
