use vstd::prelude::*;
use std::collections::VecDeque;

verus! {

/// The batch stack after `t` lines have been taken off the newest end of the
/// buffer: records are consumed from the most recent one towards the oldest,
/// each absorbing as much of `t` as it holds, until `t` is exhausted.
pub open spec fn settle(stack: Seq<usize>, t: nat) -> Seq<usize>
    decreases stack.len(),
{
    if t == 0 || stack.len() == 0 {
        stack
    } else if stack.last() <= t {
        settle(stack.drop_last(), (t - stack.last()) as nat)
    } else {
        stack.drop_last().push((stack.last() - t) as usize)
    }
}

/// The sum of the batch sizes in `stack`.
pub open spec fn batch_total(stack: Seq<usize>) -> nat
    decreases stack.len(),
{
    if stack.len() == 0 {
        0
    } else {
        batch_total(stack.drop_last()) + stack.last() as nat
    }
}

/// `line` without one trailing carriage return.
pub open spec fn strip_cr(line: Seq<char>) -> Seq<char> {
    if line.len() > 0 && line.last() == '\r' {
        line.drop_last()
    } else {
        line
    }
}

/// The lines completed by the newlines of `s`, and the unterminated rest.
pub open spec fn split_newlines(s: Seq<char>) -> (Seq<Seq<char>>, Seq<char>)
    decreases s.len(),
{
    if s.len() == 0 {
        (Seq::empty(), Seq::empty())
    } else {
        let (done, cur) = split_newlines(s.drop_last());
        if s.last() == '\n' {
            (done.push(strip_cr(cur)), Seq::empty())
        } else {
            (done, cur.push(s.last()))
        }
    }
}

/// The lines of `s`: split at "\n" or "\r\n", terminators dropped, and no
/// empty line for a final terminator.
pub open spec fn text_lines(s: Seq<char>) -> Seq<Seq<char>> {
    let (done, cur) = split_newlines(s);
    if cur.len() == 0 {
        done
    } else {
        done.push(cur)
    }
}

/// Relies on `str::lines`, which splits exactly as `text_lines` states.
#[verifier::external_body]
fn lines_of(text: &str) -> (r: Vec<String>)
    ensures
        r@.len() == text_lines(text@).len(),
        forall|i: int| 0 <= i < r@.len() ==> #[trigger] r@[i]@ == text_lines(text@)[i],
{
    text.lines().map(|l| l.to_owned()).collect()
}

/// The batch stack once an open batch of `pending` lines is committed.
pub open spec fn with_open_batch(stack: Seq<usize>, pending: nat) -> Seq<usize> {
    if pending > 0 {
        stack.push(pending as usize)
    } else {
        stack
    }
}

pub open spec fn min_nat(a: nat, b: nat) -> nat {
    if a <= b { a } else { b }
}

/// Lines collected by copy operations, newest at the front and consumed by
/// paste from the back, together with the stack of per-copy line counts that
/// drives undo.
pub struct ClipboardData {
    data: VecDeque<String>,
    copied_lines: Vec<usize>,
    add_line_count: usize,
}

impl ClipboardData {
    /// The buffered lines, newest first; paste takes the last one.
    pub closed spec fn lines(&self) -> Seq<String> {
        self.data@
    }

    /// The committed batch sizes, oldest first; undo looks at the last one.
    pub closed spec fn batches(&self) -> Seq<usize> {
        self.copied_lines@
    }

    /// Lines added since the last commit.
    pub closed spec fn pending(&self) -> nat {
        self.add_line_count as nat
    }

    /// The copy history fits the buffer: every batch record is non-empty
    /// and the records together with the open batch count no more lines
    /// than the buffer holds. Copy, commit, undo and reset keep this; paste
    /// takes lines without touching the records, so it need not hold after
    /// a paste.
    pub open spec fn history_fits(&self) -> bool {
        &&& batch_total(self.batches()) + self.pending() <= self.lines().len()
        &&& forall|i: int| 0 <= i < self.batches().len() ==> #[trigger] self.batches()[i] > 0
    }

    pub fn new() -> (r: Self)
        ensures
            r.lines() == Seq::<String>::empty(),
            r.batches() == Seq::<usize>::empty(),
            r.pending() == 0,
            r.history_fits(),
    {
        ClipboardData { data: VecDeque::new(), copied_lines: Vec::new(), add_line_count: 0 }
    }

    /// Takes the oldest line for pasting. Batch records are left as they are:
    /// they describe copy history, not what paste has consumed.
    pub fn pop_back(&mut self) -> (r: Option<String>)
        ensures
            old(self).lines().len() == 0 ==> r.is_none() && final(self).lines() == old(self).lines(),
            old(self).lines().len() > 0 ==> r == Some(old(self).lines().last())
                && final(self).lines() == old(self).lines().drop_last(),
            final(self).batches() == old(self).batches(),
            final(self).pending() == old(self).pending(),
    {
        self.data.pop_back()
    }

    /// Closes the open batch: a non-empty one is pushed as a new record, an
    /// empty one leaves the stack as it is.
    pub fn commit_copy_lines(&mut self)
        ensures
            old(self).pending() > 0 ==> final(self).batches() == old(self).batches().push(
                old(self).pending() as usize,
            ),
            old(self).pending() == 0 ==> final(self).batches() == old(self).batches(),
            final(self).pending() == 0,
            final(self).lines() == old(self).lines(),
            old(self).history_fits() ==> final(self).history_fits(),
    {
        if self.add_line_count > 0 {
            let ghost before = self.copied_lines@;
            self.copied_lines.push(self.add_line_count);
            assert(self.copied_lines@.drop_last() =~= before);
        }
        self.add_line_count = 0;
    }

    /// Adds one line to the open batch, as the newest line of the buffer.
    pub fn add_clipboard(&mut self, data: String)
        requires
            old(self).pending() < usize::MAX,
        ensures
            final(self).lines() == seq![data].add(old(self).lines()),
            final(self).pending() == old(self).pending() + 1,
            final(self).batches() == old(self).batches(),
            old(self).history_fits() ==> final(self).history_fits(),
    {
        self.data.push_front(data);
        self.add_line_count = self.add_line_count + 1;
    }

    /// Empties the lines, the batch stack and the open batch at once.
    pub fn clipboard_clear(&mut self)
        ensures
            final(self).lines().len() == 0,
            final(self).batches().len() == 0,
            final(self).pending() == 0,
            final(self).history_fits(),
    {
        self.data.clear();
        self.copied_lines.clear();
        self.add_line_count = 0;
    }

    /// Lines added since the last commit.
    pub fn pending_lines(&self) -> (r: usize)
        ensures
            r == self.pending(),
    {
        self.add_line_count
    }

    pub fn get_clipboard_lines(&self) -> (r: usize)
        ensures
            r == self.lines().len(),
    {
        self.data.len()
    }

    /// Undoes the most recent copy: pops its batch record and removes as
    /// many of the newest lines as that copy added (fewer if the buffer holds
    /// fewer). Without a batch nothing changes.
    pub fn undo_data(&mut self) -> (removed: usize)
        ensures
            old(self).batches().len() == 0 ==> removed == 0 && *final(self) == *old(self),
            old(self).batches().len() > 0 ==> {
                &&& removed == min_nat(
                    old(self).batches().last() as nat,
                    old(self).lines().len(),
                )
                &&& final(self).lines() == old(self).lines().subrange(
                    removed as int,
                    old(self).lines().len() as int,
                )
                &&& final(self).batches() == old(self).batches().drop_last()
                &&& final(self).pending() == old(self).pending()
            },
            old(self).history_fits() ==> final(self).history_fits(),
    {
        if self.copied_lines.len() == 0 {
            return 0;
        }
        let n = self.copied_lines.pop().unwrap();
        let removed = self.drop_newest(n);
        proof {
            if old(self).history_fits() {
                let stack = old(self).copied_lines@;
                assert forall|i: int| 0 <= i < self.copied_lines@.len() implies #[trigger] self.copied_lines@[i] > 0 by {
                    assert(self.copied_lines@[i] == stack[i]);
                }
            }
        }
        removed
    }

    /// Removes up to `count` of the newest lines; returns how many it removed.
    fn drop_newest(&mut self, count: usize) -> (removed: usize)
        ensures
            removed == min_nat(count as nat, old(self).lines().len()),
            final(self).lines() == old(self).lines().subrange(
                removed as int,
                old(self).lines().len() as int,
            ),
            final(self).batches() == old(self).batches(),
            final(self).pending() == old(self).pending(),
    {
        let data_total = self.data.len();
        let target: usize = if count < data_total {
            count
        } else {
            data_total
        };
        let mut removed: usize = 0;
        while removed < target
            invariant
                target <= data_total,
                data_total == old(self).lines().len(),
                removed <= target,
                self.lines() == old(self).lines().subrange(removed as int, data_total as int),
                self.copied_lines == old(self).copied_lines,
                self.add_line_count == old(self).add_line_count,
            decreases target - removed,
        {
            self.data.pop_front();
            removed = removed + 1;
        }
        removed
    }

    /// Removes up to `delete_count` of the newest lines and settles the batch
    /// stack by the number actually removed, which is returned.
    pub fn remove_data(&mut self, delete_count: usize) -> (removed: usize)
        ensures
            removed == min_nat(delete_count as nat, old(self).lines().len()),
            final(self).lines() == old(self).lines().subrange(
                removed as int,
                old(self).lines().len() as int,
            ),
            final(self).batches() == settle(old(self).batches(), removed as nat),
            final(self).pending() == old(self).pending(),
    {
        let removed = self.drop_newest(delete_count);
        let ghost data_total = old(self).lines().len();
        let mut rest: usize = removed;
        while rest > 0 && self.copied_lines.len() > 0
            invariant
                settle(self.copied_lines@, rest as nat) == settle(old(self).copied_lines@, removed as nat),
                removed <= data_total,
                data_total == old(self).lines().len(),
                self.lines() == old(self).lines().subrange(removed as int, data_total as int),
                self.add_line_count == old(self).add_line_count,
            ensures
                settle(self.copied_lines@, rest as nat) == settle(old(self).copied_lines@, removed as nat),
                rest == 0 || self.copied_lines@.len() == 0,
                self.lines() == old(self).lines().subrange(removed as int, data_total as int),
                self.add_line_count == old(self).add_line_count,
            decreases self.copied_lines.len(),
        {
            let top = self.copied_lines.pop().unwrap();
            if top <= rest {
                rest = rest - top;
            } else {
                self.copied_lines.push(top - rest);
                rest = 0;
                break;
            }
        }
        assert(settle(self.copied_lines@, rest as nat) == self.copied_lines@);
        removed
    }

    /// Records one copy: `lines` become the newest lines of the buffer (the
    /// first of them pasted first) and, if there are any, one new batch. A
    /// batch still open from single additions is committed first. Returns
    /// how many lines were added.
    pub fn load_copied_lines(&mut self, lines: Vec<String>) -> (added: usize)
        ensures
            added == lines@.len(),
            final(self).lines() == lines@.reverse() + old(self).lines(),
            ({
                let base = with_open_batch(old(self).batches(), old(self).pending());
                &&& lines@.len() > 0 ==> final(self).batches() == base.push(added)
                &&& lines@.len() == 0 ==> final(self).batches() == base
            }),
            final(self).pending() == 0,
            old(self).history_fits() ==> final(self).history_fits(),
    {
        self.commit_copy_lines();
        let ghost start = self.lines();
        assert(start == old(self).lines());
        let mut i: usize = 0;
        while i < lines.len()
            invariant
                i <= lines@.len(),
                self.add_line_count == i,
                self.lines() == lines@.subrange(0, i as int).reverse() + old(self).lines(),
                self.batches() == with_open_batch(old(self).batches(), old(self).pending()),
                old(self).history_fits() ==> self.history_fits(),
            decreases lines@.len() - i,
        {
            self.add_clipboard(lines[i].clone());
            assert(lines@.subrange(0, i + 1).reverse() =~= seq![lines@[i as int]] + lines@.subrange(
                0,
                i as int,
            ).reverse());
            i = i + 1;
        }
        assert(lines@.subrange(0, i as int) =~= lines@);
        self.commit_copy_lines();
        i
    }

    /// Records the copy of `text`, one buffer line per line of text, as
    /// `load_copied_lines` does.
    pub fn load_copied_text(&mut self, text: &str) -> (added: usize)
        ensures
            added == text_lines(text@).len(),
            final(self).lines().len() == added + old(self).lines().len(),
            forall|i: int|
                0 <= i < added ==> #[trigger] final(self).lines()[i]@ == text_lines(text@)[added - 1 - i],
            final(self).lines().subrange(added as int, final(self).lines().len() as int) == old(
                self,
            ).lines(),
            ({
                let base = with_open_batch(old(self).batches(), old(self).pending());
                &&& added > 0 ==> final(self).batches() == base.push(added)
                &&& added == 0 ==> final(self).batches() == base
            }),
            final(self).pending() == 0,
            old(self).history_fits() ==> final(self).history_fits(),
    {
        let lines = lines_of(text);
        let ghost before = self.lines();
        let added = self.load_copied_lines(lines);
        assert(self.lines().subrange(added as int, self.lines().len() as int) =~= before);
        added
    }

    /// The buffered lines, newest first.
    pub fn snapshot(&self) -> (r: Vec<String>)
        ensures
            r@ == self.lines(),
    {
        let mut r: Vec<String> = Vec::new();
        let mut i: usize = 0;
        while i < self.data.len()
            invariant
                i <= self.data@.len(),
                r@ == self.data@.subrange(0, i as int),
            decreases self.data@.len() - i,
        {
            r.push(self.data[i].clone());
            i = i + 1;
        }
        r
    }

    /// The committed batch sizes, oldest first.
    pub fn batch_sizes(&self) -> (r: Vec<usize>)
        ensures
            r@ == self.batches(),
    {
        let mut r: Vec<usize> = Vec::new();
        let mut i: usize = 0;
        while i < self.copied_lines.len()
            invariant
                i <= self.copied_lines@.len(),
                r@ == self.copied_lines@.subrange(0, i as int),
            decreases self.copied_lines@.len() - i,
        {
            r.push(self.copied_lines[i]);
            i = i + 1;
        }
        r
    }
}

} // verus!
