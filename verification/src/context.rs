//! The context table and the round-robin scheduler. A context is a
//! cooperative task; the table owns every context, the root (index 0) is
//! created first and never reclaimed, and the current index is always a
//! valid entry.
use vstd::prelude::*;

verus! {

/// One cooperative task: its scheduling state. The saved register frame
/// and the private stack live outside this model, owned by the runner.
#[derive(Clone, Copy, PartialEq, Eq, Structural, Debug)]
pub struct Context {
    /// Set when the task was preempted with work left; cleared when it
    /// yields voluntarily with nothing pending. The idle task inspects it.
    pub interrupted: bool,
    /// Whether the scheduler may select this context.
    pub runnable: bool,
}

/// The table of all contexts plus the index of the running one and the
/// master switch that the bring-up sequence flips on at its very end.
pub struct ContextTable {
    pub contexts: Vec<Context>,
    pub current: usize,
    pub enabled: bool,
}

impl ContextTable {
    /// The table invariant: the root is present and the current index is
    /// in bounds.
    pub open spec fn wf(self) -> bool {
        &&& self.contexts@.len() >= 1
        &&& self.current < self.contexts@.len()
    }

    /// The slot `d` steps after `start`, wrapping at the table length.
    pub open spec fn slot_from(self, start: int, d: int) -> int {
        if start + d < self.contexts@.len() {
            start + d
        } else {
            start + d - self.contexts@.len()
        }
    }

    /// A table holding only the root context, scheduling disabled, as the
    /// bring-up sequence first constructs it.
    pub fn root_table() -> (t: ContextTable)
        ensures
            t.wf(),
            t.contexts@ =~= seq![Context { interrupted: false, runnable: true }],
            t.current == 0,
            !t.enabled,
    {
        let mut contexts: Vec<Context> = Vec::new();
        contexts.push(Context { interrupted: false, runnable: true });
        ContextTable { contexts, current: 0, enabled: false }
    }

    /// Append a fresh runnable context and return its index, as `spawn`
    /// does once the runner has built the entry frame and stack.
    pub fn spawn(&mut self) -> (idx: usize)
        requires
            old(self).wf(),
            old(self).contexts@.len() < usize::MAX,
        ensures
            final(self).wf(),
            idx == old(self).contexts@.len(),
            final(self).contexts@ == old(self).contexts@.push(
                Context { interrupted: false, runnable: true },
            ),
            final(self).current == old(self).current,
            final(self).enabled == old(self).enabled,
    {
        let idx = self.contexts.len();
        self.contexts.push(Context { interrupted: false, runnable: true });
        idx
    }

    /// The first runnable slot strictly after the current one, in wrapping
    /// order, not counting the current slot itself.
    pub fn next_runnable_after(&self) -> (r: Option<usize>)
        requires
            self.wf(),
        ensures
            match r {
                Some(j) => exists|d: int|
                    1 <= d < self.contexts@.len() && j == self.slot_from(self.current as int, d)
                        && self.contexts@[j as int].runnable && (forall|d2: int|
                        1 <= d2 < d ==> !self.contexts@[self.slot_from(
                            self.current as int,
                            d2,
                        )].runnable),
                None => forall|d: int|
                    1 <= d < self.contexts@.len() ==> !self.contexts@[self.slot_from(
                        self.current as int,
                        d,
                    )].runnable,
            },
    {
        let len = self.contexts.len();
        let mut d: usize = 1;
        let mut j: usize = if self.current + 1 < len {
            self.current + 1
        } else {
            0
        };
        while d < len
            invariant
                self.wf(),
                1 <= d <= len,
                len == self.contexts@.len(),
                self.current < len,
                d < len ==> j == self.slot_from(self.current as int, d as int),
                forall|d2: int|
                    1 <= d2 < d ==> !self.contexts@[self.slot_from(
                        self.current as int,
                        d2,
                    )].runnable,
            decreases len - d,
        {
            if self.contexts[j].runnable {
                return Some(j);
            }
            d = d + 1;
            j = if j + 1 < len {
                j + 1
            } else {
                0
            };
        }
        None
    }

    /// The first runnable slot at or after `start`, in wrapping order.
    pub fn first_runnable_from(&self, start: usize) -> (r: Option<usize>)
        requires
            self.wf(),
            start < self.contexts@.len(),
        ensures
            match r {
                Some(j) => exists|d: int|
                    0 <= d < self.contexts@.len() && j == self.slot_from(start as int, d)
                        && self.contexts@[j as int].runnable && (forall|d2: int|
                        0 <= d2 < d ==> !self.contexts@[self.slot_from(start as int, d2)].runnable),
                None => forall|d: int|
                    0 <= d < self.contexts@.len() ==> !self.contexts@[self.slot_from(
                        start as int,
                        d,
                    )].runnable,
            },
    {
        let len = self.contexts.len();
        let mut d: usize = 0;
        let mut j: usize = start;
        while d < len
            invariant
                self.wf(),
                0 <= d <= len,
                len == self.contexts@.len(),
                start < len,
                d < len ==> j == self.slot_from(start as int, d as int),
                forall|d2: int|
                    0 <= d2 < d ==> !self.contexts@[self.slot_from(start as int, d2)].runnable,
            decreases len - d,
        {
            if self.contexts[j].runnable {
                return Some(j);
            }
            d = d + 1;
            j = if j + 1 < len {
                j + 1
            } else {
                0
            };
        }
        None
    }

    /// Whether some context other than the current one is runnable.
    pub open spec fn has_other_runnable(self) -> bool {
        exists|d: int|
            1 <= d < self.contexts@.len() && self.contexts@[self.slot_from(
                self.current as int,
                d,
            )].runnable
    }

    /// Whether `j` is the first runnable slot after the current one, in
    /// wrapping round-robin order.
    pub open spec fn is_round_robin_next(self, j: int) -> bool {
        exists|d: int|
            1 <= d < self.contexts@.len() && j == self.slot_from(self.current as int, d)
                && (forall|d2: int|
                1 <= d2 < d ==> !self.contexts@[self.slot_from(self.current as int, d2)].runnable)
    }
}

/// How terminating the running context relates the table before (`pre`)
/// to the table after (`post`). Reclaiming the root halts the kernel and
/// changes nothing; otherwise only the terminated slot disappears — the
/// root and every other context survive untouched — and a runnable
/// survivor (the root as a last resort) becomes current.
pub open spec fn exit_rel(pre: ContextTable, post: ContextTable, halted: bool) -> bool {
    &&& post.wf()
    &&& post.enabled == pre.enabled
    &&& halted == (pre.current == 0)
    &&& (halted ==> post == pre)
    &&& (!halted ==> {
        &&& post.contexts@ == pre.contexts@.remove(pre.current as int)
        &&& post.contexts@[0] == pre.contexts@[0]
        &&& (post.contexts@[post.current as int].runnable || post.current == 0)
    })
}

/// How one `context_switch` call relates the table before (`pre`) to the
/// table after (`post`). With scheduling disabled, or with no other
/// runnable context, nothing changes. Otherwise the first runnable context
/// after the current one becomes current, and the yielding context's
/// `interrupted` flag records `from_interrupt`.
pub open spec fn switch_rel(pre: ContextTable, post: ContextTable, from_interrupt: bool) -> bool {
    &&& post.wf()
    &&& post.enabled == pre.enabled
    &&& post.contexts@.len() == pre.contexts@.len()
    &&& (!pre.enabled ==> post == pre)
    &&& (pre.enabled && !pre.has_other_runnable() ==> post == pre)
    &&& (pre.enabled && pre.has_other_runnable() ==> {
        &&& post.contexts@ == pre.contexts@.update(
            pre.current as int,
            Context {
                interrupted: from_interrupt,
                runnable: pre.contexts@[pre.current as int].runnable,
            },
        )
        &&& post.contexts@[post.current as int].runnable
        &&& post.current != pre.current
        &&& pre.is_round_robin_next(post.current as int)
    })
}

impl ContextTable {

    /// Yield to the next runnable context after the current one, in
    /// round-robin order. When scheduling is disabled, or no other context
    /// is runnable, this returns immediately with nothing changed. On a
    /// switch the yielding context's `interrupted` flag records whether it
    /// was preempted (`from_interrupt`) or yielded voluntarily.
    pub fn context_switch(&mut self, from_interrupt: bool)
        requires
            old(self).wf(),
        ensures
            final(self).wf(),
            switch_rel(*old(self), *final(self), from_interrupt),
    {
        if !self.enabled {
            return ;
        }
        let next = self.next_runnable_after();
        match next {
            Some(j) => {
                let cur = self.current;
                let runnable = self.contexts[cur].runnable;
                self.contexts.set(cur, Context { interrupted: from_interrupt, runnable });
                self.current = j;
            },
            None => {
            },
        }
    }

    /// Terminate the running context, as the exception path does with
    /// status -1. The root context cannot be reclaimed: terminating it
    /// halts the kernel (`halted` is true and nothing changes). Otherwise
    /// the slot is removed, every other context survives with its state
    /// intact, and the first runnable survivor from the vacated position
    /// onward (the root as a last resort) becomes current.
    pub fn exit_current(&mut self) -> (halted: bool)
        requires
            old(self).wf(),
        ensures
            final(self).wf(),
            halted == (old(self).current == 0),
            exit_rel(*old(self), *final(self), halted),
    {
        if self.current == 0 {
            return true;
        }
        let cur = self.current;
        self.contexts.remove(cur);
        proof {
            old(self).contexts@.remove_ensures(cur as int);
        }
        let len = self.contexts.len();
        let start = if cur < len {
            cur
        } else {
            0
        };
        self.current = 0;
        let next = self.first_runnable_from(start);
        match next {
            Some(j) => {
                self.current = j;
            },
            None => {
            },
        }
        false
    }
}

} // verus!
