//! The live status block of a channel: its active Workers and Branches and
//! a bounded history of completed items.

use vstd::prelude::*;
use crate::process::ProcessEvent;
use crate::text::str_eq;

verus! {

/// An active Worker and its current status line.
#[derive(Debug, Clone)]
pub struct WorkerStatus {
    pub id: String,
    pub status: String,
}

/// An active Branch and what it pursues.
#[derive(Debug, Clone)]
pub struct BranchStatus {
    pub id: String,
    pub description: String,
}

/// Which kind of process a completed item was.
#[derive(Debug, Clone, Copy, PartialEq, Eq, Structural)]
pub enum ItemKind {
    Worker,
    Branch,
}

/// A finished process and its result or conclusion.
#[derive(Debug, Clone)]
pub struct CompletedItem {
    pub id: String,
    pub kind: ItemKind,
    pub summary: String,
}

/// Snapshot of one channel's in-flight work.
///
/// Every operation takes the current snapshot and returns the next one; an
/// update or completion of an id that is not active leaves it unchanged.
#[derive(Debug, Clone)]
pub struct StatusBlock {
    workers: Vec<WorkerStatus>,
    branches: Vec<BranchStatus>,
    completed: Vec<CompletedItem>,
    history_limit: usize,
}

/// `s` with `x` appended, and its oldest item dropped if it would then hold
/// more than `limit` items.
pub open spec fn push_bounded<A>(s: Seq<A>, x: A, limit: nat) -> Seq<A> {
    if s.len() + 1 > limit {
        s.push(x).subrange(1, s.len() + 1 as int)
    } else {
        s.push(x)
    }
}

impl StatusBlock {
    pub closed spec fn workers(&self) -> Seq<WorkerStatus> {
        self.workers@
    }

    pub closed spec fn branches(&self) -> Seq<BranchStatus> {
        self.branches@
    }

    pub closed spec fn completed(&self) -> Seq<CompletedItem> {
        self.completed@
    }

    pub closed spec fn history_limit(&self) -> nat {
        self.history_limit as nat
    }

    /// A Worker with this id is active.
    pub open spec fn worker_active(&self, id: Seq<char>) -> bool {
        exists|i: int| 0 <= i < self.workers().len() && #[trigger] self.workers()[i].id@ == id
    }

    /// A Branch with this id is active.
    pub open spec fn branch_active(&self, id: Seq<char>) -> bool {
        exists|i: int| 0 <= i < self.branches().len() && #[trigger] self.branches()[i].id@ == id
    }

    /// The history holds a completed item of this kind and id.
    pub open spec fn in_history(&self, kind: ItemKind, id: Seq<char>) -> bool {
        exists|j: int|
            0 <= j < self.completed().len() && #[trigger] self.completed()[j].id@ == id
                && self.completed()[j].kind == kind
    }

    /// Ids are unique among active Workers and among active Branches, no
    /// active process appears in the history, and the history is bounded.
    pub closed spec fn wf(&self) -> bool {
        &&& self.history_limit > 0
        &&& self.completed@.len() <= self.history_limit
        &&& forall|i: int, j: int|
            0 <= i < j < self.workers@.len() ==> self.workers@[i].id@ != self.workers@[j].id@
        &&& forall|i: int, j: int|
            0 <= i < j < self.branches@.len() ==> self.branches@[i].id@ != self.branches@[j].id@
        &&& forall|i: int, j: int|
            0 <= i < self.workers@.len() && 0 <= j < self.completed@.len()
                && self.completed@[j].kind == ItemKind::Worker ==> self.workers@[i].id@
                != self.completed@[j].id@
        &&& forall|i: int, j: int|
            0 <= i < self.branches@.len() && 0 <= j < self.completed@.len()
                && self.completed@[j].kind == ItemKind::Branch ==> self.branches@[i].id@
                != self.completed@[j].id@
    }

    /// `r` is this block with Worker `id` registered under `status`: added
    /// when it is neither active nor in the history, else nothing changes.
    pub open spec fn worker_registered(self, r: StatusBlock, id: String, status: String) -> bool {
        if !self.worker_active(id@) && !self.in_history(ItemKind::Worker, id@) {
            &&& r.workers() == self.workers().push(WorkerStatus { id, status })
            &&& r.branches() == self.branches()
            &&& r.completed() == self.completed()
            &&& r.history_limit() == self.history_limit()
        } else {
            r == self
        }
    }

    /// `r` is this block with the status line of active Worker `id` replaced;
    /// nothing changes when no such Worker is active.
    pub open spec fn worker_status_updated(self, r: StatusBlock, id: Seq<char>, status: String) -> bool {
        &&& r.history_limit() == self.history_limit()
        &&& r.branches() == self.branches()
        &&& r.completed() == self.completed()
        &&& match self.find_worker_spec(id) {
            Some(i) => r.workers() == self.workers().update(
                i,
                WorkerStatus { id: self.workers()[i].id, status },
            ),
            None => r.workers() == self.workers(),
        }
    }

    /// `r` is this block with active Worker `id` moved to the history with
    /// `result`; nothing changes when no such Worker is active.
    pub open spec fn worker_completed(self, r: StatusBlock, id: Seq<char>, result: String) -> bool {
        match self.find_worker_spec(id) {
            Some(i) => {
                &&& r.workers() == self.workers().remove(i)
                &&& r.branches() == self.branches()
                &&& r.completed() == push_bounded(
                    self.completed(),
                    CompletedItem { id: self.workers()[i].id, kind: ItemKind::Worker, summary: result },
                    self.history_limit(),
                )
                &&& r.history_limit() == self.history_limit()
            },
            None => r == self,
        }
    }

    /// `r` is this block with Branch `id` registered with `description`:
    /// added when it is neither active nor in the history, else nothing
    /// changes.
    pub open spec fn branch_registered(self, r: StatusBlock, id: String, description: String) -> bool {
        if !self.branch_active(id@) && !self.in_history(ItemKind::Branch, id@) {
            &&& r.branches() == self.branches().push(BranchStatus { id, description })
            &&& r.workers() == self.workers()
            &&& r.completed() == self.completed()
            &&& r.history_limit() == self.history_limit()
        } else {
            r == self
        }
    }

    /// `r` is this block with active Branch `id` moved to the history with
    /// `conclusion`; nothing changes when no such Branch is active.
    pub open spec fn branch_completed(self, r: StatusBlock, id: Seq<char>, conclusion: String) -> bool {
        match self.find_branch_spec(id) {
            Some(i) => {
                &&& r.branches() == self.branches().remove(i)
                &&& r.workers() == self.workers()
                &&& r.completed() == push_bounded(
                    self.completed(),
                    CompletedItem {
                        id: self.branches()[i].id,
                        kind: ItemKind::Branch,
                        summary: conclusion,
                    },
                    self.history_limit(),
                )
                &&& r.history_limit() == self.history_limit()
            },
            None => r == self,
        }
    }

    /// An empty block whose history keeps at most `history_limit` items.
    pub fn new(history_limit: usize) -> (r: StatusBlock)
        requires
            history_limit > 0,
        ensures
            r.wf(),
            r.workers() == Seq::<WorkerStatus>::empty(),
            r.branches() == Seq::<BranchStatus>::empty(),
            r.completed() == Seq::<CompletedItem>::empty(),
            r.history_limit() == history_limit,
    {
        StatusBlock { workers: Vec::new(), branches: Vec::new(), completed: Vec::new(), history_limit }
    }

    /// The active Workers, in order of registration.
    pub fn active_workers(&self) -> (r: &Vec<WorkerStatus>)
        ensures
            r@ == self.workers(),
    {
        &self.workers
    }

    /// The active Branches, in order of registration.
    pub fn active_branches(&self) -> (r: &Vec<BranchStatus>)
        ensures
            r@ == self.branches(),
    {
        &self.branches
    }

    /// The completed items, oldest first.
    pub fn history(&self) -> (r: &Vec<CompletedItem>)
        ensures
            r@ == self.completed(),
    {
        &self.completed
    }

    fn find_worker(&self, id: &str) -> (r: Option<usize>)
        ensures
            match r {
                Some(i) => i < self.workers().len() && self.workers()[i as int].id@ == id@,
                None => !self.worker_active(id@),
            },
    {
        let mut i: usize = 0;
        while i < self.workers.len()
            invariant
                i <= self.workers@.len(),
                forall|k: int| 0 <= k < i ==> self.workers@[k].id@ != id@,
            decreases self.workers@.len() - i,
        {
            if str_eq(self.workers[i].id.as_str(), id) {
                return Some(i);
            }
            i = i + 1;
        }
        None
    }

    fn find_branch(&self, id: &str) -> (r: Option<usize>)
        ensures
            match r {
                Some(i) => i < self.branches().len() && self.branches()[i as int].id@ == id@,
                None => !self.branch_active(id@),
            },
    {
        let mut i: usize = 0;
        while i < self.branches.len()
            invariant
                i <= self.branches@.len(),
                forall|k: int| 0 <= k < i ==> self.branches@[k].id@ != id@,
            decreases self.branches@.len() - i,
        {
            if str_eq(self.branches[i].id.as_str(), id) {
                return Some(i);
            }
            i = i + 1;
        }
        None
    }

    fn find_in_history(&self, kind: ItemKind, id: &str) -> (r: bool)
        ensures
            r == self.in_history(kind, id@),
    {
        let mut j: usize = 0;
        while j < self.completed.len()
            invariant
                j <= self.completed@.len(),
                forall|k: int|
                    0 <= k < j ==> !(self.completed@[k].id@ == id@ && self.completed@[k].kind == kind),
            decreases self.completed@.len() - j,
        {
            if self.completed[j].kind == kind && str_eq(self.completed[j].id.as_str(), id) {
                return true;
            }
            j = j + 1;
        }
        false
    }

    fn record_completed(&mut self, item: CompletedItem)
        requires
            old(self).history_limit > 0,
            old(self).completed@.len() <= old(self).history_limit,
        ensures
            final(self).completed@ == push_bounded(
                old(self).completed@,
                item,
                old(self).history_limit as nat,
            ),
            final(self).completed@.len() <= final(self).history_limit,
            final(self).workers == old(self).workers,
            final(self).branches == old(self).branches,
            final(self).history_limit == old(self).history_limit,
    {
        let ghost before = self.completed@;
        self.completed.push(item);
        if self.completed.len() > self.history_limit {
            self.completed.remove(0);
            assert(self.completed@ =~= before.push(item).subrange(1, before.len() + 1 as int));
        }
    }

    /// Registers a Worker with its first status line. An id that is already
    /// active, or already in the history as a Worker, leaves the block
    /// unchanged.
    pub fn register_worker(self, id: String, status: String) -> (r: StatusBlock)
        requires
            self.wf(),
        ensures
            r.wf(),
            self.worker_registered(r, id, status),
    {
        if self.find_worker(id.as_str()).is_some() || self.find_in_history(ItemKind::Worker, id.as_str()) {
            return self;
        }
        let mut next = self;
        let ghost id_view = id@;
        next.workers.push(WorkerStatus { id, status });
        assert forall|i: int, j: int|
            0 <= i < next.workers@.len() && 0 <= j < next.completed@.len()
                && next.completed@[j].kind == ItemKind::Worker implies next.workers@[i].id@
            != next.completed@[j].id@ by {
            if i == next.workers@.len() - 1 {
                assert(self.completed@[j].id@ == next.completed@[j].id@);
            }
        }
        next
    }

    /// Replaces the status line of an active Worker.
    pub fn update_worker_status(self, id: &str, status: String) -> (r: StatusBlock)
        requires
            self.wf(),
        ensures
            r.wf(),
            self.worker_status_updated(r, id@, status),
    {
        match self.find_worker(id) {
            Some(i) => {
                let mut next = self;
                next.workers.set(i, WorkerStatus { id: next.workers[i].id.clone(), status });
                proof {
                    self.lemma_find_worker_spec(id@, i as int);
                }
                next
            },
            None => self,
        }
    }

    /// The position of the active Worker with this id.
    pub open spec fn find_worker_spec(&self, id: Seq<char>) -> Option<int> {
        if self.worker_active(id) {
            Some(choose|i: int| 0 <= i < self.workers().len() && #[trigger] self.workers()[i].id@ == id)
        } else {
            None
        }
    }

    /// The position of the active Branch with this id.
    pub open spec fn find_branch_spec(&self, id: Seq<char>) -> Option<int> {
        if self.branch_active(id) {
            Some(choose|i: int| 0 <= i < self.branches().len() && #[trigger] self.branches()[i].id@ == id)
        } else {
            None
        }
    }

    proof fn lemma_find_worker_spec(&self, id: Seq<char>, i: int)
        requires
            self.wf(),
            0 <= i < self.workers().len(),
            self.workers()[i].id@ == id,
        ensures
            self.find_worker_spec(id) == Some(i),
    {
        let k = choose|k: int| 0 <= k < self.workers().len() && #[trigger] self.workers()[k].id@ == id;
        if k != i {
            if k < i {
                assert(self.workers@[k].id@ != self.workers@[i].id@);
            } else {
                assert(self.workers@[i].id@ != self.workers@[k].id@);
            }
        }
    }

    proof fn lemma_find_branch_spec(&self, id: Seq<char>, i: int)
        requires
            self.wf(),
            0 <= i < self.branches().len(),
            self.branches()[i].id@ == id,
        ensures
            self.find_branch_spec(id) == Some(i),
    {
        let k = choose|k: int| 0 <= k < self.branches().len() && #[trigger] self.branches()[k].id@ == id;
        if k != i {
            if k < i {
                assert(self.branches@[k].id@ != self.branches@[i].id@);
            } else {
                assert(self.branches@[i].id@ != self.branches@[k].id@);
            }
        }
    }

    /// Moves an active Worker to the history with its result; the Worker is
    /// no longer active in the block returned.
    pub fn complete_worker(self, id: &str, result: String) -> (r: StatusBlock)
        requires
            self.wf(),
        ensures
            r.wf(),
            !r.worker_active(id@),
            self.worker_completed(r, id@, result),
    {
        match self.find_worker(id) {
            Some(i) => {
                proof {
                    self.lemma_find_worker_spec(id@, i as int);
                }
                let mut next = self;
                let removed = next.workers.remove(i);
                let item = CompletedItem { id: removed.id, kind: ItemKind::Worker, summary: result };
                next.record_completed(item);
                assert forall|a: int, b: int|
                    0 <= a < b < next.workers@.len() implies next.workers@[a].id@
                    != next.workers@[b].id@ by {
                    let a0 = if a < i { a } else { a + 1 };
                    let b0 = if b < i { b } else { b + 1 };
                    assert(self.workers@[a0].id@ != self.workers@[b0].id@);
                }
                assert forall|a: int, j: int|
                    0 <= a < next.workers@.len() && 0 <= j < next.completed@.len()
                        && next.completed@[j].kind == ItemKind::Worker implies next.workers@[a].id@
                    != next.completed@[j].id@ by {
                    let a0 = if a < i { a } else { a + 1 };
                    let p = self.completed@.push(item);
                    let j0 = if self.completed@.len() + 1 > self.history_limit { j + 1 } else { j };
                    assert(next.completed@[j] == p[j0]);
                    if j0 == self.completed@.len() {
                        if a0 < i {
                            assert(self.workers@[a0].id@ != self.workers@[i as int].id@);
                        } else {
                            assert(self.workers@[i as int].id@ != self.workers@[a0].id@);
                        }
                    } else {
                        assert(self.workers@[a0].id@ != self.completed@[j0].id@);
                    }
                }
                assert forall|a: int, j: int|
                    0 <= a < next.branches@.len() && 0 <= j < next.completed@.len()
                        && next.completed@[j].kind == ItemKind::Branch implies next.branches@[a].id@
                    != next.completed@[j].id@ by {
                    let p = self.completed@.push(item);
                    let j0 = if self.completed@.len() + 1 > self.history_limit { j + 1 } else { j };
                    assert(next.completed@[j] == p[j0]);
                    if j0 < self.completed@.len() {
                        assert(self.branches@[a].id@ != self.completed@[j0].id@);
                    }
                }
                assert forall|a: int| 0 <= a < next.workers@.len() implies next.workers@[a].id@ != id@ by {
                    let a0 = if a < i { a } else { a + 1 };
                    if a0 < i {
                        assert(self.workers@[a0].id@ != self.workers@[i as int].id@);
                    } else {
                        assert(self.workers@[i as int].id@ != self.workers@[a0].id@);
                    }
                }
                next
            },
            None => self,
        }
    }

    /// Registers a Branch with its description. An id that is already
    /// active, or already in the history as a Branch, leaves the block
    /// unchanged.
    pub fn register_branch(self, id: String, description: String) -> (r: StatusBlock)
        requires
            self.wf(),
        ensures
            r.wf(),
            self.branch_registered(r, id, description),
    {
        if self.find_branch(id.as_str()).is_some() || self.find_in_history(ItemKind::Branch, id.as_str()) {
            return self;
        }
        let mut next = self;
        next.branches.push(BranchStatus { id, description });
        assert forall|i: int, j: int|
            0 <= i < next.branches@.len() && 0 <= j < next.completed@.len()
                && next.completed@[j].kind == ItemKind::Branch implies next.branches@[i].id@
            != next.completed@[j].id@ by {
            if i == next.branches@.len() - 1 {
                assert(self.completed@[j].id@ == next.completed@[j].id@);
            }
        }
        next
    }

    /// Moves an active Branch to the history with its conclusion; the Branch
    /// is no longer active in the block returned.
    pub fn complete_branch(self, id: &str, conclusion: String) -> (r: StatusBlock)
        requires
            self.wf(),
        ensures
            r.wf(),
            !r.branch_active(id@),
            self.branch_completed(r, id@, conclusion),
    {
        match self.find_branch(id) {
            Some(i) => {
                proof {
                    self.lemma_find_branch_spec(id@, i as int);
                }
                let mut next = self;
                let removed = next.branches.remove(i);
                let item = CompletedItem { id: removed.id, kind: ItemKind::Branch, summary: conclusion };
                next.record_completed(item);
                assert forall|a: int, b: int|
                    0 <= a < b < next.branches@.len() implies next.branches@[a].id@
                    != next.branches@[b].id@ by {
                    let a0 = if a < i { a } else { a + 1 };
                    let b0 = if b < i { b } else { b + 1 };
                    assert(self.branches@[a0].id@ != self.branches@[b0].id@);
                }
                assert forall|a: int, j: int|
                    0 <= a < next.branches@.len() && 0 <= j < next.completed@.len()
                        && next.completed@[j].kind == ItemKind::Branch implies next.branches@[a].id@
                    != next.completed@[j].id@ by {
                    let a0 = if a < i { a } else { a + 1 };
                    let p = self.completed@.push(item);
                    let j0 = if self.completed@.len() + 1 > self.history_limit { j + 1 } else { j };
                    assert(next.completed@[j] == p[j0]);
                    if j0 == self.completed@.len() {
                        if a0 < i {
                            assert(self.branches@[a0].id@ != self.branches@[i as int].id@);
                        } else {
                            assert(self.branches@[i as int].id@ != self.branches@[a0].id@);
                        }
                    } else {
                        assert(self.branches@[a0].id@ != self.completed@[j0].id@);
                    }
                }
                assert forall|a: int, j: int|
                    0 <= a < next.workers@.len() && 0 <= j < next.completed@.len()
                        && next.completed@[j].kind == ItemKind::Worker implies next.workers@[a].id@
                    != next.completed@[j].id@ by {
                    let p = self.completed@.push(item);
                    let j0 = if self.completed@.len() + 1 > self.history_limit { j + 1 } else { j };
                    assert(next.completed@[j] == p[j0]);
                    if j0 < self.completed@.len() {
                        assert(self.workers@[a].id@ != self.completed@[j0].id@);
                    }
                }
                assert forall|a: int| 0 <= a < next.branches@.len() implies next.branches@[a].id@ != id@ by {
                    let a0 = if a < i { a } else { a + 1 };
                    if a0 < i {
                        assert(self.branches@[a0].id@ != self.branches@[i as int].id@);
                    } else {
                        assert(self.branches@[i as int].id@ != self.branches@[a0].id@);
                    }
                }
                next
            },
            None => self,
        }
    }

    /// Brings the block up to date with one lifecycle event of its channel:
    /// a started Worker is registered with its task as first status line, a
    /// status event replaces that line, a started Branch is registered with
    /// its description, and a terminal event moves the process to the
    /// history. Tool events leave the block as it is.
    pub fn apply_event(self, e: &ProcessEvent) -> (r: StatusBlock)
        requires
            self.wf(),
        ensures
            r.wf(),
            match *e {
                ProcessEvent::WorkerStarted { worker_id, task, .. } => self.worker_registered(
                    r,
                    worker_id,
                    task,
                ),
                ProcessEvent::WorkerStatus { worker_id, status, .. } => self.worker_status_updated(
                    r,
                    worker_id@,
                    status,
                ),
                ProcessEvent::WorkerComplete { worker_id, result, .. } => self.worker_completed(
                    r,
                    worker_id@,
                    result,
                ),
                ProcessEvent::BranchStarted { branch_id, description, .. } => self.branch_registered(
                    r,
                    branch_id,
                    description,
                ),
                ProcessEvent::BranchResult { branch_id, conclusion, .. } => self.branch_completed(
                    r,
                    branch_id@,
                    conclusion,
                ),
                _ => r == self,
            },
    {
        match e {
            ProcessEvent::WorkerStarted { worker_id, task, .. } => self.register_worker(
                worker_id.clone(),
                task.clone(),
            ),
            ProcessEvent::WorkerStatus { worker_id, status, .. } => self.update_worker_status(
                worker_id.as_str(),
                status.clone(),
            ),
            ProcessEvent::WorkerComplete { worker_id, result, .. } => self.complete_worker(
                worker_id.as_str(),
                result.clone(),
            ),
            ProcessEvent::BranchStarted { branch_id, description, .. } => self.register_branch(
                branch_id.clone(),
                description.clone(),
            ),
            ProcessEvent::BranchResult { branch_id, conclusion, .. } => self.complete_branch(
                branch_id.as_str(),
                conclusion.clone(),
            ),
            _ => self,
        }
    }
}

/// Whatever sequence of operations produced a well-formed block, no Worker
/// in it is both active and in the history of completed items.
pub proof fn lemma_worker_never_active_and_completed(b: StatusBlock, id: Seq<char>)
    requires
        b.wf(),
    ensures
        !(b.worker_active(id) && b.in_history(ItemKind::Worker, id)),
{
    if b.worker_active(id) && b.in_history(ItemKind::Worker, id) {
        let i = choose|i: int| 0 <= i < b.workers().len() && #[trigger] b.workers()[i].id@ == id;
        let j = choose|j: int|
            0 <= j < b.completed().len() && #[trigger] b.completed()[j].id@ == id
                && b.completed()[j].kind == ItemKind::Worker;
        assert(b.workers@[i].id@ != b.completed@[j].id@);
    }
}

} // verus!
