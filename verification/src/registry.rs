//! Runtime model of the registration collection and the backing storage.
//!
//! Declaring a deferred static appends one initializer to a process-wide
//! collection; the entry-point wrapper drains that collection once, in
//! registration order, before the original entry-point body runs. Each
//! initializer evaluates its expression exactly once and writes the result
//! into its cell's backing storage, which is empty until then and write-once
//! thereafter. A handle read assumes the storage is populated; reading
//! before the drain is excluded by precondition, mirroring the design's
//! documented undefined behavior.

use vstd::prelude::*;

verus! {

/// One deferred static: the value its initializer expression evaluates to,
/// how many times that initializer has run, and the backing storage.
pub struct DeferredCell<T> {
    /// The value the initializer expression evaluates to when run.
    pub init: T,
    /// How many times the initializer routine has executed.
    pub evals: u64,
    /// Backing storage: absent until the initializer runs, then holds the
    /// value it produced, write-once.
    pub storage: Option<T>,
}

/// The process-wide registration collection together with every registered
/// cell, over the whole startup lifecycle: cells are declared while the
/// collection is still pending, then the entry point drains it exactly once.
pub struct Registry<T> {
    /// The registered cells, in registration order.
    pub cells: Vec<DeferredCell<T>>,
    /// Whether the entry-point wrapper has already drained the collection.
    pub drained: bool,
    /// The cells whose initializers have been invoked, in invocation order.
    pub run_log: Vec<usize>,
}

/// Lifecycle invariant: before the drain no initializer has run and every
/// storage cell is empty; after it every initializer has run exactly once,
/// in registration order, and every cell holds its initializer's value.
pub open spec fn registry_wf<T>(r: Registry<T>) -> bool {
    &&& forall|i: int|
        0 <= i < r.cells@.len() ==> {
            if r.drained {
                &&& (#[trigger] r.cells@[i]).evals == 1
                &&& r.cells@[i].storage == Some(r.cells@[i].init)
            } else {
                &&& (#[trigger] r.cells@[i]).evals == 0
                &&& r.cells@[i].storage is None
            }
        }
    &&& if r.drained {
        &&& r.run_log@.len() == r.cells@.len()
        &&& forall|k: int| 0 <= k < r.run_log@.len() ==> (#[trigger] r.run_log@[k]) as int == k
    } else {
        r.run_log@.len() == 0
    }
}

/// `post` is `pre` after one drain pass: same cells in the same order, each
/// initializer run once more, each storage cell now holding its
/// initializer's value.
pub open spec fn drained_from<T>(pre: Registry<T>, post: Registry<T>) -> bool {
    &&& post.drained
    &&& post.cells@.len() == pre.cells@.len()
    &&& forall|i: int|
        0 <= i < pre.cells@.len() ==> {
            &&& (#[trigger] post.cells@[i]).init == pre.cells@[i].init
            &&& post.cells@[i].evals == pre.cells@[i].evals + 1
            &&& post.cells@[i].storage == Some(pre.cells@[i].init)
        }
    &&& post.run_log@.len() == pre.run_log@.len() + pre.cells@.len()
    &&& forall|k: int| 0 <= k < pre.run_log@.len() ==> post.run_log@[k] == pre.run_log@[k]
    &&& forall|k: int|
        pre.run_log@.len() <= k < post.run_log@.len() ==> (#[trigger] post.run_log@[k]) as int
            == k - pre.run_log@.len()
}

impl<T: Copy> Registry<T> {
    /// An empty registration collection, not yet drained.
    pub fn new() -> (r: Registry<T>)
        ensures
            registry_wf(r),
            !r.drained,
            r.cells@.len() == 0,
    {
        Registry { cells: Vec::new(), drained: false, run_log: Vec::new() }
    }

    /// Declares one deferred static whose initializer evaluates to `init`,
    /// registering its initializer at the end of the collection. Returns the
    /// handle: the cell's position in registration order. The initializer
    /// does not run now — the storage stays empty and the evaluation count
    /// stays zero until the entry point drains the collection.
    pub fn declare(&mut self, init: T) -> (h: usize)
        requires
            registry_wf(*old(self)),
            !old(self).drained,
            old(self).cells@.len() < usize::MAX,
        ensures
            registry_wf(*final(self)),
            !final(self).drained,
            h == old(self).cells@.len(),
            final(self).cells@.len() == old(self).cells@.len() + 1,
            final(self).cells@[h as int].init == init,
            final(self).cells@[h as int].evals == 0,
            final(self).cells@[h as int].storage is None,
            forall|i: int|
                0 <= i < old(self).cells@.len() ==> final(self).cells@[i] == old(self).cells@[i],
            final(self).run_log == old(self).run_log,
    {
        let h = self.cells.len();
        self.cells.push(DeferredCell { init: init, evals: 0, storage: None });
        h
    }

    /// The entry-point wrapper's drain pass: invokes every registered
    /// initializer, in registration order, exactly once. Afterwards every
    /// backing storage cell holds the value its initializer produced. The
    /// collection is drained only once per process, at the single designated
    /// entry point, so it must not have been drained already.
    pub fn run_entry_point(&mut self)
        requires
            registry_wf(*old(self)),
            !old(self).drained,
        ensures
            registry_wf(*final(self)),
            drained_from(*old(self), *final(self)),
    {
        let n = self.cells.len();
        let mut i: usize = 0;
        while i < n
            invariant
                i <= n,
                n == self.cells@.len(),
                n == old(self).cells@.len(),
                !self.drained,
                registry_wf(*old(self)),
                !old(self).drained,
                forall|j: int|
                    0 <= j < i ==> {
                        &&& (#[trigger] self.cells@[j]).init == old(self).cells@[j].init
                        &&& self.cells@[j].evals == 1
                        &&& self.cells@[j].storage == Some(old(self).cells@[j].init)
                    },
                forall|j: int| i <= j < n ==> self.cells@[j] == old(self).cells@[j],
                self.run_log@.len() == i,
                forall|k: int| 0 <= k < i ==> (#[trigger] self.run_log@[k]) as int == k,
            decreases n - i,
        {
            let init = self.cells[i].init;
            let run = DeferredCell { init: init, evals: 1, storage: Some(init) };
            self.cells.set(i, run);
            self.run_log.push(i);
            i = i + 1;
        }
        self.drained = true;
    }

    /// Reads a handle: dereferences to the backing storage, which must
    /// already be populated. The design guarantees this whenever the entry
    /// point has run first; a read before that is the caller's fault and is
    /// excluded here. Returns the value the initializer produced. The
    /// registry is only borrowed, so repeated reads return the identical
    /// value without running any initializer again.
    pub fn read(&self, h: usize) -> (v: T)
        requires
            registry_wf(*self),
            self.drained,
            h < self.cells@.len(),
        ensures
            v == self.cells@[h as int].init,
    {
        self.cells[h].storage.unwrap()
    }

    /// Whether the backing storage of handle `h` is populated.
    pub fn is_initialized(&self, h: usize) -> (b: bool)
        requires
            h < self.cells@.len(),
        ensures
            b == (self.cells@[h as int].storage is Some),
    {
        self.cells[h].storage.is_some()
    }

    /// How many times the initializer of handle `h` has run.
    pub fn eval_count(&self, h: usize) -> (n: u64)
        requires
            h < self.cells@.len(),
        ensures
            n == self.cells@[h as int].evals,
    {
        self.cells[h].evals
    }

    /// How many deferred statics are registered.
    pub fn len(&self) -> (n: usize)
        ensures
            n == self.cells@.len(),
    {
        self.cells.len()
    }

    /// Whether the entry point has already drained the collection.
    pub fn is_drained(&self) -> (b: bool)
        ensures
            b == self.drained,
    {
        self.drained
    }
}

} // verus!
