//! The owner's side of a listener: the startup handshake and teardown.
//!
//! The owner holds one retained reference to the worker's event loop and the
//! handle of the worker itself. Each decision returns the steps that the
//! owner performs on the event loop, in order, so that the balance of retain
//! and release can be read off one place.
use vstd::prelude::*;

use crate::Error;

verus! {

/// A step that the owner performs on the worker's event loop.
#[derive(Debug, Clone, Copy, PartialEq, Eq, Structural)]
pub enum LoopStep {
    /// Take a reference on the event loop.
    Retain(usize),
    /// Meet the worker at the rendezvous, letting it drive its loop.
    Rendezvous,
    /// Ask the event loop to stop.
    Stop(usize),
    /// Give back the reference taken on the event loop.
    Release(usize),
    /// Wait until the worker has ended.
    Join,
}

/// The owner's steps after the worker reported its event loop `run_loop`.
pub open spec fn start_steps(run_loop: usize) -> Seq<LoopStep> {
    seq![LoopStep::Retain(run_loop), LoopStep::Rendezvous]
}

/// The owner's steps after the worker reported an error: wait until it has
/// ended.
pub open spec fn failed_start_steps() -> Seq<LoopStep> {
    seq![LoopStep::Join]
}

/// The owner's steps at teardown, where it holds `run_loop` and, if
/// `has_worker`, the worker's handle.
pub open spec fn teardown_steps(run_loop: Option<usize>, has_worker: bool) -> Seq<LoopStep> {
    let stop = match run_loop {
        Some(h) => seq![LoopStep::Stop(h), LoopStep::Release(h)],
        None => seq![],
    };
    if has_worker {
        stop.push(LoopStep::Join)
    } else {
        stop
    }
}

/// The owner's handle on a running listener: the retained event loop and the
/// worker, of handle type `W`.
pub struct Listener<W> {
    run_loop: Option<usize>,
    worker: Option<W>,
}

impl<W> Listener<W> {
    /// The event loop that the owner holds a reference on.
    pub closed spec fn loop_ref(&self) -> Option<usize> {
        self.run_loop
    }

    /// The worker that the owner has yet to join.
    pub closed spec fn worker_handle(&self) -> Option<W> {
        self.worker
    }

    /// The event loop and the worker are held together or not at all.
    pub open spec fn wf(&self) -> bool {
        self.loop_ref().is_some() == self.worker_handle().is_some()
    }

    /// Takes the worker's startup report: its event loop, or the error of its
    /// registration. On a loop the listener is built, holding the loop and
    /// the worker, and the owner's steps are to retain the loop and then meet
    /// the worker. On an error that error is returned, no reference is taken,
    /// and the owner's one step is to join the worker, which is handed back,
    /// so that no worker outlives the failed construction.
    pub fn start(report: Result<usize, Error>, worker: W) -> (r: (
        Result<Listener<W>, Error>,
        Vec<LoopStep>,
        Option<W>,
    ))
        ensures
            match report {
                Ok(h) => r.0 matches Ok(l) && {
                    &&& l.loop_ref() == Some(h)
                    &&& l.worker_handle() == Some(worker)
                    &&& l.wf()
                    &&& r.1@ == start_steps(h)
                    &&& r.2 is None
                },
                Err(e) => r.0 matches Err(e2) && {
                    &&& e2 == e
                    &&& r.1@ == failed_start_steps()
                    &&& r.2 == Some(worker)
                },
            },
    {
        match report {
            Ok(h) => {
                let steps = vec![LoopStep::Retain(h), LoopStep::Rendezvous];
                assert(steps@ =~= start_steps(h));
                (Ok(Listener { run_loop: Some(h), worker: Some(worker) }), steps, None)
            },
            Err(e) => {
                let steps = vec![LoopStep::Join];
                assert(steps@ =~= failed_start_steps());
                (Err(e), steps, Some(worker))
            },
        }
    }

    /// Tears the listener down: returns the steps owed on the event loop (stop
    /// it, then release the reference; then join the worker) and the worker
    /// to join. Both are cleared, so a second teardown owes nothing.
    pub fn teardown(&mut self) -> (r: (Vec<LoopStep>, Option<W>))
        ensures
            r.0@ == teardown_steps(old(self).loop_ref(), old(self).worker_handle().is_some()),
            r.1 == old(self).worker_handle(),
            final(self).loop_ref() is None,
            final(self).worker_handle() is None,
            final(self).wf(),
    {
        let mut steps: Vec<LoopStep> = Vec::new();
        let run_loop = self.run_loop.take();
        match run_loop {
            Some(h) => {
                steps.push(LoopStep::Stop(h));
                steps.push(LoopStep::Release(h));
            },
            None => {},
        }
        let worker = self.worker.take();
        if worker.is_some() {
            steps.push(LoopStep::Join);
        }
        assert(steps@ =~= teardown_steps(run_loop, worker.is_some()));
        (steps, worker)
    }

    /// The event loop that the owner holds a reference on.
    pub fn run_loop(&self) -> (r: Option<usize>)
        ensures
            r == self.loop_ref(),
    {
        self.run_loop
    }

    /// Whether the owner still has a worker to join.
    pub fn has_worker(&self) -> (r: bool)
        ensures
            r == self.worker_handle().is_some(),
    {
        self.worker.is_some()
    }
}

/// Starting on the event loop `run_loop` and tearing down once takes exactly
/// one reference on the loop and gives exactly one back, the release after
/// the retain, and the loop is asked to stop before the reference goes and
/// before the worker is joined.
pub proof fn lemma_retain_release_balanced(run_loop: usize)
    ensures
        ({
            let all = start_steps(run_loop) + teardown_steps(Some(run_loop), true);
            &&& all.len() == 5
            &&& forall|i: int|
                0 <= i < all.len() ==> (#[trigger] all[i] is Retain <==> i == 0)
            &&& forall|i: int| 0 <= i < all.len() ==> (all[i] is Release <==> i == 3)
            &&& forall|i: int| 0 <= i < all.len() ==> (all[i] is Stop <==> i == 2)
            &&& all[0] == LoopStep::Retain(run_loop)
            &&& all[3] == LoopStep::Release(run_loop)
            &&& all[4] == LoopStep::Join
        }),
{
    let all = start_steps(run_loop) + teardown_steps(Some(run_loop), true);
    assert(all =~= seq![
        LoopStep::Retain(run_loop),
        LoopStep::Rendezvous,
        LoopStep::Stop(run_loop),
        LoopStep::Release(run_loop),
        LoopStep::Join,
    ]);
}

/// A failed start takes no reference on the loop and does not meet the
/// worker; its only step waits until the worker has ended.
pub proof fn lemma_failed_start_joins()
    ensures
        failed_start_steps().len() == 1,
        failed_start_steps().last() == LoopStep::Join,
        forall|i: int|
            0 <= i < failed_start_steps().len() ==> !(#[trigger] failed_start_steps()[i] is Retain)
                && !(failed_start_steps()[i] is Rendezvous),
{
}

/// Tearing down twice owes no more than tearing down once: the second
/// teardown finds nothing held, so nothing is released twice and no worker is
/// joined twice.
pub proof fn lemma_teardown_twice(run_loop: Option<usize>, has_worker: bool)
    ensures
        teardown_steps(None, false) == Seq::<LoopStep>::empty(),
        teardown_steps(run_loop, has_worker) + teardown_steps(None, false) == teardown_steps(
            run_loop,
            has_worker,
        ),
{
    assert(teardown_steps(None, false) =~= Seq::<LoopStep>::empty());
    assert(teardown_steps(run_loop, has_worker) + teardown_steps(None, false) =~= teardown_steps(
        run_loop,
        has_worker,
    ));
}

} // verus!
