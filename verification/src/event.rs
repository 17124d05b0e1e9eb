//! Events: recorded markers in a stream's command order, for cross-stream
//! ordering and timing.
//!
//! An event marks the position a stream's queue had when it was recorded;
//! it is complete once the stream has executed up to that position. Device
//! time is modelled by the command count: executing one queued command is
//! one tick, so the span between two marks on one stream is the number of
//! commands submitted between them.

use crate::context::CurrentCtx;
use crate::driver::{Driver, StreamRec};
use crate::stream::Stream;
use vstd::prelude::*;

verus! {

/// A recorded marker: the stream it was recorded on and the position of
/// the stream's tail at recording time. Recorded exactly once, at
/// creation; immutable afterwards.
#[derive(Clone, Copy, PartialEq, Eq, Structural, Hash, Debug)]
pub struct Event {
    /// Handle of the stream the event was recorded on.
    pub stream: usize,
    /// Handle of the owning context.
    pub ctx: usize,
    /// How many commands had been submitted to the stream when the event
    /// was recorded.
    pub idx: usize,
}

/// An event detached from its context for relocation; reattachment
/// demands the original context as a precondition.
#[derive(Clone, Copy, PartialEq, Eq, Structural, Hash, Debug)]
pub struct EventSpore {
    /// Handle of the stream the event was recorded on.
    pub stream: usize,
    /// Handle of the owning context.
    pub ctx: usize,
    /// The recorded position.
    pub idx: usize,
}

/// A span of device time. One executed command is one tick of the model's
/// clock, counted in nanoseconds.
#[derive(Clone, Copy, PartialEq, Eq, Structural, Hash, Debug)]
pub struct TimeSpan {
    /// The span's length in nanoseconds.
    pub nanos: u64,
}

impl TimeSpan {
    /// This span divided evenly into `n` parts.
    pub fn div(self, n: u64) -> (r: TimeSpan)
        requires
            n > 0,
        ensures
            r.nanos == self.nanos / n,
    {
        TimeSpan { nanos: self.nanos / n }
    }
}

impl Event {
    /// The event's stream is live, belongs to the context the event
    /// claims, and the recorded position is within the stream's history.
    pub open spec fn wf(self, rt: Driver) -> bool {
        &&& rt.stream_ok(self.stream as int)
        &&& rt.streams@[self.stream as int].ctx == self.ctx
        &&& self.idx <= rt.streams@[self.stream as int].cmds@.len()
    }

    /// The device has reached the event's recorded position.
    pub open spec fn completed(self, rt: Driver) -> bool {
        rt.streams@[self.stream as int].done >= self.idx
    }

    /// Detaches the event from its context so it can relocate across
    /// threads or tasks.
    pub fn sporulate(self) -> (r: EventSpore)
        ensures
            r == (EventSpore { stream: self.stream, ctx: self.ctx, idx: self.idx }),
    {
        EventSpore { stream: self.stream, ctx: self.ctx, idx: self.idx }
    }

    /// Blocks until the device has reached the event's recorded position,
    /// executing the stream's earlier commands in submission order.
    pub fn synchronize(&self, rt: &mut Driver)
        requires
            old(rt).wf(),
            self.wf(*old(rt)),
        ensures
            final(rt).wf(),
            self.wf(*final(rt)),
            self.completed(*final(rt)),
            final(rt).streams@ == old(rt).streams@.update(
                self.stream as int,
                (StreamRec {
                    done: final(rt).streams@[self.stream as int].done,
                    ..old(rt).streams@[self.stream as int]
                }),
            ),
            final(rt).streams@[self.stream as int].done == if self.idx >= old(rt).streams@[self.stream as int].done {
                self.idx
            } else {
                old(rt).streams@[self.stream as int].done
            },
            final(rt).mems_view() == Driver::run_cmds(
                old(rt).mems_view(),
                old(rt).streams@[self.stream as int].cmds@.subrange(
                    old(rt).streams@[self.stream as int].done as int,
                    final(rt).streams@[self.stream as int].done as int,
                ),
            ),
            Driver::same_mem_frame(*old(rt), *final(rt)),
            *final(rt) == (Driver {
                streams: final(rt).streams,
                mems: final(rt).mems,
                ..*old(rt)
            }),
    {
        rt.drain_until(self.stream, self.idx);
    }

    /// The device-measured span between `start`'s and this event's
    /// recorded positions on their common stream. Both events must have
    /// completed, as the native elapsed-time query demands.
    pub fn elapse_from(&self, start: &Event, rt: &Driver) -> (r: TimeSpan)
        requires
            rt.wf(),
            self.wf(*rt),
            start.wf(*rt),
            start.stream == self.stream,
            start.idx <= self.idx,
            self.completed(*rt),
            start.completed(*rt),
        ensures
            r.nanos == self.idx - start.idx,
    {
        TimeSpan { nanos: (self.idx - start.idx) as u64 }
    }
}

impl EventSpore {
    /// Reattaches the event to a live context. The precondition is the
    /// reattachment contract itself: the context now current is the one
    /// the event was recorded under.
    pub fn sprout(self, current: &CurrentCtx) -> (r: Event)
        requires
            self.ctx == current.0,
        ensures
            r == (Event { stream: self.stream, ctx: self.ctx, idx: self.idx }),
    {
        Event { stream: self.stream, ctx: self.ctx, idx: self.idx }
    }
}

impl Stream {
    /// Records an event at the current tail of this stream's command
    /// order. The event is recorded exactly once, here.
    pub fn record(&self, rt: &Driver) -> (e: Event)
        requires
            rt.wf(),
            self.wf(*rt),
        ensures
            e.stream == self.handle,
            e.ctx == self.ctx,
            e.idx == rt.streams@[self.handle as int].cmds@.len(),
            e.wf(*rt),
    {
        let idx = rt.streams[self.handle].cmds.len();
        Event { stream: self.handle, ctx: self.ctx, idx }
    }

    /// Inserts a dependency: commands submitted to this stream after this
    /// call do not begin until `event`'s recorded position has been
    /// reached on its own stream — cross-stream ordering without a full
    /// device synchronisation. Here the dependency is discharged by
    /// driving the event's stream up to the recorded position before
    /// returning, so everything later on this stream runs after it.
    pub fn wait_for(&self, rt: &mut Driver, event: &Event)
        requires
            old(rt).wf(),
            self.wf(*old(rt)),
            event.wf(*old(rt)),
        ensures
            final(rt).wf(),
            self.wf(*final(rt)),
            event.wf(*final(rt)),
            event.completed(*final(rt)),
            final(rt).streams@ == old(rt).streams@.update(
                event.stream as int,
                (StreamRec {
                    done: final(rt).streams@[event.stream as int].done,
                    ..old(rt).streams@[event.stream as int]
                }),
            ),
            final(rt).streams@[event.stream as int].done == if event.idx >= old(rt).streams@[event.stream as int].done {
                event.idx
            } else {
                old(rt).streams@[event.stream as int].done
            },
            final(rt).mems_view() == Driver::run_cmds(
                old(rt).mems_view(),
                old(rt).streams@[event.stream as int].cmds@.subrange(
                    old(rt).streams@[event.stream as int].done as int,
                    final(rt).streams@[event.stream as int].done as int,
                ),
            ),
            Driver::same_mem_frame(*old(rt), *final(rt)),
            *final(rt) == (Driver {
                streams: final(rt).streams,
                mems: final(rt).mems,
                ..*old(rt)
            }),
    {
        rt.drain_until(event.stream, event.idx);
    }
}

/// What the benchmark hands its workload: a well-formed, initialised
/// session in which the benched stream is live.
pub open spec fn bench_pre(d: Driver, s: Stream) -> bool {
    &&& d.wf()
    &&& d.inited
    &&& s.wf(d)
}

/// What one workload call must preserve so that the benchmark can keep
/// going: the invariant, the session, the benched stream, and the
/// submission history already on it.
pub open spec fn bench_step(s: Stream, pre: Driver, post: Driver) -> bool {
    &&& post.wf()
    &&& post.inited == pre.inited
    &&& s.wf(post)
    &&& post.streams@[s.handle as int].cmds@.len() >= pre.streams@[s.handle as int].cmds@.len()
}

impl Stream {
    /// Measures the average per-iteration device latency of a workload:
    /// runs `f` `warm_up` times untimed to prime the pipeline, records a
    /// start mark, runs `f` `times` more times, records an end mark,
    /// synchronises on the end mark, and reports the span between the
    /// marks divided by `times`.
    ///
    /// The ghost result carries the chain of runtime states around every
    /// workload call: first the `warm_up + 1` states of the warm-up
    /// phase, then the `times + 1` states of the timed phase — `f` runs
    /// exactly `warm_up + times` times, and the reported span is the
    /// number of commands the timed phase submitted, divided by `times`.
    pub fn bench<F: Fn(usize, Stream, Driver) -> Driver>(
        &self,
        rt: Driver,
        f: F,
        times: usize,
        warm_up: usize,
    ) -> (out: (TimeSpan, Driver, Ghost<(Seq<Driver>, Seq<Driver>)>))
        requires
            bench_pre(rt, *self),
            times > 0,
            forall|i: usize, d: Driver| bench_pre(d, *self) ==> #[trigger] f.requires(
                (i, *self, d),
            ),
            forall|i: usize, d: Driver, o: Driver| #[trigger] f.ensures((i, *self, d), o)
                ==> bench_step(*self, d, o),
        ensures
            out.1.wf(),
            out.1.inited == rt.inited,
            self.wf(out.1),
            out.2@.0.len() == warm_up + 1,
            out.2@.1.len() == times + 1,
            out.2@.0[0] == rt,
            out.2@.1[0] == out.2@.0[warm_up as int],
            forall|k: int| 0 <= k < warm_up ==> f.ensures(
                (k as usize, *self, out.2@.0[k]),
                #[trigger] out.2@.0[k + 1],
            ),
            forall|k: int| 0 <= k < times ==> f.ensures(
                (k as usize, *self, out.2@.1[k]),
                #[trigger] out.2@.1[k + 1],
            ),
            out.0.nanos == ((out.2@.1[times as int].streams@[self.handle as int].cmds@.len()
                - out.2@.1[0].streams@[self.handle as int].cmds@.len()) as u64) / (times as u64),
            out.1 == (Driver {
                streams: out.1.streams,
                mems: out.1.mems,
                ..out.2@.1[times as int]
            }),
            out.1.streams@ == out.2@.1[times as int].streams@.update(
                self.handle as int,
                (StreamRec {
                    done: out.2@.1[times as int].streams@[self.handle as int].cmds@.len() as usize,
                    ..out.2@.1[times as int].streams@[self.handle as int]
                }),
            ),
            out.1.mems_view() == Driver::run_cmds(
                out.2@.1[times as int].mems_view(),
                out.2@.1[times as int].pending(self.handle as int),
            ),
    {
        let ghost rt_in = rt;
        let mut d = rt;
        let ghost mut wchain: Seq<Driver> = seq![d];
        let mut i: usize = 0;
        while i < warm_up
            invariant
                i <= warm_up,
                wchain.len() == i + 1,
                wchain[0] == rt_in,
                wchain[i as int] == d,
                bench_pre(d, *self),
                forall|k: int| 0 <= k < i ==> f.ensures(
                    (k as usize, *self, wchain[k]),
                    #[trigger] wchain[k + 1],
                ),
                forall|i2: usize, d2: Driver| bench_pre(d2, *self) ==> #[trigger] f.requires(
                    (i2, *self, d2),
                ),
                forall|i2: usize, d2: Driver, o: Driver| #[trigger] f.ensures((i2, *self, d2), o)
                    ==> bench_step(*self, d2, o),
            decreases warm_up - i,
        {
            let ghost dpre = d;
            d = f(i, *self, d);
            proof {
                assert(f.ensures((i, *self, dpre), d));
                wchain = wchain.push(d);
            }
            i += 1;
        }
        let start = self.record(&d);
        let ghost mut tchain: Seq<Driver> = seq![d];
        let mut j: usize = 0;
        while j < times
            invariant
                j <= times,
                tchain.len() == j + 1,
                tchain[0] == wchain[wchain.len() - 1],
                tchain[j as int] == d,
                bench_pre(d, *self),
                start.stream == self.handle,
                start.ctx == self.ctx,
                start.idx == tchain[0].streams@[self.handle as int].cmds@.len(),
                d.streams@[self.handle as int].cmds@.len()
                    >= tchain[0].streams@[self.handle as int].cmds@.len(),
                forall|k: int| 0 <= k < j ==> f.ensures(
                    (k as usize, *self, tchain[k]),
                    #[trigger] tchain[k + 1],
                ),
                forall|i2: usize, d2: Driver| bench_pre(d2, *self) ==> #[trigger] f.requires(
                    (i2, *self, d2),
                ),
                forall|i2: usize, d2: Driver, o: Driver| #[trigger] f.ensures((i2, *self, d2), o)
                    ==> bench_step(*self, d2, o),
            decreases times - j,
        {
            let ghost dpre = d;
            d = f(j, *self, d);
            proof {
                assert(f.ensures((j, *self, dpre), d));
                tchain = tchain.push(d);
            }
            j += 1;
        }
        let end = self.record(&d);
        proof {
            assert(start.idx == tchain[0].streams@[self.handle as int].cmds@.len());
            assert(end.idx == d.streams@[self.handle as int].cmds@.len());
            assert(d.streams@[self.handle as int].cmds@.len() >= tchain[0].streams@[self.handle
                as int].cmds@.len());
            assert(start.idx <= end.idx);
        }
        let mut d2 = d;
        end.synchronize(&mut d2);
        let span = end.elapse_from(&start, &d2);
        let per_iter = span.div(times as u64);
        (per_iter, d2, Ghost((wchain, tchain)))
    }
}

} // verus!
