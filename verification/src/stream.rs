//! Command streams: ordered, asynchronous queues scoped to a context.
//!
//! Commands on one stream execute strictly in submission order; what a
//! synchronised stream leaves in device memory is the in-order fold of its
//! pending commands, stated by [`Driver::run_cmds`] in every synchronise
//! contract. Cross-stream ordering exists only where an event dependency
//! has been inserted.

use crate::context::CurrentCtx;
use crate::driver::{Cmd, Driver, StreamRec};
use crate::memory::DevMem;
use vstd::prelude::*;

verus! {

/// An ordered command queue attached to a context.
#[derive(Clone, Copy, PartialEq, Eq, Structural, Hash, Debug)]
pub struct Stream {
    /// The raw stream handle.
    pub handle: usize,
    /// Handle of the owning context.
    pub ctx: usize,
}

/// A stream detached from its context for relocation across execution
/// units; reattachment demands the original context as a precondition.
#[derive(Clone, Copy, PartialEq, Eq, Structural, Hash, Debug)]
pub struct StreamSpore {
    /// The raw stream handle.
    pub handle: usize,
    /// Handle of the owning context.
    pub ctx: usize,
}

impl Stream {
    /// The stream is live and belongs to the context it claims.
    pub open spec fn wf(self, rt: Driver) -> bool {
        &&& rt.stream_ok(self.handle as int)
        &&& rt.streams@[self.handle as int].ctx == self.ctx
    }

    /// The raw handle. The caller must not use it past the stream's
    /// destruction.
    pub fn as_raw(&self) -> (r: usize)
        ensures
            r == self.handle,
    {
        self.handle
    }

    /// Detaches the stream from its context so it can relocate across
    /// threads or tasks.
    pub fn sporulate(self) -> (r: StreamSpore)
        ensures
            r == (StreamSpore { handle: self.handle, ctx: self.ctx }),
    {
        StreamSpore { handle: self.handle, ctx: self.ctx }
    }
}

impl StreamSpore {
    /// The raw handle.
    pub fn as_raw(&self) -> (r: usize)
        ensures
            r == self.handle,
    {
        self.handle
    }

    /// Reattaches the stream to a live context. The precondition is the
    /// reattachment contract itself: the context now current is the one
    /// the stream was created under.
    pub fn sprout(self, current: &CurrentCtx) -> (r: Stream)
        requires
            self.ctx == current.0,
        ensures
            r == (Stream { handle: self.handle, ctx: self.ctx }),
    {
        Stream { handle: self.handle, ctx: self.ctx }
    }
}

impl CurrentCtx {
    /// Creates an ordered command queue attached to this context, which
    /// must be active.
    pub fn stream(&self, rt: &mut Driver) -> (s: Stream)
        requires
            old(rt).wf(),
            old(rt).inited,
            old(rt).current == Some(self.0),
        ensures
            final(rt).wf(),
            s.wf(*final(rt)),
            s.ctx == self.0,
            s.handle == old(rt).streams@.len(),
            final(rt).streams@[s.handle as int].cmds@.len() == 0,
            final(rt).streams@ == old(rt).streams@.push(final(rt).streams@[s.handle as int]),
            *final(rt) == (Driver { streams: final(rt).streams, ..*old(rt) }),
    {
        let h = rt.create_stream();
        Stream { handle: h, ctx: self.0 }
    }
}

impl Stream {
    /// Blocks until every command submitted to this stream has executed.
    /// The commands run in submission order: memory afterwards holds the
    /// in-order fold of exactly the commands that were pending.
    pub fn synchronize(&self, rt: &mut Driver)
        requires
            old(rt).wf(),
            self.wf(*old(rt)),
        ensures
            final(rt).wf(),
            self.wf(*final(rt)),
            final(rt).stream_idle(self.handle as int),
            final(rt).streams@ == old(rt).streams@.update(
                self.handle as int,
                (StreamRec {
                    done: old(rt).streams@[self.handle as int].cmds@.len() as usize,
                    ..old(rt).streams@[self.handle as int]
                }),
            ),
            final(rt).mems_view() == Driver::run_cmds(
                old(rt).mems_view(),
                old(rt).pending(self.handle as int),
            ),
            Driver::same_mem_frame(*old(rt), *final(rt)),
            *final(rt) == (Driver {
                streams: final(rt).streams,
                mems: final(rt).mems,
                ..*old(rt)
            }),
    {
        rt.drain(self.handle);
    }

    /// Non-blocking completion poll: whether every submitted command has
    /// executed.
    pub fn is_complete(&self, rt: &Driver) -> (r: bool)
        requires
            rt.wf(),
            self.wf(*rt),
        ensures
            r == rt.stream_idle(self.handle as int),
    {
        rt.query_idle(self.handle)
    }

    /// Destroys the stream. The stream is synchronised first — no handle
    /// is ever destroyed while commands are still outstanding on it.
    pub fn destroy(self, rt: &mut Driver)
        requires
            old(rt).wf(),
            self.wf(*old(rt)),
        ensures
            final(rt).wf(),
            !final(rt).stream_ok(self.handle as int),
            final(rt).streams@ == old(rt).streams@.update(
                self.handle as int,
                (StreamRec {
                    live: false,
                    done: old(rt).streams@[self.handle as int].cmds@.len() as usize,
                    ..old(rt).streams@[self.handle as int]
                }),
            ),
            final(rt).mems_view() == Driver::run_cmds(
                old(rt).mems_view(),
                old(rt).pending(self.handle as int),
            ),
            Driver::same_mem_frame(*old(rt), *final(rt)),
            *final(rt) == (Driver {
                streams: final(rt).streams,
                mems: final(rt).mems,
                ..*old(rt)
            }),
    {
        rt.destroy_stream(self.handle);
    }

    /// Submits an asynchronous host-to-device copy, ordered on this
    /// stream. Lengths must be exactly equal; the host bytes are captured
    /// at submission and land only once the stream reaches the command.
    pub fn memcpy_h2d(&self, rt: &mut Driver, dst: &DevMem, src: &Vec<u8>)
        requires
            old(rt).wf(),
            self.wf(*old(rt)),
            dst.wf(*old(rt)),
            src@.len() == dst.len,
        ensures
            final(rt).wf(),
            self.wf(*final(rt)),
            dst.wf(*final(rt)),
            final(rt).streams@[self.handle as int].cmds@.len() == old(
                rt,
            ).streams@[self.handle as int].cmds@.len() + 1,
            (final(rt).streams@[self.handle as int].cmds@.last() matches Cmd::WriteMem {
                dst: d,
                bytes: b,
            } && d == dst.handle && b@ == src@),
            final(rt).streams@ == old(rt).streams@.update(
                self.handle as int,
                (StreamRec {
                    cmds: final(rt).streams@[self.handle as int].cmds,
                    ..old(rt).streams@[self.handle as int]
                }),
            ),
            final(rt).streams@[self.handle as int].cmds@ == old(
                rt,
            ).streams@[self.handle as int].cmds@.push(
                final(rt).streams@[self.handle as int].cmds@.last(),
            ),
            *final(rt) == (Driver { streams: final(rt).streams, ..*old(rt) }),
    {
        let bytes = src.clone();
        proof {
            assert(bytes@ =~= src@);
        }
        rt.submit(self.handle, Cmd::WriteMem { dst: dst.handle, bytes });
    }

    /// Submits an asynchronous device-to-device copy, ordered on this
    /// stream. Lengths must be exactly equal; the source is read when the
    /// command executes.
    pub fn memcpy_d2d(&self, rt: &mut Driver, dst: &DevMem, src: &DevMem)
        requires
            old(rt).wf(),
            self.wf(*old(rt)),
            dst.wf(*old(rt)),
            src.wf(*old(rt)),
            src.len == dst.len,
        ensures
            final(rt).wf(),
            self.wf(*final(rt)),
            dst.wf(*final(rt)),
            src.wf(*final(rt)),
            final(rt).streams@[self.handle as int].cmds@ == old(
                rt,
            ).streams@[self.handle as int].cmds@.push(
                Cmd::CopyMem { dst: dst.handle, src: src.handle },
            ),
            final(rt).streams@ == old(rt).streams@.update(
                self.handle as int,
                (StreamRec {
                    cmds: final(rt).streams@[self.handle as int].cmds,
                    ..old(rt).streams@[self.handle as int]
                }),
            ),
            *final(rt) == (Driver { streams: final(rt).streams, ..*old(rt) }),
    {
        rt.submit(self.handle, Cmd::CopyMem { dst: dst.handle, src: src.handle });
    }
}

} // verus!
