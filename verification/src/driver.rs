//! Explicit model of the native runtime's observable state.
//!
//! The native control layer is a set of calls that mutate hidden global
//! state: which context is current, which contexts, streams and memory
//! buffers are live, and what the device memory holds. Instead of reading
//! that state implicitly, every operation of this crate takes a [`Driver`]
//! value: the current-context registry and the resource tables made
//! explicit, so that contracts can speak about them. A thin adapter at the
//! process boundary is expected to reconcile this value with the native
//! layer's own notion of "current".

use vstd::prelude::*;

verus! {

/// Static capabilities of one physical accelerator device.
pub struct DevProps {
    /// Number of AI cores.
    pub ai_core: usize,
    /// Number of vector cores.
    pub vector_core: usize,
    /// Size of the level-2 cache in bytes.
    pub l2_cache: usize,
    /// The device's SoC name.
    pub soc_name: String,
}

/// One command queued on a stream. Commands become visible to the device in
/// submission order; completion is observable only through synchronisation.
pub enum Cmd {
    /// Asynchronous host-to-device copy. The host bytes are captured at
    /// submission time.
    WriteMem { dst: usize, bytes: Vec<u8> },
    /// Asynchronous device-to-device copy; the source buffer is read when
    /// the command executes.
    CopyMem { dst: usize, src: usize },
}

/// A context known to the runtime. Destroyed contexts keep their slot so
/// that handles stay stable; `live` marks whether the handle is still valid.
pub struct CtxRec {
    /// Index of the device the context belongs to.
    pub dev: usize,
    /// Whether the context has not been destroyed.
    pub live: bool,
}

/// A stream known to the runtime: an ordered command queue scoped to a
/// context. `cmds[..done]` have executed; `cmds[done..]` are pending.
pub struct StreamRec {
    /// Handle of the owning context.
    pub ctx: usize,
    /// Whether the stream has not been destroyed.
    pub live: bool,
    /// Every command ever submitted, in submission order.
    pub cmds: Vec<Cmd>,
    /// How many of `cmds` the device has executed.
    pub done: usize,
}

/// A device memory buffer known to the runtime.
pub struct MemRec {
    /// Handle of the owning context.
    pub ctx: usize,
    /// Whether the buffer has not been freed.
    pub live: bool,
    /// The bytes the buffer holds.
    pub data: Vec<u8>,
}

/// The native runtime's observable state. Handles are indices into the
/// tables; a freed entry keeps its slot and is marked dead, so handles are
/// never reused.
pub struct Driver {
    /// Whether the session has been initialised and not yet finalised.
    pub inited: bool,
    /// The native library's version triple.
    pub lib_version: (i32, i32, i32),
    /// The devices visible to the process. May be empty: no accelerator
    /// present is a valid configuration, not an error.
    pub devs: Vec<DevProps>,
    /// Per device, the handle of its built-in default context, once it has
    /// been constructed.
    pub primary: Vec<Option<usize>>,
    /// The current-context registry: the single slot saying which context
    /// is active, if any.
    pub current: Option<usize>,
    /// All contexts ever created.
    pub ctxs: Vec<CtxRec>,
    /// All streams ever created.
    pub streams: Vec<StreamRec>,
    /// All device memory buffers ever allocated.
    pub mems: Vec<MemRec>,
}

impl Driver {
    /// Context handle `h` is valid and not destroyed.
    pub open spec fn ctx_ok(self, h: int) -> bool {
        0 <= h < self.ctxs@.len() && self.ctxs@[h].live
    }

    /// Stream handle `s` is valid and not destroyed.
    pub open spec fn stream_ok(self, s: int) -> bool {
        0 <= s < self.streams@.len() && self.streams@[s].live
    }

    /// Memory handle `m` is valid and not freed.
    pub open spec fn mem_ok(self, m: int) -> bool {
        0 <= m < self.mems@.len() && self.mems@[m].live
    }

    /// Byte length of buffer `m`.
    pub open spec fn mem_len(self, m: int) -> nat {
        self.mems@[m].data@.len()
    }

    /// Contents of buffer `m`.
    pub open spec fn mem_bytes(self, m: int) -> Seq<u8> {
        self.mems@[m].data@
    }

    /// A queued command is well formed: its buffers are live and the source
    /// length equals the destination length exactly.
    pub open spec fn cmd_ok(self, c: Cmd) -> bool {
        match c {
            Cmd::WriteMem { dst, bytes } => self.mem_ok(dst as int) && bytes@.len()
                == self.mem_len(dst as int),
            Cmd::CopyMem { dst, src } => self.mem_ok(dst as int) && self.mem_ok(src as int)
                && self.mem_len(src as int) == self.mem_len(dst as int),
        }
    }

    /// The commands of stream `s` the device has not yet executed.
    pub open spec fn pending(self, s: int) -> Seq<Cmd> {
        self.streams@[s].cmds@.subrange(
            self.streams@[s].done as int,
            self.streams@[s].cmds@.len() as int,
        )
    }

    /// Stream `s` has no pending work.
    pub open spec fn stream_idle(self, s: int) -> bool {
        self.streams@[s].done == self.streams@[s].cmds@.len()
    }

    /// The capability numbers of every device fit the native query's signed
    /// 64-bit result.
    pub open spec fn props_ok(self) -> bool {
        forall|d: int| 0 <= d < self.devs@.len() ==> {
            let p = #[trigger] self.devs@[d];
            p.ai_core <= i64::MAX && p.vector_core <= i64::MAX && p.l2_cache <= i64::MAX
        }
    }

    /// The runtime invariant: the current slot and the primary-context
    /// table point at live contexts, every live resource belongs to a live
    /// context, and every pending command refers to live buffers of equal
    /// length.
    pub open spec fn wf(self) -> bool {
        &&& self.props_ok()
        &&& self.devs@.len() <= u32::MAX
        &&& self.primary@.len() == self.devs@.len()
        &&& match self.current {
            Some(h) => self.ctx_ok(h as int),
            None => true,
        }
        &&& forall|d: int| 0 <= d < self.primary@.len() ==> match #[trigger] self.primary@[d] {
            Some(h) => self.ctx_ok(h as int) && self.ctxs@[h as int].dev == d,
            None => true,
        }
        &&& forall|i: int| 0 <= i < self.ctxs@.len() && (#[trigger] self.ctxs@[i]).live
            ==> self.ctxs@[i].dev < self.devs@.len()
        &&& forall|s: int| 0 <= s < self.streams@.len() && (#[trigger] self.streams@[s]).live
            ==> self.ctx_ok(self.streams@[s].ctx as int)
        &&& forall|s: int| 0 <= s < self.streams@.len()
            ==> (#[trigger] self.streams@[s]).done <= self.streams@[s].cmds@.len()
        &&& forall|s: int, j: int|
            0 <= s < self.streams@.len() && self.streams@[s].live && self.streams@[s].done <= j
                < self.streams@[s].cmds@.len()
                ==> self.cmd_ok(#[trigger] self.streams@[s].cmds@[j])
        &&& forall|m: int| 0 <= m < self.mems@.len() && (#[trigger] self.mems@[m]).live
            ==> self.ctx_ok(self.mems@[m].ctx as int)
    }

    /// The same state with context `h` installed in the current slot.
    pub open spec fn with_current(self, h: usize) -> Driver {
        Driver { current: Some(h), ..self }
    }

    /// What any well-behaved context-dependent action preserves: the
    /// invariant, the session, the current slot, the hardware, and the
    /// liveness of every context that was live before. An action under
    /// `apply` must satisfy this so that the saved context can be
    /// restored afterwards.
    pub open spec fn session_step(pre: Driver, post: Driver) -> bool {
        &&& post.wf()
        &&& post.inited == pre.inited
        &&& post.current == pre.current
        &&& post.devs == pre.devs
        &&& forall|h: int| pre.ctx_ok(h) ==> #[trigger] post.ctx_ok(h) && post.ctxs@[h].dev
            == pre.ctxs@[h].dev
    }

    /// Builds the runtime state for a given hardware configuration: the
    /// devices visible to the process and the native library version. The
    /// session starts uninitialised, with no context active and no
    /// resources.
    pub fn new(devs: Vec<DevProps>, lib_version: (i32, i32, i32)) -> (rt: Driver)
        requires
            devs@.len() <= u32::MAX,
            forall|d: int| 0 <= d < devs@.len() ==> {
                let p = #[trigger] devs@[d];
                p.ai_core <= i64::MAX && p.vector_core <= i64::MAX && p.l2_cache <= i64::MAX
            },
        ensures
            rt.wf(),
            !rt.inited,
            rt.lib_version == lib_version,
            rt.devs == devs,
            rt.current is None,
            rt.primary@.len() == devs@.len(),
            forall|d: int| 0 <= d < rt.primary@.len() ==> #[trigger] rt.primary@[d] is None,
            rt.ctxs@.len() == 0,
            rt.streams@.len() == 0,
            rt.mems@.len() == 0,
    {
        let n = devs.len();
        let mut primary: Vec<Option<usize>> = Vec::new();
        let mut i: usize = 0;
        while i < n
            invariant
                i <= n,
                primary@.len() == i,
                forall|d: int| 0 <= d < i ==> #[trigger] primary@[d] is None,
            decreases n - i,
        {
            primary.push(None);
            i += 1;
        }
        Driver {
            inited: false,
            lib_version,
            devs,
            primary,
            current: None,
            ctxs: Vec::new(),
            streams: Vec::new(),
            mems: Vec::new(),
        }
    }

    /// Reads the current-context registry. Mirrors the native
    /// get-current-context query, whose one distinguished failure code — no
    /// context is active — is the `None` case.
    pub fn get_current(&self) -> (r: Option<usize>)
        ensures
            r == self.current,
    {
        self.current
    }

    /// Makes context `h` current. The native layer refuses to clear the
    /// slot, so only a live context can be installed.
    pub fn set_current(&mut self, h: usize)
        requires
            old(self).wf(),
            old(self).ctx_ok(h as int),
        ensures
            final(self).wf(),
            *final(self) == (Driver { current: Some(h), ..*old(self) }),
    {
        self.current = Some(h);
    }

    /// Creates a brand-new context on device `dev` and makes it current,
    /// as the native create-context call does. Returns the fresh handle.
    pub fn create_context(&mut self, dev: usize) -> (h: usize)
        requires
            old(self).wf(),
            old(self).inited,
            dev < old(self).devs@.len(),
        ensures
            final(self).wf(),
            h == old(self).ctxs@.len(),
            final(self).ctx_ok(h as int),
            final(self).ctxs@ == old(self).ctxs@.push(CtxRec { dev, live: true }),
            *final(self) == (Driver {
                current: Some(h),
                ctxs: final(self).ctxs,
                ..*old(self)
            }),
    {
        let h = self.ctxs.len();
        self.ctxs.push(CtxRec { dev, live: true });
        self.current = Some(h);
        h
    }

    /// No live stream or buffer belongs to context `h`, and no device's
    /// primary-context slot points at it: the context may be destroyed.
    pub open spec fn ctx_unreferenced(self, h: int) -> bool {
        &&& forall|s: int| 0 <= s < self.streams@.len() && (#[trigger] self.streams@[s]).live
            ==> self.streams@[s].ctx != h
        &&& forall|m: int| 0 <= m < self.mems@.len() && (#[trigger] self.mems@[m]).live
            ==> self.mems@[m].ctx != h
        &&& forall|d: int| 0 <= d < self.primary@.len() ==> #[trigger] self.primary@[d] != Some(
            h as usize,
        )
    }

    /// Destroys context `h`. A context must outlive everything created
    /// under it and must not occupy the current slot, so both are demanded
    /// of the caller rather than checked at run time.
    pub fn destroy_context(&mut self, h: usize)
        requires
            old(self).wf(),
            old(self).ctx_ok(h as int),
            old(self).ctx_unreferenced(h as int),
            old(self).current != Some(h),
        ensures
            final(self).wf(),
            final(self).ctxs@ == old(self).ctxs@.update(
                h as int,
                (CtxRec { live: false, ..old(self).ctxs@[h as int] }),
            ),
            *final(self) == (Driver { ctxs: final(self).ctxs, ..*old(self) }),
    {
        let dev = self.ctxs[h].dev;
        self.ctxs.set(h, CtxRec { dev, live: false });
    }

    /// Installs device `dev`'s built-in default context as current,
    /// constructing it first if this is the device's first activation, as
    /// the native set-device call does. Returns the default context's
    /// handle.
    pub fn set_device(&mut self, dev: usize) -> (h: usize)
        requires
            old(self).wf(),
            old(self).inited,
            dev < old(self).devs@.len(),
        ensures
            final(self).wf(),
            final(self).ctx_ok(h as int),
            final(self).ctxs@[h as int].dev == dev,
            final(self).primary@[dev as int] == Some(h),
            final(self).current == Some(h),
            old(self).primary@[dev as int] matches Some(p) ==> h == p && *final(self) == (Driver {
                current: Some(h),
                ..*old(self)
            }),
            old(self).primary@[dev as int] is None ==> h == old(self).ctxs@.len() && *final(self)
                == (Driver {
                current: Some(h),
                ctxs: final(self).ctxs,
                primary: final(self).primary,
                ..*old(self)
            }) && final(self).ctxs@ == old(self).ctxs@.push(CtxRec { dev, live: true })
                && final(self).primary@ == old(self).primary@.update(dev as int, Some(h)),
            forall|d: int|
                0 <= d < old(self).primary@.len() && old(self).primary@[d] is Some
                    ==> final(self).primary@[d] == old(self).primary@[d],
    {
        match self.primary[dev] {
            Some(p) => {
                self.current = Some(p);
                p
            },
            None => {
                let h = self.ctxs.len();
                self.ctxs.push(CtxRec { dev, live: true });
                self.primary.set(dev, Some(h));
                self.current = Some(h);
                h
            },
        }
    }

    /// Reports the device the current context belongs to, as the native
    /// get-device query does.
    pub fn get_device(&self) -> (d: usize)
        requires
            self.wf(),
            self.current is Some,
        ensures
            d == self.ctxs@[self.current->0 as int].dev,
    {
        let h = self.current.unwrap();
        self.ctxs[h].dev
    }

    /// The contents of all buffers, freed ones included, as a sequence of
    /// byte sequences indexed by handle.
    pub open spec fn mems_view(self) -> Seq<Seq<u8>> {
        self.mems@.map(|i: int, r: MemRec| r.data@)
    }

    /// The effect of one command on the buffer contents.
    pub open spec fn step_views(views: Seq<Seq<u8>>, c: Cmd) -> Seq<Seq<u8>> {
        match c {
            Cmd::WriteMem { dst, bytes } => views.update(dst as int, bytes@),
            Cmd::CopyMem { dst, src } => views.update(dst as int, views[src as int]),
        }
    }

    /// The effect of a command sequence applied in order, first to last.
    /// This is the stream ordering guarantee in one definition: what a
    /// drained stream leaves in memory is the left-to-right fold of its
    /// commands in submission order.
    pub open spec fn run_cmds(views: Seq<Seq<u8>>, cmds: Seq<Cmd>) -> Seq<Seq<u8>>
        decreases cmds.len(),
    {
        if cmds.len() == 0 {
            views
        } else {
            Self::run_cmds(Self::step_views(views, cmds[0]), cmds.drop_first())
        }
    }

    /// Running one more command after a sequence is the same as stepping
    /// the result of the sequence.
    pub proof fn lemma_run_cmds_push(views: Seq<Seq<u8>>, cmds: Seq<Cmd>, c: Cmd)
        ensures
            Self::run_cmds(views, cmds.push(c)) == Self::step_views(Self::run_cmds(views, cmds), c),
        decreases cmds.len(),
    {
        if cmds.len() == 0 {
            assert(cmds.push(c).drop_first() =~= cmds);
            assert(cmds.push(c)[0] == c);
            assert(Self::run_cmds(views, cmds.push(c)) == Self::run_cmds(
                Self::step_views(views, c),
                cmds,
            ));
            assert(Self::run_cmds(Self::step_views(views, c), cmds) == Self::step_views(
                views,
                c,
            ));
            assert(Self::run_cmds(views, cmds) == views);
        } else {
            assert(cmds.push(c).drop_first() =~= cmds.drop_first().push(c));
            assert(cmds.push(c)[0] == cmds[0]);
            assert(Self::run_cmds(views, cmds.push(c)) == Self::run_cmds(
                Self::step_views(views, cmds[0]),
                cmds.drop_first().push(c),
            ));
            Self::lemma_run_cmds_push(Self::step_views(views, cmds[0]), cmds.drop_first(), c);
            assert(Self::run_cmds(views, cmds) == Self::run_cmds(
                Self::step_views(views, cmds[0]),
                cmds.drop_first(),
            ));
        }
    }

    /// Stream ordering as a composition law: executing a command sequence
    /// split at any point is the same as executing the first part and
    /// then the second — commands observe each other's effects exactly in
    /// submission order, however the waits that drive them are grouped.
    pub proof fn lemma_run_cmds_split(views: Seq<Seq<u8>>, a: Seq<Cmd>, b: Seq<Cmd>)
        ensures
            Self::run_cmds(views, a + b) == Self::run_cmds(Self::run_cmds(views, a), b),
        decreases b.len(),
    {
        if b.len() == 0 {
            assert(a + b =~= a);
        } else {
            let b0 = b.subrange(0, b.len() - 1);
            let c = b.last();
            assert(b0.push(c) =~= b);
            assert(a + b =~= (a + b0).push(c));
            Self::lemma_run_cmds_push(views, a + b0, c);
            Self::lemma_run_cmds_split(views, a, b0);
            Self::lemma_run_cmds_push(Self::run_cmds(views, a), b0, c);
        }
    }

    /// Buffer liveness, ownership and length are untouched between two
    /// states; only contents may differ.
    pub open spec fn same_mem_frame(pre: Driver, post: Driver) -> bool {
        &&& post.mems@.len() == pre.mems@.len()
        &&& forall|m: int| 0 <= m < pre.mems@.len() ==> (#[trigger] post.mems@[m]).live
            == pre.mems@[m].live && post.mems@[m].ctx == pre.mems@[m].ctx
            && post.mems@[m].data@.len() == pre.mems@[m].data@.len()
    }

    /// Executes the next pending command of stream `s`.
    fn step_stream(&mut self, s: usize)
        requires
            old(self).wf(),
            old(self).stream_ok(s as int),
            old(self).streams@[s as int].done < old(self).streams@[s as int].cmds@.len(),
        ensures
            final(self).wf(),
            final(self).streams@ == old(self).streams@.update(
                s as int,
                (StreamRec {
                    done: (old(self).streams@[s as int].done + 1) as usize,
                    ..old(self).streams@[s as int]
                }),
            ),
            final(self).mems_view() == Self::step_views(
                old(self).mems_view(),
                old(self).streams@[s as int].cmds@[old(self).streams@[s as int].done as int],
            ),
            Self::same_mem_frame(*old(self), *final(self)),
            *final(self) == (Driver {
                streams: final(self).streams,
                mems: final(self).mems,
                ..*old(self)
            }),
    {
        let done = self.streams[s].done;
        let n = self.streams[s].cmds.len();
        assert(done < n);
        let dst: usize;
        let mut write_bytes: Option<Vec<u8>> = None;
        let mut copy_src: usize = 0;
        match &self.streams[s].cmds[done] {
            Cmd::WriteMem { dst: d, bytes } => {
                dst = *d;
                write_bytes = Some(bytes.clone());
            },
            Cmd::CopyMem { dst: d, src } => {
                dst = *d;
                copy_src = *src;
            },
        }
        let ctx = self.mems[dst].ctx;
        let live = self.mems[dst].live;
        match write_bytes {
            Some(b) => {
                proof {
                    let cmd = old(self).streams@[s as int].cmds@[done as int];
                    assert(b@ =~= cmd->WriteMem_bytes@);
                }
                self.mems.set(dst, MemRec { ctx, live, data: b });
            },
            None => {
                let b = self.mems[copy_src].data.clone();
                proof {
                    assert(b@ =~= old(self).mems@[copy_src as int].data@);
                }
                self.mems.set(dst, MemRec { ctx, live, data: b });
            },
        }
        self.streams[s].done = done + 1;
        proof {
            let cmd = old(self).streams@[s as int].cmds@[done as int];
            assert(self.mems_view() =~= Self::step_views(old(self).mems_view(), cmd));
            assert(self.streams@ =~= old(self).streams@.update(
                s as int,
                (StreamRec { done: (done + 1) as usize, ..old(self).streams@[s as int] }),
            ));
            assert forall|s2: int, j: int|
                0 <= s2 < self.streams@.len() && self.streams@[s2].live && self.streams@[s2].done
                    <= j < self.streams@[s2].cmds@.len() implies self.cmd_ok(
                #[trigger] self.streams@[s2].cmds@[j],
            ) by {
                assert(old(self).cmd_ok(old(self).streams@[s2].cmds@[j]));
            }
        }
    }

    /// Creates a stream on the current context, as the native
    /// create-stream call does. Returns the fresh handle.
    pub fn create_stream(&mut self) -> (s: usize)
        requires
            old(self).wf(),
            old(self).inited,
            old(self).current is Some,
        ensures
            final(self).wf(),
            s == old(self).streams@.len(),
            final(self).stream_ok(s as int),
            final(self).streams@ == old(self).streams@.push(
                (StreamRec {
                    ctx: old(self).current->0,
                    live: true,
                    cmds: final(self).streams@[s as int].cmds,
                    done: 0,
                }),
            ),
            final(self).streams@[s as int].cmds@.len() == 0,
            *final(self) == (Driver { streams: final(self).streams, ..*old(self) }),
    {
        let s = self.streams.len();
        let ctx = self.current.unwrap();
        self.streams.push(StreamRec { ctx, live: true, cmds: Vec::new(), done: 0 });
        s
    }

    /// Appends a command to stream `s`'s queue. The command must be well
    /// formed in the present state: its buffers live, its lengths equal.
    pub fn submit(&mut self, s: usize, cmd: Cmd)
        requires
            old(self).wf(),
            old(self).stream_ok(s as int),
            old(self).cmd_ok(cmd),
        ensures
            final(self).wf(),
            final(self).streams@[s as int].cmds@ == old(self).streams@[s as int].cmds@.push(cmd),
            final(self).streams@ == old(self).streams@.update(
                s as int,
                (StreamRec {
                    cmds: final(self).streams@[s as int].cmds,
                    ..old(self).streams@[s as int]
                }),
            ),
            *final(self) == (Driver { streams: final(self).streams, ..*old(self) }),
    {
        self.streams[s].cmds.push(cmd);
        proof {
            assert(self.streams@ =~= old(self).streams@.update(
                s as int,
                (StreamRec {
                    cmds: self.streams@[s as int].cmds,
                    ..old(self).streams@[s as int]
                }),
            ));
            assert forall|s2: int, j: int|
                0 <= s2 < self.streams@.len() && self.streams@[s2].live && self.streams@[s2].done
                    <= j < self.streams@[s2].cmds@.len() implies self.cmd_ok(
                #[trigger] self.streams@[s2].cmds@[j],
            ) by {
                if s2 == s && j == self.streams@[s2].cmds@.len() - 1 {
                    assert(old(self).cmd_ok(cmd));
                } else {
                    assert(old(self).cmd_ok(old(self).streams@[s2].cmds@[j]));
                }
            }
        }
    }

    /// Blocks until stream `s` has executed at least its first `k`
    /// commands. The commands run strictly in submission order: the
    /// buffers afterwards hold the in-order fold of exactly the commands
    /// that ran.
    pub fn drain_until(&mut self, s: usize, k: usize)
        requires
            old(self).wf(),
            old(self).stream_ok(s as int),
            k <= old(self).streams@[s as int].cmds@.len(),
        ensures
            final(self).wf(),
            final(self).streams@[s as int].done == if k >= old(self).streams@[s as int].done {
                k
            } else {
                old(self).streams@[s as int].done
            },
            final(self).streams@ == old(self).streams@.update(
                s as int,
                (StreamRec {
                    done: final(self).streams@[s as int].done,
                    ..old(self).streams@[s as int]
                }),
            ),
            final(self).mems_view() == Self::run_cmds(
                old(self).mems_view(),
                old(self).streams@[s as int].cmds@.subrange(
                    old(self).streams@[s as int].done as int,
                    final(self).streams@[s as int].done as int,
                ),
            ),
            Self::same_mem_frame(*old(self), *final(self)),
            *final(self) == (Driver {
                streams: final(self).streams,
                mems: final(self).mems,
                ..*old(self)
            }),
    {
        let d0 = self.streams[s].done;
        proof {
            assert(old(self).streams@[s as int].cmds@.subrange(d0 as int, d0 as int)
                =~= Seq::<Cmd>::empty());
            assert(self.streams@ =~= old(self).streams@.update(
                s as int,
                (StreamRec { done: d0, ..old(self).streams@[s as int] }),
            ));
        }
        while self.streams[s].done < k
            invariant
                old(self).wf(),
                old(self).stream_ok(s as int),
                self.wf(),
                self.stream_ok(s as int),
                k <= old(self).streams@[s as int].cmds@.len(),
                d0 == old(self).streams@[s as int].done,
                self.streams@[s as int].done >= d0,
                k >= old(self).streams@[s as int].done ==> self.streams@[s as int].done <= k,
                k < old(self).streams@[s as int].done ==> self.streams@[s as int].done == d0,
                self.streams@ == old(self).streams@.update(
                    s as int,
                    (StreamRec {
                        done: self.streams@[s as int].done,
                        ..old(self).streams@[s as int]
                    }),
                ),
                self.mems_view() == Self::run_cmds(
                    old(self).mems_view(),
                    old(self).streams@[s as int].cmds@.subrange(
                        d0 as int,
                        self.streams@[s as int].done as int,
                    ),
                ),
                Self::same_mem_frame(*old(self), *self),
                *self == (Driver { streams: self.streams, mems: self.mems, ..*old(self) }),
            decreases k - self.streams@[s as int].done,
        {
            let ghost pre = *self;
            let ghost dcur = self.streams@[s as int].done;
            self.step_stream(s);
            proof {
                let cmds = old(self).streams@[s as int].cmds@;
                assert(cmds.subrange(d0 as int, dcur + 1) =~= cmds.subrange(
                    d0 as int,
                    dcur as int,
                ).push(cmds[dcur as int]));
                Self::lemma_run_cmds_push(
                    old(self).mems_view(),
                    cmds.subrange(d0 as int, dcur as int),
                    cmds[dcur as int],
                );
                assert(self.streams@ =~= old(self).streams@.update(
                    s as int,
                    (StreamRec {
                        done: self.streams@[s as int].done,
                        ..old(self).streams@[s as int]
                    }),
                ));
            }
        }
    }

    /// Blocks until every command submitted to stream `s` has executed.
    pub fn drain(&mut self, s: usize)
        requires
            old(self).wf(),
            old(self).stream_ok(s as int),
        ensures
            final(self).wf(),
            final(self).stream_idle(s as int),
            final(self).streams@ == old(self).streams@.update(
                s as int,
                (StreamRec {
                    done: old(self).streams@[s as int].cmds@.len() as usize,
                    ..old(self).streams@[s as int]
                }),
            ),
            final(self).mems_view() == Self::run_cmds(
                old(self).mems_view(),
                old(self).pending(s as int),
            ),
            Self::same_mem_frame(*old(self), *final(self)),
            *final(self) == (Driver {
                streams: final(self).streams,
                mems: final(self).mems,
                ..*old(self)
            }),
    {
        let n = self.streams[s].cmds.len();
        self.drain_until(s, n);
    }

    /// Non-blocking completion poll: whether stream `s` has no pending
    /// work.
    pub fn query_idle(&self, s: usize) -> (r: bool)
        requires
            self.wf(),
            self.stream_ok(s as int),
        ensures
            r == self.stream_idle(s as int),
    {
        self.streams[s].done == self.streams[s].cmds.len()
    }

    /// Destroys stream `s`. The stream is drained first, so no handle is
    /// ever destroyed while commands are still outstanding on it.
    pub fn destroy_stream(&mut self, s: usize)
        requires
            old(self).wf(),
            old(self).stream_ok(s as int),
        ensures
            final(self).wf(),
            !final(self).streams@[s as int].live,
            final(self).streams@ == old(self).streams@.update(
                s as int,
                (StreamRec {
                    live: false,
                    done: old(self).streams@[s as int].cmds@.len() as usize,
                    ..old(self).streams@[s as int]
                }),
            ),
            final(self).mems_view() == Self::run_cmds(
                old(self).mems_view(),
                old(self).pending(s as int),
            ),
            Self::same_mem_frame(*old(self), *final(self)),
            *final(self) == (Driver {
                streams: final(self).streams,
                mems: final(self).mems,
                ..*old(self)
            }),
    {
        self.drain(s);
        self.streams[s].live = false;
        proof {
            assert(self.streams@ =~= old(self).streams@.update(
                s as int,
                (StreamRec {
                    live: false,
                    done: old(self).streams@[s as int].cmds@.len() as usize,
                    ..old(self).streams@[s as int]
                }),
            ));
        }
    }

    /// The buffer contents after draining, in handle order, every live
    /// stream from index `i` on.
    pub open spec fn drain_all_views(views: Seq<Seq<u8>>, streams: Seq<StreamRec>, i: int) -> Seq<
        Seq<u8>,
    >
        decreases streams.len() - i,
    {
        if i < 0 || i >= streams.len() {
            views
        } else {
            let v2 = if streams[i].live {
                Self::run_cmds(
                    views,
                    streams[i].cmds@.subrange(streams[i].done as int, streams[i].cmds@.len() as int),
                )
            } else {
                views
            };
            Self::drain_all_views(v2, streams, i + 1)
        }
    }

    /// Blocks until all work on every live stream completes, as the native
    /// device-synchronise call does. Streams are drained in handle order.
    pub fn sync_all(&mut self)
        requires
            old(self).wf(),
        ensures
            final(self).wf(),
            final(self).streams@.len() == old(self).streams@.len(),
            forall|s: int| 0 <= s < old(self).streams@.len()
                ==> (#[trigger] final(self).streams@[s]).live == old(self).streams@[s].live
                && final(self).streams@[s].ctx == old(self).streams@[s].ctx
                && final(self).streams@[s].cmds == old(self).streams@[s].cmds,
            forall|s: int| 0 <= s < old(self).streams@.len() && (#[trigger] old(
                self,
            ).streams@[s]).live ==> final(self).stream_idle(s),
            forall|s: int| 0 <= s < old(self).streams@.len() && !(#[trigger] old(
                self,
            ).streams@[s]).live ==> final(self).streams@[s].done == old(self).streams@[s].done,
            final(self).mems_view() == Self::drain_all_views(
                old(self).mems_view(),
                old(self).streams@,
                0,
            ),
            Self::same_mem_frame(*old(self), *final(self)),
            *final(self) == (Driver {
                streams: final(self).streams,
                mems: final(self).mems,
                ..*old(self)
            }),
    {
        let n = self.streams.len();
        let mut i: usize = 0;
        while i < n
            invariant
                old(self).wf(),
                self.wf(),
                n == old(self).streams@.len(),
                i <= n,
                self.streams@.len() == n,
                forall|s: int| 0 <= s < n ==> (#[trigger] self.streams@[s]).live == old(
                    self,
                ).streams@[s].live && self.streams@[s].ctx == old(self).streams@[s].ctx
                    && self.streams@[s].cmds == old(self).streams@[s].cmds,
                forall|s: int| 0 <= s < i && (#[trigger] old(self).streams@[s]).live
                    ==> self.stream_idle(s),
                forall|s: int| i <= s < n ==> (#[trigger] self.streams@[s]).done == old(
                    self,
                ).streams@[s].done,
                forall|s: int| 0 <= s < n && !(#[trigger] old(self).streams@[s]).live
                    ==> self.streams@[s].done == old(self).streams@[s].done,
                Self::drain_all_views(old(self).mems_view(), old(self).streams@, 0)
                    == Self::drain_all_views(self.mems_view(), old(self).streams@, i as int),
                Self::same_mem_frame(*old(self), *self),
                *self == (Driver { streams: self.streams, mems: self.mems, ..*old(self) }),
            decreases n - i,
        {
            let ghost pre = *self;
            let live = self.streams[i].live;
            if live {
                self.drain(i);
                proof {
                    assert(pre.pending(i as int) =~= old(self).streams@[i as int].cmds@.subrange(
                        old(self).streams@[i as int].done as int,
                        old(self).streams@[i as int].cmds@.len() as int,
                    ));
                    assert(self.streams@ =~= pre.streams@.update(
                        i as int,
                        (StreamRec {
                            done: pre.streams@[i as int].cmds@.len() as usize,
                            ..pre.streams@[i as int]
                        }),
                    ));
                }
            }
            i += 1;
        }
    }

    /// Command `c` reads or writes buffer `m`.
    pub open spec fn cmd_refs(c: Cmd, m: int) -> bool {
        match c {
            Cmd::WriteMem { dst, .. } => dst == m,
            Cmd::CopyMem { dst, src } => dst == m || src == m,
        }
    }

    /// No pending command of any live stream touches buffer `m`: the
    /// buffer may be freed without racing outstanding asynchronous work.
    pub open spec fn mem_unreferenced(self, m: int) -> bool {
        forall|s: int, j: int|
            0 <= s < self.streams@.len() && self.streams@[s].live && self.streams@[s].done <= j
                < self.streams@[s].cmds@.len() ==> !Self::cmd_refs(
                #[trigger] self.streams@[s].cmds@[j],
                m,
            )
    }

    /// Allocates an `n`-byte buffer on the current context, as the native
    /// allocate call does. Returns the fresh handle. A zero-byte request
    /// is valid and yields an empty buffer.
    pub fn alloc_mem(&mut self, n: usize) -> (m: usize)
        requires
            old(self).wf(),
            old(self).inited,
            old(self).current is Some,
        ensures
            final(self).wf(),
            m == old(self).mems@.len(),
            final(self).mem_ok(m as int),
            final(self).mem_len(m as int) == n,
            final(self).mems@[m as int].ctx == old(self).current->0,
            final(self).mem_bytes(m as int) == Seq::new(n as nat, |i: int| 0u8),
            final(self).mems_view() == old(self).mems_view().push(
                Seq::new(n as nat, |i: int| 0u8),
            ),
            final(self).mems@ == old(self).mems@.push(final(self).mems@[m as int]),
            *final(self) == (Driver { mems: final(self).mems, ..*old(self) }),
    {
        let m = self.mems.len();
        let ctx = self.current.unwrap();
        let data = vec![0u8; n];
        proof {
            assert(data@ =~= Seq::new(n as nat, |i: int| 0u8));
        }
        self.mems.push(MemRec { ctx, live: true, data });
        proof {
            assert(self.mems_view() =~= old(self).mems_view().push(
                Seq::new(n as nat, |i: int| 0u8),
            ));
        }
        m
    }

    /// Frees buffer `m`. The caller must guarantee no outstanding
    /// asynchronous command still references it; the contents slot is
    /// retained so other buffers' views are untouched.
    pub fn free_mem(&mut self, m: usize)
        requires
            old(self).wf(),
            old(self).mem_ok(m as int),
            old(self).mem_unreferenced(m as int),
        ensures
            final(self).wf(),
            !final(self).mem_ok(m as int),
            final(self).mems@ == old(self).mems@.update(
                m as int,
                (MemRec { live: false, ..old(self).mems@[m as int] }),
            ),
            final(self).mems_view() == old(self).mems_view(),
            *final(self) == (Driver { mems: final(self).mems, ..*old(self) }),
    {
        self.mems[m].live = false;
        proof {
            assert(self.mems@ =~= old(self).mems@.update(
                m as int,
                (MemRec { live: false, ..old(self).mems@[m as int] }),
            ));
            assert(self.mems_view() =~= old(self).mems_view());
            assert forall|s2: int, j: int|
                0 <= s2 < self.streams@.len() && self.streams@[s2].live && self.streams@[s2].done
                    <= j < self.streams@[s2].cmds@.len() implies self.cmd_ok(
                #[trigger] self.streams@[s2].cmds@[j],
            ) by {
                assert(old(self).cmd_ok(old(self).streams@[s2].cmds@[j]));
                assert(!Self::cmd_refs(old(self).streams@[s2].cmds@[j], m as int));
            }
        }
    }

    /// Overwrites buffer `m` with `src`, a synchronous host-to-device
    /// copy. The lengths must be exactly equal.
    pub fn write_mem(&mut self, m: usize, src: &Vec<u8>)
        requires
            old(self).wf(),
            old(self).mem_ok(m as int),
            src@.len() == old(self).mem_len(m as int),
        ensures
            final(self).wf(),
            final(self).mem_bytes(m as int) == src@,
            final(self).mems_view() == old(self).mems_view().update(m as int, src@),
            Self::same_mem_frame(*old(self), *final(self)),
            *final(self) == (Driver { mems: final(self).mems, ..*old(self) }),
    {
        let ctx = self.mems[m].ctx;
        let live = self.mems[m].live;
        let data = src.clone();
        proof {
            assert(data@ =~= src@);
        }
        self.mems.set(m, MemRec { ctx, live, data });
        proof {
            assert(self.mems_view() =~= old(self).mems_view().update(m as int, src@));
        }
    }

    /// Reads buffer `m` into `dst`, a synchronous device-to-host copy.
    /// The lengths must be exactly equal.
    pub fn read_mem(&self, m: usize, dst: &mut Vec<u8>)
        requires
            self.wf(),
            self.mem_ok(m as int),
            old(dst)@.len() == self.mem_len(m as int),
        ensures
            final(dst)@ == self.mem_bytes(m as int),
    {
        let data = self.mems[m].data.clone();
        proof {
            assert(data@ =~= self.mems@[m as int].data@);
        }
        *dst = data;
    }

    /// Copies buffer `src` over buffer `dst`, a synchronous
    /// device-to-device copy. The lengths must be exactly equal.
    pub fn copy_mem(&mut self, dst: usize, src: usize)
        requires
            old(self).wf(),
            old(self).mem_ok(dst as int),
            old(self).mem_ok(src as int),
            old(self).mem_len(src as int) == old(self).mem_len(dst as int),
        ensures
            final(self).wf(),
            final(self).mem_bytes(dst as int) == old(self).mem_bytes(src as int),
            final(self).mems_view() == old(self).mems_view().update(
                dst as int,
                old(self).mem_bytes(src as int),
            ),
            Self::same_mem_frame(*old(self), *final(self)),
            *final(self) == (Driver { mems: final(self).mems, ..*old(self) }),
    {
        let ctx = self.mems[dst].ctx;
        let live = self.mems[dst].live;
        let data = self.mems[src].data.clone();
        proof {
            assert(data@ =~= old(self).mems@[src as int].data@);
        }
        self.mems.set(dst, MemRec { ctx, live, data });
        proof {
            assert(self.mems_view() =~= old(self).mems_view().update(
                dst as int,
                old(self).mem_bytes(src as int),
            ));
        }
    }
}

} // verus!
