//! Device memory round trips, zero-length safety, stream ordering,
//! benchmark accounting and destroy-on-drop draining.

use ascend_rt::{
    init, memcpy_d2d, memcpy_d2h, memcpy_h2d, upload_download, CurrentCtx, DevProps, Device,
    Driver, Stream,
};

fn started_with_ctx() -> (Driver, usize) {
    let mut rt = Driver::new(
        vec![DevProps {
            ai_core: 1,
            vector_core: 1,
            l2_cache: 1 << 10,
            soc_name: String::from("T"),
        }],
        (8, 0, 0),
    );
    init(&mut rt);
    let c = Device::new(0).fetch_default(&mut rt);
    (rt, c.handle)
}

#[test]
fn host_device_round_trip() {
    let (rt, h) = started_with_ctx();
    let cur = CurrentCtx(h);
    let bytes = vec![7u8, 0, 255, 42, 1];
    let (back, _rt) = CurrentCtx::apply_current(rt, |_, mut d| {
        let back = upload_download(&mut d, &cur, &bytes);
        (back, d)
    });
    assert_eq!(back.unwrap(), vec![7u8, 0, 255, 42, 1]);
}

#[test]
fn from_host_then_d2h_reproduces_bytes() {
    let (mut rt, h) = started_with_ctx();
    let cur = CurrentCtx(h);
    let bytes: Vec<u8> = (0..64u8).collect();
    let m = cur.from_host(&mut rt, &bytes);
    let mut back = vec![0u8; m.len()];
    memcpy_d2h(&rt, &mut back, &m);
    assert_eq!(back, bytes);
    m.drop(&mut rt);
}

#[test]
fn sync_copies_between_buffers() {
    let (mut rt, h) = started_with_ctx();
    let cur = CurrentCtx(h);
    let a = cur.from_host(&mut rt, &vec![1u8, 2, 3]);
    let b = cur.malloc(&mut rt, 3);
    memcpy_d2d(&mut rt, &b, &a);
    let mut out = vec![0u8; 3];
    memcpy_d2h(&rt, &mut out, &b);
    assert_eq!(out, vec![1u8, 2, 3]);
    memcpy_h2d(&mut rt, &a, &vec![9u8, 9, 9]);
    memcpy_d2h(&rt, &mut out, &a);
    assert_eq!(out, vec![9u8, 9, 9]);
}

#[test]
fn zero_length_allocation_is_safe() {
    let (mut rt, h) = started_with_ctx();
    let cur = CurrentCtx(h);
    let m = cur.malloc(&mut rt, 0);
    assert_eq!(m.len(), 0);
    assert!(m.is_empty());
    let mut out: Vec<u8> = Vec::new();
    memcpy_d2h(&rt, &mut out, &m);
    assert_eq!(out, Vec::<u8>::new());
    let empty = cur.from_host(&mut rt, &Vec::new());
    assert!(empty.is_empty());
    m.drop(&mut rt);
    empty.drop(&mut rt);
}

#[test]
fn malloc_zeroes_and_spore_round_trip() {
    let (mut rt, h) = started_with_ctx();
    let cur = CurrentCtx(h);
    let m = cur.malloc(&mut rt, 4);
    let spore = m.sporulate();
    assert_eq!(spore.len(), 4);
    assert!(!spore.is_empty());
    let m = spore.sprout(&cur);
    let mut out = vec![5u8; 4];
    memcpy_d2h(&rt, &mut out, &m);
    assert_eq!(out, vec![0u8; 4]);
}

#[test]
fn stream_orders_same_stream_commands() {
    let (mut rt, h) = started_with_ctx();
    let cur = CurrentCtx(h);
    let m = cur.malloc(&mut rt, 2);
    let s = cur.stream(&mut rt);
    // two conflicting writes on one stream: submission order wins
    s.memcpy_h2d(&mut rt, &m, &vec![1u8, 1]);
    s.memcpy_h2d(&mut rt, &m, &vec![2u8, 2]);
    // nothing has landed yet: completion is only guaranteed by a sync
    assert!(!s.is_complete(&rt));
    s.synchronize(&mut rt);
    assert!(s.is_complete(&rt));
    let mut out = vec![0u8; 2];
    memcpy_d2h(&rt, &mut out, &m);
    assert_eq!(out, vec![2u8, 2]);
}

#[test]
fn wait_for_orders_across_streams() {
    let (mut rt, h) = started_with_ctx();
    let cur = CurrentCtx(h);
    let src = cur.malloc(&mut rt, 1);
    let dst = cur.malloc(&mut rt, 1);
    let s1 = cur.stream(&mut rt);
    let s2 = cur.stream(&mut rt);
    // s1 produces; s2 consumes only after s1's recorded point
    s1.memcpy_h2d(&mut rt, &src, &vec![9u8]);
    let e = s1.record(&rt);
    s2.wait_for(&mut rt, &e);
    // the event's position has been reached before s2's later work
    assert!(rt.streams[s1.as_raw()].done >= e.idx);
    s2.memcpy_d2d(&mut rt, &dst, &src);
    s2.synchronize(&mut rt);
    let mut out = vec![0u8];
    memcpy_d2h(&rt, &mut out, &dst);
    assert_eq!(out, vec![9u8]);
}

#[test]
fn event_elapse_counts_submitted_commands() {
    let (mut rt, h) = started_with_ctx();
    let cur = CurrentCtx(h);
    let m = cur.malloc(&mut rt, 1);
    let s = cur.stream(&mut rt);
    let start = s.record(&rt);
    s.memcpy_h2d(&mut rt, &m, &vec![1u8]);
    s.memcpy_h2d(&mut rt, &m, &vec![2u8]);
    s.memcpy_h2d(&mut rt, &m, &vec![3u8]);
    let end = s.record(&rt);
    end.synchronize(&mut rt);
    let span = end.elapse_from(&start, &rt);
    assert_eq!(span.nanos, 3);
}

#[test]
fn event_spore_round_trip() {
    let (mut rt, h) = started_with_ctx();
    let cur = CurrentCtx(h);
    let s = cur.stream(&mut rt);
    let e = s.record(&rt);
    let spore = e.sporulate();
    let e2 = spore.sprout(&cur);
    assert_eq!(e, e2);
    let s_spore = s.sporulate();
    let s2 = s_spore.sprout(&cur);
    assert_eq!(s, s2);
}

#[test]
fn bench_runs_workload_and_averages() {
    let (mut rt, h) = started_with_ctx();
    let cur = CurrentCtx(h);
    let m = cur.malloc(&mut rt, 1);
    let s = cur.stream(&mut rt);
    let sh = s.as_raw();
    // each call submits exactly two commands
    let (span, rt, _) = s.bench(
        rt,
        move |_i, st: Stream, mut d: Driver| {
            st.memcpy_h2d(&mut d, &m, &vec![1u8]);
            st.memcpy_h2d(&mut d, &m, &vec![2u8]);
            d
        },
        100,
        10,
    );
    // 110 calls in all, visible as 220 submitted commands
    assert_eq!(rt.streams[sh].cmds.len(), 220);
    // the timed phase submitted 200; the average per iteration is 2 ticks
    assert_eq!(span.nanos, 2);
}

#[test]
fn bench_scales_with_workload() {
    let (mut rt, h) = started_with_ctx();
    let cur = CurrentCtx(h);
    let m1 = cur.malloc(&mut rt, 1);
    let m2 = cur.malloc(&mut rt, 1);
    let s = cur.stream(&mut rt);
    let (light, rt, _) = s.bench(
        rt,
        move |_i, st: Stream, mut d: Driver| {
            st.memcpy_h2d(&mut d, &m1, &vec![1u8]);
            d
        },
        50,
        5,
    );
    let (heavy, _rt, _) = s.bench(
        rt,
        move |_i, st: Stream, mut d: Driver| {
            for _ in 0..4 {
                st.memcpy_h2d(&mut d, &m2, &vec![1u8]);
            }
            d
        },
        50,
        5,
    );
    assert_eq!(light.nanos, 1);
    assert_eq!(heavy.nanos, 4);
}

#[test]
fn destroy_drains_outstanding_work() {
    let (mut rt, h) = started_with_ctx();
    let cur = CurrentCtx(h);
    let m = cur.malloc(&mut rt, 3);
    let s = cur.stream(&mut rt);
    let sh = s.as_raw();
    s.memcpy_h2d(&mut rt, &m, &vec![4u8, 5, 6]);
    assert!(rt.streams[sh].done < rt.streams[sh].cmds.len());
    s.destroy(&mut rt);
    // destruction synchronised first: the copy landed before the handle died
    assert!(!rt.streams[sh].live);
    assert_eq!(rt.streams[sh].done, rt.streams[sh].cmds.len());
    let mut out = vec![0u8; 3];
    memcpy_d2h(&rt, &mut out, &m);
    assert_eq!(out, vec![4u8, 5, 6]);
}

#[test]
fn sync_device_drains_every_stream() {
    let (mut rt, h) = started_with_ctx();
    let cur = CurrentCtx(h);
    let a = cur.malloc(&mut rt, 1);
    let b = cur.malloc(&mut rt, 1);
    let s1 = cur.stream(&mut rt);
    let s2 = cur.stream(&mut rt);
    s1.memcpy_h2d(&mut rt, &a, &vec![1u8]);
    s2.memcpy_h2d(&mut rt, &b, &vec![2u8]);
    cur.sync_device(&mut rt);
    assert!(s1.is_complete(&rt));
    assert!(s2.is_complete(&rt));
    let mut out = vec![0u8];
    memcpy_d2h(&rt, &mut out, &a);
    assert_eq!(out, vec![1u8]);
    memcpy_d2h(&rt, &mut out, &b);
    assert_eq!(out, vec![2u8]);
}
