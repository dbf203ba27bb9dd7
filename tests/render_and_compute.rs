use gpu_core::command::{record, Op, Rgba8};
use gpu_core::compute::{dispatch_scale, ScaleKernel};
use gpu_core::engine::{Engine, ResourceRef, SubmitError};
use gpu_core::raster::{pack_rgba8, pixel_covered, render_triangle, Triangle, Vertex, MAX_SIDE};
use gpu_core::resource::{Buffer, BufferUsage};
use gpu_core::sync::{FenceState, SyncError, WaitStep};

const CLEAR: Rgba8 = Rgba8 { r: 0, g: 0, b: 255, a: 255 };
const RED: Rgba8 = Rgba8 { r: 255, g: 0, b: 0, a: 255 };

fn scenario_triangle() -> Triangle {
    Triangle {
        a: Vertex { x: -32768, y: -32768 },
        b: Vertex { x: 0, y: 32768 },
        c: Vertex { x: 32768, y: -16384 },
    }
}

fn inside_hull(px: f64, py: f64) -> bool {
    let v = [(-0.5f64, -0.5f64), (0.0, 0.5), (0.5, -0.25)];
    let e = |a: (f64, f64), b: (f64, f64)| (b.0 - a.0) * (py - a.1) - (b.1 - a.1) * (px - a.0);
    let (e0, e1, e2) = (e(v[0], v[1]), e(v[1], v[2]), e(v[2], v[0]));
    let eps = 1e-9;
    (e0 >= -eps && e1 >= -eps && e2 >= -eps) || (e0 <= eps && e1 <= eps && e2 <= eps)
}

#[test]
fn triangle_render_stays_in_hull() {
    let w = 1024u32;
    let h = 1024u32;
    let px = render_triangle(&scenario_triangle(), w, h, CLEAR, RED).unwrap();
    assert_eq!(px.len(), 1024 * 1024);
    let mut filled = 0usize;
    for j in 0..h {
        for i in 0..w {
            let p = px[(j * w + i) as usize];
            let cx = (2.0 * i as f64 + 1.0 - w as f64) / w as f64;
            let cy = (2.0 * j as f64 + 1.0 - h as f64) / h as f64;
            if p != CLEAR {
                assert_eq!(p, RED);
                assert!(inside_hull(cx, cy), "pixel {} {} outside the triangle", i, j);
                filled += 1;
            } else {
                assert_eq!(p, CLEAR);
            }
        }
    }
    // The triangle has area 0.4375 out of the [-1, 1] square's 4.
    let expected = 1024.0 * 1024.0 * 0.4375 / 4.0;
    assert!((filled as f64 - expected).abs() < 2000.0, "filled {}", filled);
    // Centroid is red, corners keep the clear colour.
    assert_eq!(px[(512 * 1024 + 512) as usize], RED);
    assert_eq!(px[0], CLEAR);
    assert_eq!(px[1024 * 1024 - 1], CLEAR);
}

#[test]
fn degenerate_triangle_covers_nothing() {
    let t = Triangle { a: Vertex { x: 0, y: 0 }, b: Vertex { x: 0, y: 0 }, c: Vertex { x: 0, y: 0 } };
    let px = render_triangle(&t, 4, 4, CLEAR, RED).unwrap();
    assert!(px.iter().all(|p| *p == CLEAR));
}

#[test]
fn oversized_target_is_refused() {
    assert!(render_triangle(&scenario_triangle(), MAX_SIDE + 1, 1, CLEAR, RED).is_none());
    assert_eq!(render_triangle(&scenario_triangle(), 0, 5, CLEAR, RED), Some(vec![]));
}

#[test]
fn pixel_coverage_on_small_target() {
    // 2x2 target: pixel centres at (+-0.5, +-0.5). (-0.5, -0.5) is a vertex.
    let t = scenario_triangle();
    assert!(pixel_covered(&t, 2, 2, 0, 0));
    assert!(!pixel_covered(&t, 2, 2, 1, 1));
    assert!(!pixel_covered(&t, 2, 2, 0, 1));
}

#[test]
fn packed_bytes_are_rgba_row_major() {
    let bytes = pack_rgba8(&vec![RED, CLEAR]);
    assert_eq!(bytes, vec![255, 0, 0, 255, 0, 0, 255, 255]);
}

fn storage() -> BufferUsage {
    BufferUsage { vertex: false, storage: true, transfer_dst: true }
}

#[test]
fn multiply_round_trip() {
    let input: Vec<u32> = (0..65536u32).collect();
    let mut buf = Buffer::from_elements(storage(), true, &input);
    let kernel = ScaleKernel { factor: 12, local_size: 64 };
    dispatch_scale(&mut buf, &kernel, 1024, 1, 1);
    let out = buf.read();
    assert_eq!(out.len(), 65536);
    for i in 0..65536usize {
        assert_eq!(out[i], i as u32 * 12);
    }
}

#[test]
fn short_dispatch_leaves_the_tail() {
    let mut buf = Buffer::from_elements(storage(), true, &vec![1, 2, 3, 4, 5]);
    dispatch_scale(&mut buf, &ScaleKernel { factor: 3, local_size: 2 }, 1, 1, 1);
    assert_eq!(buf.read(), vec![3, 6, 3, 4, 5]);
    let mut wrap = Buffer::from_elements(storage(), true, &vec![0x8000_0001]);
    dispatch_scale(&mut wrap, &ScaleKernel { factor: 2, local_size: 1 }, 1, 1, 1);
    assert_eq!(wrap.read(), vec![2]);
}

#[test]
fn repeated_dispatch_gives_same_output() {
    let input: Vec<u32> = (0..1000u32).map(|i| i * 7 + 1).collect();
    let kernel = ScaleKernel { factor: 5, local_size: 32 };
    let mut first = Buffer::from_elements(storage(), true, &input);
    let mut second = Buffer::from_elements(storage(), true, &input);
    dispatch_scale(&mut first, &kernel, 32, 1, 1);
    dispatch_scale(&mut second, &kernel, 32, 1, 1);
    assert_eq!(first.read(), second.read());
}

#[test]
fn zeroed_buffer() {
    let b = Buffer::zeroed(storage(), false, 6);
    assert_eq!(b.read(), vec![0; 6]);
    assert!(!b.host_visible);
}

#[test]
fn engine_tracks_in_flight_resources() {
    let cl = record(vec![
        Op::Dispatch { pipeline: 0, descriptor_set: 4, groups_x: 1, groups_y: 1, groups_z: 1 },
        Op::CopyImageToBuffer { image: 1, buffer: 2 },
    ])
    .unwrap();
    let mut e = Engine::new();
    let first = e.submit(&cl, None).unwrap();
    let second = e.submit(&cl, None).unwrap();
    assert_eq!((first, second), (0, 1));
    assert_eq!(e.lists[0], e.lists[1]);
    let buf = ResourceRef::Buffer { index: 2 };
    assert!(!e.host_access_allowed(&buf));
    assert!(e.host_access_allowed(&ResourceRef::Buffer { index: 3 }));
    assert_eq!(e.wait_on(first, Some(0), 0), Some(WaitStep::Done(Err(SyncError::Timeout))));
    assert!(e.complete(first, Ok(())));
    assert!(!e.host_access_allowed(&buf));
    assert!(e.complete(second, Err(-3)));
    assert!(e.host_access_allowed(&buf));
    assert!(!e.complete(second, Ok(())));
    assert_eq!(e.state_of(second), Some(FenceState::Faulted { code: -3 }));
    assert_eq!(e.wait_on(first, None, 0), Some(WaitStep::Done(Ok(()))));
    assert_eq!(e.state_of(9), None);
    assert_eq!(e.wait_on(9, None, 0), None);
}

#[test]
fn chained_submission_waits_for_its_predecessor() {
    let cl = record(vec![Op::CopyImageToBuffer { image: 0, buffer: 0 }]).unwrap();
    let mut e = Engine::new();
    let render = e.submit(&cl, None).unwrap();
    let present = e.submit(&cl, Some(render)).unwrap();
    assert_eq!(e.submit(&cl, Some(42)), Err(SubmitError::UnknownWait));
    assert_eq!(e.ids.len(), 2);
    assert!(e.complete(present, Ok(())));
    assert_eq!(e.state_of(present), Some(FenceState::Signaled));
    assert_eq!(e.future_state_of(present), Some(FenceState::Pending));
    assert_eq!(e.wait_on(present, Some(0), 0), Some(WaitStep::Done(Err(SyncError::Timeout))));
    assert!(e.complete(render, Err(-7)));
    assert_eq!(e.future_state_of(present), Some(FenceState::Faulted { code: -7 }));
    assert_eq!(
        e.wait_on(present, None, 0),
        Some(WaitStep::Done(Err(SyncError::SubmissionFaulted { code: -7 })))
    );
}
