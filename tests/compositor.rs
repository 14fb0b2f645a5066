use stremio_shell::broker::{create_gl, create_renderer, drop_gl, drop_renderer, GpuBroker};
use stremio_shell::browser::{on_paint, view_rect, WebViewEvent};
use stremio_shell::compositor::{
    copy_rows, refresh_rate, GlObject, GlObjects, PaintUpload, Rect, Renderer, RendererError,
    FRAMEBUFFER_COMPLETE,
};

fn objects() -> GlObjects {
    GlObjects {
        program: 1,
        front_texture: 2,
        front_uniform: 3,
        back_texture: 4,
        back_uniform: 5,
        vao: 6,
        vbo: 7,
        fbo: 8,
        pbo: 9,
    }
}

fn renderer(w: i32, h: i32) -> Renderer {
    Renderer::new(objects(), (w, h), 60, FRAMEBUFFER_COMPLETE).unwrap()
}

/// A BGRA frame whose byte at offset i is i modulo 251.
fn frame(w: i32, h: i32) -> Vec<u8> {
    (0..(w * h * 4) as usize).map(|i| (i % 251) as u8).collect()
}

/// What a texture of the given width holds after the upload is applied.
fn apply(texture: &mut [u8], width: i32, u: &PaintUpload) {
    let r = u.rect;
    for row in 0..r.height {
        for col in 0..r.width * 4 {
            let dst = ((r.y + row) * width * 4 + r.x * 4 + col) as usize;
            texture[dst] = u.staging[(row * r.width * 4 + col) as usize];
        }
    }
}

#[test]
fn partial_update_touches_only_its_rectangle() {
    let mut c = renderer(4, 3);
    let buf = frame(4, 3);
    let u = c.paint(1, 1, 2, 2, &buf, 4);
    assert!(u.resize.is_none());
    assert_eq!(u.rect, Rect { x: 1, y: 1, width: 2, height: 2 });
    assert_eq!(u.staging.len(), 16);
    let before = vec![7u8; 48];
    let mut after = before.clone();
    apply(&mut after, 4, &u);
    for i in 0..48usize {
        let px = i / 4;
        let (col, row) = (px % 4, px / 4);
        let inside = (1..3).contains(&col) && (1..3).contains(&row);
        if inside {
            assert_eq!(after[i], buf[i]);
        } else {
            assert_eq!(after[i], before[i]);
        }
    }
}

#[test]
fn rows_honor_the_stride() {
    let buf = frame(5, 2);
    let staging = copy_rows(&buf, 5, Rect { x: 2, y: 0, width: 1, height: 2 });
    assert_eq!(staging, vec![8, 9, 10, 11, 28, 29, 30, 31]);
    let empty = copy_rows(&buf, 5, Rect { x: 2, y: 0, width: 1, height: 0 });
    assert!(empty.is_empty());
}

#[test]
fn resize_then_stale_paint_resyncs_and_repeats_identically() {
    let mut c = renderer(4, 4);
    c.resize(6, 5);
    assert_eq!((c.width, c.height), (6, 5));
    assert_eq!((c.front_width, c.front_height), (4, 4));
    let buf = frame(4, 4);
    let first = c.paint(0, 0, 4, 4, &buf, 4);
    assert_eq!(first.resize, Some((6, 5)));
    assert_eq!((c.front_width, c.front_height), (6, 5));
    let second = c.paint(0, 0, 4, 4, &buf, 4);
    assert_eq!(second.resize, None);
    assert_eq!(first.staging, second.staging);
    let mut once = vec![0u8; 6 * 5 * 4];
    apply(&mut once, 6, &first);
    let mut twice = once.clone();
    apply(&mut twice, 6, &second);
    assert_eq!(once, twice);
}

#[test]
fn incomplete_framebuffer_is_an_error() {
    match Renderer::new(objects(), (4, 4), 60, 0x8CDD) {
        Err(RendererError::FramebufferIncomplete(s)) => assert_eq!(s, 0x8CDD),
        Ok(_) => panic!("expected an error"),
    }
    let mut slot: Option<Renderer> = None;
    assert!(create_renderer(&mut slot, objects(), (4, 4), 60, 0).is_err());
    assert!(slot.is_none());
    assert!(create_renderer(&mut slot, objects(), (4, 4), 60, FRAMEBUFFER_COMPLETE).is_ok());
    assert_eq!(slot.as_ref().unwrap().fbo, 8);
    assert!(drop_renderer(&mut slot).is_some());
    assert!(drop_renderer(&mut slot).is_none());
}

#[test]
fn teardown_order_and_draw_bindings() {
    let c = renderer(2, 2);
    let plan = c.draw_plan();
    assert_eq!((plan.back.unit, plan.back.texture, plan.back.uniform), (0, 4, 5));
    assert_eq!((plan.front.unit, plan.front.texture, plan.front.uniform), (1, 2, 3));
    assert_eq!(
        c.release(),
        vec![
            GlObject::Program(1),
            GlObject::Texture(2),
            GlObject::Texture(4),
            GlObject::Buffer(9),
            GlObject::Framebuffer(8),
            GlObject::Buffer(7),
            GlObject::VertexArray(6),
        ]
    );
}

#[test]
fn stale_frames_are_dropped_as_resized() {
    let mut c = renderer(4, 4);
    let buf = frame(3, 3);
    let (event, upload) = on_paint(&mut c, None, &buf, 3, 3);
    assert!(matches!(event, WebViewEvent::Resized));
    assert!(upload.is_none());
    let short = vec![0u8; 10];
    let (event, upload) = on_paint(&mut c, None, &short, 4, 4);
    assert!(matches!(event, WebViewEvent::Resized));
    assert!(upload.is_none());
    let outside = Rect { x: 3, y: 0, width: 2, height: 1 };
    let buf = frame(4, 4);
    let (event, _) = on_paint(&mut c, Some(outside), &buf, 4, 4);
    assert!(matches!(event, WebViewEvent::Resized));
}

#[test]
fn current_frames_are_painted() {
    let mut c = renderer(4, 4);
    let buf = frame(4, 4);
    let (event, upload) = on_paint(&mut c, None, &buf, 4, 4);
    assert!(matches!(event, WebViewEvent::Paint));
    let u = upload.unwrap();
    assert_eq!(u.rect, view_rect(&c));
    assert_eq!(u.staging, buf);
    let dirty = Rect { x: 1, y: 2, width: 1, height: 1 };
    let (event, upload) = on_paint(&mut c, Some(dirty), &buf, 4, 4);
    assert!(matches!(event, WebViewEvent::Paint));
    assert_eq!(upload.unwrap().staging, vec![36, 37, 38, 39]);
}

#[test]
fn second_acquisition_waits_for_the_first() {
    let mut broker: GpuBroker<String, u32> = GpuBroker::new();
    assert_eq!(broker.acquire(), None);
    create_gl(&mut broker, "surface".to_string(), 42);
    let first = broker.acquire();
    assert_eq!(first, Some(42));
    assert_eq!(broker.acquire(), None);
    broker.release(first.unwrap());
    let again = broker.acquire();
    assert_eq!(again, Some(42));
    assert_eq!(broker.surface().map(|s| s.as_str()), Some("surface"));
    broker.release(again.unwrap());
    drop_gl(&mut broker);
    assert_eq!(broker.acquire(), None);
    assert!(broker.surface().is_none());
}

#[test]
fn refresh_rate_from_monitors() {
    assert_eq!(refresh_rate(&vec![]), 30);
    assert_eq!(refresh_rate(&vec![None, Some(59_940), Some(144_000)]), 59);
}
