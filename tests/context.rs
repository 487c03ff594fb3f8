use canvas_context::context::{
    send_outcome, CanvasError, CanvasRenderingContext2D, LayoutCanvasRenderingContext2DHelpers,
};
use canvas_context::protocol::{CanvasMsg, Rect, Size};
use canvas_context::renderer::Renderer;
use canvas_context::stack::StateStack;
use canvas_context::state::{
    CapStyle, CompositionOp, JoinStyle, State, TextAlign, TextBaseline, F64_ONE_BITS,
    F64_TEN_BITS, F64_ZERO_BITS,
};
use std::sync::mpsc::{channel, Receiver};

fn rect(x: f32, y: f32, w: f32, h: f32) -> Rect {
    Rect::new(x.to_bits(), y.to_bits(), w.to_bits(), h.to_bits())
}

fn drain(rx: &Receiver<CanvasMsg>) -> Vec<CanvasMsg> {
    rx.try_iter().collect()
}

#[test]
fn default_state_values() {
    let s = State::new();
    assert_eq!(s.text_align, TextAlign::Start);
    assert_eq!(s.text_baseline, TextBaseline::Alphabetic);
    assert_eq!(f64::from_bits(s.line_width), 1.0);
    assert_eq!(s.line_join, JoinStyle::MiterOrBevel);
    assert_eq!(s.line_cap, CapStyle::Butt);
    assert_eq!(f64::from_bits(s.miter_limit), 10.0);
    assert_eq!(f64::from_bits(s.global_alpha), 1.0);
    assert_eq!(f64::from_bits(s.shadow_blur), 0.0);
    assert_eq!(f64::from_bits(s.dash_offset), 0.0);
    assert_eq!(s.op, CompositionOp::Over);
}

#[test]
fn bit_constants_match_values() {
    assert_eq!(F64_ZERO_BITS, 0.0f64.to_bits());
    assert_eq!(F64_ONE_BITS, 1.0f64.to_bits());
    assert_eq!(F64_TEN_BITS, 10.0f64.to_bits());
}

#[test]
fn fresh_context_has_one_default_frame() {
    let (tx, rx) = channel();
    let ctx = CanvasRenderingContext2D::new("surface", tx);
    assert_eq!(ctx.saved_count(), 0);
    assert_eq!(*ctx.current_state(), State::new());
    assert!(!ctx.is_closed());
    assert!(drain(&rx).is_empty());
}

#[test]
fn canvas_accessor_returns_surface() {
    let (tx, _rx) = channel();
    let ctx = CanvasRenderingContext2D::new(vec![7u8, 8], tx);
    assert_eq!(ctx.canvas(), &vec![7u8, 8]);
}

#[test]
fn fill_rect_sends_one_message() {
    let (tx, rx) = channel();
    let mut ctx = CanvasRenderingContext2D::new((), tx);
    assert_eq!(ctx.fill_rect(rect(10.0, 20.0, 30.0, 40.0)), Ok(()));
    let got = drain(&rx);
    assert_eq!(got.len(), 1);
    match got[0] {
        CanvasMsg::FillRect(r) => {
            assert_eq!(f32::from_bits(r.x), 10.0);
            assert_eq!(f32::from_bits(r.y), 20.0);
            assert_eq!(f32::from_bits(r.width), 30.0);
            assert_eq!(f32::from_bits(r.height), 40.0);
        }
        other => panic!("unexpected message {:?}", other),
    }
}

#[test]
fn negative_size_passes_through() {
    let (tx, rx) = channel();
    let mut ctx = CanvasRenderingContext2D::new((), tx);
    let r = rect(5.0, 5.0, -3.0, 0.0);
    assert_eq!(ctx.clear_rect(r), Ok(()));
    assert_eq!(drain(&rx), vec![CanvasMsg::ClearRect(r)]);
}

#[test]
fn recreate_sends_in_order_and_keeps_state() {
    let (tx, rx) = channel();
    let mut ctx = CanvasRenderingContext2D::new((), tx);
    ctx.save();
    ctx.current_state_mut().global_alpha = 0.5f64.to_bits();
    let before = *ctx.current_state();
    let sizes = [Size::new(10, 20), Size::new(10, 20), Size::new(300, 150)];
    for s in sizes.iter() {
        assert_eq!(ctx.recreate(*s), Ok(()));
    }
    let expected: Vec<CanvasMsg> = sizes.iter().map(|s| CanvasMsg::Recreate(*s)).collect();
    assert_eq!(drain(&rx), expected);
    assert_eq!(ctx.saved_count(), 1);
    assert_eq!(*ctx.current_state(), before);
}

#[test]
fn drop_sends_close_last_and_once() {
    let (tx, rx) = channel();
    {
        let mut ctx = CanvasRenderingContext2D::new((), tx);
        assert_eq!(ctx.stroke_rect(rect(1.0, 2.0, 3.0, 4.0)), Ok(()));
    }
    let got: Vec<CanvasMsg> = rx.iter().collect();
    assert_eq!(got, vec![CanvasMsg::StrokeRect(rect(1.0, 2.0, 3.0, 4.0)), CanvasMsg::Close]);
}

#[test]
fn explicit_close_then_drop_sends_close_once() {
    let (tx, rx) = channel();
    {
        let mut ctx = CanvasRenderingContext2D::new((), tx);
        assert_eq!(ctx.close(), Ok(()));
        assert!(ctx.is_closed());
        assert_eq!(ctx.close(), Err(CanvasError::Closed));
    }
    let got: Vec<CanvasMsg> = rx.iter().collect();
    assert_eq!(got, vec![CanvasMsg::Close]);
}

#[test]
fn commands_after_close_are_refused() {
    let (tx, rx) = channel();
    let mut ctx = CanvasRenderingContext2D::new((), tx);
    assert_eq!(ctx.close(), Ok(()));
    assert_eq!(ctx.fill_rect(rect(0.0, 0.0, 1.0, 1.0)), Err(CanvasError::Closed));
    assert_eq!(ctx.recreate(Size::new(1, 1)), Err(CanvasError::Closed));
    assert_eq!(drain(&rx), vec![CanvasMsg::Close]);
}

#[test]
fn unreachable_renderer_is_reported() {
    let (tx, rx) = channel();
    drop(rx);
    let mut ctx = CanvasRenderingContext2D::new((), tx);
    assert_eq!(ctx.fill_rect(rect(0.0, 0.0, 1.0, 1.0)), Err(CanvasError::Disconnected));
    assert!(ctx.is_closed());
    assert_eq!(ctx.stroke_rect(rect(0.0, 0.0, 1.0, 1.0)), Err(CanvasError::Closed));
}

#[test]
fn ten_interleaved_commands_arrive_in_order() {
    let (tx, rx) = channel();
    let mut ctx = CanvasRenderingContext2D::new((), tx);
    let mut expected = Vec::new();
    for i in 0..10u32 {
        let r = rect(i as f32, 0.0, 1.0, 1.0);
        match i % 3 {
            0 => {
                assert_eq!(ctx.fill_rect(r), Ok(()));
                expected.push(CanvasMsg::FillRect(r));
            }
            1 => {
                assert_eq!(ctx.clear_rect(r), Ok(()));
                expected.push(CanvasMsg::ClearRect(r));
            }
            _ => {
                assert_eq!(ctx.stroke_rect(r), Ok(()));
                expected.push(CanvasMsg::StrokeRect(r));
            }
        }
    }
    assert_eq!(drain(&rx), expected);
}

#[test]
fn restore_without_save_is_a_no_op() {
    let (tx, rx) = channel();
    let mut ctx = CanvasRenderingContext2D::new((), tx);
    ctx.restore();
    ctx.restore();
    assert_eq!(ctx.saved_count(), 0);
    assert_eq!(*ctx.current_state(), State::new());
    assert!(drain(&rx).is_empty());
}

#[test]
fn save_restore_keeps_top_frame() {
    let (tx, _rx) = channel();
    let mut ctx = CanvasRenderingContext2D::new((), tx);
    ctx.current_state_mut().text_align = TextAlign::Center;
    let before = *ctx.current_state();
    ctx.save();
    ctx.current_state_mut().line_width = 4.0f64.to_bits();
    ctx.current_state_mut().op = CompositionOp::Xor;
    assert_eq!(ctx.saved_count(), 1);
    ctx.restore();
    assert_eq!(ctx.saved_count(), 0);
    assert_eq!(*ctx.current_state(), before);
}

#[test]
fn stack_length_stays_positive() {
    let mut st = StateStack::new();
    let ops = [true, false, false, false, true, true, false, true, false, false, false];
    let expected_saved = [1usize, 0, 0, 0, 1, 2, 1, 2, 1, 0, 0];
    for (push, saved) in ops.iter().zip(expected_saved.iter()) {
        if *push {
            st.push();
        } else {
            st.pop();
        }
        assert_eq!(st.saved_count(), *saved);
        assert_eq!(*st.current(), State::new());
    }
}

#[test]
fn stack_push_copies_top() {
    let mut st = StateStack::new();
    st.current_mut().shadow_blur = 2.5f64.to_bits();
    st.push();
    assert_eq!(st.saved_count(), 1);
    assert_eq!(f64::from_bits(st.current().shadow_blur), 2.5);
    st.current_mut().shadow_blur = 0.0f64.to_bits();
    st.pop();
    assert_eq!(f64::from_bits(st.current().shadow_blur), 2.5);
}

#[test]
fn outcome_of_send() {
    assert_eq!(send_outcome(true), Ok(()));
    assert_eq!(send_outcome(false), Err(CanvasError::Disconnected));
}

#[test]
fn cloned_renderer_reaches_same_channel() {
    let (tx, rx) = channel();
    let ctx = CanvasRenderingContext2D::new((), tx);
    let other = ctx.get_renderer();
    other.send(CanvasMsg::Recreate(Size::new(2, 3))).unwrap();
    assert_eq!(drain(&rx), vec![CanvasMsg::Recreate(Size::new(2, 3))]);
}

#[test]
fn renderer_send_hands_message_to_channel() {
    let (tx, rx) = channel();
    let mut renderer = Renderer::new(tx);
    assert!(renderer.send(CanvasMsg::Recreate(Size::new(4, 5))));
    assert_eq!(drain(&rx), vec![CanvasMsg::Recreate(Size::new(4, 5))]);
    drop(rx);
    assert!(!renderer.send(CanvasMsg::Close));
}

#[test]
fn fill_rect_then_drop_sends_fill_then_close() {
    let (tx, rx) = channel();
    {
        let mut ctx = CanvasRenderingContext2D::new("surface", tx);
        assert_eq!(ctx.recreate(Size::new(300, 150)), Ok(()));
        let _ = rx.recv().unwrap();
        assert_eq!(ctx.fill_rect(rect(10.0, 20.0, 30.0, 40.0)), Ok(()));
    }
    let got: Vec<CanvasMsg> = rx.iter().collect();
    assert_eq!(got, vec![CanvasMsg::FillRect(rect(10.0, 20.0, 30.0, 40.0)), CanvasMsg::Close]);
}

#[test]
fn early_release_sends_close_once() {
    let (tx, rx) = channel();
    let release_early = |tx| -> Result<(), CanvasError> {
        let mut ctx = CanvasRenderingContext2D::new((), tx);
        ctx.fill_rect(rect(0.0, 0.0, 2.0, 2.0))?;
        ctx.close()?;
        Err(CanvasError::Closed)
    };
    assert_eq!(release_early(tx), Err(CanvasError::Closed));
    let got: Vec<CanvasMsg> = rx.iter().collect();
    assert_eq!(got, vec![CanvasMsg::FillRect(rect(0.0, 0.0, 2.0, 2.0)), CanvasMsg::Close]);
}
