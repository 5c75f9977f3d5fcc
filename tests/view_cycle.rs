use gpui_view::cell::{Element, Handle, LayoutId, ViewError, Window};
use gpui_view::view::{view, AnyView, View};

#[derive(Debug, Clone, PartialEq)]
struct Counter {
    count: u64,
}

fn count_text(s: &Counter) -> Element {
    Element::Text(format!("count={}", s.count))
}

fn counter_window(count: u64) -> (Window<Counter>, Handle) {
    let mut w = Window::new();
    let h = w.insert(Counter { count });
    (w, h)
}

fn run_cycle<F: Fn(&Counter) -> Element>(
    v: &View<Counter, (), F>,
    w: &mut Window<Counter>,
) -> Result<(), ViewError> {
    let (id, frame) = v.layout(&mut (), w)?;
    v.paint(id, &mut (), &frame, w)
}

#[test]
fn render_is_recomputed_every_cycle() {
    let (mut w, h) = counter_window(0);
    let v: View<Counter, (), _> = view(h, count_text);
    assert_eq!(run_cycle(&v, &mut w), Ok(()));
    assert_eq!(w.painted, vec!["count=0".to_string()]);
    assert_eq!(w.set_state(h, Counter { count: 5 }), Ok(()));
    assert_eq!(run_cycle(&v, &mut w), Ok(()));
    assert_eq!(w.painted, vec!["count=0".to_string(), "count=5".to_string()]);
}

#[test]
fn layout_renders_once_and_returns_child_layout_id() {
    let calls = std::cell::Cell::new(0u32);
    let (mut w, h) = counter_window(3);
    let v: View<Counter, (), _> = view(h, |s: &Counter| {
        calls.set(calls.get() + 1);
        count_text(s)
    });
    let r = v.layout(&mut (), &mut w);
    assert_eq!(calls.get(), 1);
    assert_eq!(r, Ok((LayoutId { id: 0 }, Element::Text("count=3".to_string()))));
    assert_eq!(w.next_layout, 1);
    let r2 = v.layout(&mut (), &mut w);
    assert_eq!(calls.get(), 2);
    assert_eq!(r2.map(|(id, _)| id), Ok(LayoutId { id: 1 }));
}

#[test]
fn clones_share_state() {
    let (mut w, h) = counter_window(1);
    let v: View<Counter, (), _> = view(h, count_text);
    let c = v.clone();
    assert_eq!(w.set_state(c.state, Counter { count: 9 }), Ok(()));
    assert_eq!(w.read(v.state), Some(&Counter { count: 9 }));
    assert_eq!(run_cycle(&v, &mut w), Ok(()));
    assert_eq!(w.painted, vec!["count=9".to_string()]);

    let a: AnyView<u8, Counter, (), _> = v.into_any();
    let b = a.clone();
    assert_eq!(w.set_state(b.view.state, Counter { count: 4 }), Ok(()));
    let (id, frame) = a.layout(&mut 0u8, &mut w).unwrap();
    assert_eq!(a.paint(id, &mut 0u8, &frame, &mut w), Ok(()));
    assert_eq!(w.painted[1], "count=4");
}

#[test]
fn erased_cycle_matches_typed_cycle() {
    let (mut typed_w, h1) = counter_window(7);
    let (mut erased_w, h2) = counter_window(7);
    let typed: View<Counter, (), _> = view(h1, count_text);
    let erased: AnyView<i32, Counter, (), _> =
        view::<Counter, (), _>(h2, count_text).into_any();

    let (id1, f1) = typed.layout(&mut (), &mut typed_w).unwrap();
    let mut parent = 11i32;
    let (id2, f2) = erased.layout(&mut parent, &mut erased_w).unwrap();
    assert_eq!(id1, id2);
    assert_eq!(f1, f2);
    assert_eq!(typed.paint(id1, &mut (), &f1, &mut typed_w), Ok(()));
    assert_eq!(erased.paint(id2, &mut parent, &f2, &mut erased_w), Ok(()));
    assert_eq!(parent, 11);
    assert_eq!(typed_w.painted, erased_w.painted);
    assert_eq!(typed_w.next_layout, erased_w.next_layout);
    assert_eq!(typed_w.read(h1), erased_w.read(h2));
}

#[test]
fn bridge_paints_its_own_frame() {
    let (mut w, h) = counter_window(2);
    let v: View<Counter, (), _> = view(h, count_text);
    let (id, frame) = v.object_layout(&mut w).unwrap();
    assert_eq!(frame, Element::Text("count=2".to_string()));
    assert_eq!(v.object_paint(id, &frame, &mut w), Ok(()));
    assert_eq!(w.painted, vec!["count=2".to_string()]);
}

#[test]
fn reentrant_update_fails_with_borrow_conflict() {
    let (mut w, h) = counter_window(6);
    let outer = w.begin_update(h);
    assert_eq!(outer, Ok(Counter { count: 6 }));
    assert_eq!(w.begin_update(h), Err(ViewError::BorrowConflict));
    assert_eq!(w.set_state(h, Counter { count: 1 }), Err(ViewError::BorrowConflict));
    assert_eq!(w.read(h), None);
    w.end_update(h, outer.unwrap());
    assert_eq!(w.read(h), Some(&Counter { count: 6 }));
}

#[test]
fn layout_and_paint_fail_while_scope_is_open() {
    let (mut w, h) = counter_window(0);
    let v: View<Counter, (), _> = view(h, count_text);
    let (id, frame) = v.layout(&mut (), &mut w).unwrap();
    let s = w.begin_update(h).unwrap();
    assert_eq!(v.layout(&mut (), &mut w), Err(ViewError::BorrowConflict));
    assert_eq!(v.paint(id, &mut (), &frame, &mut w), Err(ViewError::BorrowConflict));
    assert_eq!(w.next_layout, 1);
    assert!(w.painted.is_empty());
    w.end_update(h, s);
    assert_eq!(v.paint(id, &mut (), &frame, &mut w), Ok(()));
}

#[test]
fn child_failure_propagates() {
    let (mut w, h) = counter_window(0);
    let v: View<Counter, (), _> = view(h, |_: &Counter| Element::Broken);
    assert_eq!(v.layout(&mut (), &mut w), Err(ViewError::ChildFailed));
    assert_eq!(w.next_layout, 0);
    assert_eq!(w.read(h), Some(&Counter { count: 0 }));
    let typed: View<Counter, (), _> = view(h, count_text);
    let id = LayoutId { id: 0 };
    assert_eq!(typed.paint(id, &mut (), &Element::Broken, &mut w), Err(ViewError::ChildFailed));
    assert_eq!(w.read(h), Some(&Counter { count: 0 }));
}

#[test]
fn each_cell_gets_its_own_handle() {
    let mut w: Window<Counter> = Window::new();
    let a = w.insert(Counter { count: 1 });
    let b = w.insert(Counter { count: 2 });
    assert_eq!(a, Handle { id: 0 });
    assert_eq!(b, Handle { id: 1 });
    assert_eq!(w.read(b), Some(&Counter { count: 2 }));
}
