use iced_component::smooth_scrollable::{
    self, Arbitration, NestedSearch, ScrollEvent, ScrollMode, ScrollStep,
};

fn all_events() -> Vec<ScrollEvent> {
    vec![
        ScrollEvent::ModifiersChanged,
        ScrollEvent::Wheel { over: true },
        ScrollEvent::Wheel { over: false },
        ScrollEvent::RedrawRequested { animating: true },
        ScrollEvent::RedrawRequested { animating: false },
        ScrollEvent::ButtonPressed,
        ScrollEvent::Touch,
        ScrollEvent::Key,
        ScrollEvent::Other,
    ]
}

#[test]
fn smooth_is_the_default_mode() {
    assert_eq!(ScrollMode::default(), ScrollMode::Smooth);
}

#[test]
fn instant_mode_forwards_every_event() {
    for event in all_events() {
        assert_eq!(
            smooth_scrollable::update(ScrollMode::Instant, &event),
            ScrollStep::Forward
        );
    }
}

#[test]
fn smooth_mode_takes_the_wheel_over_the_widget() {
    let smooth = |event| smooth_scrollable::update(ScrollMode::Smooth, &event);

    assert_eq!(smooth(ScrollEvent::Wheel { over: true }), ScrollStep::Animate);
    assert_eq!(smooth(ScrollEvent::Wheel { over: false }), ScrollStep::Forward);
    assert_eq!(
        smooth(ScrollEvent::RedrawRequested { animating: true }),
        ScrollStep::Sample
    );
    assert_eq!(
        smooth(ScrollEvent::RedrawRequested { animating: false }),
        ScrollStep::Forward
    );
    assert_eq!(smooth(ScrollEvent::ButtonPressed), ScrollStep::Cancel);
    assert_eq!(smooth(ScrollEvent::Touch), ScrollStep::Cancel);
    assert_eq!(smooth(ScrollEvent::Key), ScrollStep::Cancel);
    assert_eq!(smooth(ScrollEvent::ModifiersChanged), ScrollStep::Forward);
    assert_eq!(smooth(ScrollEvent::Other), ScrollStep::Forward);
}

#[test]
fn a_nested_scrollable_gets_the_wheel_first() {
    assert_eq!(smooth_scrollable::arbitrate(true, true, false), Arbitration::Consumed);
    assert_eq!(smooth_scrollable::arbitrate(true, true, true), Arbitration::Rewind);
    assert_eq!(smooth_scrollable::arbitrate(true, false, true), Arbitration::Animate);
    assert_eq!(smooth_scrollable::arbitrate(false, true, false), Arbitration::Animate);
}

#[test]
fn the_search_skips_the_wrapper_and_keeps_what_it_found() {
    let mut search = NestedSearch::new();

    // The wrapper itself never counts.
    search.visit(true, true);
    assert!(!search.found);

    search.enter();
    search.visit(false, true);
    assert!(!search.found);
    search.visit(true, false);
    assert!(!search.found);
    search.visit(true, true);
    assert!(search.found);
    search.visit(true, false);
    assert!(search.found);
    search.leave();

    assert_eq!(search.depth, 0);
}

#[test]
fn instant_mode_jumps_to_the_destination() {
    // The wheel goes straight to the wrapped scrollable, which jumps at once;
    // no redraw is needed, and none is taken over.
    assert_eq!(
        smooth_scrollable::update(ScrollMode::Instant, &ScrollEvent::Wheel { over: true }),
        ScrollStep::Forward
    );
    assert_eq!(
        smooth_scrollable::update(
            ScrollMode::Instant,
            &ScrollEvent::RedrawRequested { animating: false }
        ),
        ScrollStep::Forward
    );
}

#[test]
fn nested_scrollable_consumes_the_wheel() {
    // The wrapper is reported first, then the nested scrollable under the
    // pointer, which has room to scroll.
    let mut search = NestedSearch::new();
    search.visit(true, true);
    search.enter();
    search.visit(true, true);
    search.leave();

    assert!(search.found);

    // The nested scrollable captures the notch and the wrapper stays put.
    assert_eq!(
        smooth_scrollable::arbitrate(search.found, true, false),
        Arbitration::Consumed
    );
}
