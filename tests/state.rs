use yew_virtualized::{
    BindStep, Binding, ItemSize, ListController, Phase, ResizeObserver, SampleStep,
    ScrollSampler, SizeTable,
};

#[test]
fn resize_growth_keeps_measured_heights() {
    let mut t = SizeTable::new();
    t.resize(10, 30);
    t.set(3, 47);
    t.resize(20, 30);
    assert_eq!(t.len(), 20);
    assert_eq!(t.get(3), Some(47));
    for i in 10..20 {
        assert_eq!(t.get(i), Some(30));
    }
    assert_eq!(t.get(20), None);
}

#[test]
fn resize_shrink_truncates_and_regrow_uses_new_prior() {
    let mut t = SizeTable::new();
    t.resize(6, 10);
    t.set(1, 11);
    t.set(5, 15);
    t.resize(3, 10);
    assert_eq!(t.heights(), &[10, 11, 10]);
    t.resize(5, 20);
    assert_eq!(t.heights(), &[10, 11, 10, 20, 20]);
}

#[test]
fn set_out_of_bounds_is_ignored() {
    let mut t = SizeTable::new();
    t.resize(2, 9);
    t.set(2, 100);
    t.set(usize::MAX, 100);
    assert_eq!(t.heights(), &[9, 9]);
}

#[test]
fn item_size_conversions() {
    let s = ItemSize::Pixels(30);
    assert_eq!(s.pixels(), 30);
    assert_eq!(s.as_scroll_size(), 30);
    assert_eq!(s.times(4), Some(ItemSize::Pixels(120)));
    assert_eq!(ItemSize::Pixels(usize::MAX).times(2), None);
}

#[test]
fn sampler_burst_emits_first_payload_once() {
    let mut s: ScrollSampler<u32> = ScrollSampler::new(50);
    assert_eq!(s.delay_ms(), 50);
    let mut armed = 0;
    for payload in 0..100u32 {
        if s.on_raw(payload + 1000) == SampleStep::Armed {
            armed += 1;
        }
    }
    assert_eq!(armed, 1);
    assert!(s.is_pending());
    assert_eq!(s.on_timer(), Some(1000));
    assert!(!s.is_pending());
    assert_eq!(s.on_timer(), None);
    assert_eq!(s.on_raw(7), SampleStep::Armed);
    assert_eq!(s.on_raw(8), SampleStep::Dropped);
    assert_eq!(s.on_timer(), Some(7));
}

#[test]
fn binding_rebinds_by_element_identity() {
    let mut b = Binding::new();
    assert_eq!(b.rebind(1, 4), BindStep::Observe);
    assert_eq!(b.rebind(1, 5), BindStep::Keep);
    assert_eq!(b, Binding::Bound { element: 1, position: 5 });
    assert_eq!(b.rebind(2, 5), BindStep::Replace { released: 1 });
    assert_eq!(b.unbind(), Some(2));
    assert_eq!(b.unbind(), None);
    assert_eq!(b, Binding::Unbound);
}

#[test]
fn observer_releases_each_element_once() {
    let mut o = ResizeObserver::new();
    assert!(o.observe(3));
    assert!(!o.observe(3));
    assert!(o.observe(4));
    assert_eq!(o.len(), 2);
    assert!(o.is_observed(3));
    assert!(o.unobserve(3));
    assert!(!o.unobserve(3));
    assert!(!o.is_observed(3));
    assert!(o.disconnect());
    assert!(!o.disconnect());
    assert_eq!(o.len(), 0);
    assert!(!o.observe(5));
    assert!(!o.unobserve(4));
}

#[test]
fn controller_lifecycle() {
    let mut c = ListController::new(10, ItemSize::Pixels(20));
    assert_eq!(c.phase(), Phase::Unmounted);
    assert_eq!(c.window(), None);
    assert_eq!(c.item_count(), 10);
    assert!(c.mounted(50));
    assert!(!c.mounted(70));
    assert_eq!(c.viewport_extent(), 50);
    assert_eq!(c.phase(), Phase::Mounted);
    let w = c.window().unwrap();
    assert_eq!((w.first_index, w.past_last_index), (0, 8));

    assert!(!c.scroll_sampled(0));
    assert!(c.scroll_sampled(100));
    assert_eq!(c.scroll_offset(), 100);
    let w = c.window().unwrap();
    assert_eq!((w.first_index, w.past_last_index), (0, 10));
    assert_eq!(w.hidden_before, 0);

    assert!(c.resized(&[(0, 200), (42, 5), (0, 150)]));
    assert_eq!(c.heights()[0], 150);
    let w = c.window().unwrap();
    assert_eq!(w.first_index, 0);

    assert!(c.props_changed(12, ItemSize::Pixels(25)));
    assert_eq!(c.item_count(), 12);
    assert_eq!(c.heights()[0], 150);
    assert_eq!(c.heights()[11], 25);

    assert!(c.unmount());
    assert_eq!(c.phase(), Phase::TornDown);
    assert!(!c.unmount());
    assert!(!c.scroll_sampled(500));
    assert!(!c.resized(&[(1, 1)]));
    assert!(!c.props_changed(3, ItemSize::Pixels(1)));
    assert_eq!(c.item_count(), 12);
    assert_eq!(c.scroll_offset(), 100);
}
