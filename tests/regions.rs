use layout_engine::geom::{Length, Ratio, Size, Spec};
use layout_engine::regions::Regions;

fn size(w: u64, h: u64) -> Size {
    Size::new(Length::Finite(w), Length::Finite(h))
}

fn flags() -> Spec<bool> {
    Spec::new(true, true)
}

#[test]
fn one_has_no_followup_regions() {
    let mut r = Regions::one(size(10, 20), flags());
    assert!(r.backlog.is_empty());
    assert_eq!(r.last, None);
    assert!(r.in_full_last());
    r.next();
    assert_eq!(r.current, size(10, 20));
    assert_eq!(r.base, size(10, 20));
}

#[test]
fn advance_is_idempotent_when_exhausted() {
    let mut r = Regions::one(size(10, 20), flags());
    r.backlog.push(size(5, 5));
    r.next();
    assert_eq!(r.current, size(5, 5));
    r.current = size(3, 4);
    r.next();
    r.next();
    r.next();
    assert_eq!(r.current, size(3, 4));
    assert_eq!(r.base, size(5, 5));
    assert!(r.backlog.is_empty());
}

#[test]
fn repeat_stays_in_full_last() {
    let mut r = Regions::repeat(size(600, 800), flags());
    assert!(r.in_full_last());
    for _ in 0..5 {
        r.next();
        assert!(r.in_full_last());
        assert_eq!(r.current, size(600, 800));
    }
    r.current = size(600, 300);
    assert!(!r.in_full_last());
    r.next();
    assert!(r.in_full_last());
    assert_eq!(r.current, size(600, 800));
}

#[test]
fn backlog_is_a_stack() {
    let mut r = Regions::one(size(1, 1), flags());
    // Pushed in reverse reading order: the last pushed comes next.
    r.backlog.push(size(3, 3));
    r.backlog.push(size(2, 2));
    assert!(!r.in_full_last());
    r.next();
    assert_eq!(r.current, size(2, 2));
    assert_eq!(r.base, size(2, 2));
    r.next();
    assert_eq!(r.current, size(3, 3));
    r.next();
    assert_eq!(r.current, size(3, 3));
}

#[test]
fn backlog_drains_into_last() {
    let mut r = Regions::repeat(size(9, 9), flags());
    r.backlog.push(size(4, 4));
    r.current = size(1, 1);
    r.next();
    assert_eq!(r.current, size(4, 4));
    assert!(!r.in_full_last());
    r.next();
    assert_eq!(r.current, size(9, 9));
    assert!(r.in_full_last());
}

#[test]
fn aspect_ratio_square_on_wide_region() {
    let mut r = Regions::one(size(200, 100), flags());
    r.apply_aspect_ratio(Ratio { num: 1, den: 1 });
    assert_eq!(r.current, size(100, 100));
    assert_eq!(r.base, size(200, 100));
}

#[test]
fn aspect_ratio_wide_on_tall_region() {
    let mut r = Regions::one(size(300, 100), flags());
    r.apply_aspect_ratio(Ratio { num: 2, den: 1 });
    assert_eq!(r.current, size(200, 100));
    let mut r = Regions::one(size(100, 300), flags());
    r.apply_aspect_ratio(Ratio { num: 1, den: 2 });
    assert_eq!(r.current, size(100, 200));
}

#[test]
fn aspect_ratio_with_unbounded_height() {
    let mut r = Regions::one(Size::new(Length::Finite(120), Length::Infinite), flags());
    r.apply_aspect_ratio(Ratio { num: 3, den: 2 });
    assert_eq!(r.current, size(120, 80));
    let mut r = Regions::one(Size::new(Length::Infinite, Length::Infinite), flags());
    r.apply_aspect_ratio(Ratio { num: 1, den: 1 });
    assert_eq!(r.current, Size::new(Length::Infinite, Length::Infinite));
}

#[test]
fn aspect_ratio_beyond_range_is_unbounded() {
    let mut r = Regions::one(Size::new(Length::Infinite, Length::Finite(u64::MAX)), flags());
    r.apply_aspect_ratio(Ratio { num: 2, den: 1 });
    assert_eq!(r.current, Size::new(Length::Infinite, Length::Infinite));
}

#[test]
fn map_transforms_every_region() {
    let mut r = Regions::repeat(size(100, 200), Spec::new(true, false));
    r.backlog.push(size(50, 60));
    r.backlog.push(size(70, 80));
    let inset = |s: Size| match (s.width, s.height) {
        (Length::Finite(w), Length::Finite(h)) => size(w / 2, h / 2),
        _ => s,
    };
    let m = r.map(inset);
    assert_eq!(m.current, size(50, 100));
    assert_eq!(m.base, size(50, 100));
    assert_eq!(m.backlog, vec![size(25, 30), size(35, 40)]);
    assert_eq!(m.last, Some(size(50, 100)));
    assert_eq!(m.fixed, Spec::new(true, false));
}

#[test]
fn regions_equality_is_structural() {
    let a = Regions::repeat(size(1, 2), flags());
    let b = Regions::repeat(size(1, 2), flags());
    assert!(a == b);
    let c = Regions::one(size(1, 2), flags());
    assert!(a != c);
    let mut d = Regions::repeat(size(1, 2), flags());
    d.backlog.push(size(1, 2));
    assert!(a != d);
    let e = Regions::repeat(size(1, 2), Spec::new(true, false));
    assert!(a != e);
}

#[test]
fn copied_is_equal() {
    let mut a = Regions::repeat(size(1, 2), flags());
    a.backlog.push(size(7, 8));
    assert!(a.copied() == a);
}
