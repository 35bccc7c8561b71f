use webxr::utils::ClipPlanes;

#[test]
fn new_clip_planes_have_no_pending_update() {
    let mut c = ClipPlanes::new(0.1f32, 1000.0f32);
    assert_eq!(c.near, 0.1);
    assert_eq!(c.far, 1000.0);
    assert!(!c.recently_updated());
}

#[test]
fn an_update_is_reported_exactly_once() {
    let mut c = ClipPlanes::new(1u32, 2u32);
    c.update(3, 4);
    assert_eq!((c.near, c.far), (3, 4));
    assert!(c.recently_updated());
    assert!(!c.recently_updated());
    assert_eq!((c.near, c.far), (3, 4));
}

#[test]
fn two_updates_are_reported_once() {
    let mut c = ClipPlanes::new(1u32, 2u32);
    c.update(3, 4);
    c.update(5, 6);
    assert!(c.recently_updated());
    assert!(!c.recently_updated());
    assert_eq!((c.near, c.far), (5, 6));
}
