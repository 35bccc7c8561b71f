use webxr::error::Error;
use webxr::layers::layer_sub_images;
use webxr::layers::ContextId;
use webxr::layers::FramebufferCache;
use webxr::layers::LayerId;
use webxr::layers::LayerList;
use webxr::registry::any_running;
use webxr::registry::FirstSuccess;
use webxr::registry::MainThreadRegistry;
use webxr::view::Viewport;

#[test]
fn registry_keeps_registration_order() {
    let mut r: MainThreadRegistry<&str, u8, u32> = MainThreadRegistry::new();
    r.register("a");
    r.register("b");
    r.add_simulated("mock");
    assert_eq!(r.discoveries, vec!["mock", "a", "b"]);
    r.register_mock(1);
    assert_eq!(r.mocks, vec![1]);
}

#[test]
fn stopped_sessions_are_dropped() {
    let mut r: MainThreadRegistry<u8, u8, u32> = MainThreadRegistry::new();
    for s in [10, 20, 30, 40] {
        r.run_on_main_thread(s);
    }
    r.retain_running(&vec![true, false, true, false]);
    assert_eq!(r.sessions, vec![10, 30]);
    r.retain_running(&vec![false, false]);
    assert!(r.sessions.is_empty());
}

/// Asks discoveries with the given answers; answers the outcome and the
/// indices of the discoveries that were asked.
fn ask(answers: &[bool]) -> (Result<(), Error>, Vec<usize>) {
    let mut q = FirstSuccess::new(answers.len());
    let mut asked = Vec::new();
    while let Some(i) = q.next_to_try() {
        asked.push(i);
        q.record(if answers[i] { Some(()) } else { None });
    }
    (q.result(), asked)
}

#[test]
fn asking_stops_at_the_first_yes() {
    assert_eq!(ask(&[false, true, true, false]).1, vec![0, 1]);
    assert_eq!(ask(&[true, false]).1, vec![0]);
    assert_eq!(ask(&[false, false, false]).1, vec![0, 1, 2]);
    assert!(ask(&[false, false, true]).0.is_ok());
}

#[test]
fn the_first_success_is_kept() {
    let outcomes = [None, Some("b"), Some("c")];
    let mut q = FirstSuccess::new(outcomes.len());
    let mut tried = 0;
    while let Some(i) = q.next_to_try() {
        tried += 1;
        q.record(outcomes[i]);
    }
    assert_eq!(tried, 2);
    assert_eq!(q.result().unwrap(), "b");
    let q: FirstSuccess<u8> = FirstSuccess::new(0);
    assert!(matches!(q.result(), Err(Error::NoMatchingDevice)));
}

#[test]
fn support_comes_from_any_discovery() {
    assert!(ask(&[false, true]).0.is_ok());
    assert!(matches!(ask(&[false, false]).0, Err(Error::NoMatchingDevice)));
    assert!(matches!(ask(&[]).0, Err(Error::NoMatchingDevice)));
    assert!(any_running(&vec![false, true]));
    assert!(!any_running(&vec![]));
}

#[test]
fn layers_are_listed_and_removed() {
    let mut l = LayerList::new();
    l.add(ContextId(1), LayerId(1));
    l.add(ContextId(1), LayerId(2));
    l.add(ContextId(2), LayerId(1));
    l.remove(ContextId(1), LayerId(1));
    assert_eq!(l.layers(), &[(ContextId(1), LayerId(2)), (ContextId(2), LayerId(1))]);
}

#[test]
fn framebuffers_are_cached_per_layer_and_texture() {
    let mut c = FramebufferCache::new();
    assert_eq!(c.lookup(LayerId(1), 5, None), None);
    c.insert(LayerId(1), 5, None, 100);
    c.insert(LayerId(1), 5, Some(6), 101);
    c.insert(LayerId(2), 7, None, 102);
    assert_eq!(c.lookup(LayerId(1), 5, None), Some(100));
    assert_eq!(c.lookup(LayerId(1), 5, Some(6)), Some(101));
    assert_eq!(c.remove_layer(LayerId(1)), vec![100, 101]);
    assert_eq!(c.lookup(LayerId(1), 5, None), None);
    assert_eq!(c.lookup(LayerId(2), 7, None), Some(102));
}

#[test]
fn layer_sub_images_cover_surface_and_views() {
    let vps = vec![Viewport::new(0, 0, 10, 20), Viewport::new(10, 0, 10, 20)];
    let s = layer_sub_images(LayerId(3), 42, 20, 20, &vps);
    assert_eq!(s.layer_id, LayerId(3));
    assert_eq!(s.sub_image.unwrap().viewport, Viewport::new(0, 0, 20, 20));
    assert_eq!(s.view_sub_images.len(), 2);
    assert_eq!(s.view_sub_images[1].viewport, vps[1]);
    assert_eq!(s.view_sub_images[1].color_texture, 42);
    assert_eq!(s.view_sub_images[0].depth_stencil_texture, None);
}
