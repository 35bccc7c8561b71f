use webxr::hand::Finger;
use webxr::hand::Hand;
use webxr::hand::HandSpace;

#[test]
fn finger_map_applies_to_each_joint() {
    let mut f: Finger<i32> = Finger::empty();
    f.metacarpal = Some(1);
    f.phalanx_tip = Some(5);
    let g = f.map(|j: &Option<i32>| j.map(|v| v * 10));
    assert_eq!(g.metacarpal, Some(10));
    assert_eq!(g.phalanx_proximal, None);
    assert_eq!(g.phalanx_intermediate, None);
    assert_eq!(g.phalanx_distal, None);
    assert_eq!(g.phalanx_tip, Some(50));
}

#[test]
fn hand_map_applies_to_every_joint_of_every_finger() {
    let mut h: Hand<u8> = Hand::empty();
    h.wrist = Some(1);
    h.thumb_phalanx_tip = Some(2);
    h.index.metacarpal = Some(3);
    h.little.phalanx_tip = Some(4);
    let m = h.map(|j: &Option<u8>| j.map(|v| v as u32 + 100));
    assert_eq!(m.wrist, Some(101));
    assert_eq!(m.thumb_metacarpal, None);
    assert_eq!(m.thumb_phalanx_tip, Some(102));
    assert_eq!(m.index.metacarpal, Some(103));
    assert_eq!(m.middle.metacarpal, None);
    assert_eq!(m.little.phalanx_tip, Some(104));
}

#[test]
fn hand_map_can_fill_missing_joints() {
    let h: Hand<u8> = Hand::empty();
    let m = h.map(|j: &Option<u8>| Some(j.is_some()));
    assert_eq!(m.wrist, Some(false));
    assert_eq!(m.ring.phalanx_distal, Some(false));
    assert_eq!(HandSpace, HandSpace);
}

fn joints(h: &Hand<i32>) -> Vec<Option<i32>> {
    let mut v = vec![h.wrist, h.thumb_metacarpal, h.thumb_phalanx_proximal, h.thumb_phalanx_distal, h.thumb_phalanx_tip];
    for f in [&h.index, &h.middle, &h.ring, &h.little] {
        v.extend([f.metacarpal, f.phalanx_proximal, f.phalanx_intermediate, f.phalanx_distal, f.phalanx_tip]);
    }
    v
}

#[test]
fn hand_map_composes_and_keeps_with_identity() {
    let mut h: Hand<i32> = Hand::empty();
    h.wrist = Some(1);
    h.thumb_phalanx_distal = Some(2);
    h.middle.phalanx_intermediate = Some(3);
    h.ring.metacarpal = Some(4);
    let f = |j: &Option<i32>| j.map(|v| v + 1);
    let g = |j: &Option<i32>| j.map(|v| v * 3);
    let twice = h.map(f).map(g);
    let once = h.map(|j: &Option<i32>| g(&f(j)));
    assert_eq!(joints(&twice), joints(&once));
    assert_eq!(joints(&twice)[0], Some(6));
    let same = h.map(|j: &Option<i32>| *j);
    assert_eq!(joints(&same), joints(&h));
    assert_eq!(joints(&h).len(), 25);
}
