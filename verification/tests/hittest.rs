use webxr::hittest::EntityType;
use webxr::hittest::EntityTypes;
use webxr::hittest::HitTestId;

#[test]
fn default_entity_types_are_empty() {
    let t = EntityTypes::default();
    assert!(!t.is_type(EntityType::Point));
    assert!(!t.is_type(EntityType::Plane));
    assert!(!t.is_type(EntityType::Mesh));
}

#[test]
fn add_type_adds_only_that_type() {
    let mut t = EntityTypes::default();
    t.add_type(EntityType::Plane);
    assert!(t.is_type(EntityType::Plane));
    assert!(!t.is_type(EntityType::Point));
    assert!(!t.is_type(EntityType::Mesh));
    t.add_type(EntityType::Plane);
    assert_eq!(t, EntityTypes { point: false, plane: true, mesh: false });
    t.add_type(EntityType::Mesh);
    assert_eq!(t, EntityTypes { point: false, plane: true, mesh: true });
}

#[test]
fn from_types_collects_the_listed_types() {
    let t = EntityTypes::from_types(&[EntityType::Mesh, EntityType::Point, EntityType::Mesh]);
    assert_eq!(t, EntityTypes { point: true, plane: false, mesh: true });
    let empty = EntityTypes::from_types(&[]);
    assert_eq!(empty, EntityTypes::default());
}

#[test]
fn hit_test_ids_compare_by_value() {
    assert_eq!(HitTestId(3), HitTestId(3));
    assert_ne!(HitTestId(3), HitTestId(4));
}
