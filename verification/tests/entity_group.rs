use shmup::engine::entity_group::EntityGroup;
use shmup::engine::entity_group::Instance;

#[test]
fn new_group_is_empty() {
    let group = EntityGroup::new();
    assert_eq!(group.count(), 0);
}

#[test]
fn instance_holds_what_it_was_given() {
    let mut instance = Instance::new(3, 4, 90_000, 350);
    assert_eq!(instance.position_x(), 3);
    assert_eq!(instance.position_y(), 4);
    assert_eq!(instance.rotation(), 90_000);
    assert_eq!(instance.scale(), 350);
    instance.update(5, 6, -45_000, 2000);
    assert_eq!(instance.position_x(), 5);
    assert_eq!(instance.position_y(), 6);
    assert_eq!(instance.rotation(), -45_000);
    assert_eq!(instance.scale(), 2000);
}

#[test]
fn add_then_get() {
    let mut group = EntityGroup::new();
    assert_eq!(group.add_instance(7, 10, 20, 0, 1000), Ok(()));
    assert_eq!(group.add_instance(9, 30, 40, 180_000, 2000), Ok(()));
    assert_eq!(group.count(), 2);
    let found = group.get_instance(9).unwrap();
    assert_eq!(found.position_x(), 30);
    assert_eq!(found.position_y(), 40);
    assert_eq!(found.rotation(), 180_000);
    assert_eq!(found.scale(), 2000);
}

#[test]
fn id_in_use_is_refused() {
    let mut group = EntityGroup::new();
    assert_eq!(group.add_instance(7, 10, 20, 0, 1000), Ok(()));
    assert_eq!(group.add_instance(7, 99, 99, 0, 1000), Err("ID already exists"));
    assert_eq!(group.count(), 1);
    assert_eq!(group.get_instance(7).unwrap().position_x(), 10);
}

#[test]
fn unknown_id_is_refused() {
    let mut group = EntityGroup::new();
    assert_eq!(group.remove_instance(1), Err("Invalid id"));
    assert!(matches!(group.get_instance(1), Err("Invalid id")));
    assert_eq!(group.add_instance(1, 0, 0, 0, 1000), Ok(()));
    assert_eq!(group.remove_instance(2), Err("Invalid id"));
    assert_eq!(group.count(), 1);
}

#[test]
fn remove_takes_the_instance_out() {
    let mut group = EntityGroup::new();
    assert_eq!(group.add_instance(1, 0, 0, 0, 1000), Ok(()));
    assert_eq!(group.add_instance(2, 5, 5, 0, 1000), Ok(()));
    assert_eq!(group.remove_instance(1), Ok(()));
    assert_eq!(group.count(), 1);
    assert!(group.get_instance(1).is_err());
    assert_eq!(group.get_instance(2).unwrap().position_x(), 5);
    assert_eq!(group.remove_instance(1), Err("Invalid id"));
    assert_eq!(group.add_instance(1, 8, 8, 0, 1000), Ok(()));
    assert_eq!(group.count(), 2);
}

#[test]
fn instance_is_changed_in_place() {
    let mut group = EntityGroup::new();
    assert_eq!(group.add_instance(4, 1, 2, 0, 1000), Ok(()));
    group.get_instance(4).unwrap().update(11, 12, 30_000, 500);
    let found = group.get_instance(4).unwrap();
    assert_eq!(found.position_x(), 11);
    assert_eq!(found.position_y(), 12);
    assert_eq!(found.rotation(), 30_000);
    assert_eq!(found.scale(), 500);
    assert_eq!(group.count(), 1);
}

#[test]
fn six_corner_indices_for_each_instance() {
    let mut group = EntityGroup::new();
    assert!(group.indices().is_empty());
    assert_eq!(group.add_instance(1, 0, 0, 0, 1000), Ok(()));
    assert_eq!(group.indices(), &vec![0, 1, 2, 0, 2, 3]);
    assert_eq!(group.add_instance(2, 0, 0, 0, 1000), Ok(()));
    assert_eq!(group.indices(), &vec![0, 1, 2, 0, 2, 3, 0, 1, 2, 0, 2, 3]);
    assert_eq!(group.add_instance(2, 0, 0, 0, 1000), Err("ID already exists"));
    assert_eq!(group.indices().len(), 12);
    assert_eq!(group.remove_instance(9), Err("Invalid id"));
    assert_eq!(group.indices().len(), 12);
    assert_eq!(group.remove_instance(1), Ok(()));
    assert_eq!(group.indices(), &vec![0, 1, 2, 0, 2, 3]);
    assert_eq!(group.remove_instance(2), Ok(()));
    assert!(group.indices().is_empty());
}

#[test]
fn render_lists_every_instance_once() {
    let mut group = EntityGroup::new();
    assert!(group.render().is_empty());
    for id in 0..20 {
        assert_eq!(group.add_instance(id, id * 10, id * 10 + 1, 0, 1000), Ok(()));
    }
    assert_eq!(group.remove_instance(7), Ok(()));
    let placed = group.render();
    assert_eq!(placed.len(), 19);
    let mut xs: Vec<u32> = placed.iter().map(|p| p.position_x()).collect();
    xs.sort();
    let expected: Vec<u32> = (0..20).filter(|id| *id != 7).map(|id| id * 10).collect();
    assert_eq!(xs, expected);
    for p in placed.iter() {
        assert_eq!(p.position_y(), p.position_x() + 1);
    }
}
