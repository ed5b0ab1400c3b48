use ray_tracer::camera::image_height;
use ray_tracer::hittable_list::HittableList;

#[test]
fn image_height_keeps_positive_quotient() {
    assert_eq!(image_height(225), 225);
    assert_eq!(image_height(1), 1);
}

#[test]
fn image_height_is_at_least_one() {
    assert_eq!(image_height(0), 1);
    assert_eq!(image_height(-7), 1);
}

#[test]
fn list_holds_its_first_object() {
    let l = HittableList::new(7u32);
    assert_eq!(l.objects(), &vec![7u32]);
    assert_eq!(l.len(), 1);
}

#[test]
fn list_keeps_insertion_order() {
    let mut l = HittableList::new('a');
    l.add('b');
    l.add('c');
    assert_eq!(l.objects(), &vec!['a', 'b', 'c']);
}

#[test]
fn cleared_list_is_empty() {
    let mut l = HittableList::new(1i64);
    l.add(2);
    l.clear();
    assert_eq!(l.len(), 0);
    l.add(3);
    assert_eq!(l.objects(), &vec![3i64]);
}

#[test]
fn default_list_is_empty() {
    let l: HittableList<u8> = HittableList::default();
    assert_eq!(l.len(), 0);
    let e: HittableList<u8> = HittableList::empty();
    assert!(e.objects().is_empty());
}
