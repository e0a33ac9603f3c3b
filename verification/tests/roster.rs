use save_revert::format::{CURRENT_CAPACITY, LEGACY_CAPACITY};
use save_revert::hooks::{unitaccessorylist_ctor_hook, unitaccessorylist_get_count};
use save_revert::slot::Slot;
use save_revert::slot_list::SlotList;

fn roster_with(ids: &[i32]) -> SlotList {
    let mut list = SlotList::new(ids.len());
    for (index, id) in ids.iter().enumerate() {
        list.set_slot(index, Slot::holding(*id));
    }
    list
}

#[test]
fn new_roster_counts_its_capacity_and_is_empty() {
    let list = SlotList::new(8);
    assert_eq!(list.count(), 8);
    assert_eq!(list.item_ids(), vec![0; 8]);
    for index in 0..8 {
        assert!(list.slot(index).is_empty());
    }
}

#[test]
fn new_roster_of_no_slots() {
    let list = SlotList::new(0);
    assert_eq!(list.count(), 0);
    assert_eq!(list.item_ids(), Vec::<i32>::new());
}

#[test]
fn capacities_are_four_and_eight() {
    assert_eq!(LEGACY_CAPACITY, 4);
    assert_eq!(CURRENT_CAPACITY, 8);
    assert_eq!(SlotList::new(LEGACY_CAPACITY).count(), 4);
    assert_eq!(SlotList::new(CURRENT_CAPACITY).count(), 8);
}

#[test]
fn set_slot_changes_one_slot() {
    let mut list = SlotList::new(4);
    list.set_slot(2, Slot::holding(17));
    assert_eq!(list.item_ids(), vec![0, 0, 17, 0]);
    assert_eq!(list.slot(2), Slot::holding(17));
    assert_eq!(list.slot(1), Slot::empty());
    assert_eq!(list.count(), 4);
}

#[test]
fn expand_appends_empty_slots_and_keeps_the_rest() {
    let mut list = roster_with(&[3, 0, 5, 9]);
    list.expand_to(8);
    assert_eq!(list.count(), 8);
    assert_eq!(list.item_ids(), vec![3, 0, 5, 9, 0, 0, 0, 0]);
}

#[test]
fn expand_twice_keeps_earlier_slots_and_empties_later_ones() {
    let mut list = roster_with(&[1, 2]);
    list.expand_to(4);
    assert_eq!(list.item_ids(), vec![1, 2, 0, 0]);
    list.set_slot(3, Slot::holding(7));
    list.expand_to(8);
    assert_eq!(list.count(), 8);
    assert_eq!(list.item_ids(), vec![1, 2, 0, 7, 0, 0, 0, 0]);
}

#[test]
fn expand_in_two_steps_equals_expand_in_one() {
    let mut stepwise = roster_with(&[6, 5, 4]);
    stepwise.expand_to(5);
    stepwise.expand_to(9);
    let mut direct = roster_with(&[6, 5, 4]);
    direct.expand_to(9);
    assert_eq!(stepwise.item_ids(), direct.item_ids());
    assert_eq!(stepwise.item_ids(), vec![6, 5, 4, 0, 0, 0, 0, 0, 0]);
}

#[test]
fn expand_to_the_same_capacity_changes_nothing() {
    let mut list = roster_with(&[3, 0, 5, 9]);
    list.expand_to(4);
    assert_eq!(list.count(), 4);
    assert_eq!(list.item_ids(), vec![3, 0, 5, 9]);
}

#[test]
fn expand_from_nothing() {
    let mut list = SlotList::new(0);
    list.expand_to(3);
    assert_eq!(list.count(), 3);
    assert_eq!(list.item_ids(), vec![0, 0, 0]);
}

#[test]
fn reset_empties_every_slot_and_keeps_the_count() {
    let mut list = roster_with(&[3, 1, 5, 9, 2, 6, 5, 3]);
    list.reset_all();
    assert_eq!(list.count(), 8);
    assert_eq!(list.item_ids(), vec![0; 8]);
}

#[test]
fn reset_twice_is_reset_once() {
    let mut list = roster_with(&[3, 1, 5]);
    list.reset_all();
    let once = list.item_ids();
    list.reset_all();
    assert_eq!(list.item_ids(), once);
    assert_eq!(list.count(), 3);
}

#[test]
fn reset_of_an_empty_roster() {
    let mut list = SlotList::new(0);
    list.reset_all();
    assert_eq!(list.count(), 0);
}

#[test]
fn construction_grows_and_empties_a_legacy_roster() {
    let mut list = roster_with(&[3, 1, 5, 9]);
    unitaccessorylist_ctor_hook(&mut list, CURRENT_CAPACITY);
    assert_eq!(list.count(), 8);
    assert_eq!(list.item_ids(), vec![0; 8]);
    assert_eq!(unitaccessorylist_get_count(&list), 8);
}

#[test]
fn construction_at_the_same_capacity_empties_the_roster() {
    let mut list = roster_with(&[3, 1, 5, 9]);
    unitaccessorylist_ctor_hook(&mut list, 4);
    assert_eq!(list.item_ids(), vec![0; 4]);
    assert_eq!(unitaccessorylist_get_count(&list), 4);
}

#[test]
fn reported_count_is_the_capacity_before_any_slot_is_set() {
    let list = SlotList::new(CURRENT_CAPACITY);
    assert_eq!(unitaccessorylist_get_count(&list), 8);
    assert_eq!(unitaccessorylist_get_count(&SlotList::new(0)), 0);
}
