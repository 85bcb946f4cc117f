use audio_loop::subscription::SubscriptionMap;
use std::cell::RefCell;
use std::rc::Rc;

type Listener = Box<dyn FnMut(&u32)>;
type Log = Rc<RefCell<Vec<(char, u32)>>>;

fn listener(name: char, log: &Log) -> Listener {
    let log = Rc::clone(log);
    Box::new(move |update| log.borrow_mut().push((name, *update)))
}

fn heard(name: char, log: &Log) -> Vec<u32> {
    log.borrow().iter().filter(|d| d.0 == name).map(|d| d.1).collect()
}

#[test]
fn keys_count_up() {
    let log: Log = Rc::default();
    let mut map: SubscriptionMap<u32, Listener> = SubscriptionMap::new();
    assert_eq!(map.insert(listener('a', &log)), 0);
    assert_eq!(map.insert(listener('b', &log)), 1);
    assert!(map.remove(0));
    assert_eq!(map.insert(listener('c', &log)), 2);
}

#[test]
fn new_map_has_keys_left() {
    let mut map: SubscriptionMap<u32, Listener> = SubscriptionMap::new();
    assert!(map.can_subscribe());
    map.insert(Box::new(|_| ()));
    assert!(map.can_subscribe());
}

#[test]
fn remove_tells_whether_there_was_a_listener() {
    let log: Log = Rc::default();
    let mut map: SubscriptionMap<u32, Listener> = SubscriptionMap::new();
    assert!(!map.remove(0));
    let key = map.insert(listener('a', &log));
    assert!(map.remove(key));
    assert!(!map.remove(key));
}

#[test]
fn every_listener_receives_every_update() {
    let log: Log = Rc::default();
    let mut map: SubscriptionMap<u32, Listener> = SubscriptionMap::new();
    map.insert(listener('a', &log));
    let gone = map.insert(listener('b', &log));
    map.insert(listener('c', &log));
    let mut updates = vec![5, 6, 7];
    map.dispatch(&mut updates);
    assert!(updates.is_empty());
    map.remove(gone);
    map.dispatch(&mut vec![8]);
    map.dispatch(&mut Vec::new());
    assert_eq!(heard('a', &log), [5, 6, 7, 8]);
    assert_eq!(heard('b', &log), [5, 6, 7]);
    assert_eq!(heard('c', &log), [5, 6, 7, 8]);
}

#[test]
fn updates_are_delivered_in_rounds() {
    let log: Log = Rc::default();
    let mut map: SubscriptionMap<u32, Listener> = SubscriptionMap::new();
    for name in ['a', 'b', 'c', 'd'] {
        map.insert(listener(name, &log));
    }
    map.dispatch(&mut vec![1, 2, 3]);
    let updates: Vec<u32> = log.borrow().iter().map(|d| d.1).collect();
    assert_eq!(updates, [1, 1, 1, 1, 2, 2, 2, 2, 3, 3, 3, 3]);
    for round in log.borrow().chunks(4) {
        let mut names: Vec<char> = round.iter().map(|d| d.0).collect();
        names.sort();
        assert_eq!(names, ['a', 'b', 'c', 'd']);
    }
}

#[test]
fn unsubscribe_ends_one_subscription() {
    let log: Log = Rc::default();
    let mut map: SubscriptionMap<u32, Listener> = SubscriptionMap::new();
    let a = map.subscribe(listener('a', &log));
    let b = map.subscribe(listener('b', &log));
    assert!(map.unsubscribe(a));
    map.dispatch(&mut vec![1]);
    assert!(map.unsubscribe(b));
    map.dispatch(&mut vec![2]);
    assert_eq!(*log.borrow(), [('b', 1)]);
}

#[test]
fn listener_keeps_its_own_state() {
    let total = Rc::new(RefCell::new(0));
    let shared = Rc::clone(&total);
    let mut sum = 0;
    let mut map: SubscriptionMap<u32, Listener> = SubscriptionMap::new();
    map.subscribe(Box::new(move |update| {
        sum += *update;
        *shared.borrow_mut() = sum;
    }));
    map.dispatch(&mut vec![1, 2]);
    map.dispatch(&mut vec![4]);
    assert_eq!(*total.borrow(), 7);
}
