use termtube::app::RepeatMode;
use termtube::audio::queue::{PlaybackQueue, QueueItem};

fn make_item(id: &str) -> QueueItem {
    QueueItem {
        id: id.to_string(),
        title: format!("Song {id}"),
        url: format!("https://example.com/{id}"),
        duration: Some(120),
    }
}

#[test]
fn test_next_linear() {
    let mut queue = PlaybackQueue::new();
    queue.enqueue(make_item("a"));
    queue.enqueue(make_item("b"));

    assert_eq!(queue.next().unwrap().id, "a");
    assert_eq!(queue.next().unwrap().id, "b");
    assert!(queue.next().is_none());
}

#[test]
fn test_repeat_all() {
    let mut queue = PlaybackQueue::new();
    queue.enqueue(make_item("a"));
    queue.enqueue(make_item("b"));
    queue.set_repeat(RepeatMode::All);

    assert_eq!(queue.next().unwrap().id, "a");
    assert_eq!(queue.next().unwrap().id, "b");
    assert_eq!(queue.next().unwrap().id, "a");
}

#[test]
fn test_previous_uses_history() {
    let mut queue = PlaybackQueue::new();
    queue.enqueue(make_item("a"));
    queue.enqueue(make_item("b"));

    queue.next();
    queue.next();
    assert_eq!(queue.previous().unwrap().id, "a");
}

#[test]
fn test_move_up() {
    let mut queue = PlaybackQueue::new();
    queue.enqueue(make_item("a"));
    queue.enqueue(make_item("b"));
    queue.enqueue(make_item("c"));

    let new_idx = queue.move_up(1);
    assert_eq!(new_idx, 0);
    assert_eq!(queue.items()[0].id, "b");
    assert_eq!(queue.items()[1].id, "a");
    assert_eq!(queue.items()[2].id, "c");
}

#[test]
fn test_move_up_first_item_stays() {
    let mut queue = PlaybackQueue::new();
    queue.enqueue(make_item("a"));
    queue.enqueue(make_item("b"));

    let new_idx = queue.move_up(0);
    assert_eq!(new_idx, 0);
    assert_eq!(queue.items()[0].id, "a");
}

#[test]
fn test_move_down() {
    let mut queue = PlaybackQueue::new();
    queue.enqueue(make_item("a"));
    queue.enqueue(make_item("b"));
    queue.enqueue(make_item("c"));

    let new_idx = queue.move_down(0);
    assert_eq!(new_idx, 1);
    assert_eq!(queue.items()[0].id, "b");
    assert_eq!(queue.items()[1].id, "a");
    assert_eq!(queue.items()[2].id, "c");
}

#[test]
fn test_move_down_last_item_stays() {
    let mut queue = PlaybackQueue::new();
    queue.enqueue(make_item("a"));
    queue.enqueue(make_item("b"));

    let new_idx = queue.move_down(1);
    assert_eq!(new_idx, 1);
    assert_eq!(queue.items()[1].id, "b");
}

#[test]
fn test_remove() {
    let mut queue = PlaybackQueue::new();
    queue.enqueue(make_item("a"));
    queue.enqueue(make_item("b"));
    queue.enqueue(make_item("c"));

    let removed = queue.remove(1).unwrap();
    assert_eq!(removed.id, "b");
    assert_eq!(queue.len(), 2);
    assert_eq!(queue.items()[0].id, "a");
    assert_eq!(queue.items()[1].id, "c");
}

#[test]
fn test_remove_adjusts_current_index() {
    let mut queue = PlaybackQueue::new();
    queue.enqueue(make_item("a"));
    queue.enqueue(make_item("b"));
    queue.enqueue(make_item("c"));

    queue.next();
    queue.next();
    assert_eq!(queue.current().unwrap().id, "b");

    queue.remove(0);
    assert_eq!(queue.current().unwrap().id, "b");
}

#[test]
fn test_move_up_adjusts_current_index() {
    let mut queue = PlaybackQueue::new();
    queue.enqueue(make_item("a"));
    queue.enqueue(make_item("b"));
    queue.enqueue(make_item("c"));

    queue.next();
    queue.next();
    assert_eq!(queue.current().unwrap().id, "b");

    queue.move_up(1);
    assert_eq!(queue.current().unwrap().id, "b");
}

#[test]
fn test_items_and_current_index() {
    let mut queue = PlaybackQueue::new();
    queue.enqueue(make_item("a"));
    queue.enqueue(make_item("b"));

    assert_eq!(queue.current_index(), None);
    assert_eq!(queue.items().len(), 2);

    queue.next();
    assert_eq!(queue.current_index(), Some(0));
}

#[test]
fn queue_move_up_then_down_restores_order() {
    let mut queue = PlaybackQueue::new();
    queue.enqueue(make_item("a"));
    queue.enqueue(make_item("b"));
    queue.enqueue(make_item("c"));
    let up = queue.move_up(2);
    assert_eq!(up, 1);
    let down = queue.move_down(up);
    assert_eq!(down, 2);
    let ids: Vec<&str> = queue.items().iter().map(|i| i.id.as_str()).collect();
    assert_eq!(ids, vec!["a", "b", "c"]);
}

#[test]
fn queue_remove_out_of_range_gives_none() {
    let mut queue = PlaybackQueue::new();
    queue.enqueue(make_item("a"));
    assert!(queue.remove(3).is_none());
    assert_eq!(queue.len(), 1);
}

#[test]
fn queue_remove_current_item_keeps_index_in_range() {
    let mut queue = PlaybackQueue::new();
    queue.enqueue(make_item("a"));
    queue.enqueue(make_item("b"));
    queue.next();
    queue.next();
    queue.remove(1);
    assert_eq!(queue.len(), 1);
    assert!(queue.current_index().map_or(true, |i| i < queue.len()));
}

#[test]
fn queue_shuffle_never_repeats_current() {
    let mut queue = PlaybackQueue::new();
    for id in ["a", "b", "c", "d"] {
        queue.enqueue(make_item(id));
    }
    queue.toggle_shuffle();
    let mut last = queue.next().expect("an item").id.clone();
    for _ in 0..20 {
        let item = queue.next().expect("another item").id.clone();
        assert_ne!(item, last);
        last = item;
    }
}

#[test]
fn queue_previous_without_history_steps_back() {
    let mut queue = PlaybackQueue::new();
    queue.enqueue(make_item("a"));
    queue.enqueue(make_item("b"));
    queue.next();
    assert!(queue.previous().is_none());
    queue.set_repeat(RepeatMode::All);
    queue.next();
    assert_eq!(queue.previous().map(|i| i.id.clone()), Some("b".to_string()));
}

#[test]
fn queue_empty_next_is_none() {
    let mut queue = PlaybackQueue::new();
    assert!(queue.is_empty());
    assert!(queue.next().is_none());
    assert!(queue.previous().is_none());
}
