use music_bot::queue::{QueueItem, TrackMetadata};
use music_bot::registry::PlaybackRegistry;
use std::sync::Arc;

fn item(handle: u32) -> QueueItem<u32> {
    QueueItem {
        handle,
        info: TrackMetadata::from_resolved(None, None, None, None, None, 1),
    }
}

#[test]
fn get_or_create_returns_the_same_state() {
    let reg: PlaybackRegistry<u32> = PlaybackRegistry::new();
    let a = reg.get_or_create(5);
    let b = reg.get_or_create(5);
    assert!(Arc::ptr_eq(&a, &b));
    let s = a.try_lock().unwrap();
    assert!(s.current_track.is_none());
    assert!(s.queue.is_empty());
}

#[test]
fn concurrent_first_touch_creates_one_state() {
    let reg: Arc<PlaybackRegistry<u32>> = Arc::new(PlaybackRegistry::new());
    let rt = tokio::runtime::Runtime::new().unwrap();
    let states = rt.block_on(async {
        let mut tasks = Vec::new();
        for _ in 0..16 {
            let reg = reg.clone();
            tasks.push(tokio::spawn(async move { reg.get_or_create(77) }));
        }
        let mut out = Vec::new();
        for t in tasks {
            out.push(t.await.unwrap());
        }
        out
    });
    for s in &states {
        assert!(Arc::ptr_eq(s, &states[0]));
    }
    assert!(Arc::ptr_eq(&states[0], &reg.get_or_create(77)));
}

#[test]
fn guilds_are_isolated() {
    let reg: PlaybackRegistry<u32> = PlaybackRegistry::new();
    let g1 = reg.get_or_create(1);
    let g2 = reg.get_or_create(2);
    assert!(!Arc::ptr_eq(&g1, &g2));
    let mut s1 = g1.try_lock().unwrap();
    s1.enqueue(item(10));
    s1.enqueue(item(11));
    {
        // holding the first guild's lock does not block the second
        let s2 = g2.try_lock().unwrap();
        assert!(s2.current_track.is_none());
        assert!(s2.queue.is_empty());
    }
    assert_eq!(s1.queue.len(), 1);
}
