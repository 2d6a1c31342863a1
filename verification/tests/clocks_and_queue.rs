use kernel_core::bringup::{init, BringupAssets};
use kernel_core::event::Event;
use kernel_core::queue::{EventQueue, EVENT_QUEUE_CAP};
use kernel_core::time::Duration;

#[test]
fn duration_add_carries_nanos() {
    let a = Duration { secs: 1, nanos: 600_000_000 };
    let b = Duration { secs: 2, nanos: 700_000_000 };
    let r = a.plus(b);
    assert_eq!(r, Duration { secs: 4, nanos: 300_000_000 });
}

#[test]
fn duration_add_without_carry() {
    let a = Duration { secs: 5, nanos: 100 };
    let b = Duration { secs: 0, nanos: 23 };
    assert_eq!(a.plus(b), Duration { secs: 5, nanos: 123 });
}

#[test]
fn pit_quantum_value() {
    let q = Duration::pit_quantum();
    assert_eq!(q, Duration { secs: 0, nanos: 2_250_286 });
}

#[test]
fn thousand_ticks_advance_monotonic() {
    let assets = BringupAssets {
        ram_pages: 1024,
        rtc_time: Duration { secs: 1_000_000, nanos: 0 },
        pci_items: Vec::new(),
        cursor_present: false,
        schemes_listing: None,
        apps_listing: None,
        background_present: false,
    };
    let (mut k, _setup) = init(0xF000, assets);
    assert_eq!(k.clock_monotonic, Duration { secs: 0, nanos: 0 });
    for _ in 0..1000 {
        k.raise_timer();
    }
    // 1000 * 2_250_286 ns = 2.250286 s exactly
    assert_eq!(k.clock_monotonic, Duration { secs: 2, nanos: 250_286_000 });
    // realtime advanced by the same thousand quanta from its seed
    assert_eq!(k.clock_realtime, Duration { secs: 1_000_002, nanos: 250_286_000 });
}

#[test]
fn clock_reads_see_consistent_values() {
    let assets = BringupAssets {
        ram_pages: 64,
        rtc_time: Duration { secs: 9, nanos: 8 },
        pci_items: Vec::new(),
        cursor_present: false,
        schemes_listing: None,
        apps_listing: None,
        background_present: false,
    };
    let (mut k, _setup) = init(0, assets);
    let (realtime, monotonic) = k.read_clocks();
    assert_eq!(realtime, Duration { secs: 9, nanos: 8 });
    assert_eq!(monotonic, Duration { secs: 0, nanos: 0 });
    assert!(k.intr_enabled);
    // a read inside someone else's critical section leaves it disabled
    let prev = k.start_no_ints();
    k.raise_timer();
    let (r2, _m2) = k.read_clocks();
    // the latched tick is not delivered while interrupts stay off
    assert_eq!(r2, Duration { secs: 9, nanos: 8 });
    assert!(!k.intr_enabled);
    k.end_no_ints(prev);
    let (r3, _m3) = k.read_clocks();
    assert_eq!(r3, Duration { secs: 9, nanos: 8 }.plus(Duration::pit_quantum()));
}

#[test]
fn queue_is_fifo() {
    let mut q = EventQueue::new();
    let e1 = Event { code: 'k', a: 1, b: 2, c: 3 };
    let e2 = Event { code: 'm', a: 4, b: 5, c: 6 };
    let e3 = Event { code: 'k', a: 7, b: 8, c: 9 };
    q.push(e1);
    q.push(e2);
    q.push(e3);
    assert_eq!(q.pop(), Some(e1));
    assert_eq!(q.pop(), Some(e2));
    assert_eq!(q.pop(), Some(e3));
    assert_eq!(q.pop(), None);
}

#[test]
fn queue_at_capacity_drops_newest_and_pops_oldest() {
    let mut q = EventQueue::new();
    for i in 0..EVENT_QUEUE_CAP {
        q.push(Event { code: 'k', a: i, b: 0, c: 0 });
    }
    assert_eq!(q.len(), EVENT_QUEUE_CAP);
    // the queue is full: this one is dropped
    q.push(Event { code: 'k', a: 9999, b: 0, c: 0 });
    assert_eq!(q.len(), EVENT_QUEUE_CAP);
    // the oldest still comes out first
    assert_eq!(q.pop(), Some(Event { code: 'k', a: 0, b: 0, c: 0 }));
    // and the dropped event is nowhere in the queue
    let mut last = None;
    while let Some(e) = q.pop() {
        last = Some(e);
    }
    assert_eq!(last, Some(Event { code: 'k', a: EVENT_QUEUE_CAP - 1, b: 0, c: 0 }));
}
