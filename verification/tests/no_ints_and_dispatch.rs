use kernel_core::bringup::{init, BringupAssets};
use kernel_core::dispatch::{debug_init, kernel_inner, Dispatch, PortWrite};
use kernel_core::paging::Paging;
use kernel_core::text::contains_str;
use kernel_core::time::Duration;

fn booted() -> kernel_core::machine::Kernel {
    let assets = BringupAssets {
        ram_pages: 4096,
        rtc_time: Duration { secs: 42, nanos: 0 },
        pci_items: Vec::new(),
        cursor_present: false,
        schemes_listing: None,
        apps_listing: None,
        background_present: false,
    };
    init(0xF000, assets).0
}

#[test]
fn no_ints_restores_prior_if_state() {
    let mut k = booted();
    assert!(k.intr_enabled);
    let prev = k.start_no_ints();
    assert!(prev);
    assert!(!k.intr_enabled);
    k.end_no_ints(prev);
    assert!(k.intr_enabled);
}

#[test]
fn nested_no_ints_restores_level_by_level() {
    let mut k = booted();
    let outer = k.start_no_ints();
    let inner = k.start_no_ints();
    assert!(!inner);
    assert!(!k.intr_enabled);
    k.end_no_ints(inner);
    assert!(!k.intr_enabled);
    k.end_no_ints(outer);
    assert!(k.intr_enabled);
}

#[test]
fn tick_inside_no_ints_is_delivered_on_exit() {
    let mut k = booted();
    let m0 = k.clock_monotonic;
    let prev = k.start_no_ints();
    k.raise_timer();
    k.raise_timer();
    // masked: the clocks have not moved, one tick is latched
    assert_eq!(k.clock_monotonic, m0);
    k.end_no_ints(prev);
    // delivered immediately on exit: one quantum per delivered tick,
    // not one per elapsed tick and not elapsed wall time
    assert_eq!(k.clock_monotonic, m0.plus(Duration::pit_quantum()));
    assert!(k.intr_enabled);
}

#[test]
fn keyboard_irq_fans_out_after_primary_eoi() {
    let mut k = booted();
    let (d, writes) = kernel_inner(&mut k, 0x21, 0, 0, 0, 0, 0, 0, 0);
    assert_eq!(d, Dispatch::Irq { line: 1 });
    assert_eq!(writes, vec![PortWrite { port: 0x20, value: 0x20 }]);
}

#[test]
fn secondary_irq_acknowledges_both_controllers() {
    let mut k = booted();
    let (d, writes) = kernel_inner(&mut k, 0x28, 0, 0, 0, 0, 0, 0, 0);
    assert_eq!(d, Dispatch::Irq { line: 8 });
    assert_eq!(
        writes,
        vec![
            PortWrite { port: 0xA0, value: 0x20 },
            PortWrite { port: 0x20, value: 0x20 },
        ]
    );
}

#[test]
fn timer_vector_advances_clocks() {
    let mut k = booted();
    let m0 = k.clock_monotonic;
    let (d, writes) = kernel_inner(&mut k, 0x20, 0, 0, 0, 0, 0, 0, 0);
    assert_eq!(d, Dispatch::Tick);
    assert_eq!(writes, vec![PortWrite { port: 0x20, value: 0x20 }]);
    assert_eq!(k.clock_monotonic, m0.plus(Duration::pit_quantum()));
}

#[test]
fn syscall_vector_routes_arguments() {
    let mut k = booted();
    let (d, writes) = kernel_inner(&mut k, 0x80, 11, 22, 33, 44, 0, 0, 0);
    assert_eq!(d, Dispatch::Syscall { ax: 11, bx: 22, cx: 33, dx: 44 });
    assert!(writes.is_empty());
}

#[test]
fn bringup_vector_hands_back_font_address() {
    let mut k = booted();
    let (d, writes) = kernel_inner(&mut k, 0xFF, 0xCAFE, 0, 0, 0, 0, 0, 0);
    assert_eq!(d, Dispatch::Bringup { font: 0xCAFE });
    assert!(writes.is_empty());
}

#[test]
fn exception_terminates_only_the_faulting_context() {
    let mut k = booted();
    assert_eq!(k.contexts.contexts.len(), 6);
    // fault inside a spawned context: divide by zero
    k.contexts.current = 3;
    let (d, _writes) = kernel_inner(&mut k, 0x0, 1, 2, 3, 4, 5, 6, 7);
    assert_eq!(d, Dispatch::Fault { halted: false });
    assert_eq!(k.contexts.contexts.len(), 5);
    assert!(k.contexts.current < 5);
    assert!(contains_str(&k.log, "Divide by zero exception"));
    assert!(contains_str(&k.log, "CONTEXT: 3\n"));
    assert!(contains_str(&k.log, "AX: 1\n"));
}

#[test]
fn exception_in_root_halts() {
    let mut k = booted();
    assert_eq!(k.contexts.current, 0);
    let (d, _writes) = kernel_inner(&mut k, 0xD, 0, 0, 0, 0, 0, 0, 0xABCD);
    assert_eq!(d, Dispatch::Fault { halted: true });
    assert_eq!(k.contexts.contexts.len(), 6);
    assert!(contains_str(&k.log, "General protection fault"));
    // the error-code form reads the shifted snapshot
    assert!(contains_str(&k.log, "FLAGS: ABCD\n"));
}

#[test]
fn legacy_vector_is_unknown_interrupt() {
    let mut k = booted();
    k.contexts.current = 2;
    let (d, _writes) = kernel_inner(&mut k, 0x9, 0, 0, 0, 0, 0, 0, 0);
    assert_eq!(d, Dispatch::Fault { halted: false });
    assert!(contains_str(&k.log, "Unknown Interrupt"));
}

#[test]
fn null_dereference_page_faults() {
    let p = Paging::init(4096);
    assert_eq!(p.load(0), Err(0x0E));
    assert_eq!(p.load(5), Err(0x0E));
    assert_eq!(p.load(4095), Err(0x0E));
    assert_eq!(p.load(4096), Ok(4096));
    assert_eq!(p.load(4096 * 4096), Err(0x0E));
}

#[test]
fn serial_setup_sequence() {
    let writes = debug_init();
    assert_eq!(
        writes,
        vec![
            PortWrite { port: 0x3F9, value: 0x00 },
            PortWrite { port: 0x3FB, value: 0x80 },
            PortWrite { port: 0x3F8, value: 0x03 },
            PortWrite { port: 0x3F9, value: 0x00 },
            PortWrite { port: 0x3FB, value: 0x03 },
            PortWrite { port: 0x3FA, value: 0xC7 },
            PortWrite { port: 0x3FC, value: 0x0B },
            PortWrite { port: 0x3F9, value: 0x01 },
        ]
    );
}
