//! The interrupt dispatcher: the single entry every IDT vector routes to.
//! It acknowledges the interrupt controller, then either advances the
//! clocks and yields (timer), fans an IRQ out to the session, routes a
//! system call, enters bring-up, or prints a register dump and terminates
//! the faulting context.
use vstd::prelude::*;
use crate::context::exit_rel;
use crate::machine::Kernel;
use crate::text::dr_line;
use crate::text::push_dr;
use crate::text::push_str;
use crate::time::pit_duration;

verus! {

/// One byte written to an I/O port.
#[derive(Clone, Copy, PartialEq, Eq, Structural, Debug)]
pub struct PortWrite {
    pub port: u16,
    pub value: u8,
}

/// Primary interrupt controller command port.
pub const PIC_PRIMARY: u16 = 0x20;

/// Secondary interrupt controller command port.
pub const PIC_SECONDARY: u16 = 0xA0;

/// The end-of-interrupt command byte.
pub const PIC_EOI: u8 = 0x20;

/// What the dispatcher asks its caller to do after the state change.
#[derive(Clone, Copy, PartialEq, Eq, Structural, Debug)]
pub enum Dispatch {
    /// A timer tick: the clocks advanced and the scheduler ran.
    Tick,
    /// Fan the IRQ line out to the session's items.
    Irq { line: usize },
    /// Route to the system-call handler; its result becomes the new `ax`.
    Syscall { ax: usize, bx: usize, cx: usize, dx: usize },
    /// The one-shot bring-up entry, with the font blob address.
    Bringup { font: usize },
    /// A CPU exception: the faulting context was terminated; when it was
    /// the root, the kernel must halt.
    Fault { halted: bool },
}

/// The end-of-interrupt writes a vector requires, before its handler body:
/// hardware IRQ vectors acknowledge the primary controller, after the
/// secondary when the vector came through it.
pub open spec fn spec_eoi(vector: usize) -> Seq<PortWrite> {
    if 0x20 <= vector < 0x30 {
        (if vector >= 0x28 {
            seq![PortWrite { port: PIC_SECONDARY, value: PIC_EOI }]
        } else {
            Seq::empty()
        }).push(PortWrite { port: PIC_PRIMARY, value: PIC_EOI })
    } else {
        Seq::empty()
    }
}

/// Whether the vector is a hardware IRQ fanned out to the session.
pub open spec fn is_irq_vector(vector: usize) -> bool {
    0x21 <= vector <= 0x2F
}

/// Whether the vector pushes a CPU error code, so the dump reads the
/// snapshot shifted by one slot.
pub open spec fn is_error_vector(vector: usize) -> bool {
    vector == 0x8 || (0xA <= vector <= 0xE) || vector == 0x11 || vector == 0x1E
}

/// Whether the vector takes the exception path: everything that is not
/// the timer, an IRQ, the system call, or the bring-up entry.
pub open spec fn is_exception_vector(vector: usize) -> bool {
    !(0x20 <= vector < 0x30) && vector != 0x80 && vector != 0xFF
}

/// The name printed for an exception vector.
pub open spec fn spec_exception_name(vector: usize) -> Seq<char> {
    if vector == 0x0 {
        "Divide by zero exception"@
    } else if vector == 0x1 {
        "Debug exception"@
    } else if vector == 0x2 {
        "Non-maskable interrupt"@
    } else if vector == 0x3 {
        "Breakpoint exception"@
    } else if vector == 0x4 {
        "Overflow exception"@
    } else if vector == 0x5 {
        "Bound range exceeded exception"@
    } else if vector == 0x6 {
        "Invalid opcode exception"@
    } else if vector == 0x7 {
        "Device not available exception"@
    } else if vector == 0x8 {
        "Double fault"@
    } else if vector == 0xA {
        "Invalid TSS exception"@
    } else if vector == 0xB {
        "Segment not present exception"@
    } else if vector == 0xC {
        "Stack-segment fault"@
    } else if vector == 0xD {
        "General protection fault"@
    } else if vector == 0xE {
        "Page fault"@
    } else if vector == 0x10 {
        "x87 floating-point exception"@
    } else if vector == 0x11 {
        "Alignment check exception"@
    } else if vector == 0x12 {
        "Machine check exception"@
    } else if vector == 0x13 {
        "SIMD floating-point exception"@
    } else if vector == 0x14 {
        "Virtualization exception"@
    } else if vector == 0x1E {
        "Security exception"@
    } else {
        "Unknown Interrupt"@
    }
}

/// The name printed for an exception vector.
pub fn exception_name(vector: usize) -> (name: &'static str)
    ensures
        name@ == spec_exception_name(vector),
{
    if vector == 0x0 {
        "Divide by zero exception"
    } else if vector == 0x1 {
        "Debug exception"
    } else if vector == 0x2 {
        "Non-maskable interrupt"
    } else if vector == 0x3 {
        "Breakpoint exception"
    } else if vector == 0x4 {
        "Overflow exception"
    } else if vector == 0x5 {
        "Bound range exceeded exception"
    } else if vector == 0x6 {
        "Invalid opcode exception"
    } else if vector == 0x7 {
        "Device not available exception"
    } else if vector == 0x8 {
        "Double fault"
    } else if vector == 0xA {
        "Invalid TSS exception"
    } else if vector == 0xB {
        "Segment not present exception"
    } else if vector == 0xC {
        "Stack-segment fault"
    } else if vector == 0xD {
        "General protection fault"
    } else if vector == 0xE {
        "Page fault"
    } else if vector == 0x10 {
        "x87 floating-point exception"
    } else if vector == 0x11 {
        "Alignment check exception"
    } else if vector == 0x12 {
        "Machine check exception"
    } else if vector == 0x13 {
        "SIMD floating-point exception"
    } else if vector == 0x14 {
        "Virtualization exception"
    } else if vector == 0x1E {
        "Security exception"
    } else {
        "Unknown Interrupt"
    }
}

/// The register dump an exception prints: the exception's name, then one
/// line per saved register. For a vector with an error code the snapshot
/// sits one slot lower on the stack, so the flags, instruction pointer and
/// error code lines read the shifted values.
pub open spec fn spec_exception_dump(
    vector: usize,
    context_i: usize,
    ax: usize,
    bx: usize,
    cx: usize,
    dx: usize,
    ip: usize,
    flags: usize,
    error: usize,
) -> Seq<char> {
    spec_exception_name(vector) + "\n"@ + dr_line("CONTEXT"@, context_i as nat) + (
    if is_error_vector(vector) {
        dr_line("FLAGS"@, error as nat) + dr_line("IP"@, flags as nat) + dr_line(
            "ERROR"@,
            ip as nat,
        )
    } else {
        dr_line("FLAGS"@, flags as nat) + dr_line("IP"@, ip as nat)
    }) + dr_line("INT"@, vector as nat) + dr_line("AX"@, ax as nat) + dr_line("BX"@, bx as nat)
        + dr_line("CX"@, cx as nat) + dr_line("DX"@, dx as nat)
}

/// The writes acknowledging `vector` to the interrupt controllers.
pub fn eoi_writes(vector: usize) -> (writes: Vec<PortWrite>)
    ensures
        writes@ == spec_eoi(vector),
{
    let mut writes: Vec<PortWrite> = Vec::new();
    if 0x20 <= vector && vector < 0x30 {
        if vector >= 0x28 {
            writes.push(PortWrite { port: PIC_SECONDARY, value: PIC_EOI });
        }
        writes.push(PortWrite { port: PIC_PRIMARY, value: PIC_EOI });
    }
    assert(writes@ =~= spec_eoi(vector));
    writes
}

/// The single interrupt entry, with the register snapshot
/// `(vector, ax, bx, cx, dx, ip, flags, error)` the assembly stub saves.
/// The controllers are acknowledged first — the returned writes are made
/// before the dispatched action — and then the vector selects: the timer
/// advances both clocks by the quantum and yields preemptively; an IRQ is
/// fanned out to the session; the system-call vector routes its arguments;
/// the bring-up vector hands back the font address; everything else is a
/// CPU exception, which appends a register dump to the log and terminates
/// the running context, halting only when that context was the root.
#[verifier::rlimit(50)]
pub fn kernel_inner(
    k: &mut Kernel,
    interrupt: usize,
    ax: usize,
    bx: usize,
    cx: usize,
    dx: usize,
    ip: usize,
    flags: usize,
    error: usize,
) -> (r: (Dispatch, Vec<PortWrite>))
    requires
        old(k).wf(),
    ensures
        final(k).wf(),
        r.1@ == spec_eoi(interrupt),
        interrupt == 0x20 ==> r.0 == Dispatch::Tick && {
            &&& final(k).clock_realtime == old(k).clock_realtime.spec_add(pit_duration())
            &&& final(k).clock_monotonic == old(k).clock_monotonic.spec_add(pit_duration())
            &&& crate::context::switch_rel(old(k).contexts, final(k).contexts, true)
            &&& final(k).console() == old(k).console()
            &&& final(k).events == old(k).events
            &&& final(k).intr_enabled == old(k).intr_enabled
            &&& final(k).pending_tick == old(k).pending_tick
            &&& final(k).session.items@ == old(k).session.items@
            &&& final(k).session.packages@ == old(k).session.packages@
            &&& final(k).paging == old(k).paging
            &&& final(k).font_addr == old(k).font_addr
        },
        is_irq_vector(interrupt) ==> r.0 == (Dispatch::Irq { line: (interrupt - 0x20) as usize })
            && *final(k) == *old(k),
        interrupt == 0x80 ==> r.0 == (Dispatch::Syscall { ax, bx, cx, dx }) && *final(k) == *old(
            k,
        ),
        interrupt == 0xFF ==> r.0 == (Dispatch::Bringup { font: ax }) && *final(k) == *old(k),
        is_exception_vector(interrupt) ==> {
            &&& r.0 == (Dispatch::Fault { halted: old(k).contexts.current == 0 })
            &&& final(k).log@ == old(k).log@ + spec_exception_dump(
                interrupt,
                old(k).contexts.current,
                ax,
                bx,
                cx,
                dx,
                ip,
                flags,
                error,
            )
            &&& exit_rel(old(k).contexts, final(k).contexts, old(k).contexts.current == 0)
            &&& final(k).clock_realtime == old(k).clock_realtime
            &&& final(k).clock_monotonic == old(k).clock_monotonic
            &&& final(k).events == old(k).events
            &&& final(k).debug_draw == old(k).debug_draw
            &&& final(k).debug_redraw == old(k).debug_redraw
            &&& final(k).debug_command@ == old(k).debug_command@
            &&& final(k).cmd@ == old(k).cmd@
            &&& final(k).intr_enabled == old(k).intr_enabled
            &&& final(k).pending_tick == old(k).pending_tick
            &&& final(k).session.items@ == old(k).session.items@
            &&& final(k).session.packages@ == old(k).session.packages@
            &&& final(k).session.redraw == old(k).session.redraw
            &&& final(k).paging == old(k).paging
            &&& final(k).font_addr == old(k).font_addr
        },
{
    let writes = eoi_writes(interrupt);
    if interrupt == 0x20 {
        k.deliver_tick();
        (Dispatch::Tick, writes)
    } else if 0x21 <= interrupt && interrupt <= 0x2F {
        (Dispatch::Irq { line: interrupt - 0x20 }, writes)
    } else if interrupt == 0x80 {
        (Dispatch::Syscall { ax, bx, cx, dx }, writes)
    } else if interrupt == 0xFF {
        (Dispatch::Bringup { font: ax }, writes)
    } else {
        let ghost log0 = k.log@;
        let name = exception_name(interrupt);
        push_str(&mut k.log, name);
        push_str(&mut k.log, "\n");
        push_dr(&mut k.log, "CONTEXT", k.contexts.current);
        if is_error_vector_exec(interrupt) {
            push_dr(&mut k.log, "FLAGS", error);
            push_dr(&mut k.log, "IP", flags);
            push_dr(&mut k.log, "ERROR", ip);
        } else {
            push_dr(&mut k.log, "FLAGS", flags);
            push_dr(&mut k.log, "IP", ip);
        }
        push_dr(&mut k.log, "INT", interrupt);
        push_dr(&mut k.log, "AX", ax);
        push_dr(&mut k.log, "BX", bx);
        push_dr(&mut k.log, "CX", cx);
        push_dr(&mut k.log, "DX", dx);
        proof {
            assert(k.log@ =~= log0 + spec_exception_dump(
                interrupt,
                old(k).contexts.current,
                ax,
                bx,
                cx,
                dx,
                ip,
                flags,
                error,
            ));
        }
        let halted = k.contexts.exit_current();
        (Dispatch::Fault { halted }, writes)
    }
}

/// Whether the vector pushes a CPU error code.
fn is_error_vector_exec(vector: usize) -> (r: bool)
    ensures
        r == is_error_vector(vector),
{
    vector == 0x8 || (0xA <= vector && vector <= 0xE) || vector == 0x11 || vector == 0x1E
}

/// Configure the serial debug console: COM1 at 115200, eight data bits,
/// no parity, one stop bit, with receive interrupts enabled — the exact
/// byte sequence written to the UART's ports.
pub fn debug_init() -> (writes: Vec<PortWrite>)
    ensures
        writes@ == spec_serial_init(),
{
    let mut writes: Vec<PortWrite> = Vec::new();
    writes.push(PortWrite { port: 0x3F9, value: 0x00 });
    writes.push(PortWrite { port: 0x3FB, value: 0x80 });
    writes.push(PortWrite { port: 0x3F8, value: 0x03 });
    writes.push(PortWrite { port: 0x3F9, value: 0x00 });
    writes.push(PortWrite { port: 0x3FB, value: 0x03 });
    writes.push(PortWrite { port: 0x3FA, value: 0xC7 });
    writes.push(PortWrite { port: 0x3FC, value: 0x0B });
    writes.push(PortWrite { port: 0x3F9, value: 0x01 });
    assert(writes@ =~= spec_serial_init());
    writes
}

/// The UART setup sequence `debug_init` writes.
pub open spec fn spec_serial_init() -> Seq<PortWrite> {
    seq![
        PortWrite { port: 0x3F9, value: 0x00 },
        PortWrite { port: 0x3FB, value: 0x80 },
        PortWrite { port: 0x3F8, value: 0x03 },
        PortWrite { port: 0x3F9, value: 0x00 },
        PortWrite { port: 0x3FB, value: 0x03 },
        PortWrite { port: 0x3FA, value: 0xC7 },
        PortWrite { port: 0x3FC, value: 0x0B },
        PortWrite { port: 0x3F9, value: 0x01 },
    ]
}

} // verus!
