//! The one-shot bring-up sequence, entered through the dispatcher's
//! bring-up vector with the font blob address. It constructs every kernel
//! global in a fixed, load-bearing order, spawns the four core tasks plus
//! the protocol reply loops, re-enables interrupts, installs the assets
//! the filesystem yielded, and finally flips on context switching. The
//! reads themselves (RTC, PCI probe, filesystem) happen outside; their
//! results come in as plain values.
use vstd::prelude::*;
use crate::context::ContextTable;
use crate::dispatch::PortWrite;
use crate::dispatch::debug_init;
use crate::dispatch::spec_serial_init;
use crate::machine::Kernel;
use crate::paging::Paging;
use crate::queue::EventQueue;
use crate::session::Package;
use crate::session::SchemeItem;
use crate::session::Session;
use crate::session::item_names;
use crate::text::dec_rep;
use crate::text::push_chars;
use crate::text::push_dec;
use crate::text::push_str;
use crate::text::spec_dirs;
use crate::text::views_of;
use crate::text::parse_directory_listing;
use crate::time::Duration;

verus! {

/// The word size the banner reports; this core models the 64-bit build.
pub const WORD_BITS: usize = 64;

/// What the outside world hands the bring-up sequence: the memory map's
/// page count, the RTC reading, the PCI probe's device items, and the
/// asset reads — an absent asset is skipped silently and the kernel boots
/// without it.
pub struct BringupAssets {
    /// Pages of RAM the memory map reports; paging identity-maps them.
    pub ram_pages: usize,
    /// The synchronous RTC read that seeds the wall clock.
    pub rtc_time: Duration,
    /// Device items the PCI probe discovered, in probe order.
    pub pci_items: Vec<SchemeItem>,
    /// Whether the cursor image was read successfully.
    pub cursor_present: bool,
    /// The scheme directory listing, when it could be read.
    pub schemes_listing: Option<Vec<char>>,
    /// The application directory listing, when it could be read.
    pub apps_listing: Option<Vec<char>>,
    /// Whether the background image was read successfully.
    pub background_present: bool,
}

impl BringupAssets {
    /// The directory names of the scheme listing, empty when absent.
    pub open spec fn scheme_dirs(self) -> Seq<Seq<char>> {
        match self.schemes_listing {
            Some(l) => spec_dirs(l@, Seq::empty()),
            None => Seq::empty(),
        }
    }

    /// The directory names of the application listing, empty when absent.
    pub open spec fn app_dirs(self) -> Seq<Seq<char>> {
        match self.apps_listing {
            Some(l) => spec_dirs(l@, Seq::empty()),
            None => Seq::empty(),
        }
    }
}

/// The names of the built-in items registered before the PCI devices.
pub open spec fn builtin_device_names() -> Seq<Seq<char>> {
    seq!["ps2"@, "serial"@]
}

/// The names of the pseudo-scheme and protocol items registered after the
/// PCI devices, in registration order.
pub open spec fn builtin_scheme_names() -> Seq<Seq<char>> {
    seq![
        "context"@,
        "debug"@,
        "memory"@,
        "random"@,
        "time"@,
        "ethernet"@,
        "arp"@,
        "ip"@,
        "icmp"@,
        "tcp"@,
        "window"@,
    ]
}

/// The full registry order after bring-up: built-in devices, then the PCI
/// devices, then the pseudo-schemes and protocols, then the schemes loaded
/// from the filesystem. Name lookups take the first match, so this order
/// decides which item a URL reaches.
pub open spec fn spec_registry(pci: Seq<Seq<char>>, loaded: Seq<Seq<char>>) -> Seq<Seq<char>> {
    builtin_device_names() + pci + builtin_scheme_names() + loaded
}

/// The URL an application package is loaded from.
pub open spec fn app_url(name: Seq<char>) -> Seq<char> {
    "file:///apps/"@ + name + "/"@
}

/// The debug output bring-up writes, in order.
pub open spec fn spec_init_log() -> Seq<char> {
    "Test\n"@ + "Redox "@ + dec_rep(WORD_BITS as nat) + " bits \n"@ + "Reenabling interrupts\n"@
        + "Loading cursor\n"@ + "Loading schemes\n"@ + "Loading apps\n"@
        + "Loading background\n"@ + "Enabling context switching\n"@
}

/// Build one scheme item from its name.
fn named_item(name: &str) -> (item: SchemeItem)
    ensures
        item.name@ == name@,
{
    let mut chars: Vec<char> = Vec::new();
    push_str(&mut chars, name);
    SchemeItem { name: chars }
}

/// The one-shot bring-up. Afterwards the clocks run (wall time seeded
/// from the RTC, monotonic time at zero), the root context plus the
/// polling, event, redraw, ARP-reply and ICMP-reply tasks fill the table,
/// the registry holds every item in its fixed order, the assets that
/// could be read are installed with the redraw flag set, interrupts are
/// enabled again, the debug console has released the framebuffer, and
/// context switching is on.
pub fn init(font_data: usize, assets: BringupAssets) -> (r: (Kernel, Vec<PortWrite>))
    requires
        assets.rtc_time.wf(),
    ensures
        ({
            let k = r.0;
            {
                &&& k.wf()
                &&& k.intr_enabled
                &&& !k.pending_tick
                &&& k.contexts.enabled
                &&& k.contexts.current == 0
                &&& k.contexts.contexts@.len() == 6
                &&& (forall|i: int|
                    0 <= i < 6 ==> k.contexts.contexts@[i].runnable
                        && !k.contexts.contexts@[i].interrupted)
                &&& !k.debug_draw
                &&& !k.debug_redraw
                &&& k.debug_command@ == Seq::<char>::empty()
                &&& k.cmd@ == Seq::<char>::empty()
                &&& k.clock_realtime == assets.rtc_time
                &&& k.clock_monotonic == (Duration { secs: 0u64, nanos: 0u32 })
                &&& k.events@ == Seq::<crate::event::Event>::empty()
                &&& k.font_addr == font_data
                &&& k.paging.ram_pages == assets.ram_pages
                &&& k.session.cursor_set == assets.cursor_present
                &&& k.session.background_set == assets.background_present
                &&& item_names(k.session.items@) == spec_registry(
                    item_names(assets.pci_items@),
                    assets.scheme_dirs(),
                )
                &&& k.session.packages@.map_values(|p: Package| p.url@)
                    == assets.app_dirs().map_values(|n: Seq<char>| app_url(n))
                &&& k.session.redraw == (assets.cursor_present || assets.background_present
                    || assets.app_dirs().len() > 0)
                &&& k.log@ == spec_init_log()
            }
        }),
        r.1@ == spec_serial_init(),
{
    let serial_setup = debug_init();
    let mut log: Vec<char> = Vec::new();
    push_str(&mut log, "Test\n");

    let paging = Paging::init(assets.ram_pages);
    let font_addr = font_data;
    let debug_command: Vec<char> = Vec::new();

    push_str(&mut log, "Redox ");
    push_dec(&mut log, WORD_BITS);
    push_str(&mut log, " bits \n");

    let clock_realtime = assets.rtc_time;
    let clock_monotonic = Duration::zero();

    let mut contexts = ContextTable::root_table();
    let mut session = Session::new();
    let events = EventQueue::new();

    session.push_item(named_item("ps2"));
    session.push_item(named_item("serial"));

    let mut pci = assets.pci_items;
    let ghost pci0 = pci@;
    let pci_len = pci.len();
    let mut i: usize = 0;
    while i < pci_len
        invariant
            pci_len == pci0.len(),
            i <= pci_len,
            pci@ == pci0.skip(i as int),
            item_names(session.items@) == builtin_device_names() + item_names(
                pci0.take(i as int),
            ),
            session.packages@ == Seq::<Package>::empty(),
            !session.cursor_set,
            !session.background_set,
            !session.redraw,
        decreases pci_len - i,
    {
        let item = pci.remove(0);
        assert(item == pci0[i as int]);
        let ghost items_before = session.items@;
        let ghost item_name = item.name@;
        session.push_item(item);
        proof {
            assert(item_names(session.items@) =~= item_names(items_before).push(item_name));
            assert(pci@ =~= pci0.skip(i + 1 as int));
            assert(pci0.take(i + 1 as int) =~= pci0.take(i as int).push(pci0[i as int]));
            assert(item_names(pci0.take(i + 1 as int)) =~= item_names(pci0.take(i as int)).push(
                pci0[i as int].name@,
            ));
            assert(item_names(session.items@) =~= builtin_device_names() + item_names(
                pci0.take(i + 1 as int),
            ));
        }
        i = i + 1;
    }
    proof {
        assert(pci0.take(pci_len as int) =~= pci0);
    }

    session.push_item(named_item("context"));
    session.push_item(named_item("debug"));
    session.push_item(named_item("memory"));
    session.push_item(named_item("random"));
    session.push_item(named_item("time"));
    session.push_item(named_item("ethernet"));
    session.push_item(named_item("arp"));
    session.push_item(named_item("ip"));
    session.push_item(named_item("icmp"));
    session.push_item(named_item("tcp"));
    session.push_item(named_item("window"));
    proof {
        assert(item_names(session.items@) =~= spec_registry(item_names(pci0), Seq::empty()));
    }

    contexts.spawn();
    contexts.spawn();
    contexts.spawn();
    contexts.spawn();
    contexts.spawn();

    push_str(&mut log, "Reenabling interrupts\n");
    let intr_enabled = true;

    push_str(&mut log, "Loading cursor\n");
    if assets.cursor_present {
        session.cursor_set = true;
        session.redraw = true;
    }

    push_str(&mut log, "Loading schemes\n");
    match assets.schemes_listing {
        Some(listing) => {
            let mut dirs = parse_directory_listing(&listing);
            let ghost dirs0 = views_of(dirs@);
            let dirs_len = dirs.len();
            let mut j: usize = 0;
            while j < dirs_len
                invariant
                    dirs_len == dirs0.len(),
                    j <= dirs_len,
                    views_of(dirs@) == dirs0.skip(j as int),
                    item_names(session.items@) == spec_registry(
                        item_names(pci0),
                        dirs0.take(j as int),
                    ),
                    session.packages@ == Seq::<Package>::empty(),
                    session.cursor_set == assets.cursor_present,
                    !session.background_set,
                    session.redraw == assets.cursor_present,
                decreases dirs_len - j,
            {
                proof {
                    assert(views_of(dirs@).len() == dirs@.len());
                    assert(views_of(dirs@)[0] == dirs@[0]@);
                    assert(dirs0.skip(j as int)[0] == dirs0[j as int]);
                }
                let ghost dirs_before = dirs@;
                let name = dirs.remove(0);
                assert(name@ == dirs0[j as int]);
                let ghost items_before = session.items@;
                session.push_item(SchemeItem { name });
                proof {
                    assert(item_names(session.items@) =~= item_names(items_before).push(
                        dirs0[j as int],
                    ));
                    assert forall|m: int| 0 <= m < dirs@.len() implies views_of(dirs@)[m]
                        == dirs0.skip(j + 1 as int)[m] by {
                        assert(views_of(dirs@)[m] == dirs@[m]@);
                        assert(dirs@[m] == dirs_before[m + 1]);
                        assert(views_of(dirs_before)[m + 1] == dirs_before[m + 1]@);
                    }
                    assert(views_of(dirs@) =~= dirs0.skip(j + 1 as int));
                    assert(dirs0.take(j + 1 as int) =~= dirs0.take(j as int).push(
                        dirs0[j as int],
                    ));
                    assert(item_names(session.items@) =~= spec_registry(
                        item_names(pci0),
                        dirs0.take(j as int),
                    ).push(dirs0[j as int]));
                    assert(spec_registry(item_names(pci0), dirs0.take(j as int)).push(
                        dirs0[j as int],
                    ) =~= spec_registry(item_names(pci0), dirs0.take(j + 1 as int)));
                }
                j = j + 1;
            }
            proof {
                assert(dirs0.take(dirs_len as int) =~= dirs0);
            }
        },
        None => {},
    }

    push_str(&mut log, "Loading apps\n");
    match assets.apps_listing {
        Some(listing) => {
            let mut dirs = parse_directory_listing(&listing);
            let ghost dirs0 = views_of(dirs@);
            let dirs_len = dirs.len();
            let mut j: usize = 0;
            while j < dirs_len
                invariant
                    dirs_len == dirs0.len(),
                    j <= dirs_len,
                    views_of(dirs@) == dirs0.skip(j as int),
                    item_names(session.items@) == spec_registry(
                        item_names(pci0),
                        assets.scheme_dirs(),
                    ),
                    session.packages@.map_values(|p: Package| p.url@) == dirs0.take(
                        j as int,
                    ).map_values(|n: Seq<char>| app_url(n)),
                    session.cursor_set == assets.cursor_present,
                    !session.background_set,
                    session.redraw == (assets.cursor_present || j > 0),
                decreases dirs_len - j,
            {
                proof {
                    assert(views_of(dirs@).len() == dirs@.len());
                    assert(views_of(dirs@)[0] == dirs@[0]@);
                    assert(dirs0.skip(j as int)[0] == dirs0[j as int]);
                }
                let ghost dirs_before = dirs@;
                let name = dirs.remove(0);
                assert(name@ == dirs0[j as int]);
                let mut url: Vec<char> = Vec::new();
                push_str(&mut url, "file:///apps/");
                push_chars(&mut url, &name);
                push_str(&mut url, "/");
                assert(url@ =~= app_url(dirs0[j as int]));
                let ghost url0 = url@;
                let ghost packages_before = session.packages@;
                session.packages.push(Package { url });
                session.redraw = true;
                proof {
                    assert forall|m: int| 0 <= m < dirs@.len() implies views_of(dirs@)[m]
                        == dirs0.skip(j + 1 as int)[m] by {
                        assert(views_of(dirs@)[m] == dirs@[m]@);
                        assert(dirs@[m] == dirs_before[m + 1]);
                        assert(views_of(dirs_before)[m + 1] == dirs_before[m + 1]@);
                    }
                    assert(views_of(dirs@) =~= dirs0.skip(j + 1 as int));
                    assert(dirs0.take(j + 1 as int) =~= dirs0.take(j as int).push(
                        dirs0[j as int],
                    ));
                    assert(session.packages@.map_values(|p: Package| p.url@)
                        =~= packages_before.map_values(|p: Package| p.url@).push(url0));
                    assert(session.packages@.map_values(|p: Package| p.url@) =~= dirs0.take(
                        j + 1 as int,
                    ).map_values(|n: Seq<char>| app_url(n)));
                }
                j = j + 1;
            }
            proof {
                assert(dirs0.take(dirs_len as int) =~= dirs0);
            }
        },
        None => {},
    }

    push_str(&mut log, "Loading background\n");
    if assets.background_present {
        session.background_set = true;
        session.redraw = true;
    }

    push_str(&mut log, "Enabling context switching\n");
    let debug_draw = false;
    contexts.enabled = true;

    proof {
        assert(log@ =~= spec_init_log());
    }

    let k = Kernel {
        intr_enabled,
        pending_tick: false,
        debug_draw,
        debug_redraw: false,
        debug_command,
        cmd: Vec::new(),
        log,
        clock_realtime,
        clock_monotonic,
        contexts,
        events,
        session,
        paging,
        font_addr,
    };
    (k, serial_setup)
}

} // verus!
