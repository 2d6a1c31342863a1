//! The session aggregate and its scheme registry: an ordered list of named
//! resource providers through which all I/O flows. The session's windows,
//! cursor rendering and compositing are an external black box; this model
//! keeps what the kernel core itself reads and writes: the item order, the
//! package list, which images were installed, and the dirty-redraw flag.
use vstd::prelude::*;

verus! {

/// A named scheme item. The item's behaviour (open, poll, IRQ fan-out)
/// belongs to the external provider; the registry orders items and finds
/// them by name, so the name is all the core holds.
pub struct SchemeItem {
    pub name: Vec<char>,
}

/// An installed application package, recorded by the URL it was loaded
/// from.
pub struct Package {
    pub url: Vec<char>,
}

/// The session: the scheme registry, the package list, which images are
/// installed, and the dirty-redraw flag.
pub struct Session {
    pub items: Vec<SchemeItem>,
    pub packages: Vec<Package>,
    pub cursor_set: bool,
    pub background_set: bool,
    pub redraw: bool,
}

/// The registry's names in order.
pub open spec fn item_names(items: Seq<SchemeItem>) -> Seq<Seq<char>> {
    items.map_values(|it: SchemeItem| it.name@)
}

/// The scheme part of a `scheme:path` URL: the characters before the first
/// colon (the whole string when it has none).
pub open spec fn url_scheme(url: Seq<char>) -> Seq<char>
    decreases url.len(),
{
    if url.len() == 0 {
        url
    } else if url[0] == ':' {
        Seq::empty()
    } else {
        seq![url[0]] + url_scheme(url.drop_first())
    }
}

impl Session {
    /// A fresh session: no items, no packages, no images, nothing to
    /// redraw.
    pub fn new() -> (s: Session)
        ensures
            s.items@ == Seq::<SchemeItem>::empty(),
            s.packages@ == Seq::<Package>::empty(),
            !s.cursor_set,
            !s.background_set,
            !s.redraw,
    {
        Session {
            items: Vec::new(),
            packages: Vec::new(),
            cursor_set: false,
            background_set: false,
            redraw: false,
        }
    }

    /// Register one more scheme item at the end of the list; iteration
    /// order is registration order.
    pub fn push_item(&mut self, item: SchemeItem)
        ensures
            final(self).items@ == old(self).items@.push(item),
            final(self).packages@ == old(self).packages@,
            final(self).cursor_set == old(self).cursor_set,
            final(self).background_set == old(self).background_set,
            final(self).redraw == old(self).redraw,
    {
        self.items.push(item);
    }

    /// Resolve a `scheme:path` URL to the item that serves it: the first
    /// item in registration order whose name equals the URL's scheme part.
    /// The first match wins, so registration order decides.
    pub fn resolve_url(&self, url: &Vec<char>) -> (r: Option<usize>)
        ensures
            match r {
                Some(i) => i < self.items@.len() && self.items@[i as int].name@ == url_scheme(url@)
                    && (forall|i2: int|
                        0 <= i2 < i ==> self.items@[i2].name@ != url_scheme(url@)),
                None => forall|i: int|
                    0 <= i < self.items@.len() ==> self.items@[i].name@ != url_scheme(url@),
            },
    {
        let len = url.len();
        let mut scheme: Vec<char> = Vec::new();
        let mut i: usize = 0;
        proof {
            assert(url@.skip(0) =~= url@);
            assert(scheme@ + url_scheme(url@) =~= url_scheme(url@));
        }
        while i < len && url[i] != ':'
            invariant
                len == url@.len(),
                i <= len,
                url_scheme(url@) == scheme@ + url_scheme(url@.skip(i as int)),
                i < len ==> url@[i as int] == url@.skip(i as int)[0],
            decreases len - i,
        {
            let c = url[i];
            proof {
                assert(url@.skip(i as int)[0] == url@[i as int]);
                assert(url@.skip(i as int).drop_first() =~= url@.skip(i + 1 as int));
            }
            scheme.push(c);
            proof {
                assert(scheme@ + url_scheme(url@.skip(i + 1 as int)) =~= scheme@.drop_last()
                    + (seq![c] + url_scheme(url@.skip(i + 1 as int))));
            }
            i = i + 1;
        }
        proof {
            if i < len {
                assert(url@.skip(i as int)[0] == ':');
                assert(url_scheme(url@.skip(i as int)) =~= Seq::<char>::empty());
            } else {
                assert(url@.skip(i as int) =~= Seq::<char>::empty());
            }
            assert(scheme@ =~= url_scheme(url@));
        }
        self.find_item(&scheme)
    }

    /// Find the item a name addresses: the first item in registration
    /// order carrying that name, since the first match wins.
    pub fn find_item(&self, name: &Vec<char>) -> (r: Option<usize>)
        ensures
            match r {
                Some(i) => i < self.items@.len() && self.items@[i as int].name@ == name@
                    && (forall|i2: int| 0 <= i2 < i ==> self.items@[i2].name@ != name@),
                None => forall|i: int| 0 <= i < self.items@.len() ==> self.items@[i].name@ != name@,
            },
    {
        let len = self.items.len();
        let mut i: usize = 0;
        while i < len
            invariant
                len == self.items@.len(),
                i <= len,
                forall|i2: int| 0 <= i2 < i ==> self.items@[i2].name@ != name@,
            decreases len - i,
        {
            if chars_eq(&self.items[i].name, name) {
                return Some(i);
            }
            i = i + 1;
        }
        None
    }
}

/// Whether two character vectors hold the same characters.
pub fn chars_eq(a: &Vec<char>, b: &Vec<char>) -> (r: bool)
    ensures
        r <==> a@ == b@,
{
    if a.len() != b.len() {
        return false;
    }
    let len = a.len();
    let mut i: usize = 0;
    while i < len
        invariant
            len == a@.len(),
            len == b@.len(),
            i <= len,
            forall|i2: int| 0 <= i2 < i ==> a@[i2] == b@[i2],
        decreases len - i,
    {
        if a[i] != b[i] {
            return false;
        }
        i = i + 1;
    }
    proof {
        assert(a@ =~= b@);
    }
    true
}

} // verus!
