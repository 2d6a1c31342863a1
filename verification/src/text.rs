//! The textual side of the debug console: appending characters to the
//! serial-mirrored log, hexadecimal and decimal register formatting, the
//! substring test the boot diagnostics are checked with, and the parsing
//! of directory listings during bring-up.
use vstd::prelude::*;

verus! {

/// Append the characters of `s` to `out`.
pub fn push_str(out: &mut Vec<char>, s: &str)
    ensures
        final(out)@ == old(out)@ + s@,
{
    let n = s.unicode_len();
    let mut i: usize = 0;
    while i < n
        invariant
            n == s@.len(),
            i <= n,
            out@ == old(out)@ + s@.subrange(0, i as int),
        decreases n - i,
    {
        let c = s.get_char(i);
        out.push(c);
        assert(out@ =~= old(out)@ + s@.subrange(0, i + 1 as int));
        i = i + 1;
    }
    assert(s@.subrange(0, n as int) =~= s@);
}

/// The digit character for a value below sixteen.
pub open spec fn hex_digit(d: int) -> char {
    if d == 0 {
        '0'
    } else if d == 1 {
        '1'
    } else if d == 2 {
        '2'
    } else if d == 3 {
        '3'
    } else if d == 4 {
        '4'
    } else if d == 5 {
        '5'
    } else if d == 6 {
        '6'
    } else if d == 7 {
        '7'
    } else if d == 8 {
        '8'
    } else if d == 9 {
        '9'
    } else if d == 10 {
        'A'
    } else if d == 11 {
        'B'
    } else if d == 12 {
        'C'
    } else if d == 13 {
        'D'
    } else if d == 14 {
        'E'
    } else {
        'F'
    }
}

/// The hexadecimal rendering of a value, most significant digit first,
/// with no leading zeros (a single `0` for zero).
pub open spec fn hex_rep(v: nat) -> Seq<char>
    decreases v,
{
    if v < 16 {
        seq![hex_digit(v as int)]
    } else {
        hex_rep(v / 16).push(hex_digit((v % 16) as int))
    }
}

/// The decimal rendering of a value, most significant digit first.
pub open spec fn dec_rep(v: nat) -> Seq<char>
    decreases v,
{
    if v < 10 {
        seq![hex_digit(v as int)]
    } else {
        dec_rep(v / 10).push(hex_digit((v % 10) as int))
    }
}

/// The digit character of `d`, for `d` below sixteen.
fn digit_char(d: usize) -> (c: char)
    requires
        d < 16,
    ensures
        c == hex_digit(d as int),
{
    if d == 0 {
        '0'
    } else if d == 1 {
        '1'
    } else if d == 2 {
        '2'
    } else if d == 3 {
        '3'
    } else if d == 4 {
        '4'
    } else if d == 5 {
        '5'
    } else if d == 6 {
        '6'
    } else if d == 7 {
        '7'
    } else if d == 8 {
        '8'
    } else if d == 9 {
        '9'
    } else if d == 10 {
        'A'
    } else if d == 11 {
        'B'
    } else if d == 12 {
        'C'
    } else if d == 13 {
        'D'
    } else if d == 14 {
        'E'
    } else {
        'F'
    }
}

/// Append the digits of `value` in base `base` (ten or sixteen) to `out`.
fn push_radix(out: &mut Vec<char>, value: usize, base: usize)
    requires
        base == 10 || base == 16,
    ensures
        base == 16 ==> final(out)@ == old(out)@ + hex_rep(value as nat),
        base == 10 ==> final(out)@ == old(out)@ + dec_rep(value as nat),
{
    let ghost rep = if base == 16 {
        hex_rep(value as nat)
    } else {
        dec_rep(value as nat)
    };
    let mut digits: Vec<char> = Vec::new();
    let d0 = value % base;
    let mut rem: usize = value / base;
    digits.push(digit_char(d0));
    proof {
        lemma_reverse_push(Seq::<char>::empty(), hex_digit(d0 as int));
        if value < base {
            assert(d0 == value && rem == 0) by (nonlinear_arith)
                requires
                    d0 == value % base,
                    rem == value / base,
                    base >= 10,
                    value < base,
            ;
        } else {
            assert(rem > 0) by (nonlinear_arith)
                requires
                    rem == value / base,
                    base >= 10,
                    value >= base,
            ;
        }
        assert(rem > 0 ==> rep =~= (if base == 16 {
            hex_rep(rem as nat)
        } else {
            dec_rep(rem as nat)
        }) + digits@.reverse());
        assert(rem == 0 ==> rep =~= digits@.reverse());
    }
    while rem > 0
        invariant
            base == 10 || base == 16,
            rep == (if base == 16 {
                hex_rep(value as nat)
            } else {
                dec_rep(value as nat)
            }),
            rem > 0 ==> rep == (if base == 16 {
                hex_rep(rem as nat)
            } else {
                dec_rep(rem as nat)
            }) + digits@.reverse(),
            rem == 0 ==> rep == digits@.reverse(),
        decreases rem,
    {
        let d = rem % base;
        let next = rem / base;
        let ghost digits0 = digits@;
        digits.push(digit_char(d));
        proof {
            lemma_reverse_push(digits0, hex_digit(d as int));
            if rem < base {
                assert(d == rem && next == 0) by (nonlinear_arith)
                    requires
                        d == rem % base,
                        next == rem / base,
                        base >= 10,
                        rem < base,
                ;
                assert(rep =~= digits@.reverse());
            } else {
                assert(next > 0 && next < rem) by (nonlinear_arith)
                    requires
                        d == rem % base,
                        next == rem / base,
                        base >= 10,
                        rem >= base,
                ;
                assert(rep =~= (if base == 16 {
                    hex_rep(next as nat)
                } else {
                    dec_rep(next as nat)
                }) + digits@.reverse());
            }
        }
        rem = next;
    }
    let n = digits.len();
    let mut k: usize = 0;
    while k < n
        invariant
            n == digits@.len(),
            k <= n,
            out@ == old(out)@ + digits@.reverse().subrange(0, k as int),
        decreases n - k,
    {
        let c = digits[n - 1 - k];
        out.push(c);
        assert(out@ =~= old(out)@ + digits@.reverse().subrange(0, k + 1 as int));
        k = k + 1;
    }
    assert(digits@.reverse().subrange(0, n as int) =~= digits@.reverse());
    assert(rep =~= digits@.reverse());
}

/// Reversing after appending puts the appended element first.
proof fn lemma_reverse_push(s: Seq<char>, c: char)
    ensures
        (s.push(c)).reverse() =~= seq![c] + s.reverse(),
{
}

/// Append `value` in hexadecimal, as the register dumps print it.
pub fn push_hex(out: &mut Vec<char>, value: usize)
    ensures
        final(out)@ == old(out)@ + hex_rep(value as nat),
{
    push_radix(out, value, 16)
}

/// Append `value` in decimal, as the word-size banner prints it.
pub fn push_dec(out: &mut Vec<char>, value: usize)
    ensures
        final(out)@ == old(out)@ + dec_rep(value as nat),
{
    push_radix(out, value, 10)
}

/// One line of a register dump: the register's name, a separating colon,
/// the value in hexadecimal, and a line break.
pub open spec fn dr_line(reg: Seq<char>, value: nat) -> Seq<char> {
    reg + ": "@ + hex_rep(value) + "\n"@
}

/// Format one register for a diagnostic dump.
pub fn dr(reg: &str, value: usize) -> (line: Vec<char>)
    ensures
        line@ == dr_line(reg@, value as nat),
{
    let mut line: Vec<char> = Vec::new();
    push_str(&mut line, reg);
    push_str(&mut line, ": ");
    push_hex(&mut line, value);
    push_str(&mut line, "\n");
    line
}

/// Append the characters of `src` to `out`.
pub fn push_chars(out: &mut Vec<char>, src: &Vec<char>)
    ensures
        final(out)@ == old(out)@ + src@,
{
    let n = src.len();
    let mut i: usize = 0;
    while i < n
        invariant
            n == src@.len(),
            i <= n,
            out@ == old(out)@ + src@.subrange(0, i as int),
        decreases n - i,
    {
        let c = src[i];
        out.push(c);
        assert(out@ =~= old(out)@ + src@.subrange(0, i + 1 as int));
        i = i + 1;
    }
    assert(src@.subrange(0, n as int) =~= src@);
}

/// Append one register-dump line to the log: the register's name, a
/// colon, the value in hexadecimal, and a line break.
pub fn push_dr(out: &mut Vec<char>, reg: &str, value: usize)
    ensures
        final(out)@ == old(out)@ + dr_line(reg@, value as nat),
{
    push_str(out, reg);
    push_str(out, ": ");
    push_hex(out, value);
    push_str(out, "\n");
    assert(out@ =~= old(out)@ + dr_line(reg@, value as nat));
}

/// Whether `n` occurs as a contiguous run inside `h`.
pub open spec fn contains_seq(h: Seq<char>, n: Seq<char>) -> bool {
    exists|i: int| 0 <= i && i + n.len() <= h.len() && #[trigger] h.subrange(i, i + n.len()) == n
}

/// Whether `needle` occurs at position `i` of `hay`.
fn matches_at(hay: &Vec<char>, needle: &str, i: usize) -> (r: bool)
    requires
        i + needle@.len() <= hay@.len(),
    ensures
        r <==> hay@.subrange(i as int, i + needle@.len()) == needle@,
{
    let n = needle.unicode_len();
    let h = hay.len();
    let mut k: usize = 0;
    while k < n
        invariant
            n == needle@.len(),
            h == hay@.len(),
            i + n <= h,
            k <= n,
            forall|k2: int| 0 <= k2 < k ==> hay@[i + k2] == needle@[k2],
        decreases n - k,
    {
        if hay[i + k] != needle.get_char(k) {
            assert(hay@.subrange(i as int, i + needle@.len())[k as int] != needle@[k as int]);
            return false;
        }
        k = k + 1;
    }
    assert(hay@.subrange(i as int, i + needle@.len()) =~= needle@);
    true
}

/// Whether the log `hay` contains the marker `needle`.
pub fn contains_str(hay: &Vec<char>, needle: &str) -> (r: bool)
    ensures
        r <==> contains_seq(hay@, needle@),
{
    let n = needle.unicode_len();
    let h = hay.len();
    if n > h {
        return false;
    }
    if n == 0 {
        assert(contains_seq(hay@, needle@)) by {
            assert(hay@.subrange(0, 0 + needle@.len() as int) =~= needle@);
        }
        return true;
    }
    let last = h - n;
    let mut i: usize = 0;
    while i <= last
        invariant
            n == needle@.len(),
            h == hay@.len(),
            1 <= n <= h,
            last == h - n,
            i <= last + 1,
            forall|i2: int|
                0 <= i2 < i ==> #[trigger] hay@.subrange(i2, i2 + needle@.len()) != needle@,
        decreases last + 1 - i,
    {
        if matches_at(hay, needle, i) {
            return true;
        }
        i = i + 1;
    }
    false
}

/// The directory names in a listing: the listing is one name per line, a
/// trailing slash marks a directory, and every other line is ignored. The
/// names are returned without their trailing slash. `cur` is the part of
/// the current line already read.
pub open spec fn spec_dirs(s: Seq<char>, cur: Seq<char>) -> Seq<Seq<char>>
    decreases s.len(),
{
    if s.len() == 0 {
        if cur.len() > 0 && cur.last() == '/' {
            seq![cur.drop_last()]
        } else {
            seq![]
        }
    } else if s[0] == '\n' {
        (if cur.len() > 0 && cur.last() == '/' {
            seq![cur.drop_last()]
        } else {
            seq![]
        }) + spec_dirs(s.drop_first(), Seq::empty())
    } else {
        spec_dirs(s.drop_first(), cur.push(s[0]))
    }
}

/// The views of a vector of character vectors.
pub open spec fn views_of(v: Seq<Vec<char>>) -> Seq<Seq<char>> {
    v.map_values(|x: Vec<char>| x@)
}

/// Split a directory listing into the directory names it holds: one name
/// per line, where a trailing slash marks a directory and every other
/// line is ignored.
pub fn parse_directory_listing(listing: &Vec<char>) -> (dirs: Vec<Vec<char>>)
    ensures
        views_of(dirs@) == spec_dirs(listing@, Seq::empty()),
{
    let len = listing.len();
    let mut dirs: Vec<Vec<char>> = Vec::new();
    let mut cur: Vec<char> = Vec::new();
    let mut i: usize = 0;
    proof {
        assert(listing@.skip(0) =~= listing@);
        assert(views_of(dirs@) =~= Seq::<Seq<char>>::empty());
        assert(views_of(dirs@) + spec_dirs(listing@, Seq::empty()) =~= spec_dirs(
            listing@,
            Seq::empty(),
        ));
    }
    while i < len
        invariant
            len == listing@.len(),
            i <= len,
            spec_dirs(listing@, Seq::empty()) == views_of(dirs@) + spec_dirs(
                listing@.skip(i as int),
                cur@,
            ),
        decreases len - i,
    {
        let c = listing[i];
        proof {
            assert(listing@.skip(i as int)[0] == listing@[i as int]);
            assert(listing@.skip(i as int).drop_first() =~= listing@.skip(i + 1));
        }
        if c == '\n' {
            let line_len = cur.len();
            if line_len > 0 && cur[line_len - 1] == '/' {
                let ghost cur0 = cur@;
                let mut name = cur;
                name.pop();
                assert(name@ =~= cur0.drop_last());
                let ghost dirs0 = dirs@;
                dirs.push(name);
                proof {
                    assert(views_of(dirs@) =~= views_of(dirs0) + seq![cur0.drop_last()]);
                }
                cur = Vec::new();
            } else {
                cur = Vec::new();
            }
        } else {
            cur.push(c);
        }
        i = i + 1;
    }
    proof {
        assert(listing@.skip(len as int) =~= Seq::<char>::empty());
    }
    let line_len = cur.len();
    if line_len > 0 && cur[line_len - 1] == '/' {
        let ghost cur0 = cur@;
        let mut name = cur;
        name.pop();
        assert(name@ =~= cur0.drop_last());
        let ghost dirs0 = dirs@;
        dirs.push(name);
        proof {
            assert(views_of(dirs@) =~= views_of(dirs0) + seq![cur0.drop_last()]);
        }
    }
    dirs
}

} // verus!
