//! A byte-level screen for JSON text: it leaves out, without parsing, the
//! bytes on which the JSON reader would fail by panicking rather than by
//! returning an error.
//!
//! The reader keeps the keys of the enclosing objects in a buffer indexed
//! by 16-bit positions, multiplies an exponent's digits in a machine word,
//! recurses once per nesting level, and loses its place on an object that
//! ends in a comma. The screen tracks strings, nesting, the longest key,
//! the longest run of exponent digits, and commas that close an object,
//! over the raw bytes.
use vstd::prelude::*;

verus! {

/// The deepest nesting of arrays and objects that the reader is given.
pub const MAX_DEPTH: u64 = 128;

/// The state of the screen after a prefix of the bytes.
pub struct Scan {
    /// Inside a string.
    pub in_str: bool,
    /// The previous byte of the string was a backslash.
    pub esc: bool,
    /// Bytes of the current string so far.
    pub cur: nat,
    /// Only whitespace followed the last string.
    pub after_str: bool,
    /// Bytes of the last string.
    pub last_len: nat,
    /// Arrays and objects open.
    pub depth: nat,
    /// The most arrays and objects open at once.
    pub max_depth: nat,
    /// The longest key: a string followed by a colon.
    pub max_key: nat,
    /// Digits here belong to an exponent.
    pub exp_on: bool,
    /// An exponent's sign may come here.
    pub sign_ok: bool,
    /// Digits of the current exponent.
    pub exp: nat,
    /// The longest run of exponent digits.
    pub max_exp: nat,
    /// Only whitespace followed the last comma.
    pub after_comma: bool,
    /// A comma was followed, after whitespace, by the end of an object.
    pub comma_close: bool,
}

pub open spec fn is_ws(c: u8) -> bool {
    c == 0x20 || c == 0x09 || c == 0x0a || c == 0x0d
}

pub open spec fn max_nat(a: nat, b: nat) -> nat {
    if a >= b {
        a
    } else {
        b
    }
}

pub open spec fn scan_start() -> Scan {
    Scan {
        in_str: false,
        esc: false,
        cur: 0,
        after_str: false,
        last_len: 0,
        depth: 0,
        max_depth: 0,
        max_key: 0,
        exp_on: false,
        sign_ok: false,
        exp: 0,
        max_exp: 0,
        after_comma: false,
        comma_close: false,
    }
}

/// The screen's state after one more byte outside strings, before the
/// comma flags are updated.
pub open spec fn scan_outside(s: Scan, c: u8) -> Scan {
    if c == 0x22 {
        Scan { in_str: true, esc: false, cur: 0, after_str: false, exp_on: false, ..s }
    } else if is_ws(c) {
        Scan { exp_on: false, ..s }
    } else if c == 0x3a {
        Scan {
            after_str: false,
            exp_on: false,
            max_key: if s.after_str {
                max_nat(s.max_key, s.last_len)
            } else {
                s.max_key
            },
            ..s
        }
    } else if c == 0x7b || c == 0x5b {
        Scan {
            depth: s.depth + 1,
            max_depth: max_nat(s.max_depth, s.depth + 1),
            after_str: false,
            exp_on: false,
            ..s
        }
    } else if c == 0x7d || c == 0x5d {
        Scan {
            depth: if s.depth > 0 {
                (s.depth - 1) as nat
            } else {
                0
            },
            after_str: false,
            exp_on: false,
            ..s
        }
    } else if c == 0x65 || c == 0x45 {
        Scan { exp_on: true, sign_ok: true, exp: 0, after_str: false, ..s }
    } else if (c == 0x2b || c == 0x2d) && s.exp_on && s.sign_ok {
        Scan { sign_ok: false, after_str: false, ..s }
    } else if 0x30 <= c <= 0x39 && s.exp_on {
        Scan {
            exp: s.exp + 1,
            max_exp: max_nat(s.max_exp, s.exp + 1),
            sign_ok: false,
            after_str: false,
            ..s
        }
    } else if 0x30 <= c <= 0x39 {
        Scan { after_str: false, ..s }
    } else {
        Scan { after_str: false, exp_on: false, ..s }
    }
}

/// The screen's state after one more byte.
pub open spec fn scan_step(s: Scan, c: u8) -> Scan {
    if s.in_str {
        if s.esc {
            Scan { esc: false, cur: s.cur + 1, ..s }
        } else if c == 0x5c {
            Scan { esc: true, cur: s.cur + 1, ..s }
        } else if c == 0x22 {
            Scan { in_str: false, after_str: true, last_len: s.cur, ..s }
        } else {
            Scan { cur: s.cur + 1, ..s }
        }
    } else {
        let t = scan_outside(s, c);
        Scan {
            after_comma: if c == 0x2c {
                true
            } else if is_ws(c) {
                s.after_comma
            } else {
                false
            },
            comma_close: s.comma_close || (s.after_comma && c == 0x7d),
            ..t
        }
    }
}

/// The screen's state after all of `b`.
pub open spec fn scan(b: Seq<u8>) -> Scan
    decreases b.len(),
{
    if b.len() == 0 {
        scan_start()
    } else {
        scan_step(scan(b.drop_last()), b.last())
    }
}

/// Bytes that the JSON reader takes without panicking or exhausting its
/// stack: at most `u32::MAX` of them, nested at most `MAX_DEPTH` deep,
/// the keys of nested objects fitting in 16-bit positions, no exponent of
/// more than nineteen digits, and no object that ends in a comma.
pub open spec fn reader_safe(b: Seq<u8>) -> bool {
    &&& b.len() <= u32::MAX
    &&& scan(b).max_depth <= MAX_DEPTH
    &&& scan(b).max_depth * scan(b).max_key <= 0xffff
    &&& scan(b).max_exp <= 19
    &&& !scan(b).comma_close
}

pub open spec fn bounded(s: Scan, n: nat) -> bool {
    &&& s.cur <= n
    &&& s.last_len <= n
    &&& s.depth <= n
    &&& s.max_depth <= n
    &&& s.max_key <= n
    &&& s.exp <= n
    &&& s.max_exp <= n
}

proof fn lemma_scan_bounded(b: Seq<u8>)
    ensures
        bounded(scan(b), b.len()),
    decreases b.len(),
{
    if b.len() > 0 {
        lemma_scan_bounded(b.drop_last());
    }
}

struct ScanState {
    in_str: bool,
    esc: bool,
    cur: u64,
    after_str: bool,
    last_len: u64,
    depth: u64,
    max_depth: u64,
    max_key: u64,
    exp_on: bool,
    sign_ok: bool,
    exp: u64,
    max_exp: u64,
    after_comma: bool,
    comma_close: bool,
}

impl ScanState {
    spec fn view(&self) -> Scan {
        Scan {
            in_str: self.in_str,
            esc: self.esc,
            cur: self.cur as nat,
            after_str: self.after_str,
            last_len: self.last_len as nat,
            depth: self.depth as nat,
            max_depth: self.max_depth as nat,
            max_key: self.max_key as nat,
            exp_on: self.exp_on,
            sign_ok: self.sign_ok,
            exp: self.exp as nat,
            max_exp: self.max_exp as nat,
            after_comma: self.after_comma,
            comma_close: self.comma_close,
        }
    }
}

fn step_outside(s: &mut ScanState, c: u8)
    requires
        bounded(old(s)@, u32::MAX as nat),
    ensures
        final(s)@ == scan_outside(old(s)@, c),
{
    if c == 0x22 {
        s.in_str = true;
        s.esc = false;
        s.cur = 0;
        s.after_str = false;
        s.exp_on = false;
    } else if c == 0x20 || c == 0x09 || c == 0x0a || c == 0x0d {
        s.exp_on = false;
    } else if c == 0x3a {
        if s.after_str && s.last_len > s.max_key {
            s.max_key = s.last_len;
        }
        s.after_str = false;
        s.exp_on = false;
    } else if c == 0x7b || c == 0x5b {
        s.depth = s.depth + 1;
        if s.depth > s.max_depth {
            s.max_depth = s.depth;
        }
        s.after_str = false;
        s.exp_on = false;
    } else if c == 0x7d || c == 0x5d {
        if s.depth > 0 {
            s.depth = s.depth - 1;
        }
        s.after_str = false;
        s.exp_on = false;
    } else if c == 0x65 || c == 0x45 {
        s.exp_on = true;
        s.sign_ok = true;
        s.exp = 0;
        s.after_str = false;
    } else if (c == 0x2b || c == 0x2d) && s.exp_on && s.sign_ok {
        s.sign_ok = false;
        s.after_str = false;
    } else if 0x30 <= c && c <= 0x39 && s.exp_on {
        s.exp = s.exp + 1;
        if s.exp > s.max_exp {
            s.max_exp = s.exp;
        }
        s.sign_ok = false;
        s.after_str = false;
    } else if 0x30 <= c && c <= 0x39 {
        s.after_str = false;
    } else {
        s.after_str = false;
        s.exp_on = false;
    }
}

fn step(s: &mut ScanState, c: u8)
    requires
        bounded(old(s)@, u32::MAX as nat),
    ensures
        final(s)@ == scan_step(old(s)@, c),
{
    if s.in_str {
        if s.esc {
            s.esc = false;
            s.cur = s.cur + 1;
        } else if c == 0x5c {
            s.esc = true;
            s.cur = s.cur + 1;
        } else if c == 0x22 {
            s.in_str = false;
            s.after_str = true;
            s.last_len = s.cur;
        } else {
            s.cur = s.cur + 1;
        }
    } else {
        let after_comma = s.after_comma;
        let comma_close = s.comma_close || (after_comma && c == 0x7d);
        step_outside(s, c);
        s.after_comma = if c == 0x2c {
            true
        } else if c == 0x20 || c == 0x09 || c == 0x0a || c == 0x0d {
            after_comma
        } else {
            false
        };
        s.comma_close = comma_close;
    }
}

/// Whether the JSON reader can take `b` without panicking or exhausting
/// its stack.
pub fn reader_safe_check(b: &[u8]) -> (r: bool)
    ensures
        r == reader_safe(b@),
{
    if b.len() > u32::MAX as usize {
        return false;
    }
    let mut s = ScanState {
        in_str: false,
        esc: false,
        cur: 0,
        after_str: false,
        last_len: 0,
        depth: 0,
        max_depth: 0,
        max_key: 0,
        exp_on: false,
        sign_ok: false,
        exp: 0,
        max_exp: 0,
        after_comma: false,
        comma_close: false,
    };
    let mut i: usize = 0;
    assert(b@.subrange(0, 0) =~= Seq::<u8>::empty());
    while i < b.len()
        invariant
            i <= b@.len() <= u32::MAX,
            s@ == scan(b@.subrange(0, i as int)),
        decreases b@.len() - i,
    {
        proof {
            lemma_scan_bounded(b@.subrange(0, i as int));
            assert(b@.subrange(0, i + 1).drop_last() =~= b@.subrange(0, i as int));
        }
        step(&mut s, b[i]);
        i = i + 1;
    }
    proof {
        assert(b@.subrange(0, b@.len() as int) =~= b@);
        lemma_scan_bounded(b@);
        let x = s.max_depth as int;
        let y = s.max_key as int;
        assert(x * y <= 0xffff_ffff * 0xffff_ffff) by (nonlinear_arith)
            requires
                0 <= x <= 0xffff_ffff,
                0 <= y <= 0xffff_ffff,
        ;
    }
    s.max_depth <= MAX_DEPTH && s.max_depth * s.max_key <= 0xffff && s.max_exp <= 19
        && !s.comma_close
}

} // verus!
