//! Bluetooth scan reporting: the device-address value type and the running
//! statistics a scanning capsule keeps over the advertisements it hears.
//!
//! Addresses arrive least-significant byte first; they are displayed
//! most-significant byte first, as colon-separated hexadecimal pairs.

use vstd::prelude::*;

verus! {

/// A Bluetooth device address: six bytes, least significant first.
#[derive(Debug, Clone, Copy, PartialEq, Eq, Structural)]
pub struct BdAddr {
    pub a: u8,
    pub b: u8,
    pub c: u8,
    pub d: u8,
    pub e: u8,
    pub f: u8,
}

impl BdAddr {
    /// The address as a plain byte array, least significant byte first.
    pub fn into_inner(&self) -> (r: [u8; 6])
        ensures
            r@ =~= seq![self.a, self.b, self.c, self.d, self.e, self.f],
    {
        let res: [u8; 6] = [self.a, self.b, self.c, self.d, self.e, self.f];
        res
    }

    /// Builds an address from its bytes, least significant byte first.
    pub fn new(val: [u8; 6]) -> (r: BdAddr)
        ensures
            r.a == val@[0],
            r.b == val@[1],
            r.c == val@[2],
            r.d == val@[3],
            r.e == val@[4],
            r.f == val@[5],
    {
        BdAddr { a: val[0], b: val[1], c: val[2], d: val[3], e: val[4], f: val[5] }
    }

    /// The address rendered for humans: hexadecimal pairs, most significant
    /// byte first, colon-separated.
    pub fn display_string(&self) -> (r: String)
        ensures
            r@ == bdaddr_chars(*self),
    {
        let mut s = String::new();
        push_hex_byte(&mut s, self.f);
        push_colon(&mut s);
        push_hex_byte(&mut s, self.e);
        push_colon(&mut s);
        push_hex_byte(&mut s, self.d);
        push_colon(&mut s);
        push_hex_byte(&mut s, self.c);
        push_colon(&mut s);
        push_hex_byte(&mut s, self.b);
        push_colon(&mut s);
        push_hex_byte(&mut s, self.a);
        proof {
            assert(s@ =~= bdaddr_chars(*self));
        }
        s
    }
}

impl Default for BdAddr {
    /// The all-zero address.
    fn default() -> (r: Self)
        ensures
            r == (BdAddr { a: 0, b: 0, c: 0, d: 0, e: 0, f: 0 }),
    {
        BdAddr { a: 0, b: 0, c: 0, d: 0, e: 0, f: 0 }
    }
}

/// The character for one hexadecimal digit, upper case.
pub open spec fn hex_char(n: u8) -> char {
    if n == 0 {
        '0'
    } else if n == 1 {
        '1'
    } else if n == 2 {
        '2'
    } else if n == 3 {
        '3'
    } else if n == 4 {
        '4'
    } else if n == 5 {
        '5'
    } else if n == 6 {
        '6'
    } else if n == 7 {
        '7'
    } else if n == 8 {
        '8'
    } else if n == 9 {
        '9'
    } else if n == 10 {
        'A'
    } else if n == 11 {
        'B'
    } else if n == 12 {
        'C'
    } else if n == 13 {
        'D'
    } else if n == 14 {
        'E'
    } else {
        'F'
    }
}

/// One byte as two hexadecimal characters, high nibble first.
pub open spec fn byte_hex(b: u8) -> Seq<char> {
    seq![hex_char(b / 16), hex_char(b % 16)]
}

/// The display form of an address: hexadecimal pairs, most significant byte
/// first, colon-separated.
pub open spec fn bdaddr_chars(x: BdAddr) -> Seq<char> {
    byte_hex(x.f) + seq![':'] + byte_hex(x.e) + seq![':'] + byte_hex(x.d) + seq![':'] + byte_hex(
        x.c,
    ) + seq![':'] + byte_hex(x.b) + seq![':'] + byte_hex(x.a)
}

/// One hexadecimal digit as a string slice.
fn hex_str(n: u8) -> (r: &'static str)
    requires
        n < 16,
    ensures
        r@ =~= seq![hex_char(n)],
{
    match n {
        0 => {
            proof {
                reveal_strlit("0");
            }
            "0"
        },
        1 => {
            proof {
                reveal_strlit("1");
            }
            "1"
        },
        2 => {
            proof {
                reveal_strlit("2");
            }
            "2"
        },
        3 => {
            proof {
                reveal_strlit("3");
            }
            "3"
        },
        4 => {
            proof {
                reveal_strlit("4");
            }
            "4"
        },
        5 => {
            proof {
                reveal_strlit("5");
            }
            "5"
        },
        6 => {
            proof {
                reveal_strlit("6");
            }
            "6"
        },
        7 => {
            proof {
                reveal_strlit("7");
            }
            "7"
        },
        8 => {
            proof {
                reveal_strlit("8");
            }
            "8"
        },
        9 => {
            proof {
                reveal_strlit("9");
            }
            "9"
        },
        10 => {
            proof {
                reveal_strlit("A");
            }
            "A"
        },
        11 => {
            proof {
                reveal_strlit("B");
            }
            "B"
        },
        12 => {
            proof {
                reveal_strlit("C");
            }
            "C"
        },
        13 => {
            proof {
                reveal_strlit("D");
            }
            "D"
        },
        14 => {
            proof {
                reveal_strlit("E");
            }
            "E"
        },
        _ => {
            proof {
                reveal_strlit("F");
            }
            "F"
        },
    }
}

/// Appends one byte as two hexadecimal characters.
fn push_hex_byte(s: &mut String, b: u8)
    ensures
        final(s)@ == old(s)@ + byte_hex(b),
{
    s.append(hex_str(b / 16));
    s.append(hex_str(b % 16));
    proof {
        assert(s@ =~= old(s)@ + byte_hex(b));
    }
}

/// Appends the separating colon.
fn push_colon(s: &mut String)
    ensures
        final(s)@ == old(s)@ + seq![':'],
{
    proof {
        reveal_strlit(":");
    }
    s.append(":");
    proof {
        assert(s@ =~= old(s)@ + seq![':']);
    }
}

/// Increments a sighting count, pinned at the top of the range.
pub open spec fn bump(c: u64) -> u64 {
    if c == u64::MAX {
        c
    } else {
        (c + 1) as u64
    }
}

/// Running statistics of a scan: how often each address has been seen, in
/// order of first discovery.
pub struct ScanStats {
    /// One entry per distinct address.
    pub seen: Vec<(BdAddr, u64)>,
}

impl ScanStats {
    /// Each address appears at most once.
    pub open spec fn wf(&self) -> bool {
        forall|i: int, j: int|
            0 <= i < j < self.seen@.len() ==> (#[trigger] self.seen@[i]).0 != (
            #[trigger] self.seen@[j]).0
    }

    /// No sightings yet.
    pub fn new() -> (s: ScanStats)
        ensures
            s.wf(),
            s.seen@.len() == 0,
    {
        ScanStats { seen: Vec::new() }
    }

    /// Records one advertisement report. Returns true exactly on the first
    /// sighting of the address — the caller announces the discovery then.
    #[verifier::loop_isolation(false)]
    pub fn on_single_report(&mut self, addr: BdAddr) -> (newly: bool)
        requires
            old(self).wf(),
        ensures
            final(self).wf(),
            newly == (forall|i: int|
                0 <= i < old(self).seen@.len() ==> (#[trigger] old(self).seen@[i]).0 != addr),
            (newly ==> final(self).seen@ == old(self).seen@.push((addr, 1u64))),
            (!newly ==> {
                &&& final(self).seen@.len() == old(self).seen@.len()
                &&& forall|j: int|
                    0 <= j < old(self).seen@.len() && (#[trigger] old(self).seen@[j]).0 != addr
                        ==> final(self).seen@[j] == old(self).seen@[j]
                &&& forall|j: int|
                    0 <= j < old(self).seen@.len() && (#[trigger] old(self).seen@[j]).0 == addr
                        ==> final(self).seen@[j] == (addr, bump(old(self).seen@[j].1))
            }),
    {
        let n = self.seen.len();
        let mut i: usize = 0;
        while i < n
            invariant
                i <= n,
                n == self.seen@.len(),
                self.seen@ == old(self).seen@,
                forall|j: int| 0 <= j < i ==> (#[trigger] self.seen@[j]).0 != addr,
            decreases n - i,
        {
            if self.seen[i].0 == addr {
                let count = self.seen[i].1;
                let bumped = if count == u64::MAX {
                    count
                } else {
                    count + 1
                };
                self.seen.set(i, (addr, bumped));
                return false;
            }
            i = i + 1;
        }
        self.seen.push((addr, 1));
        true
    }

    /// The statistics gathered so far: one `(address, count)` pair per
    /// distinct address, in order of first discovery.
    pub fn return_stats(&self) -> (r: Vec<(BdAddr, u64)>)
        ensures
            r@ == self.seen@,
    {
        let n = self.seen.len();
        let mut r: Vec<(BdAddr, u64)> = Vec::new();
        let mut i: usize = 0;
        while i < n
            invariant
                i <= n,
                n == self.seen@.len(),
                r@ == self.seen@.take(i as int),
            decreases n - i,
        {
            r.push(self.seen[i]);
            i = i + 1;
        }
        proof {
            assert(r@ =~= self.seen@);
        }
        r
    }
}

} // verus!
