//! Host strings and resolved socket addresses.
use vstd::prelude::*;

verus! {

/// Why an address could not be turned into socket addresses.
#[derive(Debug, Clone, PartialEq, Eq)]
pub enum AddressError {
    /// A port could not be read as a number.
    Parse(String),
    /// Name resolution failed.
    Io(String),
}

/// An IP address, as its octets.
#[derive(Debug, Clone, Copy, PartialEq, Eq)]
pub enum IpAddress {
    V4([u8; 4]),
    V6 { octets: [u8; 16], flowinfo: u32, scope_id: u32 },
}

/// One result of name resolution: an IP address and a port.
#[derive(Debug, Clone, Copy, PartialEq, Eq)]
pub struct SocketAddress {
    pub ip: IpAddress,
    pub port: u16,
}

impl SocketAddress {
    pub open spec fn is_v4(&self) -> bool {
        self.ip is V4
    }
}

/// At most one address of each family.
#[derive(Debug, Clone, Copy, PartialEq, Eq, Default)]
pub struct Addresses {
    pub ipv4: Option<SocketAddress>,
    pub ipv6: Option<SocketAddress>,
}

/// The last address in `s` whose family is IPv4 (`v4`) or IPv6 (`!v4`).
pub open spec fn last_of_family(s: Seq<SocketAddress>, v4: bool) -> Option<SocketAddress>
    decreases s.len(),
{
    if s.len() == 0 {
        None
    } else if s.last().is_v4() == v4 {
        Some(s.last())
    } else {
        last_of_family(s.drop_last(), v4)
    }
}

/// Partitions resolved addresses by family; of each family the last one wins.
/// An empty list gives neither.
pub fn get_addresses(resolved: &Vec<SocketAddress>) -> (r: Addresses)
    ensures
        r.ipv4 == last_of_family(resolved@, true),
        r.ipv6 == last_of_family(resolved@, false),
{
    let mut addresses = Addresses { ipv4: None, ipv6: None };
    let mut i: usize = 0;
    while i < resolved.len()
        invariant
            i <= resolved@.len(),
            addresses.ipv4 == last_of_family(resolved@.subrange(0, i as int), true),
            addresses.ipv6 == last_of_family(resolved@.subrange(0, i as int), false),
        decreases resolved@.len() - i,
    {
        let a = resolved[i];
        proof {
            let next = resolved@.subrange(0, i + 1);
            assert(next.drop_last() =~= resolved@.subrange(0, i as int));
            assert(next.last() == a);
        }
        match a.ip {
            IpAddress::V4(_) => {
                addresses.ipv4 = Some(a);
            },
            IpAddress::V6 { .. } => {
                addresses.ipv6 = Some(a);
            },
        }
        i = i + 1;
    }
    assert(resolved@.subrange(0, i as int) =~= resolved@);
    addresses
}

pub open spec fn is_digit(c: char) -> bool {
    '0' <= c && c <= '9'
}

/// The decimal value of a run of digits.
pub open spec fn digits_value(d: Seq<char>) -> nat
    decreases d.len(),
{
    if d.len() == 0 {
        0
    } else {
        digits_value(d.drop_last()) * 10 + ((d.last() as nat) - ('0' as nat)) as nat
    }
}

/// The digits of a number text: without its optional leading `+`.
pub open spec fn unsigned_digits(s: Seq<char>) -> Seq<char> {
    if s.len() > 0 && s[0] == '+' {
        s.subrange(1, s.len() as int)
    } else {
        s
    }
}

/// Text that reads as a 16-bit unsigned integer: an optional `+`, then one
/// or more decimal digits whose value is at most 65535.
pub open spec fn is_port_text(s: Seq<char>) -> bool {
    let d = unsigned_digits(s);
    &&& d.len() > 0
    &&& forall|i: int| 0 <= i < d.len() ==> is_digit(#[trigger] d[i])
    &&& digits_value(d) <= 65535
}

/// `i` is the position of the last `:` in `s`.
pub open spec fn is_last_colon(s: Seq<char>, i: int) -> bool {
    &&& 0 <= i < s.len()
    &&& s[i] == ':'
    &&& forall|j: int| i < j < s.len() ==> s[j] != ':'
}

/// The port text of `s`, as `get_port` finds it.
pub open spec fn port_of(s: Seq<char>) -> Option<Seq<char>> {
    if exists|i: int| is_last_colon(s, i) && is_port_text(s.subrange(i + 1, s.len() as int)) {
        let i = choose|i: int|
            is_last_colon(s, i) && is_port_text(s.subrange(i + 1, s.len() as int));
        Some(s.subrange(i + 1, s.len() as int))
    } else {
        None
    }
}

/// A text has at most one last `:`.
proof fn lemma_last_colon_unique(s: Seq<char>, i: int, j: int)
    requires
        is_last_colon(s, i),
        is_last_colon(s, j),
    ensures
        i == j,
{
    if i < j {
        assert(s[j] == ':');
    } else if j < i {
        assert(s[i] == ':');
    }
}

proof fn lemma_prefix_value_le(d: Seq<char>, k: int)
    requires
        0 <= k <= d.len(),
        forall|i: int| 0 <= i < d.len() ==> is_digit(#[trigger] d[i]),
    ensures
        digits_value(d.subrange(0, k)) <= digits_value(d),
    decreases d.len(),
{
    if k == d.len() {
        assert(d.subrange(0, k) =~= d);
    } else {
        let p = d.drop_last();
        assert(d.subrange(0, k) =~= p.subrange(0, k));
        assert forall|i: int| 0 <= i < p.len() implies is_digit(#[trigger] p[i]) by {
            assert(p[i] == d[i]);
        }
        lemma_prefix_value_le(p, k);
    }
}

/// Whether `p` reads as a 16-bit unsigned integer.
fn parses_as_port(p: &str) -> (b: bool)
    ensures
        b == is_port_text(p@),
{
    let n = p.unicode_len();
    let mut start: usize = 0;
    if n > 0 && p.get_char(0) == '+' {
        start = 1;
    }
    let ghost d = unsigned_digits(p@);
    assert(d =~= p@.subrange(start as int, n as int));
    if start >= n {
        return false;
    }
    let mut value: u32 = 0;
    let mut i: usize = start;
    while i < n
        invariant
            start <= i <= n,
            n == p@.len(),
            d == p@.subrange(start as int, n as int),
            d == unsigned_digits(p@),
            value <= 65535,
            value == digits_value(d.subrange(0, i - start)),
            forall|k: int| 0 <= k < i - start ==> is_digit(#[trigger] d[k]),
        decreases n - i,
    {
        let c = p.get_char(i);
        assert(c == d[i - start]);
        if !('0' <= c && c <= '9') {
            assert(!is_digit(d[i - start]));
            return false;
        }
        proof {
            let next = d.subrange(0, i - start + 1);
            assert(next.drop_last() =~= d.subrange(0, i - start));
            assert(next.last() == c);
        }
        let digit = (c as u32) - ('0' as u32);
        value = value * 10 + digit;
        i = i + 1;
        if value > 65535 {
            proof {
                if forall|k: int| 0 <= k < d.len() ==> is_digit(#[trigger] d[k]) {
                    lemma_prefix_value_le(d, i - start);
                }
            }
            return false;
        }
    }
    assert(d.subrange(0, n - start) =~= d);
    true
}

/// The port of `addr`: the text after its last `:`, where that text reads as
/// a 16-bit unsigned integer. `None` where there is no `:` or the text does
/// not read as such a number.
pub fn get_port(addr: &str) -> (r: Option<&str>)
    ensures
        r.is_some() <==> exists|i: int|
            is_last_colon(addr@, i) && is_port_text(addr@.subrange(i + 1, addr@.len() as int)),
        r.is_some() ==> exists|i: int|
            is_last_colon(addr@, i) && r.unwrap()@ == addr@.subrange(i + 1, addr@.len() as int),
        match r {
            Some(p) => port_of(addr@) == Some(p@),
            None => port_of(addr@) is None,
        },
{
    let n = addr.unicode_len();
    let mut i: usize = n;
    while i > 0
        invariant
            i <= n,
            n == addr@.len(),
            forall|j: int| i <= j < n ==> addr@[j] != ':',
        decreases i,
    {
        if addr.get_char(i - 1) == ':' {
            let port = addr.substring_char(i, n);
            assert(is_last_colon(addr@, i - 1));
            if parses_as_port(port) {
                proof {
                    let k = choose|k: int|
                        is_last_colon(addr@, k) && is_port_text(
                            addr@.subrange(k + 1, addr@.len() as int),
                        );
                    lemma_last_colon_unique(addr@, k, i - 1);
                }
                return Some(port);
            } else {
                assert forall|k: int| is_last_colon(addr@, k) implies k == i - 1 by {
                    if k < i - 1 {
                        assert(addr@[i - 1] != ':');
                    }
                }
                return None;
            }
        }
        i = i - 1;
    }
    None
}

} // verus!
