//! Dotted-quad IPv4 addresses and decimal ports, as the server reports its address:
//! parsing with the grammar of `std::net::Ipv4Addr` and of `u16`, and decimal formatting.
use vstd::prelude::*;
use crate::text::{chars_of, string_of, concat, split, split_char, views, find, slice_of, join_strs};

verus! {

pub open spec fn is_digit(c: char) -> bool {
    '0' <= c && c <= '9'
}

pub open spec fn digit_value(c: char) -> nat {
    (c as int - '0' as int) as nat
}

pub open spec fn all_digits(s: Seq<char>) -> bool {
    forall|i: int| 0 <= i < s.len() ==> is_digit(#[trigger] s[i])
}

/// The number a string of decimal digits writes.
pub open spec fn digits_value(s: Seq<char>) -> nat
    decreases s.len(),
{
    if s.len() == 0 {
        0
    } else {
        digits_value(s.drop_last()) * 10 + digit_value(s.last())
    }
}

/// An octet of a dotted-quad address: one to three decimal digits, without a leading
/// zero unless it is `0`, at most 255.
pub open spec fn is_octet(s: Seq<char>) -> bool {
    &&& 1 <= s.len() <= 3
    &&& all_digits(s)
    &&& (s.len() == 1 || s[0] != '0')
    &&& digits_value(s) <= 255
}

/// A dotted-quad IPv4 address: four octets separated by dots, nothing else.
pub open spec fn is_ipv4(s: Seq<char>) -> bool {
    let parts = split(s, '.');
    &&& parts.len() == 4
    &&& forall|i: int| 0 <= i < 4 ==> is_octet(#[trigger] parts[i])
}

/// The value of a decimal `u16` as `str::parse::<u16>` reads it: an optional `+`, then
/// one or more decimal digits (leading zeros allowed), at most 65535.
pub open spec fn u16_value(s: Seq<char>) -> Option<u16> {
    let d = if s.len() > 0 && s[0] == '+' { s.drop_first() } else { s };
    if d.len() > 0 && all_digits(d) && digits_value(d) <= 65535 {
        Some(digits_value(d) as u16)
    } else {
        None
    }
}

/// The decimal digits of `n`, without leading zeros.
pub open spec fn decimal_digits(n: nat) -> Seq<char>
    decreases n,
{
    if n < 10 {
        seq![(n + '0' as int) as char]
    } else {
        decimal_digits(n / 10).push(((n % 10) + '0' as int) as char)
    }
}

proof fn lemma_digits_value_step(s: Seq<char>, i: int)
    requires
        0 <= i < s.len(),
    ensures
        digits_value(s.take(i + 1)) == digits_value(s.take(i)) * 10 + digit_value(s[i]),
{
    assert(s.take(i + 1).drop_last() =~= s.take(i));
}

proof fn lemma_digits_value_grows(s: Seq<char>, j: int)
    requires
        0 <= j <= s.len(),
    ensures
        digits_value(s.take(j)) <= digits_value(s),
    decreases s.len() - j,
{
    if j < s.len() {
        lemma_digits_value_grows(s, j + 1);
        lemma_digits_value_step(s, j);
    } else {
        assert(s.take(j) =~= s);
    }
}

/// The value of the decimal digits `s` (all digits), when it is at most `limit`.
fn bounded_digits_value(s: &[char], limit: u32) -> (r: Option<u32>)
    requires
        limit <= 65535,
    ensures
        match r {
            Some(v) => all_digits(s@) && v == digits_value(s@) && v <= limit,
            None => !all_digits(s@) || digits_value(s@) > limit,
        },
{
    let mut v: u32 = 0;
    let mut i: usize = 0;
    assert(s@.take(0) =~= Seq::<char>::empty());
    while i < s.len()
        invariant
            i <= s@.len(),
            limit <= 65535,
            all_digits(s@.take(i as int)),
            v == digits_value(s@.take(i as int)),
            v <= limit,
        decreases s.len() - i,
    {
        let c = s[i];
        if !('0' <= c && c <= '9') {
            assert(!is_digit(s@[i as int]));
            return None;
        }
        proof {
            lemma_digits_value_step(s@, i as int);
        }
        let d = (c as u32) - ('0' as u32);
        let next = v * 10 + d;
        if next > limit {
            proof {
                lemma_digits_value_grows(s@, i + 1);
            }
            return None;
        }
        v = next;
        assert(all_digits(s@.take(i + 1))) by {
            assert forall|k: int| 0 <= k < i + 1 implies is_digit(#[trigger] s@.take(i + 1)[k]) by {
                if k < i {
                    assert(s@.take(i + 1)[k] == s@.take(i as int)[k]);
                }
            }
        }
        i = i + 1;
    }
    assert(s@.take(s@.len() as int) =~= s@);
    Some(v)
}

/// Reads a port number the way `str::parse::<u16>` does.
pub fn parse_u16(s: &str) -> (r: Option<u16>)
    ensures
        r == u16_value(s@),
{
    let cs = chars_of(s);
    let d = if cs.len() > 0 && cs[0] == '+' { slice_of(cs.as_slice(), 1, cs.len()) } else { cs };
    assert(d@ == if s@.len() > 0 && s@[0] == '+' { s@.drop_first() } else { s@ });
    if d.len() == 0 {
        return None;
    }
    match bounded_digits_value(d.as_slice(), 65535) {
        Some(v) => Some(v as u16),
        None => None,
    }
}

/// Whether `s` is a dotted-quad IPv4 address (see `is_ipv4`).
pub fn is_ipv4_address(s: &str) -> (r: bool)
    ensures
        r == is_ipv4(s@),
{
    let parts = split_char(chars_of(s).as_slice(), '.');
    if parts.len() != 4 {
        return false;
    }
    let mut i: usize = 0;
    while i < 4
        invariant
            views(parts@) == split(s@, '.'),
            parts@.len() == 4,
            i <= 4,
            forall|k: int| 0 <= k < i ==> is_octet(#[trigger] split(s@, '.')[k]),
        decreases 4 - i,
    {
        let part = &parts[i];
        assert(views(parts@)[i as int] == part@);
        if part.len() == 0 || part.len() > 3 {
            return false;
        }
        if part.len() > 1 && part[0] == '0' {
            return false;
        }
        match bounded_digits_value(part.as_slice(), 255) {
            Some(_) => {},
            None => {
                return false;
            },
        }
        i = i + 1;
    }
    true
}

/// The host as an IPv4 address: itself when it is a dotted-quad address, else the
/// loopback address.
pub open spec fn ipv4_host(host: Seq<char>) -> Seq<char> {
    if is_ipv4(host) { host } else { "127.0.0.1"@ }
}

proof fn lemma_split_step(s: Seq<char>, i: int)
    requires
        0 <= i < s.len(),
        s[i] == '.',
        forall|j: int| 0 <= j < i ==> s[j] != '.',
    ensures
        split(s, '.') == seq![s.take(i)] + split(s.skip(i + 1), '.'),
{
    crate::text::lemma_first_index_of(s, '.');
}

proof fn lemma_split_none(s: Seq<char>)
    requires
        forall|j: int| 0 <= j < s.len() ==> s[j] != '.',
    ensures
        split(s, '.') == seq![s],
{
    crate::text::lemma_first_index_of(s, '.');
}

/// The loopback address is a dotted-quad address.
pub proof fn lemma_loopback_is_ipv4()
    ensures
        is_ipv4("127.0.0.1"@),
{
    reveal_strlit("127.0.0.1");
    let l = "127.0.0.1"@;
    let a = seq!['1', '2', '7'];
    let z = seq!['0'];
    let o = seq!['1'];
    let r1 = seq!['0', '.', '0', '.', '1'];
    let r2 = seq!['0', '.', '1'];
    assert(l =~= a + seq!['.'] + r1);
    lemma_split_step(l, 3);
    assert(l.take(3) =~= a);
    assert(l.skip(4) =~= r1);
    lemma_split_step(r1, 1);
    assert(r1.take(1) =~= z);
    assert(r1.skip(2) =~= r2);
    lemma_split_step(r2, 1);
    assert(r2.take(1) =~= z);
    assert(r2.skip(2) =~= o);
    lemma_split_none(o);
    let parts = split(l, '.');
    assert(parts =~= seq![a, z, z, o]);
    assert(digits_value(a.take(0)) == 0);
    assert(a.take(1).drop_last() =~= a.take(0));
    assert(a.take(2).drop_last() =~= a.take(1));
    assert(a.drop_last() =~= a.take(2));
    assert(digits_value(a.take(1)) == 1);
    assert(digits_value(a.take(2)) == 12);
    assert(digits_value(a) == 127);
    assert(z.drop_last() =~= Seq::<char>::empty());
    assert(o.drop_last() =~= Seq::<char>::empty());
    assert(digits_value(z.drop_last()) == 0);
    assert(digits_value(z) == 0);
    assert(digits_value(o.drop_last()) == 0);
    assert(digits_value(o) == 1);
    assert(is_octet(a));
    assert(is_octet(z));
    assert(is_octet(o));
}

/// Taking a host as an IPv4 address twice changes nothing more.
pub proof fn lemma_ipv4_host_idempotent(host: Seq<char>)
    ensures
        ipv4_host(ipv4_host(host)) == ipv4_host(host),
{
    lemma_loopback_is_ipv4();
}

/// The host as an IPv4 address (see `ipv4_host`).
pub fn normalize_ipv4_host(host: &str) -> (r: String)
    ensures
        r@ == ipv4_host(host@),
{
    if is_ipv4_address(host) {
        host.to_string()
    } else {
        "127.0.0.1".to_string()
    }
}

proof fn lemma_decimal_digits_len(n: nat)
    ensures
        decimal_digits(n).len() >= 1,
        n < 10 ==> decimal_digits(n).len() == 1,
    decreases n,
{
    if n >= 10 {
        lemma_decimal_digits_len(n / 10);
    }
}

fn digit_char(d: u64) -> (c: char)
    requires
        d < 10,
    ensures
        c == (d + '0' as int) as char,
{
    match d {
        0 => '0',
        1 => '1',
        2 => '2',
        3 => '3',
        4 => '4',
        5 => '5',
        6 => '6',
        7 => '7',
        8 => '8',
        _ => '9',
    }
}

/// The decimal digits of `n`.
pub fn decimal(n: u64) -> (r: String)
    ensures
        r@ == decimal_digits(n as nat),
{
    let mut rev: Vec<char> = Vec::new();
    let mut m: u64 = n;
    let ghost mut acc: Seq<char> = Seq::empty();
    loop
        invariant_except_break
            decimal_digits(n as nat) == decimal_digits(m as nat) + acc,
        invariant
            rev@ == acc.reverse(),
        ensures
            acc == decimal_digits(n as nat),
        decreases m,
    {
        let c = digit_char(m % 10);
        if m < 10 {
            proof {
                assert(decimal_digits(m as nat) == seq![c]);
                assert(decimal_digits(n as nat) =~= seq![c] + acc);
                acc = seq![c] + acc;
                assert(acc.reverse() =~= rev@.push(c));
            }
            rev.push(c);
            break;
        }
        proof {
            assert(decimal_digits(m as nat) == decimal_digits((m / 10) as nat).push(c));
            assert(decimal_digits((m / 10) as nat).push(c) + acc =~= decimal_digits((m / 10) as nat) + (seq![c] + acc));
            assert((seq![c] + acc).reverse() =~= rev@.push(c));
            acc = seq![c] + acc;
        }
        rev.push(c);
        m = m / 10;
    }
    let mut out: Vec<char> = Vec::new();
    let mut i: usize = rev.len();
    assert(acc == decimal_digits(n as nat));
    while i > 0
        invariant
            i <= rev@.len(),
            rev@ == acc.reverse(),
            out@ == acc.take(rev@.len() - i),
        decreases i,
    {
        i = i - 1;
        assert(acc.take(rev@.len() - i) =~= acc.take(rev@.len() - i - 1).push(rev@[i as int]));
        out.push(rev[i]);
    }
    assert(acc.take(rev@.len() as int) =~= acc);
    string_of(out.as_slice())
}

/// `host:port` with the host as an IPv4 address (see `ipv4_host`).
pub open spec fn ipv4_socket_addr(host: Seq<char>, port: u16) -> Seq<char> {
    ipv4_host(host) + ":"@ + decimal_digits(port as nat)
}

/// `host:port` with the host as an IPv4 address.
pub fn format_ipv4_socket_addr(host: &str, port: u16) -> (r: String)
    ensures
        r@ == ipv4_socket_addr(host@, port),
{
    let h = normalize_ipv4_host(host);
    let hc = join_strs(h.as_str(), ":");
    let p = decimal(port as u64);
    join_strs(hc.as_str(), p.as_str())
}

/// `ftp://host:port` with the host as an IPv4 address.
pub fn format_ipv4_ftp_url(host: &str, port: u16) -> (r: String)
    ensures
        r@ == "ftp://"@ + ipv4_socket_addr(host@, port),
{
    let a = format_ipv4_socket_addr(host, port);
    join_strs("ftp://", a.as_str())
}

/// The IPv4 address and port of a bind address `ip:port`: the text before the first `:`
/// must be a dotted-quad address and the rest a port.
pub open spec fn bind_addr_parts(s: Seq<char>) -> Option<(Seq<char>, u16)> {
    match crate::text::first_index_of(s, ':') {
        Some(i) => {
            let host = s.take(i);
            let port = s.skip(i + 1);
            if is_ipv4(host) {
                match u16_value(port) {
                    Some(p) => Some((host, p)),
                    None => None,
                }
            } else {
                None
            }
        },
        None => None,
    }
}

/// Splits a bind address `ip:port` into its IPv4 address and port (see `bind_addr_parts`).
pub fn parse_bind_addr(bind_addr: &str) -> (r: Option<(String, u16)>)
    ensures
        match r {
            Some((ip, port)) => bind_addr_parts(bind_addr@) == Some((ip@, port)),
            None => bind_addr_parts(bind_addr@) is None,
        },
{
    let cs = chars_of(bind_addr);
    match find(cs.as_slice(), ':') {
        None => None,
        Some(i) => {
            proof {
                crate::text::lemma_first_index_of(cs@, ':');
            }
            let host = slice_of(cs.as_slice(), 0, i);
            let port = slice_of(cs.as_slice(), i + 1, cs.len());
            assert(host@ =~= bind_addr@.take(i as int));
            assert(port@ =~= bind_addr@.skip(i + 1));
            let host_s = string_of(host.as_slice());
            let port_s = string_of(port.as_slice());
            if !is_ipv4_address(host_s.as_str()) {
                return None;
            }
            match parse_u16(port_s.as_str()) {
                Some(p) => Some((host_s, p)),
                None => None,
            }
        },
    }
}


proof fn lemma_digit_char(k: nat)
    requires
        k < 10,
    ensures
        is_digit(((k + '0' as int) as char)),
        digit_value(((k + '0' as int) as char)) == k,
{
}

/// The decimal digits of `n` are digits that write `n`.
proof fn lemma_decimal_digits_value(n: nat)
    ensures
        all_digits(decimal_digits(n)),
        digits_value(decimal_digits(n)) == n,
        decimal_digits(n).len() >= 1,
    decreases n,
{
    if n < 10 {
        lemma_digit_char(n);
        let d = decimal_digits(n);
        assert(d.drop_last() =~= Seq::<char>::empty());
        assert(digits_value(d.drop_last()) == 0);
        assert(d.last() == ((n + '0' as int) as char));
        assert(digits_value(d) == digits_value(d.drop_last()) * 10 + digit_value(d.last()));
    } else {
        lemma_decimal_digits_value(n / 10);
        lemma_digit_char(n % 10);
        let d = decimal_digits(n);
        assert(d.drop_last() =~= decimal_digits(n / 10));
        vstd::arithmetic::div_mod::lemma_fundamental_div_mod(n as int, 10);
        assert(digits_value(d) == digits_value(decimal_digits(n / 10)) * 10 + (n % 10));
        assert(all_digits(d)) by {
            assert forall|i: int| 0 <= i < d.len() implies is_digit(#[trigger] d[i]) by {
                if i < d.len() - 1 {
                    assert(d[i] == decimal_digits(n / 10)[i]);
                }
            }
        }
    }
}

/// Every character of a string whose `c`-separated parts are all digits is a digit or `c`.
proof fn lemma_split_digits(s: Seq<char>, c: char)
    requires
        forall|k: int| 0 <= k < split(s, c).len() ==> all_digits(#[trigger] split(s, c)[k]),
    ensures
        forall|k: int| 0 <= k < s.len() ==> s[k] == c || is_digit(#[trigger] s[k]),
    decreases s.len(),
{
    crate::text::lemma_first_index_of(s, c);
    match crate::text::first_index_of(s, c) {
        Some(i) => {
            let rest = s.skip(i + 1);
            let parts = split(s, c);
            assert(parts == seq![s.take(i)] + split(rest, c));
            assert(all_digits(parts[0]));
            assert forall|k: int| 0 <= k < split(rest, c).len() implies all_digits(#[trigger] split(rest, c)[k]) by {
                assert(parts[k + 1] == split(rest, c)[k]);
            }
            lemma_split_digits(rest, c);
            assert forall|k: int| 0 <= k < s.len() implies s[k] == c || is_digit(#[trigger] s[k]) by {
                if k < i {
                    assert(s.take(i)[k] == s[k]);
                } else if k > i {
                    assert(rest[k - i - 1] == s[k]);
                }
            }
        },
        None => {
            assert(split(s, c)[0] == s);
        },
    }
}

/// A dotted-quad address holds only digits and dots.
proof fn lemma_ipv4_chars(s: Seq<char>)
    requires
        is_ipv4(s),
    ensures
        forall|k: int| 0 <= k < s.len() ==> s[k] == '.' || is_digit(#[trigger] s[k]),
{
    lemma_split_digits(s, '.');
}

proof fn lemma_first_colon(h: Seq<char>, rest: Seq<char>)
    requires
        forall|k: int| 0 <= k < h.len() ==> h[k] != ':',
    ensures
        crate::text::first_index_of(h + seq![':'] + rest, ':') == Some(h.len() as int),
    decreases h.len(),
{
    let s = h + seq![':'] + rest;
    if h.len() > 0 {
        lemma_first_colon(h.drop_first(), rest);
        assert(s.drop_first() =~= h.drop_first() + seq![':'] + rest);
    }
}

/// The address a server reports reads back as its host (taken as an IPv4 address) and
/// its port.
pub proof fn lemma_socket_addr_round_trip(host: Seq<char>, port: u16)
    ensures
        bind_addr_parts(ipv4_socket_addr(host, port)) == Some((ipv4_host(host), port)),
{
    lemma_loopback_is_ipv4();
    let h = ipv4_host(host);
    let d = decimal_digits(port as nat);
    reveal_strlit(":");
    assert(":"@ =~= seq![':']);
    let s = ipv4_socket_addr(host, port);
    assert(s =~= h + seq![':'] + d);
    lemma_ipv4_chars(h);
    assert forall|k: int| 0 <= k < h.len() implies h[k] != ':' by {
        assert(h[k] == '.' || is_digit(h[k]));
    }
    lemma_first_colon(h, d);
    assert(s.take(h.len() as int) =~= h);
    assert(s.skip(h.len() as int + 1) =~= d);
    lemma_decimal_digits_value(port as nat);
    assert(d[0] != '+') by {
        assert(is_digit(d[0]));
    }
}

} // verus!
