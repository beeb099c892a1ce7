//! Kernel command-line parsing for boot-time network mode selection.
//!
//! Bootloader-agnostic: takes a `&str` (caller fetches from Limine,
//! Multiboot, or wherever) and returns a structured [`NetMode`].
//!
//! Recognised tokens (whitespace-separated):
//! - `net=dhcp` → [`NetMode::Dhcp`]
//! - `net=static` → [`NetMode::Static`] using `default_static`
//! - `ip=A.B.C.D/N` → override static IPv4 + prefix
//! - `gw=A.B.C.D` → override static gateway
//!
//! Unknown tokens are ignored. An empty cmdline parses as
//! `NetMode::Static` with the caller-provided defaults.
use vstd::prelude::*;
use vstd::string::*;
use vstd::slice::*;

verus! {

/// Network configuration mode selected by the kernel cmdline.
#[derive(Debug, Clone, Copy, PartialEq, Eq)]
pub enum NetMode {
    Dhcp,
    Static { ip: [u8; 4], prefix: u8, gw: [u8; 4] },
}

/// Default static configuration for an example.
#[derive(Debug, Clone, Copy)]
pub struct StaticDefaults {
    pub ip: [u8; 4],
    pub prefix: u8,
    pub gw: [u8; 4],
}

// ── byte-level specification ──────────────────────────────────────────

/// ASCII whitespace as `u8::is_ascii_whitespace` defines it.
pub open spec fn is_ws(c: u8) -> bool {
    c == 32 || c == 9 || c == 10 || c == 12 || c == 13
}

/// Length of the run of non-whitespace bytes at the start of `b`.
pub open spec fn token_len(b: Seq<u8>) -> nat
    decreases b.len(),
{
    if b.len() == 0 || is_ws(b[0]) {
        0
    } else {
        1 + token_len(b.drop_first())
    }
}

/// The run of non-whitespace bytes never extends past the end.
pub proof fn lemma_token_len(b: Seq<u8>)
    ensures
        token_len(b) <= b.len(),
        forall|i: int| 0 <= i < token_len(b) ==> !is_ws(#[trigger] b[i]),
        token_len(b) < b.len() ==> is_ws(b[token_len(b) as int]),
    decreases b.len(),
{
    if b.len() > 0 && !is_ws(b[0]) {
        lemma_token_len(b.drop_first());
        assert forall|i: int| 0 <= i < token_len(b) implies !is_ws(#[trigger] b[i]) by {
            if i > 0 {
                assert(b[i] == b.drop_first()[i - 1]);
            }
        }
        if token_len(b) < b.len() {
            assert(b[token_len(b) as int] == b.drop_first()[token_len(b.drop_first()) as int]);
        }
    }
}

/// Whitespace-separated tokens of `b`, as `split_ascii_whitespace` yields them.
pub open spec fn tokens(b: Seq<u8>) -> Seq<Seq<u8>>
    decreases b.len(),
{
    if b.len() == 0 {
        Seq::empty()
    } else if is_ws(b[0]) {
        tokens(b.drop_first())
    } else {
        let t = token_len(b) as int;
        proof {
            lemma_token_len(b);
        }
        seq![b.subrange(0, t)] + tokens(b.subrange(t, b.len() as int))
    }
}

/// `t` begins with the bytes of `p`.
pub open spec fn has_prefix(t: Seq<u8>, p: Seq<u8>) -> bool {
    p.len() <= t.len() && t.subrange(0, p.len() as int) == p
}

pub open spec fn net_key() -> Seq<u8> {
    seq![110u8, 101, 116, 61]
}

pub open spec fn ip_key() -> Seq<u8> {
    seq![105u8, 112, 61]
}

pub open spec fn gw_key() -> Seq<u8> {
    seq![103u8, 119, 61]
}

/// The `net=`, `ip=` and `gw=` values seen so far; the last one of each wins.
pub struct CmdlineScan {
    pub mode: Option<Seq<u8>>,
    pub ip: Option<Seq<u8>>,
    pub gw: Option<Seq<u8>>,
}

/// Effect of one token on the scan state.
pub open spec fn scan_step(s: CmdlineScan, t: Seq<u8>) -> CmdlineScan {
    if has_prefix(t, net_key()) {
        CmdlineScan { mode: Some(t.subrange(4, t.len() as int)), ..s }
    } else if has_prefix(t, ip_key()) {
        CmdlineScan { ip: Some(t.subrange(3, t.len() as int)), ..s }
    } else if has_prefix(t, gw_key()) {
        CmdlineScan { gw: Some(t.subrange(3, t.len() as int)), ..s }
    } else {
        s
    }
}

/// Scan state after the given tokens, taken in order.
pub open spec fn scan_tokens(ts: Seq<Seq<u8>>) -> CmdlineScan
    decreases ts.len(),
{
    if ts.len() == 0 {
        CmdlineScan { mode: None, ip: None, gw: None }
    } else {
        scan_step(scan_tokens(ts.drop_last()), ts.last())
    }
}

/// ASCII lowercase of one byte.
pub open spec fn lower(c: u8) -> u8 {
    if 65 <= c <= 90 {
        (c + 32) as u8
    } else {
        c
    }
}

/// `m` equals `dhcp` ignoring ASCII case.
pub open spec fn is_dhcp(m: Seq<u8>) -> bool {
    m.len() == 4 && lower(m[0]) == 100 && lower(m[1]) == 104 && lower(m[2]) == 99 && lower(m[3])
        == 112
}

/// Decimal value of a run of ASCII digits.
pub open spec fn decimal_value(s: Seq<u8>) -> int
    decreases s.len(),
{
    if s.len() == 0 {
        0
    } else {
        decimal_value(s.drop_last()) * 10 + (s.last() - 48)
    }
}

/// Every byte is an ASCII digit.
pub open spec fn all_digits(s: Seq<u8>) -> bool {
    forall|i: int| 0 <= i < s.len() ==> 48 <= #[trigger] s[i] <= 57
}

/// `u8::from_str`: an optional `+`, then one or more digits whose value fits in a `u8`.
pub open spec fn parse_u8_spec(s: Seq<u8>) -> Option<u8> {
    let d = if s.len() > 0 && s[0] == 43 {
        s.drop_first()
    } else {
        s
    };
    if d.len() > 0 && all_digits(d) && decimal_value(d) <= 255 {
        Some(decimal_value(d) as u8)
    } else {
        None
    }
}

/// Index of the first `c` in `s`, or `s.len()` when there is none.
pub open spec fn first_index_of(s: Seq<u8>, c: u8) -> nat
    decreases s.len(),
{
    if s.len() == 0 || s[0] == c {
        0
    } else {
        1 + first_index_of(s.drop_first(), c)
    }
}

/// The first occurrence of `c` is where `first_index_of` says.
pub proof fn lemma_first_index_of(s: Seq<u8>, c: u8)
    ensures
        first_index_of(s, c) <= s.len(),
        forall|i: int| 0 <= i < first_index_of(s, c) ==> #[trigger] s[i] != c,
        first_index_of(s, c) < s.len() ==> s[first_index_of(s, c) as int] == c,
    decreases s.len(),
{
    if s.len() > 0 && s[0] != c {
        lemma_first_index_of(s.drop_first(), c);
        assert forall|i: int| 0 <= i < first_index_of(s, c) implies #[trigger] s[i] != c by {
            if i > 0 {
                assert(s[i] == s.drop_first()[i - 1]);
            }
        }
        if first_index_of(s, c) < s.len() {
            assert(s[first_index_of(s, c) as int] == s.drop_first()[first_index_of(
                s.drop_first(),
                c,
            ) as int]);
        }
    }
}

/// `s` split at every `c`, as `str::split` yields the parts.
pub open spec fn split_on(s: Seq<u8>, c: u8) -> Seq<Seq<u8>>
    decreases s.len(),
{
    let k = first_index_of(s, c) as int;
    proof {
        lemma_first_index_of(s, c);
    }
    if k >= s.len() {
        seq![s]
    } else {
        seq![s.subrange(0, k)] + split_on(s.subrange(k + 1, s.len() as int), c)
    }
}

/// `A.B.C.D`: exactly four dot-separated parts, each a valid `u8`.
pub open spec fn ipv4_spec(s: Seq<u8>) -> Option<[u8; 4]> {
    let p = split_on(s, 46);
    if p.len() == 4 && parse_u8_spec(p[0]) is Some && parse_u8_spec(p[1]) is Some && parse_u8_spec(
        p[2],
    ) is Some && parse_u8_spec(p[3]) is Some {
        Some(
            [
                parse_u8_spec(p[0])->0,
                parse_u8_spec(p[1])->0,
                parse_u8_spec(p[2])->0,
                parse_u8_spec(p[3])->0,
            ],
        )
    } else {
        None
    }
}

/// `A.B.C.D/N` with `N` at most 32, split at the first `/`.
pub open spec fn ipv4_cidr_spec(s: Seq<u8>) -> Option<([u8; 4], u8)> {
    let k = first_index_of(s, 47) as int;
    if k >= s.len() {
        None
    } else {
        let ip = ipv4_spec(s.subrange(0, k));
        let prefix = parse_u8_spec(s.subrange(k + 1, s.len() as int));
        if ip is Some && prefix is Some && prefix->0 <= 32 {
            Some((ip->0, prefix->0))
        } else {
            None
        }
    }
}

/// The network mode that a command line selects.
pub open spec fn net_mode_spec(b: Seq<u8>, defaults: StaticDefaults) -> NetMode {
    let s = scan_tokens(tokens(b));
    if s.mode is Some && is_dhcp(s.mode->0) {
        NetMode::Dhcp
    } else {
        let cidr = if s.ip is Some {
            ipv4_cidr_spec(s.ip->0)
        } else {
            None
        };
        let gw = if s.gw is Some {
            ipv4_spec(s.gw->0)
        } else {
            None
        };
        let (ip, prefix) = if cidr is Some {
            cidr->0
        } else {
            (defaults.ip, defaults.prefix)
        };
        NetMode::Static {
            ip,
            prefix,
            gw: if gw is Some {
                gw->0
            } else {
                defaults.gw
            },
        }
    }
}


// ── lemmas about the byte-level specification ─────────────────────────

/// `first_index_of` is the unique index before which `c` does not occur.
pub proof fn lemma_first_index_unique(s: Seq<u8>, c: u8, k: int)
    requires
        0 <= k <= s.len(),
        forall|j: int| 0 <= j < k ==> #[trigger] s[j] != c,
        k < s.len() ==> s[k] == c,
    ensures
        first_index_of(s, c) == k,
{
    lemma_first_index_of(s, c);
    let f = first_index_of(s, c) as int;
    if f < k {
        assert(s[f] != c);
    } else if f > k {
        assert(s[k] != c);
    }
}

/// `token_len` is the unique length of the leading non-whitespace run.
pub proof fn lemma_token_len_unique(b: Seq<u8>, k: int)
    requires
        0 <= k <= b.len(),
        forall|j: int| 0 <= j < k ==> !is_ws(#[trigger] b[j]),
        k < b.len() ==> is_ws(b[k]),
    ensures
        token_len(b) == k,
{
    lemma_token_len(b);
    let f = token_len(b) as int;
    if f < k {
        assert(!is_ws(b[f]));
    } else if f > k {
        assert(!is_ws(b[k]));
    }
}

/// Every split yields at least one part.
pub proof fn lemma_split_nonempty(s: Seq<u8>, c: u8)
    ensures
        split_on(s, c).len() >= 1,
{
    lemma_first_index_of(s, c);
}

/// The value of digits extended by one more digit.
pub proof fn lemma_decimal_push(s: Seq<u8>, c: u8)
    ensures
        decimal_value(s.push(c)) == decimal_value(s) * 10 + (c - 48),
{
    assert(s.push(c).drop_last() =~= s);
}

/// Decimal digits of `n` as `{}` formats a `u8`: no leading zeros.
pub open spec fn dec_u8(n: u8) -> Seq<u8> {
    if n < 10 {
        seq![(48 + n) as u8]
    } else if n < 100 {
        seq![(48 + n / 10) as u8, (48 + n % 10) as u8]
    } else {
        seq![(48 + n / 100) as u8, (48 + (n / 10) % 10) as u8, (48 + n % 10) as u8]
    }
}

/// An address written `A.B.C.D`, each part in decimal.
pub open spec fn dotted_quad(ip: [u8; 4]) -> Seq<u8> {
    dec_u8(ip[0]) + seq![46u8] + dec_u8(ip[1]) + seq![46u8] + dec_u8(ip[2]) + seq![46u8] + dec_u8(ip[3])
}

/// The decimal digits of a `u8` parse back to it and hold no dot.
pub proof fn lemma_dec_u8_parses(n: u8)
    ensures
        parse_u8_spec(dec_u8(n)) == Some(n),
        forall|i: int| 0 <= i < dec_u8(n).len() ==> #[trigger] dec_u8(n)[i] != 46u8,
{
    let d = dec_u8(n);
    let e = Seq::<u8>::empty();
    assert(decimal_value(e) == 0);
    if n < 10 {
        let x = (48 + n) as u8;
        assert(x == 48 + n);
        assert(d =~= e.push(x));
        lemma_decimal_push(e, x);
    } else if n < 100 {
        let x = (48 + n / 10) as u8;
        let y = (48 + n % 10) as u8;
        assert(x == 48 + n / 10 && y == 48 + n % 10);
        assert(d =~= e.push(x).push(y));
        lemma_decimal_push(e, x);
        lemma_decimal_push(e.push(x), y);
    } else {
        let x = (48 + n / 100) as u8;
        let y = (48 + (n / 10) % 10) as u8;
        let z = (48 + n % 10) as u8;
        assert(x == 48 + n / 100 && y == 48 + (n / 10) % 10 && z == 48 + n % 10);
        assert(d =~= e.push(x).push(y).push(z));
        lemma_decimal_push(e, x);
        lemma_decimal_push(e.push(x), y);
        lemma_decimal_push(e.push(x).push(y), z);
        assert((n / 100) * 100 + ((n / 10) % 10) * 10 + n % 10 == n);
    }
}

/// Splitting at `c` a part free of `c`, then `c`, then the rest: the part
/// comes first, then the parts of the rest.
pub proof fn lemma_split_first_part(x: Seq<u8>, rest: Seq<u8>, c: u8)
    requires
        forall|i: int| 0 <= i < x.len() ==> #[trigger] x[i] != c,
    ensures
        split_on(x + seq![c] + rest, c) == seq![x] + split_on(rest, c),
{
    let s = x + seq![c] + rest;
    assert forall|j: int| 0 <= j < x.len() implies #[trigger] s[j] != c by {
        assert(s[j] == x[j]);
    }
    lemma_first_index_unique(s, c, x.len() as int);
    assert(s.subrange(0, x.len() as int) =~= x);
    assert(s.subrange(x.len() as int + 1, s.len() as int) =~= rest);
}

/// A part free of `c` splits into itself.
pub proof fn lemma_split_single(x: Seq<u8>, c: u8)
    requires
        forall|i: int| 0 <= i < x.len() ==> #[trigger] x[i] != c,
    ensures
        split_on(x, c) == seq![x],
{
    lemma_first_index_unique(x, c, x.len() as int);
}

/// Parsing an address written in dotted decimal gives it back.
pub proof fn lemma_ipv4_roundtrip(ip: [u8; 4])
    ensures
        ipv4_spec(dotted_quad(ip)) == Some(ip),
{
    let (a, b, c, d) = (dec_u8(ip[0]), dec_u8(ip[1]), dec_u8(ip[2]), dec_u8(ip[3]));
    lemma_dec_u8_parses(ip[0]);
    lemma_dec_u8_parses(ip[1]);
    lemma_dec_u8_parses(ip[2]);
    lemma_dec_u8_parses(ip[3]);
    let r3 = d;
    let r2 = c + seq![46u8] + d;
    let r1 = b + seq![46u8] + c + seq![46u8] + d;
    assert(dotted_quad(ip) =~= a + seq![46u8] + r1);
    assert(r1 =~= b + seq![46u8] + r2);
    lemma_split_first_part(a, r1, 46);
    lemma_split_first_part(b, r2, 46);
    lemma_split_first_part(c, r3, 46);
    lemma_split_single(d, 46);
    let p = split_on(dotted_quad(ip), 46);
    assert(p =~= seq![a, b, c, d]);
    assert([parse_u8_spec(p[0])->0, parse_u8_spec(p[1])->0, parse_u8_spec(p[2])->0, parse_u8_spec(p[3])->0] =~= ip);
}

// ── laws of the command-line selection ────────────────────────────────

/// The three keys start with different bytes, so a token carries at most
/// one of them.
pub proof fn lemma_keys_distinct(t: Seq<u8>)
    ensures
        has_prefix(t, ip_key()) ==> !has_prefix(t, net_key()) && !has_prefix(t, gw_key()),
        has_prefix(t, gw_key()) ==> !has_prefix(t, net_key()) && !has_prefix(t, ip_key()),
        has_prefix(t, net_key()) ==> !has_prefix(t, ip_key()) && !has_prefix(t, gw_key()),
{
    if t.len() > 0 {
        if has_prefix(t, ip_key()) {
            assert(t[0] == t.subrange(0, 3)[0]);
        }
        if has_prefix(t, gw_key()) {
            assert(t[0] == t.subrange(0, 3)[0]);
        }
        if has_prefix(t, net_key()) {
            assert(t[0] == t.subrange(0, 4)[0]);
        }
    }
}

/// A `net=` value that the scan keeps is the value of one of the tokens.
pub proof fn lemma_scan_mode_from_tokens(ts: Seq<Seq<u8>>)
    ensures
        scan_tokens(ts).mode matches Some(m) ==> exists|j: int|
            0 <= j < ts.len() && has_prefix(#[trigger] ts[j], net_key()) && m == ts[j].subrange(
                4,
                ts[j].len() as int,
            ),
    decreases ts.len(),
{
    if ts.len() > 0 {
        let d = ts.drop_last();
        lemma_scan_mode_from_tokens(d);
        let t = ts.last();
        if !has_prefix(t, net_key()) {
            if scan_tokens(d).mode is Some {
                let j = choose|j: int|
                    0 <= j < d.len() && has_prefix(#[trigger] d[j], net_key()) && scan_tokens(d).mode->0
                        == d[j].subrange(4, d[j].len() as int);
                assert(d[j] == ts[j]);
            }
        } else {
            assert(ts[ts.len() - 1] == t);
        }
    }
}

/// The `ip=` value the scan keeps is that of the last `ip=` token.
pub proof fn lemma_scan_last_ip(pre: Seq<Seq<u8>>, t: Seq<u8>, post: Seq<Seq<u8>>)
    requires
        has_prefix(t, ip_key()),
        forall|j: int| 0 <= j < post.len() ==> !has_prefix(#[trigger] post[j], ip_key()),
    ensures
        scan_tokens(pre.push(t) + post).ip == Some(t.subrange(3, t.len() as int)),
    decreases post.len(),
{
    let ts = pre.push(t) + post;
    if post.len() == 0 {
        assert(ts =~= pre.push(t));
        assert(ts.drop_last() =~= pre);
        lemma_keys_distinct(t);
    } else {
        let p2 = post.drop_last();
        lemma_scan_last_ip(pre, t, p2);
        assert(ts.drop_last() =~= pre.push(t) + p2);
        assert(post[post.len() - 1] == post.last());
        lemma_keys_distinct(post.last());
    }
}

/// The `gw=` value the scan keeps is that of the last `gw=` token.
pub proof fn lemma_scan_last_gw(pre: Seq<Seq<u8>>, t: Seq<u8>, post: Seq<Seq<u8>>)
    requires
        has_prefix(t, gw_key()),
        forall|j: int| 0 <= j < post.len() ==> !has_prefix(#[trigger] post[j], gw_key()),
    ensures
        scan_tokens(pre.push(t) + post).gw == Some(t.subrange(3, t.len() as int)),
    decreases post.len(),
{
    let ts = pre.push(t) + post;
    if post.len() == 0 {
        assert(ts =~= pre.push(t));
        assert(ts.drop_last() =~= pre);
        lemma_keys_distinct(t);
    } else {
        let p2 = post.drop_last();
        lemma_scan_last_gw(pre, t, p2);
        assert(ts.drop_last() =~= pre.push(t) + p2);
        assert(post[post.len() - 1] == post.last());
        lemma_keys_distinct(post.last());
    }
}

/// The `net=` value the scan keeps is that of the last `net=` token.
pub proof fn lemma_scan_last_net(pre: Seq<Seq<u8>>, t: Seq<u8>, post: Seq<Seq<u8>>)
    requires
        has_prefix(t, net_key()),
        forall|j: int| 0 <= j < post.len() ==> !has_prefix(#[trigger] post[j], net_key()),
    ensures
        scan_tokens(pre.push(t) + post).mode == Some(t.subrange(4, t.len() as int)),
    decreases post.len(),
{
    let ts = pre.push(t) + post;
    if post.len() == 0 {
        assert(ts =~= pre.push(t));
        assert(ts.drop_last() =~= pre);
    } else {
        let p2 = post.drop_last();
        lemma_scan_last_net(pre, t, p2);
        assert(ts.drop_last() =~= pre.push(t) + p2);
        assert(post[post.len() - 1] == post.last());
        lemma_keys_distinct(post.last());
    }
}

/// No `net=` token of the line asks for DHCP.
pub open spec fn no_dhcp_token(ts: Seq<Seq<u8>>) -> bool {
    forall|j: int|
        0 <= j < ts.len() && has_prefix(#[trigger] ts[j], net_key()) ==> !is_dhcp(
            ts[j].subrange(4, ts[j].len() as int),
        )
}

/// When no `net=` token asks for DHCP and the last `ip=` token holds
/// `A.B.C.D/N`, the mode is static with that address and prefix, whether
/// or not a `net=` token appears.
pub proof fn lemma_ip_token_sets_static_address(
    b: Seq<u8>,
    defaults: StaticDefaults,
    pre: Seq<Seq<u8>>,
    v: Seq<u8>,
    post: Seq<Seq<u8>>,
    ip: [u8; 4],
    prefix: u8,
)
    requires
        tokens(b) == pre.push(ip_key() + v) + post,
        forall|j: int| 0 <= j < post.len() ==> !has_prefix(#[trigger] post[j], ip_key()),
        no_dhcp_token(tokens(b)),
        ipv4_cidr_spec(v) == Some((ip, prefix)),
    ensures
        net_mode_spec(b, defaults) matches NetMode::Static { ip: a, prefix: p, .. } && a == ip && p == prefix,
{
    let t = ip_key() + v;
    assert(t.subrange(0, 3) =~= ip_key());
    lemma_scan_last_ip(pre, t, post);
    assert(t.subrange(3, t.len() as int) =~= v);
    lemma_scan_mode_from_tokens(tokens(b));
}

/// When no `net=` token asks for DHCP and the last `gw=` token holds
/// `A.B.C.D`, the mode is static with that gateway, whether or not a
/// `net=` token appears.
pub proof fn lemma_gw_token_sets_gateway(
    b: Seq<u8>,
    defaults: StaticDefaults,
    pre: Seq<Seq<u8>>,
    v: Seq<u8>,
    post: Seq<Seq<u8>>,
    gw: [u8; 4],
)
    requires
        tokens(b) == pre.push(gw_key() + v) + post,
        forall|j: int| 0 <= j < post.len() ==> !has_prefix(#[trigger] post[j], gw_key()),
        no_dhcp_token(tokens(b)),
        ipv4_spec(v) == Some(gw),
    ensures
        net_mode_spec(b, defaults) matches NetMode::Static { gw: g, .. } && g == gw,
{
    let t = gw_key() + v;
    assert(t.subrange(0, 3) =~= gw_key());
    lemma_scan_last_gw(pre, t, post);
    assert(t.subrange(3, t.len() as int) =~= v);
    lemma_scan_mode_from_tokens(tokens(b));
}

/// A line with no `ip=`, `gw=` or DHCP-selecting `net=` token selects the
/// static mode with the defaults.
pub proof fn lemma_no_override_uses_defaults(b: Seq<u8>, defaults: StaticDefaults)
    requires
        forall|j: int|
            0 <= j < tokens(b).len() ==> !has_prefix(#[trigger] tokens(b)[j], ip_key()) && !has_prefix(
                tokens(b)[j],
                gw_key(),
            ),
        no_dhcp_token(tokens(b)),
    ensures
        net_mode_spec(b, defaults) == (NetMode::Static { ip: defaults.ip, prefix: defaults.prefix, gw: defaults.gw }),
{
    lemma_scan_mode_from_tokens(tokens(b));
    lemma_scan_no_ip_gw(tokens(b));
}

/// Without `ip=` and `gw=` tokens the scan keeps neither.
proof fn lemma_scan_no_ip_gw(ts: Seq<Seq<u8>>)
    requires
        forall|j: int| 0 <= j < ts.len() ==> !has_prefix(#[trigger] ts[j], ip_key()) && !has_prefix(ts[j], gw_key()),
    ensures
        scan_tokens(ts).ip is None,
        scan_tokens(ts).gw is None,
    decreases ts.len(),
{
    if ts.len() > 0 {
        let d = ts.drop_last();
        assert forall|j: int| 0 <= j < d.len() implies !has_prefix(#[trigger] d[j], ip_key()) && !has_prefix(
            d[j],
            gw_key(),
        ) by {
            assert(d[j] == ts[j]);
        }
        lemma_scan_no_ip_gw(d);
        assert(ts[ts.len() - 1] == ts.last());
    }
}

/// When the last `net=` token is `dhcp` in any mix of upper and lower
/// case, DHCP is selected, whatever `ip=` and `gw=` tokens hold.
pub proof fn lemma_dhcp_token_selects_dhcp(
    b: Seq<u8>,
    defaults: StaticDefaults,
    pre: Seq<Seq<u8>>,
    v: Seq<u8>,
    post: Seq<Seq<u8>>,
)
    requires
        tokens(b) == pre.push(net_key() + v) + post,
        forall|j: int| 0 <= j < post.len() ==> !has_prefix(#[trigger] post[j], net_key()),
        v.len() == 4,
        v[0] == 100 || v[0] == 68,
        v[1] == 104 || v[1] == 72,
        v[2] == 99 || v[2] == 67,
        v[3] == 112 || v[3] == 80,
    ensures
        net_mode_spec(b, defaults) == NetMode::Dhcp,
{
    let t = net_key() + v;
    assert(t.subrange(0, 4) =~= net_key());
    lemma_scan_last_net(pre, t, post);
    assert(t.subrange(4, t.len() as int) =~= v);
}

/// The decimal digits of a `u8` are ASCII digits.
proof fn lemma_dec_u8_digits(n: u8)
    ensures
        forall|i: int| 0 <= i < dec_u8(n).len() ==> 48 <= #[trigger] dec_u8(n)[i] <= 57,
{
}

/// Parsing an address and prefix written `A.B.C.D/N` in decimal gives them
/// back, for every prefix up to 32.
pub proof fn lemma_ipv4_cidr_roundtrip(ip: [u8; 4], prefix: u8)
    requires
        prefix <= 32,
    ensures
        ipv4_cidr_spec(dotted_quad(ip) + seq![47u8] + dec_u8(prefix)) == Some((ip, prefix)),
{
    let q = dotted_quad(ip);
    let s = q + seq![47u8] + dec_u8(prefix);
    lemma_dec_u8_digits(ip[0]);
    lemma_dec_u8_digits(ip[1]);
    lemma_dec_u8_digits(ip[2]);
    lemma_dec_u8_digits(ip[3]);
    let a = dec_u8(ip[0]);
    let b = dec_u8(ip[1]);
    let c = dec_u8(ip[2]);
    let d = dec_u8(ip[3]);
    assert forall|j: int| 0 <= j < q.len() implies #[trigger] q[j] != 47u8 by {
        let la = a.len() as int;
        let lb = b.len() as int;
        let lc = c.len() as int;
        if j < la {
            assert(q[j] == a[j]);
        } else if j == la {
            assert(q[j] == 46u8);
        } else if j < la + 1 + lb {
            assert(q[j] == b[j - la - 1]);
        } else if j == la + 1 + lb {
            assert(q[j] == 46u8);
        } else if j < la + 2 + lb + lc {
            assert(q[j] == c[j - la - 2 - lb]);
        } else if j == la + 2 + lb + lc {
            assert(q[j] == 46u8);
        } else {
            assert(q[j] == d[j - la - 3 - lb - lc]);
        }
    }
    assert forall|j: int| 0 <= j < q.len() implies #[trigger] s[j] != 47u8 by {
        assert(s[j] == q[j]);
    }
    lemma_first_index_unique(s, 47, q.len() as int);
    assert(s.subrange(0, q.len() as int) =~= q);
    assert(s.subrange(q.len() as int + 1, s.len() as int) =~= dec_u8(prefix));
    lemma_ipv4_roundtrip(ip);
    lemma_dec_u8_parses(prefix);
}

// ── executable parsing ────────────────────────────────────────────────

/// `c` is ASCII whitespace.
fn is_ascii_ws(c: u8) -> (r: bool)
    ensures
        r == is_ws(c),
{
    c == 32 || c == 9 || c == 10 || c == 12 || c == 13
}

/// Index of the first `c` in `s` at or after `start`, or `s.len()`.
fn find_byte(s: &[u8], start: usize, c: u8) -> (k: usize)
    requires
        start <= s@.len(),
    ensures
        start <= k <= s@.len(),
        k == start + first_index_of(s@.subrange(start as int, s@.len() as int), c),
{
    let mut i = start;
    while i < s.len() && s[i] != c
        invariant
            start <= i <= s@.len(),
            forall|j: int| start <= j < i ==> s@[j] != c,
        decreases s@.len() - i,
    {
        i = i + 1;
    }
    proof {
        let rest = s@.subrange(start as int, s@.len() as int);
        assert forall|j: int| 0 <= j < i - start implies #[trigger] rest[j] != c by {
            assert(rest[j] == s@[start + j]);
        }
        lemma_first_index_unique(rest, c, i - start);
    }
    i
}

/// Parses a `u8` the way `u8::from_str` does.
fn parse_u8_bytes(s: &[u8]) -> (r: Option<u8>)
    ensures
        r == parse_u8_spec(s@),
{
    let n = s.len();
    let start: usize = if n > 0 && s[0] == 43 {
        1
    } else {
        0
    };
    let ghost d = if s@.len() > 0 && s@[0] == 43 {
        s@.drop_first()
    } else {
        s@
    };
    assert(d =~= s@.subrange(start as int, n as int));
    if start == n {
        return None;
    }
    let mut v: u32 = 0;
    let mut i = start;
    while i < n
        invariant
            start <= i <= n,
            n == s@.len(),
            d == s@.subrange(start as int, n as int),
            d == (if s@.len() > 0 && s@[0] == 43 {
                s@.drop_first()
            } else {
                s@
            }),
            all_digits(d.subrange(0, i - start)),
            v as int == if decimal_value(d.subrange(0, i - start)) < 256 {
                decimal_value(d.subrange(0, i - start))
            } else {
                256
            },
        decreases n - i,
    {
        let c = s[i];
        if c < 48 || c > 57 {
            proof {
                assert(d[i - start] == c);
                assert(!all_digits(d));

            }
            return None;
        }
        proof {
            let k = (i - start) as int;
            assert(d.subrange(0, k + 1) =~= d.subrange(0, k).push(c));
            lemma_decimal_push(d.subrange(0, k), c);
        }
        let nv = v * 10 + (c - 48) as u32;
        v = if nv > 256 {
            256
        } else {
            nv
        };
        i = i + 1;
    }
    assert(d.subrange(0, n - start) =~= d);
    if v > 255 {
        None
    } else {
        Some(v as u8)
    }
}

/// Parse `A.B.C.D` bytes into octets.
fn parse_ipv4_bytes(s: &[u8]) -> (r: Option<[u8; 4]>)
    ensures
        r == ipv4_spec(s@),
{
    let n = s.len();
    let mut vals: [u8; 4] = [0u8; 4];
    let mut count: usize = 0;
    let mut start: usize = 0;
    let ghost mut parts: Seq<Seq<u8>> = Seq::empty();
    assert(s@.subrange(0, n as int) =~= s@);
    loop
        invariant_except_break
            split_on(s@, 46) == parts + split_on(s@.subrange(start as int, n as int), 46),
        invariant
            start <= n,
            n == s@.len(),
            count == parts.len(),
            count <= 4,
            forall|j: int| 0 <= j < count ==> parse_u8_spec(#[trigger] parts[j]) == Some(vals[j]),
        ensures
            count == parts.len(),
            count <= 4,
            split_on(s@, 46) == parts,
            forall|j: int| 0 <= j < count ==> parse_u8_spec(#[trigger] parts[j]) == Some(vals[j]),
        decreases n - start,
    {
        let k = find_byte(s, start, 46);
        let ghost rest = s@.subrange(start as int, n as int);
        proof {
            lemma_first_index_of(rest, 46);
            lemma_split_nonempty(rest, 46);
            if k < n {
                assert(rest.subrange((k - start) + 1, rest.len() as int) =~= s@.subrange(
                    k + 1,
                    n as int,
                ));
            }
            assert(rest.subrange(0, k - start) =~= s@.subrange(start as int, k as int));
        }
        if count == 4 {
            proof {
                lemma_split_nonempty(rest, 46);
            }
            return None;
        }
        let part = slice_subrange(s, start, k);
        let pv = parse_u8_bytes(part);
        match pv {
            None => {
                proof {
                    let full = split_on(s@, 46);
                    assert(full[count as int] == s@.subrange(start as int, k as int));
                }
                return None;
            },
            Some(v) => {
                vals[count] = v;
            },
        }
        proof {
            parts = parts.push(s@.subrange(start as int, k as int));
        }
        count = count + 1;
        if k >= n {
            proof {
                assert(split_on(s@, 46) =~= parts);
            }
            break ;
        }
        proof {
            assert(split_on(s@, 46) =~= parts + split_on(s@.subrange(k + 1, n as int), 46));
        }
        start = k + 1;
    }
    if count == 4 {
        Some(vals)
    } else {
        None
    }
}

/// Parse `A.B.C.D/PREFIX` bytes into octets and prefix length (0..=32).
fn parse_ipv4_cidr_bytes(s: &[u8]) -> (r: Option<([u8; 4], u8)>)
    ensures
        r == ipv4_cidr_spec(s@),
{
    let n = s.len();
    let k = find_byte(s, 0, 47);
    assert(s@.subrange(0, n as int) =~= s@);
    if k >= n {
        return None;
    }
    let ip = parse_ipv4_bytes(slice_subrange(s, 0, k));
    let prefix = parse_u8_bytes(slice_subrange(s, k + 1, n));
    match (ip, prefix) {
        (Some(a), Some(p)) => {
            if p > 32 {
                None
            } else {
                Some((a, p))
            }
        },
        _ => None,
    }
}

/// Parse `A.B.C.D` into octets.
pub fn parse_ipv4(s: &str) -> (r: Option<[u8; 4]>)
    ensures
        r == ipv4_spec(s.spec_bytes()),
{
    parse_ipv4_bytes(s.as_bytes())
}

/// Parse `A.B.C.D/PREFIX` into octets and prefix length (0..=32).
pub fn parse_ipv4_cidr(s: &str) -> (r: Option<([u8; 4], u8)>)
    ensures
        r == ipv4_cidr_spec(s.spec_bytes()),
        r matches Some((_, prefix)) ==> prefix <= 32,
{
    parse_ipv4_cidr_bytes(s.as_bytes())
}

/// Bytes of an optional subslice.
pub open spec fn opt_view(o: Option<&[u8]>) -> Option<Seq<u8>> {
    match o {
        Some(x) => Some(x@),
        None => None,
    }
}

/// `t` starts with `p`.
fn starts_with(t: &[u8], p: &[u8]) -> (r: bool)
    ensures
        r == has_prefix(t@, p@),
{
    if p.len() > t.len() {
        return false;
    }
    let mut i: usize = 0;
    while i < p.len()
        invariant
            p@.len() <= t@.len(),
            i <= p@.len(),
            forall|j: int| 0 <= j < i ==> t@[j] == p@[j],
        decreases p@.len() - i,
    {
        if t[i] != p[i] {
            assert(t@.subrange(0, p@.len() as int)[i as int] != p@[i as int]);
            return false;
        }
        i = i + 1;
    }
    assert(t@.subrange(0, p@.len() as int) =~= p@);
    true
}

/// ASCII lowercase of one byte.
fn to_lower(c: u8) -> (r: u8)
    ensures
        r == lower(c),
{
    if 65 <= c && c <= 90 {
        c + 32
    } else {
        c
    }
}

/// Parse the `net=...`, `ip=A.B.C.D/N`, and `gw=A.B.C.D` tokens from a
/// whitespace-separated kernel command line.
///
/// `defaults` supplies the static IP, prefix, and gateway used when the
/// cmdline doesn't override them (or selects `net=static` without
/// specifying `ip=`/`gw=`).
pub fn parse_net_mode(cmdline: &str, defaults: StaticDefaults) -> (m: NetMode)
    ensures
        m == net_mode_spec(cmdline.spec_bytes(), defaults),
{
    let b = cmdline.as_bytes();
    let n = b.len();
    let net_prefix: [u8; 4] = [110, 101, 116, 61];
    let ip_prefix: [u8; 3] = [105, 112, 61];
    let gw_prefix: [u8; 3] = [103, 119, 61];
    let np = net_prefix.as_slice();
    let ipp = ip_prefix.as_slice();
    let gwp = gw_prefix.as_slice();
    assert(np@ =~= net_key());
    assert(ipp@ =~= ip_key());
    assert(gwp@ =~= gw_key());
    let mut mode: Option<&[u8]> = None;
    let mut ip_cidr: Option<&[u8]> = None;
    let mut gw: Option<&[u8]> = None;
    let mut i: usize = 0;
    let ghost mut processed: Seq<Seq<u8>> = Seq::empty();
    assert(b@.subrange(0, n as int) =~= b@);
    while i < n
        invariant
            i <= n,
            n == b@.len(),
            np@ == net_key(),
            ipp@ == ip_key(),
            gwp@ == gw_key(),
            tokens(b@) == processed + tokens(b@.subrange(i as int, n as int)),
            scan_tokens(processed) == (CmdlineScan {
                mode: opt_view(mode),
                ip: opt_view(ip_cidr),
                gw: opt_view(gw),
            }),
        decreases n - i,
    {
        let ghost rest = b@.subrange(i as int, n as int);
        if is_ascii_ws(b[i]) {
            proof {
                assert(rest[0] == b@[i as int]);
                assert(rest.drop_first() =~= b@.subrange(i + 1, n as int));
            }
            i = i + 1;
        } else {
            let mut j = i;
            while j < n && !is_ascii_ws(b[j])
                invariant
                    i <= j <= n,
                    n == b@.len(),
                    forall|k: int| i <= k < j ==> !is_ws(b@[k]),
                decreases n - j,
            {
                j = j + 1;
            }
            let tok = slice_subrange(b, i, j);
            proof {
                assert forall|k: int| 0 <= k < j - i implies !is_ws(#[trigger] rest[k]) by {
                    assert(rest[k] == b@[i + k]);
                }
                if j < n {
                    assert(rest[j - i] == b@[j as int]);
                }
                lemma_token_len_unique(rest, (j - i) as int);
                assert(rest[0] == b@[i as int]);
                assert(rest.subrange(0, j - i) =~= tok@);
                assert(rest.subrange(j - i, rest.len() as int) =~= b@.subrange(j as int, n as int));
                assert(tokens(rest) == seq![tok@] + tokens(b@.subrange(j as int, n as int)));
                let old_processed = processed;
                processed = processed.push(tok@);
                assert(processed.drop_last() =~= old_processed);
                assert(tokens(b@) =~= processed + tokens(b@.subrange(j as int, n as int)));
            }
            if starts_with(tok, np) {
                mode = Some(slice_subrange(tok, 4, tok.len()));
            } else if starts_with(tok, ipp) {
                ip_cidr = Some(slice_subrange(tok, 3, tok.len()));
            } else if starts_with(tok, gwp) {
                gw = Some(slice_subrange(tok, 3, tok.len()));
            }
            i = j;
        }
    }
    proof {
        assert(b@.subrange(n as int, n as int) =~= Seq::<u8>::empty());
        assert(processed + Seq::<Seq<u8>>::empty() =~= processed);
    }
    let is_dhcp_mode = match mode {
        Some(m) => m.len() == 4 && to_lower(m[0]) == 100 && to_lower(m[1]) == 104 && to_lower(m[2])
            == 99 && to_lower(m[3]) == 112,
        None => false,
    };
    if is_dhcp_mode {
        return NetMode::Dhcp;
    }
    let cidr = match ip_cidr {
        Some(t) => parse_ipv4_cidr_bytes(t),
        None => None,
    };
    let (ip, prefix) = match cidr {
        Some(c) => c,
        None => (defaults.ip, defaults.prefix),
    };
    let gw_addr = match gw {
        Some(t) => match parse_ipv4_bytes(t) {
            Some(a) => a,
            None => defaults.gw,
        },
        None => defaults.gw,
    };
    NetMode::Static { ip, prefix, gw: gw_addr }
}

} // verus!
