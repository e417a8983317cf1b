//! Network specifications of the form `a.b.c.d/prefix`, and the host
//! addresses that they stand for.

use crate::text::{
    all_digits, chars_of, decimal_text, decimal_value, digit_value, is_digit, is_digit_char,
    lemma_decimal_text, lemma_decimal_text_injective, lemma_split_joined,
    lemma_split_without_separator, push_decimal, split_on, split_text, texts,
};
use vstd::prelude::*;
use vstd::string::*;

verus! {

/// Why a network specification is not scanned.
#[derive(Debug, Clone, Copy, PartialEq, Eq, Structural)]
pub enum NetworkError {
    /// The text is not an address and a prefix length with one `/` between.
    InvalidFormat,
    /// The address is not four octets with dots between.
    InvalidAddress,
    /// The prefix length is not a number from 0 to 32.
    InvalidPrefix,
    /// The prefix length is valid, but not 24.
    UnsupportedPrefix,
}

/// What is said of a network that is skipped for the reason `e`.
pub open spec fn warning_text(e: NetworkError) -> Seq<char> {
    match e {
        NetworkError::InvalidFormat => "Invalid network format"@,
        NetworkError::InvalidAddress => "Invalid IP format"@,
        NetworkError::InvalidPrefix => "Invalid subnet mask"@,
        NetworkError::UnsupportedPrefix => "Only /24 networks are supported"@,
    }
}

impl NetworkError {
    /// What is said of a network that is skipped for this reason.
    pub fn message(&self) -> (text: &'static str)
        ensures
            text@ == warning_text(*self),
    {
        match self {
            NetworkError::InvalidFormat => "Invalid network format",
            NetworkError::InvalidAddress => "Invalid IP format",
            NetworkError::InvalidPrefix => "Invalid subnet mask",
            NetworkError::UnsupportedPrefix => "Only /24 networks are supported",
        }
    }
}

/// Whether `s` is one octet of a dotted address: one to three digits that
/// denote at most 255, without a leading zero before another digit.
pub open spec fn is_octet(s: Seq<char>) -> bool {
    &&& 1 <= s.len() <= 3
    &&& all_digits(s)
    &&& (s.len() > 1 ==> s[0] != '0')
    &&& decimal_value(s) <= 255
}

/// Whether `s` is an IPv4 address in dotted decimal form.
pub open spec fn is_ipv4_literal(s: Seq<char>) -> bool {
    let parts = split_on(s, '.');
    &&& parts.len() == 4
    &&& forall|i: int| 0 <= i < 4 ==> is_octet(#[trigger] parts[i])
}

/// The digits of a prefix length: the text without its sign, if it has one.
pub open spec fn prefix_digits(s: Seq<char>) -> Seq<char> {
    if s.len() > 0 && s[0] == '+' {
        s.skip(1)
    } else {
        s
    }
}

/// The number that a prefix length denotes: one or more digits, which a
/// `+` may precede.
pub open spec fn prefix_length(s: Seq<char>) -> Option<nat> {
    let digits = prefix_digits(s);
    if digits.len() >= 1 && all_digits(digits) {
        Some(decimal_value(digits))
    } else {
        None
    }
}

/// Why the specification `s` is not scanned, if it is not.
pub open spec fn network_error(s: Seq<char>) -> Option<NetworkError> {
    let parts = split_on(s, '/');
    if parts.len() != 2 {
        Some(NetworkError::InvalidFormat)
    } else if !is_ipv4_literal(parts[0]) {
        Some(NetworkError::InvalidAddress)
    } else {
        match prefix_length(parts[1]) {
            None => Some(NetworkError::InvalidPrefix),
            Some(n) => if n > 32 {
                Some(NetworkError::InvalidPrefix)
            } else if n != 24 {
                Some(NetworkError::UnsupportedPrefix)
            } else {
                None
            },
        }
    }
}

/// What all hosts of the network `s` begin with: its first three octets,
/// each followed by a dot.
pub open spec fn host_prefix(s: Seq<char>) -> Seq<char> {
    let octets = split_on(split_on(s, '/')[0], '.');
    octets[0] + seq!['.'] + octets[1] + seq!['.'] + octets[2] + seq!['.']
}

/// The address of the host whose last octet is `n` in the network `s`.
pub open spec fn host_address(s: Seq<char>, n: nat) -> Seq<char> {
    host_prefix(s) + decimal_text(n)
}

/// The hosts of the network `s`: the last octet runs from 1 to 254, so
/// that the network's own address and its broadcast address stay out.
pub open spec fn network_hosts(s: Seq<char>) -> Seq<Seq<char>> {
    Seq::new(254, |i: int| host_address(s, (i + 1) as nat))
}

/// The smaller of two numbers.
pub open spec fn at_most(n: nat, cap: nat) -> nat {
    if n <= cap {
        n
    } else {
        cap
    }
}

/// Reads the digits `v[from..]` as a decimal number, and gives the number
/// or `cap`, whichever is smaller; none where a character is no digit or
/// there is none at all.
fn read_decimal(v: &Vec<char>, from: usize, cap: u32) -> (r: Option<u32>)
    requires
        from <= v.len(),
        cap <= 1000,
    ensures
        match r {
            Some(n) => v@.skip(from as int).len() >= 1 && all_digits(v@.skip(from as int)) && n
                == at_most(decimal_value(v@.skip(from as int)), cap as nat),
            None => !(v@.skip(from as int).len() >= 1 && all_digits(v@.skip(from as int))),
        },
{
    if from == v.len() {
        return None;
    }
    let ghost digits = v@.skip(from as int);
    let mut acc: u32 = 0;
    let mut i: usize = from;
    while i < v.len()
        invariant
            from <= i <= v.len(),
            cap <= 1000,
            digits == v@.skip(from as int),
            all_digits(digits.take(i - from)),
            acc == at_most(decimal_value(digits.take(i - from)), cap as nat),
        decreases v.len() - i,
    {
        let c = v[i];
        assert(digits[i - from] == c);
        if !is_digit_char(c) {
            return None;
        }
        let d: u32 = c as u32 - 48;
        proof {
            let next = digits.take(i + 1 - from);
            assert(next.drop_last() =~= digits.take(i - from));
        }
        acc = acc * 10 + d;
        if acc > cap {
            acc = cap;
        }
        i = i + 1;
    }
    assert(digits.take(v.len() - from) =~= digits);
    Some(acc)
}

/// Whether `s` is one octet of a dotted address.
pub fn is_octet_text(s: &str) -> (r: bool)
    ensures
        r == is_octet(s@),
{
    let v = chars_of(s);
    if v.len() < 1 || v.len() > 3 {
        return false;
    }
    if v.len() > 1 && v[0] == '0' {
        return false;
    }
    assert(v@.skip(0) =~= v@);
    match read_decimal(&v, 0, 256) {
        Some(n) => n <= 255,
        None => false,
    }
}

/// Whether `s` is an IPv4 address in dotted decimal form.
pub fn is_ipv4_text(s: &str) -> (r: bool)
    ensures
        r == is_ipv4_literal(s@),
{
    let parts = split_text(s, '.');
    if parts.len() != 4 {
        return false;
    }
    let mut i: usize = 0;
    while i < 4
        invariant
            i <= 4,
            parts@.len() == 4,
            texts(parts@) == split_on(s@, '.'),
            forall|j: int| 0 <= j < i ==> is_octet(#[trigger] split_on(s@, '.')[j]),
        decreases 4 - i,
    {
        assert(texts(parts@)[i as int] == parts@[i as int]@);
        if !is_octet_text(parts[i].as_str()) {
            return false;
        }
        i = i + 1;
    }
    true
}

/// Checks a network specification: why it is not scanned, if it is not.
pub fn check_network(network: &str) -> (r: Option<NetworkError>)
    ensures
        r == network_error(network@),
{
    let parts = split_text(network, '/');
    if parts.len() != 2 {
        return Some(NetworkError::InvalidFormat);
    }
    if !is_ipv4_text(parts[0].as_str()) {
        return Some(NetworkError::InvalidAddress);
    }
    let v = chars_of(parts[1].as_str());
    let from: usize = if v.len() > 0 && v[0] == '+' {
        1
    } else {
        0
    };
    assert(v@.skip(from as int) =~= prefix_digits(v@));
    match read_decimal(&v, from, 33) {
        None => Some(NetworkError::InvalidPrefix),
        Some(n) => if n > 32 {
            Some(NetworkError::InvalidPrefix)
        } else if n != 24 {
            Some(NetworkError::UnsupportedPrefix)
        } else {
            None
        },
    }
}

/// Expands a network specification into the addresses of its hosts. Only
/// networks of prefix length 24 are expanded; every other specification
/// is refused, with the reason.
pub fn enumerate_hosts(network: &str) -> (r: Result<Vec<String>, NetworkError>)
    ensures
        match r {
            Ok(hosts) => network_error(network@) is None && hosts@.len() == 254 && texts(hosts@)
                == network_hosts(network@),
            Err(e) => network_error(network@) == Some(e),
        },
{
    match check_network(network) {
        Some(e) => {
            return Err(e);
        },
        None => {},
    }
    let parts = split_text(network, '/');
    let octets = split_text(parts[0].as_str(), '.');
    let mut prefix = String::new();
    prefix.append(octets[0].as_str());
    prefix.push('.');
    prefix.append(octets[1].as_str());
    prefix.push('.');
    prefix.append(octets[2].as_str());
    prefix.push('.');
    let mut hosts: Vec<String> = Vec::new();
    let mut n: u64 = 1;
    while n < 255
        invariant
            1 <= n <= 255,
            prefix@ == host_prefix(network@),
            hosts@.len() == n - 1,
            forall|i: int| 0 <= i < n - 1 ==> (#[trigger] hosts@[i])@ == host_address(
                network@,
                (i + 1) as nat,
            ),
        decreases 255 - n,
    {
        let mut host = prefix.clone();
        push_decimal(&mut host, n);
        hosts.push(host);
        n = n + 1;
    }
    Ok(hosts)
}

/// The hosts of the network `s` that are probed: all its hosts but those
/// that `excluded` lists; none where the specification is refused.
pub open spec fn network_targets(s: Seq<char>, excluded: Seq<Seq<char>>) -> Seq<Seq<char>> {
    if network_error(s) is None {
        network_hosts(s).filter(|host: Seq<char>| !excluded.contains(host))
    } else {
        Seq::empty()
    }
}

/// Whether `list` holds the text of `item`.
pub fn lists_text(list: &Vec<String>, item: &String) -> (r: bool)
    ensures
        r == texts(list@).contains(item@),
{
    let mut i: usize = 0;
    while i < list.len()
        invariant
            i <= list@.len(),
            forall|j: int| 0 <= j < i ==> texts(list@)[j] != item@,
        decreases list@.len() - i,
    {
        assert(texts(list@)[i as int] == list@[i as int]@);
        if list[i] == *item {
            return true;
        }
        i = i + 1;
    }
    false
}

/// Expands a network specification into the addresses to probe: its
/// hosts, in order, without those that `excluded` lists.
pub fn enumerate_targets(network: &str, excluded: &Vec<String>) -> (r: Result<
    Vec<String>,
    NetworkError,
>)
    ensures
        match r {
            Ok(targets) => network_error(network@) is None && texts(targets@) == network_targets(
                network@,
                texts(excluded@),
            ),
            Err(e) => network_error(network@) == Some(e),
        },
{
    let hosts = match enumerate_hosts(network) {
        Ok(hosts) => hosts,
        Err(e) => {
            return Err(e);
        },
    };
    let ghost wanted = |host: Seq<char>| !texts(excluded@).contains(host);
    let mut targets: Vec<String> = Vec::new();
    let mut i: usize = 0;
    while i < hosts.len()
        invariant
            i <= hosts@.len(),
            wanted == |host: Seq<char>| !texts(excluded@).contains(host),
            texts(targets@) == texts(hosts@).take(i as int).filter(wanted),
        decreases hosts@.len() - i,
    {
        proof {
            let done = texts(hosts@).take(i as int);
            assert(texts(hosts@).take(i + 1) =~= done.push(hosts@[i as int]@));
            done.lemma_filter_push(hosts@[i as int]@, wanted);
        }
        if !lists_text(excluded, &hosts[i]) {
            targets.push(hosts[i].clone());
        }
        i = i + 1;
    }
    assert(texts(hosts@).take(hosts@.len() as int) =~= texts(hosts@));
    Ok(targets)
}

/// An address that is excluded is no target, in whatever network.
pub proof fn lemma_targets_exclude(s: Seq<char>, excluded: Seq<Seq<char>>, address: Seq<char>)
    requires
        network_targets(s, excluded).contains(address),
    ensures
        !excluded.contains(address),
        network_error(s) is None,
        network_hosts(s).contains(address),
{
    let wanted = |host: Seq<char>| !excluded.contains(host);
    network_hosts(s).lemma_filter_contains_rev(wanted, address);
}

/// A network has 254 hosts, and no two of them have the same address:
/// they differ in the last octet, which runs from 1 to 254.
pub proof fn lemma_hosts_are_distinct(s: Seq<char>, i: int, j: int)
    requires
        0 <= i < 254,
        0 <= j < 254,
        i != j,
    ensures
        network_hosts(s).len() == 254,
        network_hosts(s)[i] == host_prefix(s) + decimal_text((i + 1) as nat),
        network_hosts(s)[i] != network_hosts(s)[j],
{
    let p = host_prefix(s);
    let a = decimal_text((i + 1) as nat);
    let b = decimal_text((j + 1) as nat);
    if p + a == p + b {
        assert((p + a).skip(p.len() as int) =~= a);
        assert((p + b).skip(p.len() as int) =~= b);
        lemma_decimal_text_injective((i + 1) as nat, (j + 1) as nat);
    }
}

/// An octet holds no dot.
proof fn lemma_octet_has_no_dot(s: Seq<char>)
    requires
        is_octet(s),
    ensures
        split_on(s, '.') == seq![s],
{
    lemma_split_without_separator(s, '.');
}

/// Four octets with dots between.
pub open spec fn dotted(a: Seq<char>, b: Seq<char>, c: Seq<char>, d: Seq<char>) -> Seq<char> {
    a + seq!['.'] + b + seq!['.'] + c + seq!['.'] + d
}

/// Four octets with dots between are an IPv4 address in dotted decimal
/// form.
pub proof fn lemma_dotted_octets(a: Seq<char>, b: Seq<char>, c: Seq<char>, d: Seq<char>)
    requires
        is_octet(a),
        is_octet(b),
        is_octet(c),
        is_octet(d),
    ensures
        is_ipv4_literal(dotted(a, b, c, d)),
{
    lemma_octet_has_no_dot(a);
    lemma_octet_has_no_dot(b);
    lemma_octet_has_no_dot(c);
    lemma_octet_has_no_dot(d);
    lemma_split_joined(a, b, '.');
    lemma_split_joined(a + seq!['.'] + b, c, '.');
    lemma_split_joined(a + seq!['.'] + b + seq!['.'] + c, d, '.');
}

/// The decimal text of a number up to 255 is an octet.
pub proof fn lemma_octet_of_number(n: nat)
    requires
        n <= 255,
    ensures
        is_octet(decimal_text(n)),
{
    lemma_decimal_text(n);
}

/// Every host of a network that is accepted has an IPv4 address in
/// dotted decimal form.
pub proof fn lemma_hosts_are_ipv4_literals(s: Seq<char>, i: int)
    requires
        network_error(s) is None,
        0 <= i < 254,
    ensures
        is_ipv4_literal(network_hosts(s)[i]),
{
    let octets = split_on(split_on(s, '/')[0], '.');
    let last = decimal_text((i + 1) as nat);
    lemma_octet_of_number((i + 1) as nat);
    lemma_dotted_octets(octets[0], octets[1], octets[2], last);
}

} // verus!
