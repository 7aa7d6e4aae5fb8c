//! Network interface names: the Windows device prefix, friendly names, and the
//! choice of an interface from what the user typed.
use vstd::prelude::*;
use crate::error::NtkError;
use crate::ipv4::{IpAddress, Ipv4, ipv4_text, ipv4_to_string};
use crate::text::{
    chars_of, chars_eq, contains_chars, contains_text, has_prefix, starts_with_chars, string_of,
    to_ascii_lower, to_ascii_upper, ascii_lower, ascii_upper, push_str,
};

verus! {

/// The device-path prefix of Windows interface names: `\Device\NPF_`.
pub open spec fn npf_prefix() -> Seq<char> {
    seq!['\\', 'D', 'e', 'v', 'i', 'c', 'e', '\\', 'N', 'P', 'F', '_']
}

/// The prefix `\Device\NPF_` as characters.
fn npf_prefix_chars() -> (v: Vec<char>)
    ensures
        v@ == npf_prefix(),
{
    let v = vec!['\\', 'D', 'e', 'v', 'i', 'c', 'e', '\\', 'N', 'P', 'F', '_'];
    assert(v@ =~= npf_prefix());
    v
}

/// An interface name without the Windows device-path prefix.
pub open spec fn normalized_name(name: Seq<char>) -> Seq<char> {
    if has_prefix(name, npf_prefix()) {
        name.subrange(npf_prefix().len() as int, name.len() as int)
    } else {
        name
    }
}

/// The characters of `v` from `start` on.
fn chars_from(v: &Vec<char>, start: usize) -> (r: Vec<char>)
    requires
        start <= v@.len(),
    ensures
        r@ == v@.subrange(start as int, v@.len() as int),
{
    let mut r: Vec<char> = Vec::new();
    let mut i = start;
    while i < v.len()
        invariant
            start <= i <= v@.len(),
            r@ == v@.subrange(start as int, i as int),
        decreases v@.len() - i,
    {
        r.push(v[i]);
        proof {
            assert(v@.subrange(start as int, i + 1) =~= v@.subrange(start as int, i as int).push(v@[i as int]));
        }
        i = i + 1;
    }
    r
}

/// Strips the device-path prefix from a name given as characters.
fn normalized_chars(name: &Vec<char>) -> (r: Vec<char>)
    ensures
        r@ == normalized_name(name@),
{
    let p = npf_prefix_chars();
    if starts_with_chars(name, &p) {
        chars_from(name, p.len())
    } else {
        chars_from(name, 0)
    }
}

/// Two interface names match when they are equal, or equal once the device-path
/// prefix is stripped from one of them.
pub open spec fn names_match(stored: Seq<char>, query: Seq<char>) -> bool {
    stored == query || normalized_name(stored) == query || stored == normalized_name(query)
}

/// Whether two names given as characters match (see `names_match`).
fn chars_match(stored: &Vec<char>, query: &Vec<char>) -> (r: bool)
    ensures
        r == names_match(stored@, query@),
{
    chars_eq(stored, query) || chars_eq(&normalized_chars(stored), query) || chars_eq(
        stored,
        &normalized_chars(query),
    )
}

/// Strips the Windows device-path prefix `\Device\NPF_` from an interface name.
pub fn normalize_interface_name(name: &str) -> (r: String)
    ensures
        r@ == normalized_name(name@),
{
    string_of(&normalized_chars(&chars_of(name)))
}

/// Whether two interface names match (see `names_match`).
pub fn interface_name_matches(stored: &str, query: &str) -> (r: bool)
    ensures
        r == names_match(stored@, query@),
{
    chars_match(&chars_of(stored), &chars_of(query))
}

/// The map built by inserting the pairs in order: a later pair for the same
/// key replaces an earlier one.
pub open spec fn pairs_map(pairs: Seq<(Seq<char>, Seq<char>)>) -> Map<Seq<char>, Seq<char>>
    decreases pairs.len(),
{
    if pairs.len() == 0 {
        Map::empty()
    } else {
        pairs_map(pairs.drop_last()).insert(pairs.last().0, pairs.last().1)
    }
}

/// The pairs as characters.
pub open spec fn pair_views(pairs: Seq<(Vec<char>, Vec<char>)>) -> Seq<(Seq<char>, Seq<char>)> {
    pairs.map_values(|p: (Vec<char>, Vec<char>)| (p.0@, p.1@))
}

/// A key is in the map exactly when some pair has it.
proof fn lemma_pairs_map_dom(pairs: Seq<(Seq<char>, Seq<char>)>, k: Seq<char>)
    ensures
        pairs_map(pairs).contains_key(k) <==> exists|i: int| 0 <= i < pairs.len() && #[trigger] pairs[i].0 == k,
    decreases pairs.len(),
{
    if pairs.len() > 0 {
        let init = pairs.drop_last();
        lemma_pairs_map_dom(init, k);
        if pairs_map(pairs).contains_key(k) {
            if pairs.last().0 == k {
                assert(pairs[pairs.len() - 1].0 == k);
            } else {
                let i = choose|i: int| 0 <= i < init.len() && #[trigger] init[i].0 == k;
                assert(pairs[i].0 == k);
            }
        }
        if exists|i: int| 0 <= i < pairs.len() && #[trigger] pairs[i].0 == k {
            let i = choose|i: int| 0 <= i < pairs.len() && #[trigger] pairs[i].0 == k;
            if i < pairs.len() - 1 {
                assert(init[i].0 == k);
            }
        }
    }
}

/// The map holds the value of the last pair with the key.
proof fn lemma_pairs_map_value(pairs: Seq<(Seq<char>, Seq<char>)>, k: Seq<char>, i: int)
    requires
        0 <= i < pairs.len(),
        pairs[i].0 == k,
        forall|j: int| i < j < pairs.len() ==> (#[trigger] pairs[j]).0 != k,
    ensures
        pairs_map(pairs).contains_key(k),
        pairs_map(pairs)[k] == pairs[i].1,
    decreases pairs.len(),
{
    let init = pairs.drop_last();
    if i < pairs.len() - 1 {
        assert(pairs[pairs.len() - 1].0 != k);
        assert forall|j: int| i < j < init.len() implies (#[trigger] init[j]).0 != k by {
            assert(pairs[j].0 != k);
        }
        lemma_pairs_map_value(init, k, i);
    }
}

/// The last pair whose key is `k`, searching from the end.
fn lookup(pairs: &Vec<(Vec<char>, Vec<char>)>, k: &Vec<char>) -> (r: Option<usize>)
    ensures
        match r {
            Some(i) => i < pairs@.len() && pairs@[i as int].0@ == k@ && pairs_map(pair_views(pairs@)).contains_key(k@)
                && pairs_map(pair_views(pairs@))[k@] == pairs@[i as int].1@,
            None => !pairs_map(pair_views(pairs@)).contains_key(k@),
        },
{
    let ghost pv = pair_views(pairs@);
    let mut i = pairs.len();
    while i > 0
        invariant
            i <= pairs@.len(),
            pv == pair_views(pairs@),
            forall|j: int| i <= j < pairs@.len() ==> (#[trigger] pv[j]).0 != k@,
        decreases i,
    {
        if chars_eq(&pairs[i - 1].0, k) {
            proof {
                assert(pv[i - 1].0 == k@);
                lemma_pairs_map_value(pv, k@, i - 1);
            }
            return Some(i - 1);
        }
        i = i - 1;
    }
    proof {
        lemma_pairs_map_dom(pv, k@);
    }
    None
}

/// The names of each interface both ways: friendly name to interface name, and
/// interface name (without the device-path prefix) to friendly name.
pub struct NetdevInterfaceNameMap {
    by_friendly: Vec<(Vec<char>, Vec<char>)>,
    by_interface: Vec<(Vec<char>, Vec<char>)>,
}

/// One interface as the operating system lists it: its name and, where it has
/// one, its friendly name.
pub struct InterfaceNames {
    pub name: String,
    pub friendly_name: Option<String>,
}

/// The entries that `build` puts in the maps for the first `n` interfaces:
/// (friendly name, interface name) and (interface name, friendly name), the
/// friendly name defaulting to the interface name.
pub open spec fn friendly_pairs(ifaces: Seq<(Seq<char>, Option<Seq<char>>)>) -> Seq<(Seq<char>, Seq<char>)> {
    Seq::new(
        ifaces.len(),
        |i: int|
            {
                let name = normalized_name(ifaces[i].0);
                let friendly = match ifaces[i].1 {
                    Some(f) => f,
                    None => name,
                };
                (friendly, name)
            },
    )
}

/// The (interface name, friendly name) entries, see `friendly_pairs`.
pub open spec fn interface_pairs(ifaces: Seq<(Seq<char>, Option<Seq<char>>)>) -> Seq<(Seq<char>, Seq<char>)> {
    friendly_pairs(ifaces).map_values(|p: (Seq<char>, Seq<char>)| (p.1, p.0))
}

/// The interface list as characters.
pub open spec fn iface_views(ifaces: Seq<InterfaceNames>) -> Seq<(Seq<char>, Option<Seq<char>>)> {
    ifaces.map_values(
        |x: InterfaceNames|
            (
                x.name@,
                match x.friendly_name {
                    Some(f) => Some(f@),
                    None => None,
                },
            ),
    )
}

impl NetdevInterfaceNameMap {
    /// Friendly name to interface name.
    pub closed spec fn friendly_map(&self) -> Map<Seq<char>, Seq<char>> {
        pairs_map(pair_views(self.by_friendly@))
    }

    /// Interface name to friendly name.
    pub closed spec fn interface_map(&self) -> Map<Seq<char>, Seq<char>> {
        pairs_map(pair_views(self.by_interface@))
    }

    /// Builds both maps from the interfaces of this device, in the order
    /// listed; a later interface with the same name replaces an earlier one.
    pub fn build(interfaces: &Vec<InterfaceNames>) -> (m: Self)
        ensures
            m.friendly_map() == pairs_map(friendly_pairs(iface_views(interfaces@))),
            m.interface_map() == pairs_map(interface_pairs(iface_views(interfaces@))),
    {
        let ghost views = iface_views(interfaces@);
        let mut by_friendly: Vec<(Vec<char>, Vec<char>)> = Vec::new();
        let mut by_interface: Vec<(Vec<char>, Vec<char>)> = Vec::new();
        let mut i: usize = 0;
        while i < interfaces.len()
            invariant
                views == iface_views(interfaces@),
                i <= interfaces@.len(),
                pair_views(by_friendly@) == friendly_pairs(views.subrange(0, i as int)),
                pair_views(by_interface@) == interface_pairs(views.subrange(0, i as int)),
            decreases interfaces@.len() - i,
        {
            let iface = &interfaces[i];
            let name = normalized_chars(&chars_of(iface.name.as_str()));
            let friendly = match &iface.friendly_name {
                Some(f) => chars_of(f.as_str()),
                None => name.clone(),
            };
            let ghost old_f = by_friendly@;
            let ghost old_i = by_interface@;
            let ghost entry = (friendly@, name@);
            by_friendly.push((friendly.clone(), name.clone()));
            by_interface.push((name, friendly));
            proof {
                assert(views[i as int].0 == iface.name@);
                let fp0 = friendly_pairs(views.subrange(0, i as int));
                let fp1 = friendly_pairs(views.subrange(0, i + 1));
                assert(fp1 =~= fp0.push(entry));
                assert(pair_views(by_friendly@) =~= pair_views(old_f).push(entry));
                assert(interface_pairs(views.subrange(0, i + 1)) =~= interface_pairs(
                    views.subrange(0, i as int),
                ).push((entry.1, entry.0)));
                assert(pair_views(by_interface@) =~= pair_views(old_i).push((entry.1, entry.0)));
            }
            i = i + 1;
        }
        proof {
            assert(views.subrange(0, interfaces@.len() as int) =~= views);
        }
        NetdevInterfaceNameMap { by_friendly, by_interface }
    }

    /// `r` is what `query` resolves to: a friendly name first, then an
    /// interface name, each as typed and without the device-path prefix; else
    /// some interface name that contains either form; else nothing.
    pub open spec fn resolves(&self, query: Seq<char>, r: Option<Seq<char>>) -> bool {
        let q = query;
        let n = normalized_name(q);
        let fm = self.friendly_map();
        let im = self.interface_map();
        if fm.contains_key(q) {
            r == Some(fm[q])
        } else if fm.contains_key(n) {
            r == Some(fm[n])
        } else if im.contains_key(q) {
            r == Some(q)
        } else if im.contains_key(n) {
            r == Some(n)
        } else if exists|k: Seq<char>| im.contains_key(k) && (contains_text(k, q) || contains_text(k, n)) {
            r matches Some(s) && im.contains_key(s) && (contains_text(s, q) || contains_text(s, n))
        } else {
            r is None
        }
    }

    /// Resolves what the user typed to an interface name (see `resolves`).
    /// Which of several interface names that contain the query comes out is
    /// left open.
    pub fn resolve_name(&self, query: &str) -> (r: Option<String>)
        ensures
            self.resolves(
                query@,
                match r {
                    Some(s) => Some(s@),
                    None => None,
                },
            ),
    {
        let q = chars_of(query);
        let n = normalized_chars(&q);
        if let Some(i) = lookup(&self.by_friendly, &q) {
            return Some(string_of(&self.by_friendly[i].1));
        }
        if let Some(i) = lookup(&self.by_friendly, &n) {
            return Some(string_of(&self.by_friendly[i].1));
        }
        if lookup(&self.by_interface, &q).is_some() {
            return Some(string_of(&q));
        }
        if lookup(&self.by_interface, &n).is_some() {
            return Some(string_of(&n));
        }
        let ghost pv = pair_views(self.by_interface@);
        let mut i: usize = 0;
        while i < self.by_interface.len()
            invariant
                pv == pair_views(self.by_interface@),
                q@ == query@,
                n@ == normalized_name(query@),
                !self.friendly_map().contains_key(q@),
                !self.friendly_map().contains_key(n@),
                !self.interface_map().contains_key(q@),
                !self.interface_map().contains_key(n@),
                i <= self.by_interface@.len(),
                forall|j: int| 0 <= j < i ==> !contains_text((#[trigger] pv[j]).0, q@) && !contains_text(pv[j].0, n@),
            decreases self.by_interface@.len() - i,
        {
            let k = &self.by_interface[i].0;
            if contains_chars(k, &q) || contains_chars(k, &n) {
                proof {
                    assert(pv[i as int].0 == k@);
                    lemma_pairs_map_dom(pv, k@);
                }
                return Some(string_of(k));
            }
            i = i + 1;
        }
        proof {
            assert forall|k: Seq<char>| self.interface_map().contains_key(k) implies !(contains_text(k, q@) || contains_text(k, n@)) by {
                lemma_pairs_map_dom(pv, k);
                let j = choose|j: int| 0 <= j < pv.len() && #[trigger] pv[j].0 == k;
            }
        }
        None
    }

    /// The position of the first of `names` that matches the name `query`
    /// resolves to, if it resolves.
    pub open spec fn resolves_to_position(&self, query: Seq<char>, names: Seq<String>, r: Option<usize>) -> bool {
        exists|res: Option<Seq<char>>|
            #![trigger self.resolves(query, res)]
            self.resolves(query, res) && match res {
                None => r is None,
                Some(name) => is_first_match(names, name, r),
            }
    }

    fn first_matching(&self, query: &str, names: &Vec<String>) -> (r: Option<usize>)
        ensures
            self.resolves_to_position(query@, names@, r),
    {
        match self.resolve_name(query) {
            None => {
                assert(self.resolves(query@, None));
                None
            },
            Some(name) => {
                let r = first_name_matching(names, name.as_str());
                assert(self.resolves(query@, Some(name@)));
                r
            },
        }
    }

    /// Resolves `query` to one of the datalink interfaces named in `names`: the
    /// position of the first whose name matches the resolved interface name.
    pub fn resolve_pnet(&self, query: &str, names: &Vec<String>) -> (r: Option<usize>)
        ensures
            self.resolves_to_position(query@, names@, r),
    {
        self.first_matching(query, names)
    }

    /// Resolves `query` to one of the capture devices named in `names`: the
    /// position of the first whose name matches the resolved interface name.
    pub fn resolve_pcap(&self, query: &str, names: &Vec<String>) -> (r: Option<usize>)
        ensures
            self.resolves_to_position(query@, names@, r),
    {
        self.first_matching(query, names)
    }

    /// Resolves `query` to one of the interfaces of this device named in
    /// `names`: the position of the first whose name matches the resolved
    /// interface name.
    pub fn resolve_netdev(&self, query: &str, names: &Vec<String>) -> (r: Option<usize>)
        ensures
            self.resolves_to_position(query@, names@, r),
    {
        self.first_matching(query, names)
    }
}

/// `r` is the position of the first of `names` that matches `target` (see
/// `names_match`), or nothing when none does.
pub open spec fn is_first_match(names: Seq<String>, target: Seq<char>, r: Option<usize>) -> bool {
    match r {
        Some(i) => i < names.len() && names_match(names[i as int]@, target) && forall|j: int|
            0 <= j < i ==> !names_match(#[trigger] names[j]@, target),
        None => forall|j: int| 0 <= j < names.len() ==> !names_match(#[trigger] names[j]@, target),
    }
}

/// The position of the first of `names` that matches `target` (see
/// `is_first_match`).
pub fn first_name_matching(names: &Vec<String>, target: &str) -> (r: Option<usize>)
    ensures
        is_first_match(names@, target@, r),
{
    let t = chars_of(target);
    let mut i: usize = 0;
    while i < names.len()
        invariant
            t@ == target@,
            i <= names@.len(),
            forall|j: int| 0 <= j < i ==> !names_match(#[trigger] names@[j]@, target@),
        decreases names@.len() - i,
    {
        if chars_match(&chars_of(names[i].as_str()), &t) {
            return Some(i);
        }
        i = i + 1;
    }
    None
}

/// `r` is the position of the first list that holds the version 4 address
/// `ip`, or nothing when none does.
pub open spec fn is_first_holding(lists: Seq<Vec<IpAddress>>, ip: Ipv4, r: Option<usize>) -> bool {
    match r {
        Some(i) => i < lists.len() && lists[i as int]@.contains(IpAddress::V4(ip)) && forall|j: int|
            0 <= j < i ==> !(#[trigger] lists[j])@.contains(IpAddress::V4(ip)),
        None => forall|j: int| 0 <= j < lists.len() ==> !(#[trigger] lists[j])@.contains(IpAddress::V4(ip)),
    }
}

/// Finds the interface (or capture device) that has the address `ip`, each
/// given by the list of its addresses: the position of the first one that
/// holds it.
pub fn position_of_address(lists: &Vec<Vec<IpAddress>>, ip: Ipv4) -> (r: Option<usize>)
    ensures
        is_first_holding(lists@, ip, r),
{
    let target = IpAddress::V4(ip);
    let mut i: usize = 0;
    while i < lists.len()
        invariant
            target == IpAddress::V4(ip),
            i <= lists@.len(),
            forall|j: int| 0 <= j < i ==> !(#[trigger] lists@[j])@.contains(IpAddress::V4(ip)),
        decreases lists@.len() - i,
    {
        let addrs = &lists[i];
        let mut k: usize = 0;
        while k < addrs.len()
            invariant
                target == IpAddress::V4(ip),
                i < lists@.len(),
                addrs@ == lists@[i as int]@,
                forall|j: int| 0 <= j < i ==> !(#[trigger] lists@[j])@.contains(IpAddress::V4(ip)),
                k <= addrs@.len(),
                forall|m: int| 0 <= m < k ==> addrs@[m] != target,
            decreases addrs@.len() - k,
        {
            if addrs[k] == target {
                proof {
                    assert(lists@[i as int]@[k as int] == IpAddress::V4(ip));
                    assert(lists@[i as int]@.contains(IpAddress::V4(ip)));
                }
                return Some(i);
            }
            k = k + 1;
        }
        i = i + 1;
    }
    None
}

/// The interface that has the address `ip` (see `position_of_address`); when
/// none has it, an `IpIfAssociationError` naming the address.
pub fn interface_with_address(lists: &Vec<Vec<IpAddress>>, ip: Ipv4) -> (r: Result<usize, NtkError>)
    ensures
        r matches Ok(i) ==> is_first_holding(lists@, ip, Some(i)),
        r is Err ==> is_first_holding(lists@, ip, None) && (r matches Err(
            NtkError::IpIfAssociationError(s),
        ) && s@ == ipv4_text(ip)),
{
    match position_of_address(lists, ip) {
        Some(i) => Ok(i),
        None => Err(NtkError::IpIfAssociationError(ipv4_to_string(ip))),
    }
}

/// The upper-cased name of interface `i` occurs in the upper-cased `pnet_name`.
pub open spec fn friendly_hit(pnet_name: Seq<char>, interfaces: Seq<InterfaceNames>, i: int) -> bool {
    contains_text(
        pnet_name.map_values(|c: char| ascii_upper(c)),
        interfaces[i].name@.map_values(|c: char| ascii_upper(c)),
    )
}

/// The friendly name of a datalink interface known by its GUID name: the
/// friendly name of the first interface whose name, upper-cased, occurs in the
/// upper-cased `pnet_name`; `Unknown` when there is none or it has no friendly
/// name.
pub fn get_netdev_friendly_name(pnet_name: &str, interfaces: &Vec<InterfaceNames>) -> (r: String)
    ensures
        forall|i: int|
            0 <= i < interfaces@.len() && #[trigger] friendly_hit(pnet_name@, interfaces@, i) && (forall|j: int|
                0 <= j < i ==> !friendly_hit(pnet_name@, interfaces@, j)) ==> match interfaces@[i].friendly_name {
                Some(f) => r@ == f@,
                None => r@ == "Unknown"@,
            },
        (forall|i: int| 0 <= i < interfaces@.len() ==> !#[trigger] friendly_hit(pnet_name@, interfaces@, i)) ==> r@
            == "Unknown"@,
{
    let up = to_ascii_upper(&chars_of(pnet_name));
    let mut i: usize = 0;
    while i < interfaces.len()
        invariant
            up@ == pnet_name@.map_values(|c: char| ascii_upper(c)),
            i <= interfaces@.len(),
            forall|j: int| 0 <= j < i ==> !#[trigger] friendly_hit(pnet_name@, interfaces@, j),
        decreases interfaces@.len() - i,
    {
        let name_up = to_ascii_upper(&chars_of(interfaces[i].name.as_str()));
        if contains_chars(&up, &name_up) {
            assert(friendly_hit(pnet_name@, interfaces@, i as int));
            let mut s = String::new();
            match &interfaces[i].friendly_name {
                Some(f) => push_str(&mut s, f.as_str()),
                None => push_str(&mut s, "Unknown"),
            }
            proof {
                assert forall|k: int|
                    0 <= k < interfaces@.len() && #[trigger] friendly_hit(pnet_name@, interfaces@, k) && (forall|j: int|
                        0 <= j < k ==> !friendly_hit(pnet_name@, interfaces@, j)) implies k == i by {
                    if k < i {
                        assert(!friendly_hit(pnet_name@, interfaces@, k));
                    }
                    if k > i {
                        assert(!friendly_hit(pnet_name@, interfaces@, i as int));
                    }
                }
            }
            return s;
        }
        i = i + 1;
    }
    let mut s = String::new();
    push_str(&mut s, "Unknown");
    s
}

/// The lower case of `c` as far as it matters when comparing with a name
/// written in lower-case ASCII (as `str::to_lowercase` gives it): ASCII capitals
/// become small letters, and the Kelvin sign becomes `k`; no other character
/// lowers to an ASCII letter or digit.
pub open spec fn name_char_lower(c: char) -> char {
    if c == '\u{212A}' {
        'k'
    } else {
        ascii_lower(c)
    }
}

/// Lowers every character of a name (see `name_char_lower`).
fn name_lower(v: &Vec<char>) -> (r: Vec<char>)
    ensures
        r@ == v@.map_values(|c: char| name_char_lower(c)),
{
    let a = to_ascii_lower(v);
    let mut r: Vec<char> = Vec::new();
    let mut i: usize = 0;
    while i < v.len()
        invariant
            i <= v@.len(),
            a@ == v@.map_values(|c: char| ascii_lower(c)),
            r@ == v@.subrange(0, i as int).map_values(|c: char| name_char_lower(c)),
        decreases v@.len() - i,
    {
        let c = if v[i] == '\u{212A}' {
            'k'
        } else {
            a[i]
        };
        r.push(c);
        proof {
            assert(v@.subrange(0, i + 1).map_values(|c: char| name_char_lower(c)) =~= v@.subrange(
                0,
                i as int,
            ).map_values(|c: char| name_char_lower(c)).push(name_char_lower(v@[i as int])));
        }
        i = i + 1;
    }
    assert(v@.subrange(0, v@.len() as int) =~= v@);
    r
}

/// Loopback interfaces that the ARP discovery of all interfaces skips: `lo`,
/// `lo0`, or a name that starts with `loopback`, ignoring case.
pub open spec fn is_loopback_name(name: Seq<char>) -> bool {
    let lc = name.map_values(|c: char| name_char_lower(c));
    lc == seq!['l', 'o'] || lc == seq!['l', 'o', '0'] || has_prefix(
        lc,
        seq!['l', 'o', 'o', 'p', 'b', 'a', 'c', 'k'],
    )
}

/// Whether the ARP discovery of all interfaces skips this interface as a
/// loopback interface (see `is_loopback_name`).
pub fn is_loopback_interface(name: &str) -> (r: bool)
    ensures
        r == is_loopback_name(name@),
{
    let lc = name_lower(&chars_of(name));
    let lo = vec!['l', 'o'];
    let lo0 = vec!['l', 'o', '0'];
    let loopback = vec!['l', 'o', 'o', 'p', 'b', 'a', 'c', 'k'];
    assert(lo@ =~= seq!['l', 'o']);
    assert(lo0@ =~= seq!['l', 'o', '0']);
    assert(loopback@ =~= seq!['l', 'o', 'o', 'p', 'b', 'a', 'c', 'k']);
    chars_eq(&lc, &lo) || chars_eq(&lc, &lo0) || starts_with_chars(&lc, &loopback)
}

/// The position of the first interface named exactly `interface_name`.
pub fn get_interface(interface_name: &str, names: &Vec<String>) -> (r: Option<usize>)
    ensures
        match r {
            Some(i) => i < names@.len() && names@[i as int]@ == interface_name@ && forall|j: int| 0 <= j < i ==> names@[j]@ != interface_name@,
            None => forall|j: int| 0 <= j < names@.len() ==> names@[j]@ != interface_name@,
        },
{
    let q = chars_of(interface_name);
    let mut i: usize = 0;
    while i < names.len()
        invariant
            q@ == interface_name@,
            i <= names@.len(),
            forall|j: int| 0 <= j < i ==> names@[j]@ != interface_name@,
        decreases names@.len() - i,
    {
        if chars_eq(&chars_of(names[i].as_str()), &q) {
            return Some(i);
        }
        i = i + 1;
    }
    None
}

} // verus!
