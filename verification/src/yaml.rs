//! YAML documents as plain values, and the rewrite that turns a user's Clash
//! profile into the configuration the plugin runs Clash with.
//!
//! Documents are held in the library's own [`Yaml`] type rather than as `serde_yaml`
//! values: the rewrite reads and changes the entries of a profile, which a value of an
//! outside type would hide from the proofs. Parsing and printing stay with `serde_yaml`,
//! which turns its values into this type and back one for one.
//!
//! Mappings keep their entries in order, as `serde_yaml::Mapping` does. Setting a key that
//! is present replaces its value in place; setting an absent key appends it; removing a
//! key moves the last entry into its place (an index map's `swap_remove`). A parsed
//! mapping holds each key once; [`well_formed`] states that, and the rewrite keeps it.

use vstd::prelude::*;
use crate::settings::EnhancedMode;

verus! {

/// A YAML value. Numbers keep their textual form.
#[derive(Debug)]
pub enum Yaml {
    Null,
    Bool(bool),
    Number(String),
    Str(String),
    Sequence(Vec<Yaml>),
    Mapping(Vec<(Yaml, Yaml)>),
    Tagged(String, Box<Yaml>),
}

/// The mathematical form of a [`Yaml`] value.
pub enum YamlView {
    Null,
    Bool(bool),
    Number(Seq<char>),
    Str(Seq<char>),
    Sequence(Seq<YamlView>),
    Mapping(Seq<(YamlView, YamlView)>),
    Tagged(Seq<char>, Box<YamlView>),
}

/// The mathematical form of `y`.
pub open spec fn yaml_view(y: Yaml) -> YamlView
    decreases y, 1nat,
{
    match y {
        Yaml::Null => YamlView::Null,
        Yaml::Bool(b) => YamlView::Bool(b),
        Yaml::Number(n) => YamlView::Number(n@),
        Yaml::Str(s) => YamlView::Str(s@),
        Yaml::Sequence(items) => YamlView::Sequence(items_view(items@)),
        Yaml::Mapping(entries) => YamlView::Mapping(entries_view(entries@)),
        Yaml::Tagged(t, inner) => YamlView::Tagged(t@, Box::new(yaml_view(*inner))),
    }
}

/// The mathematical form of each item of a sequence.
pub open spec fn items_view(items: Seq<Yaml>) -> Seq<YamlView>
    decreases items, 0nat,
{
    if items.len() == 0 {
        Seq::empty()
    } else {
        items_view(items.drop_last()).push(yaml_view(items.last()))
    }
}

/// The mathematical form of each entry of a mapping.
pub open spec fn entries_view(entries: Seq<(Yaml, Yaml)>) -> Seq<(YamlView, YamlView)>
    decreases entries, 0nat,
{
    if entries.len() == 0 {
        Seq::empty()
    } else {
        entries_view(entries.drop_last()).push(
            (yaml_view(entries.last().0), yaml_view(entries.last().1)),
        )
    }
}

/// `items_view` works item by item.
pub proof fn lemma_items_view(items: Seq<Yaml>)
    ensures
        items_view(items).len() == items.len(),
        forall|i: int| 0 <= i < items.len() ==> #[trigger] items_view(items)[i] == yaml_view(items[i]),
    decreases items.len(),
{
    if items.len() > 0 {
        lemma_items_view(items.drop_last());
    }
}

/// `entries_view` works entry by entry.
pub proof fn lemma_entries_view(entries: Seq<(Yaml, Yaml)>)
    ensures
        entries_view(entries).len() == entries.len(),
        forall|i: int|
            0 <= i < entries.len() ==> #[trigger] entries_view(entries)[i] == (
            yaml_view(entries[i].0),
            yaml_view(entries[i].1),
        ),
    decreases entries.len(),
{
    if entries.len() > 0 {
        lemma_entries_view(entries.drop_last());
    }
}

/// A string scalar.
pub open spec fn text(s: Seq<char>) -> YamlView {
    YamlView::Str(s)
}

/// The value beneath any tags.
pub open spec fn untagged(v: YamlView) -> YamlView
    decreases v,
{
    match v {
        YamlView::Tagged(_, inner) => untagged(*inner),
        _ => v,
    }
}

/// Index of the first entry of `m` at or after `from` whose key is `key`.
pub open spec fn key_index_from(m: Seq<(YamlView, YamlView)>, key: YamlView, from: int) -> Option<int>
    decreases m.len() - from,
{
    if from < 0 || from >= m.len() {
        None
    } else if m[from].0 == key {
        Some(from)
    } else {
        key_index_from(m, key, from + 1)
    }
}

/// Index of the entry of `m` whose key is `key`.
pub open spec fn position(m: Seq<(YamlView, YamlView)>, key: YamlView) -> Option<int> {
    key_index_from(m, key, 0)
}

/// Index of the entry of `m` whose key is the string `name`.
pub open spec fn key_index(m: Seq<(YamlView, YamlView)>, name: Seq<char>) -> Option<int> {
    position(m, text(name))
}

/// The value that `m` holds under the key `key`, whatever kind of value the key is.
pub open spec fn value_under(m: Seq<(YamlView, YamlView)>, key: YamlView) -> Option<YamlView> {
    match position(m, key) {
        Some(i) => Some(m[i].1),
        None => None,
    }
}

/// The value that `m` holds under the string key `name`.
pub open spec fn lookup(m: Seq<(YamlView, YamlView)>, name: Seq<char>) -> Option<YamlView> {
    value_under(m, text(name))
}

/// `m` with `v` under `name`: replaced in place when present, appended otherwise.
pub open spec fn assign(m: Seq<(YamlView, YamlView)>, name: Seq<char>, v: YamlView) -> Seq<(YamlView, YamlView)> {
    match key_index(m, name) {
        Some(i) => m.update(i, (m[i].0, v)),
        None => m.push((text(name), v)),
    }
}

/// `m` without the entry under `name`; the last entry takes its place.
pub open spec fn discard(m: Seq<(YamlView, YamlView)>, name: Seq<char>) -> Seq<(YamlView, YamlView)> {
    match key_index(m, name) {
        Some(i) => m.update(i, m.last()).drop_last(),
        None => m,
    }
}

/// `m` with the entry under `name` removed and then `v` set under `name`.
pub open spec fn replace(m: Seq<(YamlView, YamlView)>, name: Seq<char>, v: YamlView) -> Seq<(YamlView, YamlView)> {
    assign(discard(m, name), name, v)
}

/// No two entries of `m` have equal keys.
pub open spec fn unique_keys(m: Seq<(YamlView, YamlView)>) -> bool {
    forall|i: int, j: int| 0 <= i < j < m.len() ==> m[i].0 != m[j].0
}

/// A well-formed value: no mapping in it, at any depth, holds two entries with equal keys.
/// Every value read from YAML text is well formed, since a parsed mapping keeps one entry
/// per key.
pub open spec fn well_formed(v: YamlView) -> bool
    decreases v,
{
    match v {
        YamlView::Sequence(items) => forall|i: int|
            0 <= i < items.len() ==> well_formed(#[trigger] items[i]),
        YamlView::Mapping(entries) => unique_keys(entries) && forall|i: int|
            0 <= i < entries.len() ==> well_formed(#[trigger] entries[i].0) && well_formed(
                entries[i].1,
            ),
        YamlView::Tagged(_, inner) => well_formed(*inner),
        _ => true,
    }
}

/// Every key and value of the entries `m` is well formed.
pub open spec fn entries_well_formed(m: Seq<(YamlView, YamlView)>) -> bool {
    forall|i: int| 0 <= i < m.len() ==> well_formed(#[trigger] m[i].0) && well_formed(m[i].1)
}

/// `key_index_from` finds the first matching entry at or after `from`.
pub proof fn lemma_key_index_from(m: Seq<(YamlView, YamlView)>, key: YamlView, from: int)
    requires
        0 <= from,
    ensures
        match key_index_from(m, key, from) {
            Some(i) => from <= i < m.len() && m[i].0 == key && forall|j: int|
                from <= j < i ==> m[j].0 != key,
            None => forall|j: int| from <= j < m.len() ==> m[j].0 != key,
        },
    decreases m.len() - from,
{
    if from < m.len() && m[from].0 != key {
        lemma_key_index_from(m, key, from + 1);
    }
}

/// `position` is the first entry keyed by `key`, and `None` when there is none.
pub proof fn lemma_key_index(m: Seq<(YamlView, YamlView)>, key: YamlView)
    ensures
        match position(m, key) {
            Some(i) => 0 <= i < m.len() && m[i].0 == key && forall|j: int|
                0 <= j < i ==> m[j].0 != key,
            None => forall|j: int| 0 <= j < m.len() ==> m[j].0 != key,
        },
{
    lemma_key_index_from(m, key, 0);
}

/// Any index holding `key` with no earlier entry holding it is `position`.
pub proof fn lemma_key_index_is(m: Seq<(YamlView, YamlView)>, key: YamlView, i: int)
    requires
        0 <= i < m.len(),
        m[i].0 == key,
        forall|j: int| 0 <= j < i ==> m[j].0 != key,
    ensures
        position(m, key) == Some(i),
{
    lemma_key_index(m, key);
}

/// Two entry lists that agree, index by index, on which keys are `key` have the same
/// `position` for `key`.
pub proof fn lemma_key_index_agree(m1: Seq<(YamlView, YamlView)>, m2: Seq<(YamlView, YamlView)>, key: YamlView)
    requires
        m1.len() == m2.len(),
        forall|j: int| 0 <= j < m1.len() ==> (m1[j].0 == key) == (m2[j].0 == key),
    ensures
        position(m1, key) == position(m2, key),
{
    lemma_key_index(m1, key);
    lemma_key_index(m2, key);
    match position(m1, key) {
        Some(i) => {
            lemma_key_index_is(m2, key, i);
        },
        None => {
            match position(m2, key) {
                Some(i) => {
                    lemma_key_index_is(m1, key, i);
                },
                None => {},
            }
        },
    }
}

/// Appending an entry not keyed by `key` keeps `position` for `key`; appending one keyed
/// by `key` to entries without it puts it at the end.
pub proof fn lemma_key_index_push(m: Seq<(YamlView, YamlView)>, e: (YamlView, YamlView), key: YamlView)
    ensures
        e.0 != key ==> position(m.push(e), key) == position(m, key),
        e.0 == key && position(m, key) is None ==> position(m.push(e), key) == Some(m.len() as int),
{
    let m2 = m.push(e);
    lemma_key_index(m, key);
    lemma_key_index(m2, key);
    if e.0 != key {
        match position(m, key) {
            Some(i) => {
                lemma_key_index_is(m2, key, i);
            },
            None => {
                match position(m2, key) {
                    Some(i) => {
                        lemma_key_index_is(m, key, i);
                    },
                    None => {},
                }
            },
        }
    } else if position(m, key) is None {
        lemma_key_index_is(m2, key, m.len() as int);
    }
}

/// Setting `k` leaves it holding `v` and leaves every other key, of any kind, where it
/// was, with the value it had.
pub proof fn lemma_assign(m: Seq<(YamlView, YamlView)>, k: Seq<char>, v: YamlView, n: YamlView)
    ensures
        lookup(assign(m, k, v), k) == Some(v),
        n != text(k) ==> position(assign(m, k, v), n) == position(m, n),
        n != text(k) ==> value_under(assign(m, k, v), n) == value_under(m, n),
{
    lemma_key_index(m, text(k));
    lemma_key_index(m, n);
    let m2 = assign(m, k, v);
    match key_index(m, k) {
        Some(i) => {
            lemma_key_index_agree(m, m2, text(k));
            lemma_key_index_agree(m, m2, n);
        },
        None => {
            lemma_key_index_push(m, (text(k), v), text(k));
            lemma_key_index_push(m, (text(k), v), n);
        },
    }
    lemma_key_index(m2, n);
}

/// Removing `k` from entries with distinct keys leaves no entry under `k` and every other
/// key, of any kind, with the value it had; the keys stay distinct.
pub proof fn lemma_discard(m: Seq<(YamlView, YamlView)>, k: Seq<char>, n: YamlView)
    requires
        unique_keys(m),
    ensures
        unique_keys(discard(m, k)),
        lookup(discard(m, k), k) is None,
        n != text(k) ==> value_under(discard(m, k), n) == value_under(m, n),
{
    lemma_key_index(m, text(k));
    lemma_key_index(m, n);
    let m2 = discard(m, k);
    lemma_key_index(m2, text(k));
    lemma_key_index(m2, n);
    match key_index(m, k) {
        Some(i) => {
            let last = m.len() - 1;
            assert forall|a: int, b: int| 0 <= a < b < m2.len() implies m2[a].0 != m2[b].0 by {
                if a == i {
                    assert(m2[a] == m[last]);
                } else if b == i {
                    assert(m2[b] == m[last]);
                }
            }
            if n != text(k) {
                match position(m, n) {
                    Some(j) => {
                        if j == last {
                            lemma_key_index_is(m2, n, i);
                        } else {
                            lemma_key_index_is(m2, n, j);
                        }
                    },
                    None => {},
                }
            }
        },
        None => {},
    }
}

/// Setting a key keeps the keys distinct.
pub proof fn lemma_assign_unique(m: Seq<(YamlView, YamlView)>, k: Seq<char>, v: YamlView)
    requires
        unique_keys(m),
    ensures
        unique_keys(assign(m, k, v)),
{
    lemma_key_index(m, text(k));
}

/// Replacing `k` in entries with distinct keys leaves `v` under `k`, every other key, of
/// any kind, with the value it had, and the keys distinct.
pub proof fn lemma_replace(m: Seq<(YamlView, YamlView)>, k: Seq<char>, v: YamlView, n: YamlView)
    requires
        unique_keys(m),
    ensures
        unique_keys(replace(m, k, v)),
        lookup(replace(m, k, v), k) == Some(v),
        n != text(k) ==> value_under(replace(m, k, v), n) == value_under(m, n),
{
    lemma_discard(m, k, n);
    lemma_assign(discard(m, k), k, v, n);
    lemma_assign_unique(discard(m, k), k, v);
}

/// A string scalar holding `s`.
pub fn yaml_text(s: &str) -> (r: Yaml)
    ensures
        yaml_view(r) == text(s@),
{
    Yaml::Str(String::from_str(s))
}

/// Appends `item` to a sequence.
pub fn push_item(items: &mut Vec<Yaml>, item: Yaml)
    ensures
        items_view(final(items)@) == items_view(old(items)@).push(yaml_view(item)),
{
    let ghost before = items@;
    items.push(item);
    assert(items@.drop_last() =~= before);
}

/// Appends the entry `name: value` to a mapping.
pub fn push_entry(entries: &mut Vec<(Yaml, Yaml)>, name: &str, value: Yaml)
    ensures
        entries_view(final(entries)@) == entries_view(old(entries)@).push((text(name@), yaml_view(value))),
{
    let ghost before = entries@;
    entries.push((yaml_text(name), value));
    assert(entries@.drop_last() =~= before);
}

/// Index of the entry keyed by the string `name`.
pub fn key_position(entries: &Vec<(Yaml, Yaml)>, name: &str) -> (r: Option<usize>)
    ensures
        match r {
            Some(i) => key_index(entries_view(entries@), name@) == Some(i as int),
            None => key_index(entries_view(entries@), name@) is None,
        },
{
    let key = String::from_str(name);
    let ghost m = entries_view(entries@);
    proof {
        lemma_entries_view(entries@);
    }
    let mut i: usize = 0;
    while i < entries.len()
        invariant
            i <= entries@.len(),
            m == entries_view(entries@),
            m.len() == entries@.len(),
            key@ == name@,
            forall|k: int|
                0 <= k < entries@.len() ==> #[trigger] m[k] == (
                yaml_view(entries@[k].0),
                yaml_view(entries@[k].1),
            ),
            key_index(m, name@) == key_index_from(m, text(name@), i as int),
        decreases entries@.len() - i,
    {
        let found = match &entries[i].0 {
            Yaml::Str(s) => *s == key,
            _ => false,
        };
        assert(found == (m[i as int].0 == text(name@)));
        if found {
            return Some(i);
        }
        i = i + 1;
    }
    None
}

/// Sets `value` under the string key `name`: in place when present, appended otherwise.
pub fn assign_entry(entries: &mut Vec<(Yaml, Yaml)>, name: &str, value: Yaml)
    ensures
        entries_view(final(entries)@) == assign(entries_view(old(entries)@), name@, yaml_view(value)),
{
    let ghost before = entries@;
    proof {
        lemma_entries_view(before);
        lemma_key_index(entries_view(before), text(name@));
    }
    match key_position(entries, name) {
        Some(i) => {
            let mut slot = (Yaml::Null, Yaml::Null);
            entries.set_and_swap(i, &mut slot);
            let (key, _previous) = slot;
            entries.set(i, (key, value));
            proof {
                lemma_entries_view(entries@);
                assert(entries_view(entries@) =~= assign(entries_view(before), name@, yaml_view(value)));
            }
        },
        None => {
            push_entry(entries, name, value);
        },
    }
}

/// Removes the entry under the string key `name`, moving the last entry into its place.
pub fn discard_entry(entries: &mut Vec<(Yaml, Yaml)>, name: &str)
    ensures
        entries_view(final(entries)@) == discard(entries_view(old(entries)@), name@),
{
    let ghost before = entries@;
    proof {
        lemma_entries_view(before);
        lemma_key_index(entries_view(before), text(name@));
    }
    match key_position(entries, name) {
        Some(i) => {
            let _removed = entries.swap_remove(i);
            proof {
                lemma_entries_view(entries@);
                assert(entries_view(entries@) =~= discard(entries_view(before), name@));
            }
        },
        None => {},
    }
}

/// Removes the entry under `name`, then sets `value` under it.
pub fn replace_entry(entries: &mut Vec<(Yaml, Yaml)>, name: &str, value: Yaml)
    ensures
        entries_view(final(entries)@) == replace(entries_view(old(entries)@), name@, yaml_view(value)),
{
    discard_entry(entries, name);
    assign_entry(entries, name, value);
}


/// A sequence of string scalars.
pub open spec fn texts(items: Seq<Seq<char>>) -> YamlView {
    YamlView::Sequence(items.map_values(|t: Seq<char>| text(t)))
}

/// A sequence of string scalars built from `items`.
pub fn yaml_texts(items: &[&str]) -> (r: Yaml)
    ensures
        yaml_view(r) == texts(items@.map_values(|t: &str| t@)),
{
    let mut out: Vec<Yaml> = Vec::new();
    let mut i: usize = 0;
    while i < items.len()
        invariant
            i <= items@.len(),
            items_view(out@) == items@.subrange(0, i as int).map_values(|t: &str| t@).map_values(
                |t: Seq<char>| text(t),
            ),
        decreases items@.len() - i,
    {
        push_item(&mut out, yaml_text(items[i]));
        assert(items@.subrange(0, i + 1).map_values(|t: &str| t@).map_values(|t: Seq<char>| text(t))
            =~= items@.subrange(0, i as int).map_values(|t: &str| t@).map_values(
            |t: Seq<char>| text(t),
        ).push(text(items@[i as int]@)));
        i = i + 1;
    }
    assert(items@.subrange(0, i as int) =~= items@);
    Yaml::Sequence(out)
}

/// The TUN settings Clash is run with.
pub open spec fn tun_entries() -> Seq<(YamlView, YamlView)> {
    seq![
        (text("enable"@), YamlView::Bool(true)),
        (text("stack"@), text("system"@)),
        (text("auto-route"@), YamlView::Bool(true)),
        (text("auto-detect-interface"@), YamlView::Bool(true)),
        (text("dns-hijack"@), texts(seq!["any:53"@])),
    ]
}

/// The same entries as a mapping.
pub open spec fn tun_fragment() -> YamlView {
    YamlView::Mapping(tun_entries())
}

/// The TUN settings Clash is run with.
pub fn tun_config() -> (r: Yaml)
    ensures
        yaml_view(r) == tun_fragment(),
{
    let mut m: Vec<(Yaml, Yaml)> = Vec::new();
    push_entry(&mut m, "enable", Yaml::Bool(true));
    push_entry(&mut m, "stack", yaml_text("system"));
    push_entry(&mut m, "auto-route", Yaml::Bool(true));
    push_entry(&mut m, "auto-detect-interface", Yaml::Bool(true));
    let mut hijack: Vec<Yaml> = Vec::new();
    push_item(&mut hijack, yaml_text("any:53"));
    assert(items_view(hijack@) =~= seq!["any:53"@].map_values(|t: Seq<char>| text(t)));
    push_entry(&mut m, "dns-hijack", Yaml::Sequence(hijack));
    assert(entries_view(m@) =~= tun_entries());
    Yaml::Mapping(m)
}

/// The upstream resolvers used to reach the configured name servers.
pub open spec fn default_nameservers() -> Seq<Seq<char>> {
    seq!["223.5.5.5"@, "8.8.4.4"@]
}

/// The name servers asked first.
pub open spec fn nameservers() -> Seq<Seq<char>> {
    seq!["119.29.29.29"@, "223.5.5.5"@, "tls://223.5.5.5:853"@, "tls://223.6.6.6:853"@]
}

/// The name servers asked when the first answers look polluted.
pub open spec fn fallback_nameservers() -> Seq<Seq<char>> {
    seq!["https://1.0.0.1/dns-query"@, "https://public.dns.iij.jp/dns-query"@, "tls://8.8.4.4:853"@]
}

/// When to distrust the first answers.
pub open spec fn fallback_filter_entries() -> Seq<(YamlView, YamlView)> {
    seq![
        (text("geoip"@), YamlView::Bool(false)),
        (text("ipcidr"@), texts(seq!["240.0.0.0/4"@, "0.0.0.0/32"@, "127.0.0.1/32"@])),
    ]
}

/// The same entries as a mapping.
pub open spec fn fallback_filter() -> YamlView {
    YamlView::Mapping(fallback_filter_entries())
}

/// Names that fake-ip mode resolves for real.
pub open spec fn fake_ip_filter() -> Seq<Seq<char>> {
    seq![
        "*.lan"@,
        "*.localdomain"@,
        "*.localhost"@,
        "*.local"@,
        "*.home.arpa"@,
        "stun.*.*"@,
        "stun.*.*.*"@,
        "+.stun.*.*"@,
        "+.stun.*.*.*"@,
        "+.stun.*.*.*.*"@,
    ]
}

/// The DNS settings for fake-ip mode.
pub open spec fn fake_ip_dns_entries() -> Seq<(YamlView, YamlView)> {
    seq![
        (text("enable"@), YamlView::Bool(true)),
        (text("listen"@), text("127.0.0.1:8853"@)),
        (text("default-nameserver"@), texts(default_nameservers())),
        (text("ipv6"@), YamlView::Bool(false)),
        (text("enhanced-mode"@), text("fake-ip"@)),
        (text("nameserver"@), texts(nameservers())),
        (text("fallback"@), texts(fallback_nameservers())),
        (text("fallback-filter"@), fallback_filter()),
        (text("fake-ip-filter"@), texts(fake_ip_filter())),
    ]
}

/// The same entries as a mapping.
pub open spec fn fake_ip_dns_fragment() -> YamlView {
    YamlView::Mapping(fake_ip_dns_entries())
}

/// The DNS settings for redir-host mode.
pub open spec fn redir_host_dns_entries() -> Seq<(YamlView, YamlView)> {
    seq![
        (text("enable"@), YamlView::Bool(true)),
        (text("ipv6"@), YamlView::Bool(false)),
        (text("listen"@), text("127.0.0.1:8853"@)),
        (text("default-nameserver"@), texts(default_nameservers())),
        (text("enhanced-mode"@), text("redir-host"@)),
        (text("nameserver"@), texts(nameservers())),
        (text("fallback"@), texts(fallback_nameservers())),
        (text("fallback-filter"@), fallback_filter()),
    ]
}

/// The same entries as a mapping.
pub open spec fn redir_host_dns_fragment() -> YamlView {
    YamlView::Mapping(redir_host_dns_entries())
}

/// The DNS settings for `mode`.
pub open spec fn dns_fragment(mode: EnhancedMode) -> YamlView {
    match mode {
        EnhancedMode::FakeIp => fake_ip_dns_fragment(),
        EnhancedMode::RedirHost => redir_host_dns_fragment(),
    }
}

/// The profile-store settings Clash is run with.
pub open spec fn profile_entries() -> Seq<(YamlView, YamlView)> {
    seq![
        (text("store-selected"@), YamlView::Bool(true)),
        (text("store-fake-ip"@), YamlView::Bool(false)),
    ]
}

/// The same entries as a mapping.
pub open spec fn profile_fragment() -> YamlView {
    YamlView::Mapping(profile_entries())
}

fn default_nameservers_value() -> (r: Yaml)
    ensures
        yaml_view(r) == texts(default_nameservers()),
{
    let r = yaml_texts(&["223.5.5.5", "8.8.4.4"]);
    assert(seq!["223.5.5.5", "8.8.4.4"].map_values(|t: &str| t@) =~= default_nameservers());
    r
}

fn nameservers_value() -> (r: Yaml)
    ensures
        yaml_view(r) == texts(nameservers()),
{
    let r = yaml_texts(&["119.29.29.29", "223.5.5.5", "tls://223.5.5.5:853", "tls://223.6.6.6:853"]);
    assert(seq!["119.29.29.29", "223.5.5.5", "tls://223.5.5.5:853", "tls://223.6.6.6:853"].map_values(
        |t: &str| t@,
    ) =~= nameservers());
    r
}

fn fallback_nameservers_value() -> (r: Yaml)
    ensures
        yaml_view(r) == texts(fallback_nameservers()),
{
    let r = yaml_texts(
        &["https://1.0.0.1/dns-query", "https://public.dns.iij.jp/dns-query", "tls://8.8.4.4:853"],
    );
    assert(seq!["https://1.0.0.1/dns-query", "https://public.dns.iij.jp/dns-query", "tls://8.8.4.4:853"].map_values(
        |t: &str| t@,
    ) =~= fallback_nameservers());
    r
}

fn fallback_filter_value() -> (r: Yaml)
    ensures
        yaml_view(r) == fallback_filter(),
{
    let mut m: Vec<(Yaml, Yaml)> = Vec::new();
    push_entry(&mut m, "geoip", Yaml::Bool(false));
    let cidrs = yaml_texts(&["240.0.0.0/4", "0.0.0.0/32", "127.0.0.1/32"]);
    assert(seq!["240.0.0.0/4", "0.0.0.0/32", "127.0.0.1/32"].map_values(|t: &str| t@) =~= seq![
        "240.0.0.0/4"@,
        "0.0.0.0/32"@,
        "127.0.0.1/32"@,
    ]);
    push_entry(&mut m, "ipcidr", cidrs);
    assert(entries_view(m@) =~= fallback_filter_entries());
    Yaml::Mapping(m)
}

fn fake_ip_filter_value() -> (r: Yaml)
    ensures
        yaml_view(r) == texts(fake_ip_filter()),
{
    let r = yaml_texts(
        &[
            "*.lan",
            "*.localdomain",
            "*.localhost",
            "*.local",
            "*.home.arpa",
            "stun.*.*",
            "stun.*.*.*",
            "+.stun.*.*",
            "+.stun.*.*.*",
            "+.stun.*.*.*.*",
        ],
    );
    assert(seq![
        "*.lan",
        "*.localdomain",
        "*.localhost",
        "*.local",
        "*.home.arpa",
        "stun.*.*",
        "stun.*.*.*",
        "+.stun.*.*",
        "+.stun.*.*.*",
        "+.stun.*.*.*.*",
    ].map_values(|t: &str| t@) =~= fake_ip_filter());
    r
}

/// The DNS settings for `mode`.
pub fn dns_config(mode: EnhancedMode) -> (r: Yaml)
    ensures
        yaml_view(r) == dns_fragment(mode),
{
    let mut m: Vec<(Yaml, Yaml)> = Vec::new();
    match mode {
        EnhancedMode::FakeIp => {
            push_entry(&mut m, "enable", Yaml::Bool(true));
            push_entry(&mut m, "listen", yaml_text("127.0.0.1:8853"));
            push_entry(&mut m, "default-nameserver", default_nameservers_value());
            push_entry(&mut m, "ipv6", Yaml::Bool(false));
            push_entry(&mut m, "enhanced-mode", yaml_text("fake-ip"));
            push_entry(&mut m, "nameserver", nameservers_value());
            push_entry(&mut m, "fallback", fallback_nameservers_value());
            push_entry(&mut m, "fallback-filter", fallback_filter_value());
            push_entry(&mut m, "fake-ip-filter", fake_ip_filter_value());
            assert(entries_view(m@) =~= fake_ip_dns_entries());
        },
        EnhancedMode::RedirHost => {
            push_entry(&mut m, "enable", Yaml::Bool(true));
            push_entry(&mut m, "ipv6", Yaml::Bool(false));
            push_entry(&mut m, "listen", yaml_text("127.0.0.1:8853"));
            push_entry(&mut m, "default-nameserver", default_nameservers_value());
            push_entry(&mut m, "enhanced-mode", yaml_text("redir-host"));
            push_entry(&mut m, "nameserver", nameservers_value());
            push_entry(&mut m, "fallback", fallback_nameservers_value());
            push_entry(&mut m, "fallback-filter", fallback_filter_value());
            assert(entries_view(m@) =~= redir_host_dns_entries());
        },
    }
    Yaml::Mapping(m)
}

/// The profile-store settings Clash is run with.
pub fn profile_config() -> (r: Yaml)
    ensures
        yaml_view(r) == profile_fragment(),
{
    let mut m: Vec<(Yaml, Yaml)> = Vec::new();
    push_entry(&mut m, "store-selected", Yaml::Bool(true));
    push_entry(&mut m, "store-fake-ip", Yaml::Bool(false));
    assert(entries_view(m@) =~= profile_entries());
    Yaml::Mapping(m)
}


/// Rules that send Steam's connectivity check, and when `skip_proxy` is set Steam's
/// content servers too, around the proxy; they go in front of a profile's rules.
pub open spec fn steam_direct_rules(skip_proxy: bool) -> Seq<YamlView> {
    if skip_proxy {
        seq![
            text("DOMAIN-SUFFIX,steamserver.net,DIRECT"@),
            text("DOMAIN-SUFFIX,cm.steampowered.com,DIRECT"@),
            text("DOMAIN,test.steampowered.com,DIRECT"@),
        ]
    } else {
        seq![text("DOMAIN,test.steampowered.com,DIRECT"@)]
    }
}

/// `v` with `extra` put in front of the sequence beneath its tags.
pub open spec fn with_rules_prepended(v: YamlView, extra: Seq<YamlView>) -> YamlView
    decreases v,
{
    match v {
        YamlView::Tagged(t, inner) => YamlView::Tagged(t, Box::new(with_rules_prepended(*inner, extra))),
        YamlView::Sequence(items) => YamlView::Sequence(extra + items),
        _ => v,
    }
}

/// Puts the Steam rules in front of the rule sequence `rules` (beneath any tags).
pub fn prepend_rules(rules: Yaml, skip_proxy: bool) -> (r: Yaml)
    requires
        untagged(yaml_view(rules)) is Sequence,
    ensures
        yaml_view(r) == with_rules_prepended(yaml_view(rules), steam_direct_rules(skip_proxy)),
    decreases rules,
{
    match rules {
        Yaml::Tagged(t, inner) => Yaml::Tagged(t, Box::new(prepend_rules(*inner, skip_proxy))),
        Yaml::Sequence(mut items) => {
            let ghost before = items@;
            proof {
                lemma_items_view(before);
            }
            items.insert(0, yaml_text("DOMAIN,test.steampowered.com,DIRECT"));
            if skip_proxy {
                items.insert(0, yaml_text("DOMAIN-SUFFIX,cm.steampowered.com,DIRECT"));
                items.insert(0, yaml_text("DOMAIN-SUFFIX,steamserver.net,DIRECT"));
            }
            proof {
                lemma_items_view(items@);
                assert(items_view(items@) =~= steam_direct_rules(skip_proxy) + items_view(before));
            }
            Yaml::Sequence(items)
        },
        _ => {
            proof {
                assert(false);
            }
            rules
        },
    }
}

/// The entries of the mapping beneath the tags of `doc`.
pub open spec fn document_entries(doc: YamlView) -> Seq<(YamlView, YamlView)> {
    match untagged(doc) {
        YamlView::Mapping(m) => m,
        _ => Seq::empty(),
    }
}

/// `doc` is, beneath its tags, a mapping.
pub open spec fn is_mapping_document(doc: YamlView) -> bool {
    untagged(doc) is Mapping
}

/// The entries of the mapping beneath the tags of `doc`.
pub fn into_entries(doc: Yaml) -> (r: Vec<(Yaml, Yaml)>)
    requires
        is_mapping_document(yaml_view(doc)),
    ensures
        entries_view(r@) == document_entries(yaml_view(doc)),
    decreases doc,
{
    match doc {
        Yaml::Tagged(_, inner) => into_entries(*inner),
        Yaml::Mapping(entries) => entries,
        _ => {
            proof {
                assert(false);
            }
            Vec::new()
        },
    }
}

/// A document Clash can be run with: a mapping whose `rules` entry, when there is one,
/// is a sequence beneath its tags.
pub open spec fn is_rewritable(doc: YamlView) -> bool {
    &&& is_mapping_document(doc)
    &&& match lookup(document_entries(doc), "rules"@) {
        Some(rules) => untagged(rules) is Sequence,
        None => true,
    }
}

/// The address the Clash controller listens on.
pub open spec fn controller_address() -> Seq<char> {
    "127.0.0.1:9090"@
}

/// The entries `m` with the Steam rules in front of its `rules` entry, if it has one.
pub open spec fn with_steam_rules(m: Seq<(YamlView, YamlView)>, skip_proxy: bool) -> Seq<(YamlView, YamlView)> {
    match key_index(m, "rules"@) {
        Some(i) => m.update(i, (m[i].0, with_rules_prepended(m[i].1, steam_direct_rules(skip_proxy)))),
        None => m,
    }
}

/// The DNS entry of a run configuration: a profile without DNS settings gets the
/// redir-host ones; a profile with DNS settings keeps them unless `override_dns`, in which
/// case they are replaced by those of `mode`.
pub open spec fn with_dns(m: Seq<(YamlView, YamlView)>, override_dns: bool, mode: EnhancedMode) -> Seq<(YamlView, YamlView)> {
    if key_index(m, "dns"@) is Some {
        if override_dns {
            replace(m, "dns"@, dns_fragment(mode))
        } else {
            m
        }
    } else {
        assign(m, "dns"@, redir_host_dns_fragment())
    }
}

/// The entries of the configuration Clash is run with, made from the profile entries `m`:
/// the controller address and the web UI directory are set, the Steam rules go in front of
/// the profile's rules, and the TUN, DNS and profile-store settings are put in.
pub open spec fn rewritten_config(
    m: Seq<(YamlView, YamlView)>,
    skip_proxy: bool,
    override_dns: bool,
    mode: EnhancedMode,
    webui_dir: Seq<char>,
) -> Seq<(YamlView, YamlView)> {
    let m1 = assign(m, "external-controller"@, text(controller_address()));
    let m2 = with_steam_rules(m1, skip_proxy);
    let m3 = assign(m2, "external-ui"@, text(webui_dir));
    let m4 = replace(m3, "tun"@, tun_fragment());
    let m5 = with_dns(m4, override_dns, mode);
    replace(m5, "profile"@, profile_fragment())
}

/// The configuration Clash is run with, made from the profile `doc` (see
/// [`rewritten_config`]); the result is a mapping without tags, and well formed when the
/// profile is.
pub fn change_config_document(
    doc: Yaml,
    skip_proxy: bool,
    override_dns: bool,
    enhanced_mode: EnhancedMode,
    webui_dir: &str,
) -> (r: Yaml)
    requires
        is_rewritable(yaml_view(doc)),
    ensures
        yaml_view(r) == YamlView::Mapping(
            rewritten_config(
                document_entries(yaml_view(doc)),
                skip_proxy,
                override_dns,
                enhanced_mode,
                webui_dir@,
            ),
        ),
        well_formed(yaml_view(doc)) ==> well_formed(yaml_view(r)),
{
    let ghost m0 = document_entries(yaml_view(doc));
    proof {
        if well_formed(yaml_view(doc)) {
            lemma_rewritten_config_well_formed(yaml_view(doc), skip_proxy, override_dns, enhanced_mode, webui_dir@);
        }
    }
    let mut yaml = into_entries(doc);
    assign_entry(&mut yaml, "external-controller", yaml_text("127.0.0.1:9090"));
    let ghost m1 = entries_view(yaml@);
    proof {
        assert("rules"@ != "external-controller"@) by {
            reveal_strlit("rules");
            reveal_strlit("external-controller");
            assert("rules"@.len() != "external-controller"@.len());
        }
        lemma_assign(m0, "external-controller"@, text(controller_address()), text("rules"@));
        lemma_entries_view(yaml@);
        lemma_key_index(m1, text("rules"@));
    }
    match key_position(&yaml, "rules") {
        Some(i) => {
            let mut slot = (Yaml::Null, Yaml::Null);
            yaml.set_and_swap(i, &mut slot);
            let (key, rules) = slot;
            let rules = prepend_rules(rules, skip_proxy);
            yaml.set(i, (key, rules));
            proof {
                lemma_entries_view(yaml@);
                assert(entries_view(yaml@) =~= with_steam_rules(m1, skip_proxy));
            }
        },
        None => {},
    }
    assign_entry(&mut yaml, "external-ui", yaml_text(webui_dir));
    replace_entry(&mut yaml, "tun", tun_config());
    match key_position(&yaml, "dns") {
        Some(_) => {
            if override_dns {
                replace_entry(&mut yaml, "dns", dns_config(enhanced_mode));
            }
        },
        None => {
            assign_entry(&mut yaml, "dns", dns_config(EnhancedMode::RedirHost));
        },
    }
    replace_entry(&mut yaml, "profile", profile_config());
    Yaml::Mapping(yaml)
}

/// A document is a usable profile exactly when, beneath its tags, it is a mapping and some
/// entry of it, wherever it stands, has the string key `rules`.
pub proof fn lemma_profile_has_rules_entry(doc: YamlView)
    ensures
        is_profile_document(doc) <==> (is_mapping_document(doc) && exists|i: int|
            0 <= i < document_entries(doc).len() && #[trigger] document_entries(doc)[i].0
                == text("rules"@)),
{
    let m = document_entries(doc);
    lemma_key_index(m, text("rules"@));
    if let Some(i) = position(m, text("rules"@)) {
        assert(m[i].0 == text("rules"@));
    }
}

/// A document is a usable Clash profile when it is a mapping with a `rules` entry.
pub open spec fn is_profile_document(doc: YamlView) -> bool {
    is_mapping_document(doc) && key_index(document_entries(doc), "rules"@) is Some
}

/// Whether `doc` is a mapping (beneath its tags) with a `rules` entry.
pub fn is_profile(doc: &Yaml) -> (r: bool)
    ensures
        r == is_profile_document(yaml_view(*doc)),
        r == (is_mapping_document(yaml_view(*doc)) && exists|i: int|
            0 <= i < document_entries(yaml_view(*doc)).len()
                && #[trigger] document_entries(yaml_view(*doc))[i].0 == text("rules"@)),
    decreases doc,
{
    proof {
        lemma_profile_has_rules_entry(yaml_view(*doc));
    }
    match doc {
        Yaml::Tagged(_, inner) => is_profile(inner),
        Yaml::Mapping(entries) => key_position(entries, "rules").is_some(),
        _ => false,
    }
}


/// The keys that the rewrite manages are six different strings.
pub proof fn lemma_managed_keys_distinct()
    ensures
        "external-controller"@ != "rules"@,
        "external-controller"@ != "external-ui"@,
        "external-controller"@ != "tun"@,
        "external-controller"@ != "dns"@,
        "external-controller"@ != "profile"@,
        "rules"@ != "external-ui"@,
        "rules"@ != "tun"@,
        "rules"@ != "dns"@,
        "rules"@ != "profile"@,
        "external-ui"@ != "tun"@,
        "external-ui"@ != "dns"@,
        "external-ui"@ != "profile"@,
        "tun"@ != "dns"@,
        "tun"@ != "profile"@,
        "dns"@ != "profile"@,
{
    reveal_strlit("external-controller");
    reveal_strlit("rules");
    reveal_strlit("external-ui");
    reveal_strlit("tun");
    reveal_strlit("dns");
    reveal_strlit("profile");
    assert("external-controller"@.len() == 19);
    assert("rules"@.len() == 5);
    assert("external-ui"@.len() == 11);
    assert("profile"@.len() == 7);
    assert("tun"@[0] != "dns"@[0]);
}

/// Putting the Steam rules in front of the `rules` entry changes no key, and no value but
/// that of `rules`.
pub proof fn lemma_with_steam_rules(m: Seq<(YamlView, YamlView)>, skip_proxy: bool, n: YamlView)
    requires
        unique_keys(m),
    ensures
        unique_keys(with_steam_rules(m, skip_proxy)),
        lookup(with_steam_rules(m, skip_proxy), "rules"@) == (match lookup(m, "rules"@) {
            Some(r) => Some(with_rules_prepended(r, steam_direct_rules(skip_proxy))),
            None => None,
        }),
        n != text("rules"@) ==> value_under(with_steam_rules(m, skip_proxy), n) == value_under(m, n),
{
    let m2 = with_steam_rules(m, skip_proxy);
    lemma_key_index(m, text("rules"@));
    lemma_key_index(m, n);
    lemma_key_index_agree(m, m2, text("rules"@));
    lemma_key_index_agree(m, m2, n);
}

/// A well-formed document's entries have distinct keys and are well formed themselves.
pub proof fn lemma_document_well_formed(doc: YamlView)
    requires
        well_formed(doc),
    ensures
        unique_keys(document_entries(doc)),
        entries_well_formed(document_entries(doc)),
    decreases doc,
{
    match doc {
        YamlView::Tagged(_, inner) => lemma_document_well_formed(*inner),
        _ => {},
    }
}

/// Setting a well-formed value keeps the entries well formed.
pub proof fn lemma_assign_well_formed(m: Seq<(YamlView, YamlView)>, k: Seq<char>, v: YamlView)
    requires
        entries_well_formed(m),
        well_formed(v),
    ensures
        entries_well_formed(assign(m, k, v)),
{
    lemma_key_index(m, text(k));
    let m2 = assign(m, k, v);
    assert forall|i: int| 0 <= i < m2.len() implies well_formed(#[trigger] m2[i].0) && well_formed(
        m2[i].1,
    ) by {
        match key_index(m, k) {
            Some(j) => {
                assert(well_formed(m[i].0));
                if i == j {
                    assert(m2[i] == (m[j].0, v));
                } else {
                    assert(m2[i] == m[i]);
                }
            },
            None => {
                if i < m.len() {
                    assert(well_formed(m[i].0));
                    assert(m2[i] == m[i]);
                } else {
                    assert(m2[i] == (text(k), v));
                }
            },
        }
    }
}

/// Removing an entry keeps the entries well formed.
pub proof fn lemma_discard_well_formed(m: Seq<(YamlView, YamlView)>, k: Seq<char>)
    requires
        entries_well_formed(m),
    ensures
        entries_well_formed(discard(m, k)),
{
    lemma_key_index(m, text(k));
    let m2 = discard(m, k);
    assert forall|i: int| 0 <= i < m2.len() implies well_formed(#[trigger] m2[i].0) && well_formed(
        m2[i].1,
    ) by {
        match key_index(m, k) {
            Some(j) => {
                if i == j {
                    assert(m2[i] == m[m.len() - 1]);
                    assert(well_formed(m[m.len() - 1].0));
                } else {
                    assert(m2[i] == m[i]);
                    assert(well_formed(m[i].0));
                }
            },
            None => {
                assert(well_formed(m[i].0));
            },
        }
    }
}

/// Putting well-formed items in front of a well-formed sequence keeps it well formed.
pub proof fn lemma_prepend_well_formed(v: YamlView, extra: Seq<YamlView>)
    requires
        well_formed(v),
        forall|i: int| 0 <= i < extra.len() ==> well_formed(#[trigger] extra[i]),
    ensures
        well_formed(with_rules_prepended(v, extra)),
    decreases v,
{
    match v {
        YamlView::Tagged(t, inner) => lemma_prepend_well_formed(*inner, extra),
        YamlView::Sequence(items) => {
            let all = extra + items;
            assert forall|i: int| 0 <= i < all.len() implies well_formed(#[trigger] all[i]) by {
                if i < extra.len() {
                    assert(all[i] == extra[i]);
                } else {
                    assert(all[i] == items[i - extra.len()]);
                }
            }
        },
        _ => {},
    }
}

/// A sequence of strings is well formed.
pub proof fn lemma_texts_well_formed(items: Seq<Seq<char>>)
    ensures
        well_formed(texts(items)),
{
    let s = items.map_values(|t: Seq<char>| text(t));
    assert forall|i: int| 0 <= i < s.len() implies well_formed(#[trigger] s[i]) by {
        assert(s[i] == text(items[i]));
    }
}

/// Entries with distinct, well-formed keys and values make a well-formed mapping.
pub proof fn lemma_mapping_well_formed(m: Seq<(YamlView, YamlView)>)
    requires
        unique_keys(m),
        entries_well_formed(m),
    ensures
        well_formed(YamlView::Mapping(m)),
{
}

/// The settings the rewrite puts in are well formed.
pub proof fn lemma_fragments_well_formed(mode: EnhancedMode)
    ensures
        well_formed(tun_fragment()),
        well_formed(dns_fragment(mode)),
        well_formed(redir_host_dns_fragment()),
        well_formed(profile_fragment()),
{
    reveal_strlit("enable");
    reveal_strlit("stack");
    reveal_strlit("auto-route");
    reveal_strlit("auto-detect-interface");
    reveal_strlit("dns-hijack");
    reveal_strlit("listen");
    reveal_strlit("default-nameserver");
    reveal_strlit("ipv6");
    reveal_strlit("enhanced-mode");
    reveal_strlit("nameserver");
    reveal_strlit("fallback");
    reveal_strlit("fallback-filter");
    reveal_strlit("fake-ip-filter");
    reveal_strlit("geoip");
    reveal_strlit("ipcidr");
    reveal_strlit("store-selected");
    reveal_strlit("store-fake-ip");
    lemma_texts_well_formed(seq!["any:53"@]);
    lemma_texts_well_formed(default_nameservers());
    lemma_texts_well_formed(nameservers());
    lemma_texts_well_formed(fallback_nameservers());
    lemma_texts_well_formed(fake_ip_filter());
    lemma_texts_well_formed(seq!["240.0.0.0/4"@, "0.0.0.0/32"@, "127.0.0.1/32"@]);
    let f = fallback_filter_entries();
    assert("geoip"@ != "ipcidr"@) by {
        assert("geoip"@.len() != "ipcidr"@.len());
    }
    assert forall|i: int| 0 <= i < f.len() implies well_formed(#[trigger] f[i].0) && well_formed(f[i].1) by {
        if i == 0 {
        } else {
        }
    }
    lemma_mapping_well_formed(f);
    assert("enable"@.len() == 6);
    assert("stack"@.len() == 5);
    assert("auto-route"@.len() == 10);
    assert("auto-detect-interface"@.len() == 21);
    assert("dns-hijack"@.len() == 10);
    assert("listen"@.len() == 6);
    assert("default-nameserver"@.len() == 18);
    assert("ipv6"@.len() == 4);
    assert("enhanced-mode"@.len() == 13);
    assert("nameserver"@.len() == 10);
    assert("fallback"@.len() == 8);
    assert("fallback-filter"@.len() == 15);
    assert("fake-ip-filter"@.len() == 14);
    assert("store-selected"@.len() == 14);
    assert("store-fake-ip"@.len() == 13);
    assert("enable"@[0] != "listen"@[0]);
    assert("auto-route"@[0] != "dns-hijack"@[0]);
    let t = tun_entries();
    assert forall|i: int, j: int| 0 <= i < j < t.len() implies t[i].0 != t[j].0 by {
        if i == 0 {
            if j == 0 {
            } else if j == 1 {
            } else if j == 2 {
            } else if j == 3 {
            } else {
            }
        } else if i == 1 {
            if j == 0 {
            } else if j == 1 {
            } else if j == 2 {
            } else if j == 3 {
            } else {
            }
        } else if i == 2 {
            if j == 0 {
            } else if j == 1 {
            } else if j == 2 {
            } else if j == 3 {
            } else {
            }
        } else if i == 3 {
            if j == 0 {
            } else if j == 1 {
            } else if j == 2 {
            } else if j == 3 {
            } else {
            }
        } else {
        }
    }
    assert forall|i: int| 0 <= i < t.len() implies well_formed(#[trigger] t[i].0) && well_formed(t[i].1) by {
        if i == 0 {
        } else if i == 1 {
        } else if i == 2 {
        } else if i == 3 {
        } else {
        }
    }
    lemma_mapping_well_formed(t);
    let p = profile_entries();
    assert forall|i: int, j: int| 0 <= i < j < p.len() implies p[i].0 != p[j].0 by {
        if i == 0 {
            if j == 0 {
            } else {
            }
        } else {
        }
    }
    assert forall|i: int| 0 <= i < p.len() implies well_formed(#[trigger] p[i].0) && well_formed(p[i].1) by {
        if i == 0 {
        } else {
        }
    }
    lemma_mapping_well_formed(p);
    let r = redir_host_dns_entries();
    assert forall|i: int, j: int| 0 <= i < j < r.len() implies r[i].0 != r[j].0 by {
        if i == 0 {
            if j == 0 {
            } else if j == 1 {
            } else if j == 2 {
            } else if j == 3 {
            } else if j == 4 {
            } else if j == 5 {
            } else if j == 6 {
            } else {
            }
        } else if i == 1 {
            if j == 0 {
            } else if j == 1 {
            } else if j == 2 {
            } else if j == 3 {
            } else if j == 4 {
            } else if j == 5 {
            } else if j == 6 {
            } else {
            }
        } else if i == 2 {
            if j == 0 {
            } else if j == 1 {
            } else if j == 2 {
            } else if j == 3 {
            } else if j == 4 {
            } else if j == 5 {
            } else if j == 6 {
            } else {
            }
        } else if i == 3 {
            if j == 0 {
            } else if j == 1 {
            } else if j == 2 {
            } else if j == 3 {
            } else if j == 4 {
            } else if j == 5 {
            } else if j == 6 {
            } else {
            }
        } else if i == 4 {
            if j == 0 {
            } else if j == 1 {
            } else if j == 2 {
            } else if j == 3 {
            } else if j == 4 {
            } else if j == 5 {
            } else if j == 6 {
            } else {
            }
        } else if i == 5 {
            if j == 0 {
            } else if j == 1 {
            } else if j == 2 {
            } else if j == 3 {
            } else if j == 4 {
            } else if j == 5 {
            } else if j == 6 {
            } else {
            }
        } else if i == 6 {
            if j == 0 {
            } else if j == 1 {
            } else if j == 2 {
            } else if j == 3 {
            } else if j == 4 {
            } else if j == 5 {
            } else if j == 6 {
            } else {
            }
        } else {
        }
    }
    assert forall|i: int| 0 <= i < r.len() implies well_formed(#[trigger] r[i].0) && well_formed(r[i].1) by {
        if i == 0 {
        } else if i == 1 {
        } else if i == 2 {
        } else if i == 3 {
        } else if i == 4 {
        } else if i == 5 {
        } else if i == 6 {
        } else {
        }
    }
    lemma_mapping_well_formed(r);
    let q = fake_ip_dns_entries();
    assert forall|i: int, j: int| 0 <= i < j < q.len() implies q[i].0 != q[j].0 by {
        if i == 0 {
            if j == 0 {
            } else if j == 1 {
            } else if j == 2 {
            } else if j == 3 {
            } else if j == 4 {
            } else if j == 5 {
            } else if j == 6 {
            } else if j == 7 {
            } else {
            }
        } else if i == 1 {
            if j == 0 {
            } else if j == 1 {
            } else if j == 2 {
            } else if j == 3 {
            } else if j == 4 {
            } else if j == 5 {
            } else if j == 6 {
            } else if j == 7 {
            } else {
            }
        } else if i == 2 {
            if j == 0 {
            } else if j == 1 {
            } else if j == 2 {
            } else if j == 3 {
            } else if j == 4 {
            } else if j == 5 {
            } else if j == 6 {
            } else if j == 7 {
            } else {
            }
        } else if i == 3 {
            if j == 0 {
            } else if j == 1 {
            } else if j == 2 {
            } else if j == 3 {
            } else if j == 4 {
            } else if j == 5 {
            } else if j == 6 {
            } else if j == 7 {
            } else {
            }
        } else if i == 4 {
            if j == 0 {
            } else if j == 1 {
            } else if j == 2 {
            } else if j == 3 {
            } else if j == 4 {
            } else if j == 5 {
            } else if j == 6 {
            } else if j == 7 {
            } else {
            }
        } else if i == 5 {
            if j == 0 {
            } else if j == 1 {
            } else if j == 2 {
            } else if j == 3 {
            } else if j == 4 {
            } else if j == 5 {
            } else if j == 6 {
            } else if j == 7 {
            } else {
            }
        } else if i == 6 {
            if j == 0 {
            } else if j == 1 {
            } else if j == 2 {
            } else if j == 3 {
            } else if j == 4 {
            } else if j == 5 {
            } else if j == 6 {
            } else if j == 7 {
            } else {
            }
        } else if i == 7 {
            if j == 0 {
            } else if j == 1 {
            } else if j == 2 {
            } else if j == 3 {
            } else if j == 4 {
            } else if j == 5 {
            } else if j == 6 {
            } else if j == 7 {
            } else {
            }
        } else {
        }
    }
    assert forall|i: int| 0 <= i < q.len() implies well_formed(#[trigger] q[i].0) && well_formed(q[i].1) by {
        if i == 0 {
        } else if i == 1 {
        } else if i == 2 {
        } else if i == 3 {
        } else if i == 4 {
        } else if i == 5 {
        } else if i == 6 {
        } else if i == 7 {
        } else {
        }
    }
    lemma_mapping_well_formed(q);
}

/// Whether `key` is one of the six string keys the rewrite sets.
pub open spec fn is_managed_key(key: YamlView) -> bool {
    ||| key == text("external-controller"@)
    ||| key == text("rules"@)
    ||| key == text("external-ui"@)
    ||| key == text("tun"@)
    ||| key == text("dns"@)
    ||| key == text("profile"@)
}

/// The run configuration holds the controller address, the web UI directory, the TUN
/// settings and the profile-store settings; its rules are the profile's with the Steam
/// rules in front; its DNS settings are the redir-host ones when the profile has none,
/// those of `mode` when `override_dns` is set, and the profile's otherwise; every other key,
/// whatever kind of value it is, keeps the profile's value, and no key appears twice.
pub proof fn lemma_rewritten_config(
    m: Seq<(YamlView, YamlView)>,
    skip_proxy: bool,
    override_dns: bool,
    mode: EnhancedMode,
    webui_dir: Seq<char>,
    n: YamlView,
)
    requires
        unique_keys(m),
    ensures
        unique_keys(rewritten_config(m, skip_proxy, override_dns, mode, webui_dir)),
        lookup(rewritten_config(m, skip_proxy, override_dns, mode, webui_dir), "external-controller"@)
            == Some(text(controller_address())),
        lookup(rewritten_config(m, skip_proxy, override_dns, mode, webui_dir), "external-ui"@)
            == Some(text(webui_dir)),
        lookup(rewritten_config(m, skip_proxy, override_dns, mode, webui_dir), "tun"@) == Some(
            tun_fragment(),
        ),
        lookup(rewritten_config(m, skip_proxy, override_dns, mode, webui_dir), "profile"@) == Some(
            profile_fragment(),
        ),
        lookup(rewritten_config(m, skip_proxy, override_dns, mode, webui_dir), "dns"@) == (match lookup(
            m,
            "dns"@,
        ) {
            None => Some(redir_host_dns_fragment()),
            Some(d) => if override_dns {
                Some(dns_fragment(mode))
            } else {
                Some(d)
            },
        }),
        lookup(rewritten_config(m, skip_proxy, override_dns, mode, webui_dir), "rules"@) == (match lookup(
            m,
            "rules"@,
        ) {
            Some(r) => Some(with_rules_prepended(r, steam_direct_rules(skip_proxy))),
            None => None,
        }),
        is_managed_key(n) || value_under(
            rewritten_config(m, skip_proxy, override_dns, mode, webui_dir),
            n,
        ) == value_under(m, n),
{
    lemma_managed_keys_distinct();
    let ec = "external-controller"@;
    let m1 = assign(m, ec, text(controller_address()));
    let m2 = with_steam_rules(m1, skip_proxy);
    let m3 = assign(m2, "external-ui"@, text(webui_dir));
    let m4 = replace(m3, "tun"@, tun_fragment());
    let m5 = with_dns(m4, override_dns, mode);
    let m6 = replace(m5, "profile"@, profile_fragment());
    // Step 1: the controller address.
    lemma_assign_unique(m, ec, text(controller_address()));
    lemma_assign(m, ec, text(controller_address()), n);
    lemma_assign(m, ec, text(controller_address()), text("rules"@));
    lemma_assign(m, ec, text(controller_address()), text("dns"@));
    // Step 2: the Steam rules.
    lemma_with_steam_rules(m1, skip_proxy, n);
    lemma_with_steam_rules(m1, skip_proxy, text(ec));
    lemma_with_steam_rules(m1, skip_proxy, text("dns"@));
    // Step 3: the web UI directory.
    lemma_assign_unique(m2, "external-ui"@, text(webui_dir));
    lemma_assign(m2, "external-ui"@, text(webui_dir), n);
    lemma_assign(m2, "external-ui"@, text(webui_dir), text(ec));
    lemma_assign(m2, "external-ui"@, text(webui_dir), text("rules"@));
    lemma_assign(m2, "external-ui"@, text(webui_dir), text("dns"@));
    // Step 4: TUN.
    lemma_replace(m3, "tun"@, tun_fragment(), n);
    lemma_replace(m3, "tun"@, tun_fragment(), text(ec));
    lemma_replace(m3, "tun"@, tun_fragment(), text("rules"@));
    lemma_replace(m3, "tun"@, tun_fragment(), text("external-ui"@));
    lemma_replace(m3, "tun"@, tun_fragment(), text("dns"@));
    lemma_key_index(m4, text("dns"@));
    // Step 5: DNS.
    if key_index(m4, "dns"@) is Some {
        if override_dns {
            lemma_replace(m4, "dns"@, dns_fragment(mode), n);
            lemma_replace(m4, "dns"@, dns_fragment(mode), text(ec));
            lemma_replace(m4, "dns"@, dns_fragment(mode), text("rules"@));
            lemma_replace(m4, "dns"@, dns_fragment(mode), text("external-ui"@));
            lemma_replace(m4, "dns"@, dns_fragment(mode), text("tun"@));
        }
    } else {
        lemma_assign_unique(m4, "dns"@, redir_host_dns_fragment());
        lemma_assign(m4, "dns"@, redir_host_dns_fragment(), n);
        lemma_assign(m4, "dns"@, redir_host_dns_fragment(), text(ec));
        lemma_assign(m4, "dns"@, redir_host_dns_fragment(), text("rules"@));
        lemma_assign(m4, "dns"@, redir_host_dns_fragment(), text("external-ui"@));
        lemma_assign(m4, "dns"@, redir_host_dns_fragment(), text("tun"@));
    }
    // Step 6: profile store.
    lemma_replace(m5, "profile"@, profile_fragment(), n);
    lemma_replace(m5, "profile"@, profile_fragment(), text(ec));
    lemma_replace(m5, "profile"@, profile_fragment(), text("rules"@));
    lemma_replace(m5, "profile"@, profile_fragment(), text("external-ui"@));
    lemma_replace(m5, "profile"@, profile_fragment(), text("tun"@));
    lemma_replace(m5, "profile"@, profile_fragment(), text("dns"@));
}

/// Putting the Steam rules in front of a well-formed `rules` entry keeps the entries well
/// formed.
pub proof fn lemma_with_steam_rules_well_formed(m: Seq<(YamlView, YamlView)>, skip_proxy: bool)
    requires
        entries_well_formed(m),
    ensures
        entries_well_formed(with_steam_rules(m, skip_proxy)),
{
    lemma_key_index(m, text("rules"@));
    let extra = steam_direct_rules(skip_proxy);
    assert forall|i: int| 0 <= i < extra.len() implies well_formed(#[trigger] extra[i]) by {
        if skip_proxy {
            if i == 0 {
            } else if i == 1 {
            } else {
            }
        }
    }
    let m2 = with_steam_rules(m, skip_proxy);
    match key_index(m, "rules"@) {
        Some(k) => {
            assert(well_formed(m[k].0));
            lemma_prepend_well_formed(m[k].1, extra);
            assert forall|i: int| 0 <= i < m2.len() implies well_formed(#[trigger] m2[i].0)
                && well_formed(m2[i].1) by {
                assert(well_formed(m[i].0));
            }
        },
        None => {},
    }
}

/// The rewrite of a well-formed profile is well formed: no mapping in the run
/// configuration, at any depth, holds a key twice.
pub proof fn lemma_rewritten_config_well_formed(
    doc: YamlView,
    skip_proxy: bool,
    override_dns: bool,
    mode: EnhancedMode,
    webui_dir: Seq<char>,
)
    requires
        well_formed(doc),
    ensures
        well_formed(
            YamlView::Mapping(
                rewritten_config(document_entries(doc), skip_proxy, override_dns, mode, webui_dir),
            ),
        ),
{
    let m = document_entries(doc);
    lemma_document_well_formed(doc);
    lemma_fragments_well_formed(mode);
    lemma_rewritten_config(m, skip_proxy, override_dns, mode, webui_dir, text("rules"@));
    let m1 = assign(m, "external-controller"@, text(controller_address()));
    let m2 = with_steam_rules(m1, skip_proxy);
    let m3 = assign(m2, "external-ui"@, text(webui_dir));
    let m4 = replace(m3, "tun"@, tun_fragment());
    let m5 = with_dns(m4, override_dns, mode);
    lemma_assign_well_formed(m, "external-controller"@, text(controller_address()));
    lemma_with_steam_rules_well_formed(m1, skip_proxy);
    lemma_assign_well_formed(m2, "external-ui"@, text(webui_dir));
    lemma_discard_well_formed(m3, "tun"@);
    lemma_assign_well_formed(discard(m3, "tun"@), "tun"@, tun_fragment());
    if key_index(m4, "dns"@) is Some {
        if override_dns {
            lemma_discard_well_formed(m4, "dns"@);
            lemma_assign_well_formed(discard(m4, "dns"@), "dns"@, dns_fragment(mode));
        }
    } else {
        lemma_assign_well_formed(m4, "dns"@, redir_host_dns_fragment());
    }
    lemma_discard_well_formed(m5, "profile"@);
    lemma_assign_well_formed(discard(m5, "profile"@), "profile"@, profile_fragment());
    lemma_mapping_well_formed(
        rewritten_config(m, skip_proxy, override_dns, mode, webui_dir),
    );
}

} // verus!
