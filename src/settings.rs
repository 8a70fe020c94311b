//! The plugin's settings store: key/value pairs, keys unique, in the order
//! in which each key was first written.
use vstd::prelude::*;
use crate::abi::plugin_setting_t;
use crate::text::owned;

verus! {

/// A pair of settings as plain text.
pub type SettingView = (Seq<char>, Seq<char>);

impl plugin_setting_t {
    pub open spec fn view_pair(&self) -> SettingView {
        (self.key@, self.value@)
    }

    /// A copy of this pair.
    pub fn copy(&self) -> (r: plugin_setting_t)
        ensures
            r.view_pair() == self.view_pair(),
    {
        plugin_setting_t { key: self.key.clone(), value: self.value.clone() }
    }
}

/// The pairs of `v` as text.
pub open spec fn pairs(v: Seq<plugin_setting_t>) -> Seq<SettingView> {
    v.map_values(|s: plugin_setting_t| s.view_pair())
}

/// No key occurs twice.
pub open spec fn keys_unique(e: Seq<SettingView>) -> bool {
    forall|i: int, j: int| 0 <= i < e.len() && 0 <= j < e.len() && i != j ==> e[i].0 != e[j].0
}

/// `k` is a key of `e`.
pub open spec fn has_key(e: Seq<SettingView>, k: Seq<char>) -> bool {
    exists|i: int| 0 <= i < e.len() && e[i].0 == k
}

/// The value stored under `k`, if any.
pub open spec fn lookup(e: Seq<SettingView>, k: Seq<char>) -> Option<Seq<char>> {
    if has_key(e, k) {
        Some(e[choose|i: int| 0 <= i < e.len() && e[i].0 == k].1)
    } else {
        None
    }
}

/// `e` with `k` set to `v`: the value replaced in place where `k` is a key,
/// else the pair added at the end.
pub open spec fn put(e: Seq<SettingView>, k: Seq<char>, v: Seq<char>) -> Seq<SettingView> {
    if has_key(e, k) {
        e.update(choose|i: int| 0 <= i < e.len() && e[i].0 == k, (k, v))
    } else {
        e.push((k, v))
    }
}

/// `put` of each pair of `d` in turn.
pub open spec fn put_all(e: Seq<SettingView>, d: Seq<SettingView>) -> Seq<SettingView>
    decreases d.len(),
{
    if d.len() == 0 {
        e
    } else {
        put(put_all(e, d.drop_last()), d.last().0, d.last().1)
    }
}

/// `put` keeps keys unique, and afterwards `k` reads `v` and every other key
/// reads what it read before.
pub proof fn lemma_put(e: Seq<SettingView>, k: Seq<char>, v: Seq<char>)
    requires
        keys_unique(e),
    ensures
        keys_unique(put(e, k, v)),
        lookup(put(e, k, v), k) == Some(v),
        forall|k2: Seq<char>| k2 != k ==> lookup(put(e, k, v), k2) == lookup(e, k2),
{
    let p = put(e, k, v);
    if has_key(e, k) {
        let i = choose|i: int| 0 <= i < e.len() && e[i].0 == k;
        assert(p[i].0 == k);
        assert forall|k2: Seq<char>| k2 != k implies lookup(p, k2) == lookup(e, k2) by {
            if has_key(e, k2) {
                let j = choose|j: int| 0 <= j < e.len() && e[j].0 == k2;
                assert(p[j].0 == k2);
            }
            if has_key(p, k2) {
                let j = choose|j: int| 0 <= j < p.len() && p[j].0 == k2;
                assert(e[j].0 == k2);
            }
        }
    } else {
        assert(p[e.len() as int].0 == k);
        assert forall|k2: Seq<char>| k2 != k implies lookup(p, k2) == lookup(e, k2) by {
            if has_key(e, k2) {
                let j = choose|j: int| 0 <= j < e.len() && e[j].0 == k2;
                assert(p[j].0 == k2);
            }
            if has_key(p, k2) {
                let j = choose|j: int| 0 <= j < p.len() && p[j].0 == k2;
                assert(e[j].0 == k2);
            }
        }
    }
}

/// Where `k` stands in `entries`, if anywhere.
pub fn find_setting(entries: &Vec<plugin_setting_t>, k: &String) -> (r: Option<usize>)
    ensures
        r matches Some(i) ==> i < entries@.len() && entries@[i as int].key@ == k@,
        r is None ==> !has_key(pairs(entries@), k@),
{
    let mut i: usize = 0;
    while i < entries.len()
        invariant
            i <= entries@.len(),
            forall|j: int| 0 <= j < i ==> entries@[j].key@ != k@,
        decreases entries@.len() - i,
    {
        if entries[i].key == *k {
            return Some(i);
        }
        i = i + 1;
    }
    assert forall|j: int| 0 <= j < entries@.len() implies pairs(entries@)[j].0 != k@ by {
        assert(pairs(entries@)[j] == entries@[j].view_pair());
    }
    None
}

/// Sets `k` to `v` in `entries`.
pub fn put_setting(entries: &mut Vec<plugin_setting_t>, k: String, v: String)
    requires
        keys_unique(pairs(old(entries)@)),
    ensures
        pairs(final(entries)@) == put(pairs(old(entries)@), k@, v@),
        keys_unique(pairs(final(entries)@)),
{
    proof {
        lemma_put(pairs(entries@), k@, v@);
    }
    let ghost e = pairs(entries@);
    match find_setting(entries, &k) {
        Some(i) => {
            assert(e[i as int].0 == k@);
            let ghost c = choose|j: int| 0 <= j < e.len() && e[j].0 == k@;
            assert(c == i);
            entries.set(i, plugin_setting_t { key: k, value: v });
            assert(pairs(entries@) =~= e.update(i as int, (k@, v@)));
        }
        None => {
            entries.push(plugin_setting_t { key: k, value: v });
            assert(pairs(entries@) =~= e.push((k@, v@)));
        }
    }
}

/// The settings that the plugin declares, with their defaults.
pub open spec fn default_settings() -> Seq<SettingView> {
    seq![
        ("show_time_in_prompt"@, "true"@),
        ("quote_refresh_interval"@, "60"@),
        ("enable_background_tasks"@, "true"@),
    ]
}

/// The default settings as owned pairs.
pub fn default_setting_list() -> (r: Vec<plugin_setting_t>)
    ensures
        pairs(r@) == default_settings(),
{
    let r = vec![
        plugin_setting_t { key: owned("show_time_in_prompt"), value: owned("true") },
        plugin_setting_t { key: owned("quote_refresh_interval"), value: owned("60") },
        plugin_setting_t { key: owned("enable_background_tasks"), value: owned("true") },
    ];
    assert(pairs(r@) =~= default_settings());
    r
}

/// `k` is one of the keys that the plugin declares.
pub open spec fn is_declared_key(k: Seq<char>) -> bool {
    has_key(default_settings(), k)
}

} // verus!
