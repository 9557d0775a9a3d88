//! The parameter assembler: from a caller-supplied parameter list, build the
//! form fields the endpoint expects. Three fixed values are merged in first
//! and always win; then everything outside the required eight keys is
//! dropped.

use crate::strutil::str_eq;
use vstd::prelude::*;
use vstd::string::StringExecFns;

verus! {

broadcast use vstd::string::group_string_axioms;

/// Whether a key is one of the eight the endpoint expects.
pub open spec fn is_required_key(k: Seq<char>) -> bool {
    ||| k == "tmp"@
    ||| k == "clientVer"@
    ||| k == "clientos"@
    ||| k == "os-version"@
    ||| k == "host-id"@
    ||| k == "ipv6-support"@
    ||| k == "default-browser"@
    ||| k == "cas-support"@
}

/// The set of the eight required keys.
pub open spec fn required_key_set() -> Set<Seq<char>> {
    Set::new(|k: Seq<char>| is_required_key(k))
}

/// The mapping a parameter list stands for: pairs are inserted in order, so a
/// later entry for the same key wins.
pub open spec fn pairs_map(ps: Seq<(String, String)>) -> Map<Seq<char>, Seq<char>>
    decreases ps.len(),
{
    if ps.len() == 0 {
        Map::empty()
    } else {
        pairs_map(ps.drop_last()).insert(ps.last().0@, ps.last().1@)
    }
}

/// The assembled mapping: the three fixed values are written over the
/// configuration's parameters, then the result is cut down to the required
/// eight keys. The two-step order matters: the fixed values win even where
/// the configuration supplied a conflicting value.
pub open spec fn assembled_map(cfg: Map<Seq<char>, Seq<char>>) -> Map<Seq<char>, Seq<char>> {
    cfg.insert("tmp"@, "tmp"@).insert("default-browser"@, "1"@).insert(
        "cas-support"@,
        "yes"@,
    ).restrict(required_key_set())
}

/// Extending a parameter list by one entry inserts that pair into its
/// mapping.
proof fn lemma_pairs_map_take(ps: Seq<(String, String)>, i: int)
    requires
        0 <= i < ps.len(),
    ensures
        pairs_map(ps.take(i + 1)) == pairs_map(ps.take(i)).insert(ps[i].0@, ps[i].1@),
{
    assert(ps.take(i + 1).drop_last() =~= ps.take(i));
    assert(ps.take(i + 1).last() == ps[i]);
}

/// The value the parameter list assigns to a key: the last entry for it, if
/// any.
fn lookup_last(ps: &Vec<(String, String)>, key: &str) -> (r: Option<String>)
    ensures
        r is Some <==> pairs_map(ps@).contains_key(key@),
        r matches Some(v) ==> pairs_map(ps@)[key@] == v@,
{
    let mut i: usize = ps.len();
    proof {
        assert(ps@.take(i as int) =~= ps@);
    }
    while i > 0
        invariant
            i <= ps@.len(),
            pairs_map(ps@).contains_key(key@) == pairs_map(ps@.take(i as int)).contains_key(key@),
            pairs_map(ps@).contains_key(key@) ==> pairs_map(ps@)[key@] == pairs_map(
                ps@.take(i as int),
            )[key@],
        decreases i,
    {
        i = i - 1;
        proof {
            lemma_pairs_map_take(ps@, i as int);
        }
        if str_eq(ps[i].0.as_str(), key) {
            return Some(ps[i].1.clone());
        }
    }
    proof {
        assert(ps@.take(0) =~= Seq::<(String, String)>::empty());
    }
    None
}

/// Appends one pair, which inserts it into the vector's mapping.
fn push_pair(out: &mut Vec<(String, String)>, k: String, v: String)
    ensures
        final(out)@ == old(out)@.push((k, v)),
        pairs_map(final(out)@) == pairs_map(old(out)@).insert(k@, v@),
{
    let ghost k_view = k@;
    let ghost v_view = v@;
    out.push((k, v));
    proof {
        assert(out@.drop_last() =~= old(out)@);
        assert(out@.last().0@ == k_view && out@.last().1@ == v_view);
    }
}

/// Assembles the form fields of a negotiation request from the caller's
/// parameter list: the mapping of the result is exactly the merge-then-filter
/// of [`assembled_map`], each key appears once, and every key is required.
pub fn build_prelogin_params(config: &Vec<(String, String)>) -> (r: Vec<(String, String)>)
    ensures
        pairs_map(r@) == assembled_map(pairs_map(config@)),
        forall|i: int| 0 <= i < r@.len() ==> is_required_key(#[trigger] r@[i].0@),
        forall|i: int, j: int| 0 <= i < j < r@.len() ==> r@[i].0@ != r@[j].0@,
{
    let mut out: Vec<(String, String)> = Vec::new();
    push_pair(&mut out, String::from_str("tmp"), String::from_str("tmp"));
    let client_ver = lookup_last(config, "clientVer");
    match client_ver {
        Some(v) => push_pair(&mut out, String::from_str("clientVer"), v),
        None => (),
    }
    let client_os = lookup_last(config, "clientos");
    match client_os {
        Some(v) => push_pair(&mut out, String::from_str("clientos"), v),
        None => (),
    }
    let os_version = lookup_last(config, "os-version");
    match os_version {
        Some(v) => push_pair(&mut out, String::from_str("os-version"), v),
        None => (),
    }
    let host_id = lookup_last(config, "host-id");
    match host_id {
        Some(v) => push_pair(&mut out, String::from_str("host-id"), v),
        None => (),
    }
    let ipv6_support = lookup_last(config, "ipv6-support");
    match ipv6_support {
        Some(v) => push_pair(&mut out, String::from_str("ipv6-support"), v),
        None => (),
    }
    push_pair(&mut out, String::from_str("default-browser"), String::from_str("1"));
    push_pair(&mut out, String::from_str("cas-support"), String::from_str("yes"));
    proof {
        lemma_required_keys_distinct();
        assert(pairs_map(out@) =~= assembled_map(pairs_map(config@)));
    }
    out
}

/// The eight required keys are pairwise distinct character sequences.
proof fn lemma_required_keys_distinct()
    ensures
        "tmp"@ != "clientVer"@ && "tmp"@ != "clientos"@ && "tmp"@ != "os-version"@ && "tmp"@
            != "host-id"@ && "tmp"@ != "ipv6-support"@ && "tmp"@ != "default-browser"@ && "tmp"@
            != "cas-support"@,
        "clientVer"@ != "clientos"@ && "clientVer"@ != "os-version"@ && "clientVer"@ != "host-id"@
            && "clientVer"@ != "ipv6-support"@ && "clientVer"@ != "default-browser"@
            && "clientVer"@ != "cas-support"@,
        "clientos"@ != "os-version"@ && "clientos"@ != "host-id"@ && "clientos"@ != "ipv6-support"@
            && "clientos"@ != "default-browser"@ && "clientos"@ != "cas-support"@,
        "os-version"@ != "host-id"@ && "os-version"@ != "ipv6-support"@ && "os-version"@
            != "default-browser"@ && "os-version"@ != "cas-support"@,
        "host-id"@ != "ipv6-support"@ && "host-id"@ != "default-browser"@ && "host-id"@
            != "cas-support"@,
        "ipv6-support"@ != "default-browser"@ && "ipv6-support"@ != "cas-support"@,
        "default-browser"@ != "cas-support"@,
{
    reveal_strlit("tmp");
    reveal_strlit("clientVer");
    reveal_strlit("clientos");
    reveal_strlit("os-version");
    reveal_strlit("host-id");
    reveal_strlit("ipv6-support");
    reveal_strlit("default-browser");
    reveal_strlit("cas-support");
    // The eight keys have pairwise different lengths.
    assert("tmp"@.len() == 3);
    assert("clientVer"@.len() == 9);
    assert("clientos"@.len() == 8);
    assert("os-version"@.len() == 10);
    assert("host-id"@.len() == 7);
    assert("ipv6-support"@.len() == 12);
    assert("default-browser"@.len() == 15);
    assert("cas-support"@.len() == 11);
}

/// The three fixed parameters always hold their fixed values in the
/// assembled mapping, whatever the configuration supplied, and no key
/// outside the required eight survives.
pub proof fn lemma_fixed_params_win(cfg: Map<Seq<char>, Seq<char>>)
    ensures
        assembled_map(cfg).contains_key("tmp"@) && assembled_map(cfg)["tmp"@] == "tmp"@,
        assembled_map(cfg).contains_key("default-browser"@) && assembled_map(
            cfg,
        )["default-browser"@] == "1"@,
        assembled_map(cfg).contains_key("cas-support"@) && assembled_map(cfg)["cas-support"@]
            == "yes"@,
        forall|k: Seq<char>| assembled_map(cfg).contains_key(k) ==> is_required_key(k),
{
    lemma_required_keys_distinct();
}

/// When the configuration supplies the five non-fixed required parameters,
/// the assembled mapping holds exactly the eight required keys: the fixed
/// three with their fixed values, the other five with the configuration's
/// values.
pub proof fn lemma_assembled_exactly_required(cfg: Map<Seq<char>, Seq<char>>)
    requires
        cfg.contains_key("clientVer"@),
        cfg.contains_key("clientos"@),
        cfg.contains_key("os-version"@),
        cfg.contains_key("host-id"@),
        cfg.contains_key("ipv6-support"@),
    ensures
        forall|k: Seq<char>| assembled_map(cfg).contains_key(k) <==> is_required_key(k),
        assembled_map(cfg)["clientVer"@] == cfg["clientVer"@],
        assembled_map(cfg)["clientos"@] == cfg["clientos"@],
        assembled_map(cfg)["os-version"@] == cfg["os-version"@],
        assembled_map(cfg)["host-id"@] == cfg["host-id"@],
        assembled_map(cfg)["ipv6-support"@] == cfg["ipv6-support"@],
        assembled_map(cfg)["tmp"@] == "tmp"@,
        assembled_map(cfg)["default-browser"@] == "1"@,
        assembled_map(cfg)["cas-support"@] == "yes"@,
{
    lemma_required_keys_distinct();
}

} // verus!
