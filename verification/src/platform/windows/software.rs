//! Windows software inventory: entries of the uninstall keys, marked when
//! they are security products, sorted and without duplicates.
use vstd::prelude::*;

use crate::models::finding::opt_view;
use crate::models::system_info::InstalledSoftware;
use crate::text::{
    ascii_lower_spec, contains_seq, eq_ignore_ascii_case, eq_ignore_ascii_case_spec, lex_less,
    lemma_lex_asymmetric, lemma_lex_irreflexive, lemma_lex_total, lemma_lex_transitive, lex_lt,
    to_ascii_lowercase, to_chars,
};

verus! {

/// The registry keys that list installed products.
pub open spec fn uninstall_roots_spec() -> Seq<Seq<char>> {
    seq![
        "HKLM\\SOFTWARE\\Microsoft\\Windows\\CurrentVersion\\Uninstall"@,
        "HKLM\\SOFTWARE\\WOW6432Node\\Microsoft\\Windows\\CurrentVersion\\Uninstall"@,
        "HKCU\\SOFTWARE\\Microsoft\\Windows\\CurrentVersion\\Uninstall"@,
    ]
}

/// The registry keys that list installed products.
pub fn uninstall_roots() -> (r: Vec<&'static str>)
    ensures
        r@.map_values(|s: &str| s@) == uninstall_roots_spec(),
{
    let mut r: Vec<&'static str> = Vec::new();
    r.push("HKLM\\SOFTWARE\\Microsoft\\Windows\\CurrentVersion\\Uninstall");
    r.push("HKLM\\SOFTWARE\\WOW6432Node\\Microsoft\\Windows\\CurrentVersion\\Uninstall");
    r.push("HKCU\\SOFTWARE\\Microsoft\\Windows\\CurrentVersion\\Uninstall");
    assert(r@.map_values(|s: &str| s@) =~= uninstall_roots_spec());
    r
}

/// Lowercase words whose presence in a product's name or publisher marks it
/// as an antivirus or EDR product.
pub open spec fn edr_markers() -> Seq<Seq<char>> {
    seq![
        "windows defender"@,
        "microsoft defender"@,
        "mcafee"@,
        "symantec"@,
        "norton"@,
        "crowdstrike"@,
        "falcon"@,
        "sentinelone"@,
        "sophos"@,
        "kaspersky"@,
        "trend micro"@,
        "eset"@,
        "bitdefender"@,
        "cortex xdr"@,
        "carbon black"@,
        "cylance"@,
        "malwarebytes"@,
        "avast"@,
        "avg antivirus"@,
        "webroot"@,
        "f-secure"@,
        "elastic agent"@,
        "elastic endpoint"@,
        "endgame"@,
        "tanium"@,
        "fireeye"@,
        "trellix"@
    ]
}

/// Whether lowercase text contains one of the markers.
pub open spec fn has_marker(lower: Seq<char>) -> bool {
    exists|i: int| 0 <= i < edr_markers().len() && contains_seq(lower, #[trigger] edr_markers()[i])
}

fn has_marker_exec(lower: &[char]) -> (r: bool)
    ensures
        r == has_marker(lower@),
{
    let markers: [&str; 27] = ["windows defender", "microsoft defender", "mcafee", "symantec", "norton", "crowdstrike", "falcon", "sentinelone", "sophos", "kaspersky", "trend micro", "eset", "bitdefender", "cortex xdr", "carbon black", "cylance", "malwarebytes", "avast", "avg antivirus", "webroot", "f-secure", "elastic agent", "elastic endpoint", "endgame", "tanium", "fireeye", "trellix"];
    assert(markers@.map_values(|m: &str| m@) =~= edr_markers());
    let mut i: usize = 0;
    while i < markers.len()
        invariant
            i <= markers.len(),
            markers@.map_values(|m: &str| m@) == edr_markers(),
            forall|j: int| 0 <= j < i ==> !contains_seq(lower@, #[trigger] edr_markers()[j]),
        decreases markers.len() - i,
    {
        let m = to_chars(markers[i]);
        assert(edr_markers()[i as int] == m@);
        if crate::text::contains(lower, m.as_slice()) {
            return true;
        }
        i = i + 1;
    }
    false
}

/// Whether a product is an antivirus or EDR product: its name, or else its
/// publisher, contains a marker when lowercased (ASCII).
pub open spec fn is_av_or_edr_spec(name: Seq<char>, vendor: Option<Seq<char>>) -> bool {
    has_marker(ascii_lower_spec(name)) || match vendor {
        Some(v) => has_marker(ascii_lower_spec(v)),
        None => false,
    }
}

/// Whether a product is an antivirus or EDR product.
pub fn is_av_or_edr(name: &str, vendor: Option<&str>) -> (r: bool)
    ensures
        r == is_av_or_edr_spec(name@, crate::platform::linux::etc::opt_str_view(vendor)),
{
    let n = to_chars(name);
    let nl = to_ascii_lowercase(n.as_slice());
    if has_marker_exec(nl.as_slice()) {
        return true;
    }
    match vendor {
        Some(v) => {
            let vc = to_chars(v);
            let vl = to_ascii_lowercase(vc.as_slice());
            has_marker_exec(vl.as_slice())
        },
        None => false,
    }
}

/// A product from the values of its uninstall key.
pub fn software_entry(
    name: String,
    version: Option<String>,
    vendor: Option<String>,
    install_date: Option<String>,
    install_location: Option<String>,
) -> (r: InstalledSoftware)
    ensures
        r.name@ == name@,
        opt_view(r.version) == opt_view(version),
        opt_view(r.vendor) == opt_view(vendor),
        opt_view(r.install_date) == opt_view(install_date),
        opt_view(r.install_location) == opt_view(install_location),
        r.is_av_or_edr == is_av_or_edr_spec(name@, opt_view(vendor)),
{
    let is_av = match &vendor {
        Some(v) => is_av_or_edr(name.as_str(), Some(v.as_str())),
        None => is_av_or_edr(name.as_str(), None),
    };
    InstalledSoftware { name, version, vendor, install_date, install_location, is_av_or_edr: is_av }
}

// ---------------------------------------------------------------------------
// Sorting and duplicates
// ---------------------------------------------------------------------------

/// The order of optional versions: none first, then by text.
pub open spec fn version_lt(a: Option<Seq<char>>, b: Option<Seq<char>>) -> bool {
    match (a, b) {
        (None, Some(_)) => true,
        (Some(x), Some(y)) => lex_lt(x, y),
        _ => false,
    }
}

/// Whether product `a` sorts strictly before `b`: by lowercase (ASCII)
/// name, then by version.
pub open spec fn sorts_before(a: InstalledSoftware, b: InstalledSoftware) -> bool {
    let na = ascii_lower_spec(a.name@);
    let nb = ascii_lower_spec(b.name@);
    lex_lt(na, nb) || (na == nb && version_lt(opt_view(a.version), opt_view(b.version)))
}

/// Where `x` goes in `s`: before the first product it sorts before.
pub open spec fn sort_position(s: Seq<InstalledSoftware>, x: InstalledSoftware) -> nat
    decreases s.len(),
{
    if s.len() == 0 {
        0
    } else if sorts_before(x, s[0]) {
        0
    } else {
        1 + sort_position(s.drop_first(), x)
    }
}

/// The products of `s` sorted stably (each in turn goes in before the first
/// product already placed that it sorts before).
pub open spec fn sort_software(s: Seq<InstalledSoftware>) -> Seq<InstalledSoftware>
    decreases s.len(),
{
    if s.len() == 0 {
        s
    } else {
        let t = sort_software(s.drop_last());
        t.insert(sort_position(t, s.last()) as int, s.last())
    }
}

/// Whether two products are duplicates: the same name ignoring ASCII case,
/// and the same version.
pub open spec fn same_product(a: InstalledSoftware, b: InstalledSoftware) -> bool {
    eq_ignore_ascii_case_spec(a.name@, b.name@) && opt_view(a.version) == opt_view(b.version)
}

/// `s` without each product that duplicates the one kept before it.
pub open spec fn dedup_software(s: Seq<InstalledSoftware>) -> Seq<InstalledSoftware>
    decreases s.len(),
{
    if s.len() <= 1 {
        s
    } else {
        let d = dedup_software(s.drop_last());
        if same_product(s.last(), d.last()) {
            d
        } else {
            d.push(s.last())
        }
    }
}

proof fn lemma_dedup_nonempty(s: Seq<InstalledSoftware>)
    ensures
        s.len() > 0 ==> dedup_software(s).len() > 0,
    decreases s.len(),
{
    if s.len() > 1 {
        lemma_dedup_nonempty(s.drop_last());
    }
}

fn opt_string_lt(a: &Option<String>, b: &Option<String>) -> (r: bool)
    ensures
        r == version_lt(opt_view(*a), opt_view(*b)),
{
    match (a, b) {
        (None, Some(_)) => true,
        (Some(x), Some(y)) => {
            let xc = to_chars(x.as_str());
            let yc = to_chars(y.as_str());
            lex_less(xc.as_slice(), yc.as_slice())
        },
        _ => false,
    }
}

fn opt_string_eq(a: &Option<String>, b: &Option<String>) -> (r: bool)
    ensures
        r == (opt_view(*a) == opt_view(*b)),
{
    match (a, b) {
        (None, None) => true,
        (Some(x), Some(y)) => crate::text::str_eq(x.as_str(), y.as_str()),
        _ => false,
    }
}

fn software_sorts_before(a: &InstalledSoftware, b: &InstalledSoftware) -> (r: bool)
    ensures
        r == sorts_before(*a, *b),
{
    let ac = to_chars(a.name.as_str());
    let bc = to_chars(b.name.as_str());
    let na = to_ascii_lowercase(ac.as_slice());
    let nb = to_ascii_lowercase(bc.as_slice());
    if lex_less(na.as_slice(), nb.as_slice()) {
        return true;
    }
    crate::text::chars_eq(na.as_slice(), nb.as_slice()) && opt_string_lt(&a.version, &b.version)
}

proof fn lemma_sort_position_unique(s: Seq<InstalledSoftware>, x: InstalledSoftware, p: int)
    requires
        0 <= p <= s.len(),
        forall|k: int| 0 <= k < p ==> !sorts_before(x, #[trigger] s[k]),
        p < s.len() ==> sorts_before(x, s[p]),
    ensures
        sort_position(s, x) == p,
    decreases s.len(),
{
    if s.len() > 0 && p > 0 {
        assert(!sorts_before(x, s[0]));
        assert forall|k: int| 0 <= k < p - 1 implies !sorts_before(x, #[trigger] s.drop_first()[k]) by {
            assert(s.drop_first()[k] == s[k + 1]);
        }
        lemma_sort_position_unique(s.drop_first(), x, p - 1);
    }
}

/// Whether no product of `s` sorts before one that comes earlier.
pub open spec fn is_sorted_software(s: Seq<InstalledSoftware>) -> bool {
    forall|i: int, j: int| 0 <= i < j < s.len() ==> !sorts_before(#[trigger] s[j], #[trigger] s[i])
}

/// Whether each product of `s` sorts strictly before every later one.
pub open spec fn is_strictly_sorted_software(s: Seq<InstalledSoftware>) -> bool {
    forall|i: int, j: int| 0 <= i < j < s.len() ==> sorts_before(#[trigger] s[i], #[trigger] s[j])
}

proof fn lemma_version_order(a: Option<Seq<char>>, b: Option<Seq<char>>, c: Option<Seq<char>>)
    ensures
        !version_lt(a, a),
        version_lt(a, b) ==> !version_lt(b, a),
        version_lt(a, b) && version_lt(b, c) ==> version_lt(a, c),
        version_lt(a, b) || a == b || version_lt(b, a),
{
    match (a, b, c) {
        (Some(x), Some(y), Some(z)) => {
            lemma_lex_irreflexive(x);
            lemma_lex_asymmetric(x, y);
            lemma_lex_transitive(x, y, z);
            lemma_lex_total(x, y);
        },
        (Some(x), Some(y), None) => {
            lemma_lex_irreflexive(x);
            lemma_lex_asymmetric(x, y);
            lemma_lex_total(x, y);
        },
        (Some(x), _, _) => {
            lemma_lex_irreflexive(x);
        },
        _ => {},
    }
}

/// `sorts_before` is a strict order, and two products that neither sorts
/// before the other are the same product.
proof fn lemma_sorts_before_order(a: InstalledSoftware, b: InstalledSoftware, c: InstalledSoftware)
    ensures
        !sorts_before(a, a),
        sorts_before(a, b) ==> !sorts_before(b, a),
        sorts_before(a, b) && sorts_before(b, c) ==> sorts_before(a, c),
        sorts_before(a, b) || sorts_before(b, a) || same_product(a, b),
        sorts_before(a, b) ==> !same_product(a, b),
{
    let na = ascii_lower_spec(a.name@);
    let nb = ascii_lower_spec(b.name@);
    let nc = ascii_lower_spec(c.name@);
    lemma_lex_irreflexive(na);
    lemma_lex_asymmetric(na, nb);
    lemma_lex_transitive(na, nb, nc);
    lemma_lex_total(na, nb);
    lemma_version_order(opt_view(a.version), opt_view(b.version), opt_view(c.version));
}

proof fn lemma_sort_position_props(t: Seq<InstalledSoftware>, x: InstalledSoftware)
    ensures
        sort_position(t, x) <= t.len(),
        forall|k: int| 0 <= k < sort_position(t, x) ==> !sorts_before(x, #[trigger] t[k]),
        sort_position(t, x) < t.len() ==> sorts_before(x, t[sort_position(t, x) as int]),
    decreases t.len(),
{
    if t.len() > 0 && !sorts_before(x, t[0]) {
        let r = t.drop_first();
        lemma_sort_position_props(r, x);
        assert forall|k: int| 0 <= k < sort_position(t, x) implies !sorts_before(x, #[trigger] t[k]) by {
            if k > 0 {
                assert(t[k] == r[k - 1]);
            }
        }
        if sort_position(t, x) < t.len() {
            assert(t[sort_position(t, x) as int] == r[sort_position(r, x) as int]);
        }
    }
}

proof fn lemma_sort_software_props(s: Seq<InstalledSoftware>)
    ensures
        sort_software(s).len() == s.len(),
        is_sorted_software(sort_software(s)),
        forall|k: int| 0 <= k < s.len() ==> sort_software(s).contains(#[trigger] s[k]),
    decreases s.len(),
{
    if s.len() > 0 {
        let t = sort_software(s.drop_last());
        let x = s.last();
        lemma_sort_software_props(s.drop_last());
        lemma_sort_position_props(t, x);
        let p = sort_position(t, x) as int;
        let r = t.insert(p, x);
        t.insert_ensures(p, x);
        assert forall|i: int, j: int| 0 <= i < j < r.len() implies !sorts_before(#[trigger] r[j], #[trigger] r[i]) by {
            if j < p {
            } else if j == p {
                lemma_sorts_before_order(x, r[i], x);
            } else if i < p {
                assert(r[j] == t[j - 1]);
                lemma_sorts_before_order(r[j], x, t[p]);
                lemma_sorts_before_order(x, t[p], r[j]);
                if j - 1 > p {
                    assert(!sorts_before(t[j - 1], t[p]));
                }
                assert(!sorts_before(t[j - 1], x));
                assert(r[i] == t[i]);
                assert(!sorts_before(x, t[i]));
                lemma_sorts_before_order(t[j - 1], t[i], x);
            } else if i == p {
                assert(r[j] == t[j - 1]);
                lemma_sorts_before_order(t[j - 1], x, t[p]);
                lemma_sorts_before_order(x, t[p], t[j - 1]);
                if j - 1 > p {
                    assert(!sorts_before(t[j - 1], t[p]));
                }
            } else {
                assert(r[j] == t[j - 1]);
                assert(r[i] == t[i - 1]);
            }
        }
        assert forall|k: int| 0 <= k < s.len() implies r.contains(#[trigger] s[k]) by {
            if k == s.len() - 1 {
                assert(r[p] == x);
            } else {
                assert(s[k] == s.drop_last()[k]);
                let m = choose|m: int| 0 <= m < t.len() && t[m] == s.drop_last()[k];
                if m < p {
                    assert(r[m] == t[m]);
                } else {
                    assert(r[m + 1] == t[m]);
                }
            }
        }
    }
}

proof fn lemma_dedup_last_from(s: Seq<InstalledSoftware>)
    requires
        s.len() > 0,
    ensures
        exists|k: int| 0 <= k < s.len() && dedup_software(s).last() == #[trigger] s[k],
    decreases s.len(),
{
    if s.len() <= 1 {
        assert(dedup_software(s).last() == s[0]);
    } else {
        let d = dedup_software(s.drop_last());
        lemma_dedup_last_from(s.drop_last());
        if same_product(s.last(), d.last()) {
            let k = choose|k: int| 0 <= k < s.drop_last().len() && d.last() == #[trigger] s.drop_last()[k];
            assert(s[k] == s.drop_last()[k]);
        } else {
            assert(dedup_software(s).last() == s[s.len() - 1]);
        }
    }
}

proof fn lemma_dedup_props(s: Seq<InstalledSoftware>)
    requires
        is_sorted_software(s),
    ensures
        is_strictly_sorted_software(dedup_software(s)),
        forall|k: int| 0 <= k < s.len() ==> exists|i: int|
            0 <= i < dedup_software(s).len() && same_product(#[trigger] s[k], dedup_software(s)[i]),
    decreases s.len(),
{
    if s.len() == 1 {
        assert(same_product(s[0], dedup_software(s)[0]));
    } else if s.len() > 1 {
        let s0 = s.drop_last();
        let d = dedup_software(s0);
        let x = s.last();
        assert(is_sorted_software(s0)) by {
            assert forall|i: int, j: int| 0 <= i < j < s0.len() implies !sorts_before(#[trigger] s0[j], #[trigger] s0[i]) by {
                assert(s0[i] == s[i] && s0[j] == s[j]);
            }
        }
        lemma_dedup_props(s0);
        lemma_dedup_nonempty(s0);
        lemma_dedup_last_from(s0);
        let m = choose|k: int| 0 <= k < s0.len() && d.last() == #[trigger] s0[k];
        assert(s0[m] == s[m]);
        assert(!sorts_before(x, d.last()));
        let r = dedup_software(s);
        if !same_product(x, d.last()) {
            lemma_sorts_before_order(d.last(), x, d.last());
            assert(r == d.push(x));
            assert forall|i: int, j: int| 0 <= i < j < r.len() implies sorts_before(#[trigger] r[i], #[trigger] r[j]) by {
                if j == d.len() {
                    if i < d.len() - 1 {
                        lemma_sorts_before_order(d[i], d.last(), x);
                    }
                } else {
                    assert(r[i] == d[i] && r[j] == d[j]);
                }
            }
        }
        assert forall|k: int| 0 <= k < s.len() implies exists|i: int|
            0 <= i < r.len() && same_product(#[trigger] s[k], r[i]) by {
            if k == s.len() - 1 {
                if same_product(x, d.last()) {
                    assert(same_product(s[k], r[d.len() - 1]));
                } else {
                    assert(same_product(s[k], r[d.len() as int]));
                }
            } else {
                assert(s[k] == s0[k]);
                let i = choose|i: int| 0 <= i < d.len() && same_product(s0[k], d[i]);
                assert(r[i] == d[i]);
            }
        }
    }
}

/// The inventory names each product once: every entry read is in it under
/// the same name ignoring ASCII case and the same version, its products come
/// in strictly increasing order, and no two of them are the same product.
pub proof fn lemma_sort_and_dedup_once(s: Seq<InstalledSoftware>)
    ensures
        is_strictly_sorted_software(dedup_software(sort_software(s))),
        forall|i: int, j: int| 0 <= i < j < dedup_software(sort_software(s)).len() ==>
            !same_product(#[trigger] dedup_software(sort_software(s))[i], #[trigger] dedup_software(sort_software(s))[j]),
        forall|k: int| 0 <= k < s.len() ==> exists|i: int|
            0 <= i < dedup_software(sort_software(s)).len()
            && same_product(#[trigger] s[k], dedup_software(sort_software(s))[i]),
{
    let t = sort_software(s);
    let r = dedup_software(t);
    lemma_sort_software_props(s);
    lemma_dedup_props(t);
    assert forall|i: int, j: int| 0 <= i < j < r.len() implies !same_product(#[trigger] r[i], #[trigger] r[j]) by {
        lemma_sorts_before_order(r[i], r[j], r[i]);
    }
    assert forall|k: int| 0 <= k < s.len() implies exists|i: int|
        0 <= i < r.len() && same_product(#[trigger] s[k], r[i]) by {
        assert(t.contains(s[k]));
        let m = choose|m: int| 0 <= m < t.len() && t[m] == s[k];
        let i = choose|i: int| 0 <= i < r.len() && same_product(#[trigger] t[m], r[i]);
    }
}

/// The products sorted by lowercase name and version, without duplicates
/// (see `sort_software` and `dedup_software`).
pub fn sort_and_dedup(entries: Vec<InstalledSoftware>) -> (r: Vec<InstalledSoftware>)
    ensures
        r@ == dedup_software(sort_software(entries@)),
{
    let ghost orig = entries@;
    let mut rest = entries;
    let mut sorted: Vec<InstalledSoftware> = Vec::new();
    let ghost mut i: int = 0;
    while rest.len() > 0
        invariant
            0 <= i <= orig.len(),
            rest@ == orig.skip(i),
            sorted@ == sort_software(orig.take(i)),
        decreases rest.len(),
    {
        let e = rest.remove(0);
        proof {
            assert(e == orig[i]);
            assert(orig.take(i + 1).drop_last() =~= orig.take(i));
            assert(orig.take(i + 1).last() == orig[i]);
        }
        let mut p: usize = 0;
        while p < sorted.len() && !software_sorts_before(&e, &sorted[p])
            invariant
                p <= sorted.len(),
                forall|k: int| 0 <= k < p ==> !sorts_before(e, #[trigger] sorted@[k]),
            decreases sorted.len() - p,
        {
            p = p + 1;
        }
        proof {
            lemma_sort_position_unique(sorted@, e, p as int);
        }
        sorted.insert(p, e);
        proof {
            assert(rest@ =~= orig.skip(i + 1));
            i = i + 1;
        }
    }
    assert(orig.take(i) =~= orig);
    let ghost s = sorted@;
    let mut out: Vec<InstalledSoftware> = Vec::new();
    let mut rest2 = sorted;
    let ghost mut j: int = 0;
    while rest2.len() > 0
        invariant
            0 <= j <= s.len(),
            rest2@ == s.skip(j),
            out@ == dedup_software(s.take(j)),
        decreases rest2.len(),
    {
        let e = rest2.remove(0);
        proof {
            assert(e == s[j]);
            assert(s.take(j + 1).drop_last() =~= s.take(j));
            assert(s.take(j + 1).last() == s[j]);
            lemma_dedup_nonempty(s.take(j));
        }
        if out.len() == 0 {
            out.push(e);
            proof {
                assert(j == 0);
                assert(s.take(1) =~= seq![e]);
                assert(out@ =~= seq![e]);
            }
        } else {
            let last = out.len() - 1;
            let dup = {
                let a = to_chars(e.name.as_str());
                let b = to_chars(out[last].name.as_str());
                eq_ignore_ascii_case(a.as_slice(), b.as_slice()) && opt_string_eq(&e.version, &out[last].version)
            };
            assert(out@[last as int] == out@.last());
            if !dup {
                out.push(e);
            }
        }
        proof {
            assert(rest2@ =~= s.skip(j + 1));
            j = j + 1;
        }
    }
    assert(s.take(j) =~= s);
    out
}

} // verus!
