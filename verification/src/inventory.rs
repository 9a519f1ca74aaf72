//! Best-effort hardware inventory: CPU brand selection, memory and OS
//! fields, and the heuristic that picks a dedicated GPU out of a list of
//! raw device-name strings.

use vstd::prelude::*;
use vstd::string::*;

use crate::text::{
    chars_of, contains_sub, is_substr, lower_chars, lower_seq, trim_seq, trim_str,
};

verus! {

/// Read-only snapshot of host facts, computed fresh on every request.
pub struct SystemInfoEnvelope {
    pub ok: bool,
    pub cpu: String,
    pub memory_total_mb: u64,
    pub os: String,
    pub dgpu: Option<String>,
}

/// Substrings that mark a device name as a dedicated-GPU product line.
pub open spec fn discrete_markers() -> Seq<Seq<char>> {
    seq![
        "rtx"@,
        "gtx"@,
        "rx "@,
        "arc "@,
        "radeon pro"@,
        "geforce"@,
        "quadro"@,
        "radeon rx"@,
    ]
}

/// Substrings that mark a device name as an integrated-graphics product
/// line.
pub open spec fn integrated_markers() -> Seq<Seq<char>> {
    seq!["uhd"@, "iris"@, "vega"@, "780m"@]
}

/// The name, lowercased, contains a dedicated-GPU marker.
pub open spec fn looks_discrete(name: Seq<char>) -> bool {
    exists|j: int|
        0 <= j < discrete_markers().len() && is_substr(
            lower_seq(name),
            #[trigger] discrete_markers()[j],
        )
}

/// The name, lowercased, contains an integrated-graphics marker.
pub open spec fn looks_integrated(name: Seq<char>) -> bool {
    exists|j: int|
        0 <= j < integrated_markers().len() && is_substr(
            lower_seq(name),
            #[trigger] integrated_markers()[j],
        )
}

/// A name that is taken as a dedicated GPU outright: discrete-looking and
/// not integrated-looking.
pub open spec fn wins(name: Seq<char>) -> bool {
    looks_discrete(name) && !looks_integrated(name)
}

/// `i` is the position of the first name taken as a dedicated GPU.
pub open spec fn first_winner(names: Seq<Seq<char>>, i: int) -> bool {
    0 <= i < names.len() && wins(names[i]) && (forall|j: int|
        0 <= j < i ==> !wins(#[trigger] names[j]))
}

/// `i` is the position of the first name that is not integrated-looking:
/// the fallback candidate.
pub open spec fn first_fallback(names: Seq<Seq<char>>, i: int) -> bool {
    0 <= i < names.len() && !looks_integrated(names[i]) && (forall|j: int|
        0 <= j < i ==> looks_integrated(#[trigger] names[j]))
}

/// Exactly the result of the dedicated-GPU heuristic on `names`: the
/// first name that is discrete-looking and not integrated-looking; else
/// the first name that is not integrated-looking; else nothing.
pub open spec fn is_gpu_pick(names: Seq<Seq<char>>, r: Option<Seq<char>>) -> bool {
    &&& (r is None <==> (forall|i: int|
        0 <= i < names.len() ==> looks_integrated(#[trigger] names[i])))
    &&& (forall|i: int| #[trigger] first_winner(names, i) ==> r == Some(names[i]))
    &&& ((forall|i: int| 0 <= i < names.len() ==> !wins(#[trigger] names[i])) ==> (forall|i: int|
        #[trigger] first_fallback(names, i) ==> r == Some(names[i])))
}

/// The views of a list of strings.
pub open spec fn string_views(names: Seq<String>) -> Seq<Seq<char>> {
    names.map_values(|s: String| s@)
}

/// The view of an optional string.
pub open spec fn opt_string_view(r: Option<String>) -> Option<Seq<char>> {
    match r {
        Some(s) => Some(s@),
        None => None,
    }
}

fn discrete_marker_list() -> (r: Vec<Vec<char>>)
    ensures
        r@.len() == discrete_markers().len(),
        forall|j: int| 0 <= j < r@.len() ==> #[trigger] r@[j]@ == discrete_markers()[j],
{
    let mut r: Vec<Vec<char>> = Vec::new();
    r.push(chars_of("rtx"));
    r.push(chars_of("gtx"));
    r.push(chars_of("rx "));
    r.push(chars_of("arc "));
    r.push(chars_of("radeon pro"));
    r.push(chars_of("geforce"));
    r.push(chars_of("quadro"));
    r.push(chars_of("radeon rx"));
    r
}

fn integrated_marker_list() -> (r: Vec<Vec<char>>)
    ensures
        r@.len() == integrated_markers().len(),
        forall|j: int| 0 <= j < r@.len() ==> #[trigger] r@[j]@ == integrated_markers()[j],
{
    let mut r: Vec<Vec<char>> = Vec::new();
    r.push(chars_of("uhd"));
    r.push(chars_of("iris"));
    r.push(chars_of("vega"));
    r.push(chars_of("780m"));
    r
}

fn has_marker(lowered: &Vec<char>, markers: &Vec<Vec<char>>) -> (r: bool)
    ensures
        r == exists|j: int|
            0 <= j < markers@.len() && is_substr(lowered@, #[trigger] markers@[j]@),
{
    let mut i: usize = 0;
    while i < markers.len()
        invariant
            i <= markers@.len(),
            forall|j: int| 0 <= j < i ==> !is_substr(lowered@, #[trigger] markers@[j]@),
        decreases markers@.len() - i,
    {
        if contains_sub(lowered, &markers[i]) {
            return true;
        }
        i = i + 1;
    }
    false
}

/// Classify one raw device name: discrete-looking, integrated-looking.
fn classify_name(name: &String) -> (r: (bool, bool))
    ensures
        r.0 == looks_discrete(name@),
        r.1 == looks_integrated(name@),
{
    let cs = chars_of(name.as_str());
    let low = lower_chars(&cs);
    let dm = discrete_marker_list();
    let im = integrated_marker_list();
    let d = has_marker(&low, &dm);
    let ig = has_marker(&low, &im);
    proof {
        if d {
            let j = choose|j: int| 0 <= j < dm@.len() && is_substr(low@, #[trigger] dm@[j]@);
            assert(is_substr(lower_seq(name@), discrete_markers()[j]));
        }
        if looks_discrete(name@) {
            let j = choose|j: int|
                0 <= j < discrete_markers().len() && is_substr(
                    lower_seq(name@),
                    #[trigger] discrete_markers()[j],
                );
            assert(is_substr(low@, dm@[j]@));
        }
        if ig {
            let j = choose|j: int| 0 <= j < im@.len() && is_substr(low@, #[trigger] im@[j]@);
            assert(is_substr(lower_seq(name@), integrated_markers()[j]));
        }
        if looks_integrated(name@) {
            let j = choose|j: int|
                0 <= j < integrated_markers().len() && is_substr(
                    lower_seq(name@),
                    #[trigger] integrated_markers()[j],
                );
            assert(is_substr(low@, im@[j]@));
        }
    }
    (d, ig)
}

/// Pick a dedicated GPU out of an ordered list of raw device names:
/// return the first name that is discrete-looking and not
/// integrated-looking; failing that, the first name that is not
/// integrated-looking; failing that, nothing. A heuristic, not an
/// authoritative device-class lookup.
pub fn pick_dedicated_gpu(names: &Vec<String>) -> (r: Option<String>)
    ensures
        is_gpu_pick(string_views(names@), opt_string_view(r)),
{
    let ghost vs = string_views(names@);
    let mut best: Option<String> = None;
    let ghost mut best_idx: int = 0;
    let mut i: usize = 0;
    while i < names.len()
        invariant
            vs == string_views(names@),
            vs.len() == names@.len(),
            i <= names@.len(),
            forall|j: int| 0 <= j < i ==> !wins(#[trigger] vs[j]),
            best is None ==> forall|j: int| 0 <= j < i ==> looks_integrated(#[trigger] vs[j]),
            best matches Some(b) ==> {
                &&& 0 <= best_idx < i
                &&& b@ == vs[best_idx]
                &&& !looks_integrated(vs[best_idx])
                &&& forall|k: int| 0 <= k < best_idx ==> looks_integrated(#[trigger] vs[k])
            },
        decreases names@.len() - i,
    {
        let (d, ig) = classify_name(&names[i]);
        proof {
            assert(vs[i as int] == names@[i as int]@);
        }
        if d && !ig {
            let picked = Some(names[i].clone());
            proof {
                let ghost rv = opt_string_view(picked);
                assert(wins(vs[i as int]));
                assert(first_winner(vs, i as int));
                assert forall|t: int| #[trigger] first_winner(vs, t) implies rv == Some(vs[t]) by {
                    if t < i as int {
                        assert(!wins(vs[t]));
                    }
                    if (i as int) < t {
                        assert(!wins(vs[i as int]));
                    }
                }
                assert(!looks_integrated(vs[i as int]));
            }
            return picked;
        }
        if best.is_none() && !ig {
            best = Some(names[i].clone());
            proof {
                best_idx = i as int;
            }
        }
        i = i + 1;
    }
    proof {
        let ghost rv = opt_string_view(best);
        match &best {
            None => {
                assert(rv is None);
            },
            Some(b) => {
                assert(!looks_integrated(vs[best_idx]));
                assert forall|t: int| #[trigger] first_fallback(vs, t) implies rv == Some(vs[t]) by {
                    if t < best_idx {
                        assert(looks_integrated(vs[t]));
                    }
                    if best_idx < t {
                        assert(!looks_integrated(vs[best_idx]));
                    }
                }
            },
        }
    }
    best
}

/// Length of the prefix of `s` before its first newline; `s.len()` when
/// there is none.
pub open spec fn first_nl(s: Seq<char>) -> int
    decreases s.len(),
{
    if s.len() == 0 {
        0
    } else if s[0] == '\n' {
        0
    } else {
        1 + first_nl(s.drop_first())
    }
}

/// The pieces of `s` between newlines, in order.
pub open spec fn split_lines(s: Seq<char>) -> Seq<Seq<char>>
    decreases s.len(),
{
    if s.len() == 0 {
        Seq::empty()
    } else {
        let k = first_nl(s);
        if 0 <= k < s.len() {
            seq![s.subrange(0, k)] + split_lines(s.subrange(k + 1, s.len() as int))
        } else {
            seq![s]
        }
    }
}

/// Trim every line and keep the non-empty ones, in order.
pub open spec fn clean_lines(ls: Seq<Seq<char>>) -> Seq<Seq<char>>
    decreases ls.len(),
{
    if ls.len() == 0 {
        Seq::empty()
    } else if trim_seq(ls[0]).len() > 0 {
        seq![trim_seq(ls[0])] + clean_lines(ls.drop_first())
    } else {
        clean_lines(ls.drop_first())
    }
}

/// The device names carried by the raw multi-line enumerator output:
/// each line trimmed, blank lines dropped.
pub open spec fn spec_gpu_names(raw: Seq<char>) -> Seq<Seq<char>> {
    clean_lines(split_lines(raw))
}

proof fn lemma_first_nl(s: Seq<char>, k: int)
    requires
        0 <= k <= s.len(),
        forall|i: int| 0 <= i < k ==> s[i] != '\n',
        k < s.len() ==> s[k] == '\n',
    ensures
        first_nl(s) == k,
    decreases k,
{
    if k > 0 {
        lemma_first_nl(s.drop_first(), k - 1);
    }
}

/// Turn the raw output of the platform GPU enumerator into the list of
/// device names: one name per line, trimmed, blank lines dropped.
pub fn parse_gpu_names(raw: &str) -> (r: Vec<String>)
    ensures
        string_views(r@) == spec_gpu_names(raw@),
{
    let mut r: Vec<String> = Vec::new();
    let mut rest: &str = raw;
    let mut n: usize = rest.unicode_len();
    proof {
        assert(string_views(r@) =~= Seq::<Seq<char>>::empty());
        assert(string_views(r@) + clean_lines(split_lines(rest@)) =~= spec_gpu_names(raw@));
    }
    while n > 0
        invariant
            n == rest@.len(),
            string_views(r@) + clean_lines(split_lines(rest@)) == spec_gpu_names(raw@),
        decreases n,
    {
        let ghost prev = rest@;
        let ghost r_before = r@;
        let mut k: usize = 0;
        while k < n && rest.get_char(k) != '\n'
            invariant
                n == rest@.len(),
                k <= n,
                forall|i: int| 0 <= i < k ==> rest@[i] != '\n',
            decreases n - k,
        {
            k = k + 1;
        }
        proof {
            lemma_first_nl(rest@, k as int);
        }
        let piece = rest.substring_char(0, k);
        let t = trim_str(piece);
        let ghost pushed: Seq<Seq<char>> = if trim_seq(piece@).len() > 0 {
            seq![trim_seq(piece@)]
        } else {
            Seq::empty()
        };
        if t.unicode_len() > 0 {
            r.push(t.to_owned());
        }
        proof {
            assert(string_views(r@) =~= string_views(r_before) + pushed);
        }
        let ghost taken = split_lines(prev);
        if k == n {
            rest = rest.substring_char(n, n);
            n = 0;
            proof {
                assert(piece@ =~= prev);
                assert(taken == seq![prev]);
                assert(rest@ =~= Seq::<char>::empty());
                assert(taken[0] == prev);
                assert(taken.drop_first() =~= Seq::<Seq<char>>::empty());
                assert(clean_lines(Seq::<Seq<char>>::empty()) == Seq::<Seq<char>>::empty());
                if trim_seq(prev).len() > 0 {
                    assert(clean_lines(taken) == seq![trim_seq(prev)] + clean_lines(
                        taken.drop_first(),
                    ));
                }
                assert(clean_lines(taken) =~= pushed);
                assert(clean_lines(split_lines(rest@)) =~= Seq::<Seq<char>>::empty());
                assert(string_views(r@) + clean_lines(split_lines(rest@)) =~= string_views(
                    r_before,
                ) + clean_lines(taken));
            }
        } else {
            let next = rest.substring_char(k + 1, n);
            proof {
                assert(next@ =~= prev.subrange(k as int + 1, prev.len() as int));
                let tail = split_lines(next@);
                assert(taken == seq![prev.subrange(0, k as int)] + tail);
                assert(taken[0] == prev.subrange(0, k as int));
                assert(taken.drop_first() =~= tail);
                assert(piece@ == prev.subrange(0, k as int));
                assert(clean_lines(taken) =~= pushed + clean_lines(tail));
                assert((string_views(r_before) + pushed) + clean_lines(tail) =~= string_views(
                    r_before,
                ) + (pushed + clean_lines(tail)));
            }
            rest = next;
            n = n - (k + 1);
        }
    }
    proof {
        assert(clean_lines(split_lines(rest@)) =~= Seq::<Seq<char>>::empty());
        assert(string_views(r@) + clean_lines(split_lines(rest@)) =~= string_views(r@));
    }
    r
}

/// The first processing-unit brand whose trimmed form is non-empty,
/// trimmed; empty when there is none.
pub open spec fn first_unit_brand(units: Seq<Seq<char>>) -> Seq<char>
    decreases units.len(),
{
    if units.len() == 0 {
        Seq::empty()
    } else if trim_seq(units[0]).len() > 0 {
        trim_seq(units[0])
    } else {
        first_unit_brand(units.drop_first())
    }
}

/// The CPU brand the envelope reports: the trimmed aggregate brand when
/// non-empty, else the first non-empty trimmed per-unit brand, else empty.
pub open spec fn spec_cpu_brand(global: Seq<char>, units: Seq<Seq<char>>) -> Seq<char> {
    if trim_seq(global).len() > 0 {
        trim_seq(global)
    } else {
        first_unit_brand(units)
    }
}

/// Resolve the CPU brand from the aggregate brand string and the
/// per-unit brand strings.
pub fn choose_cpu_brand(global: &String, units: &Vec<String>) -> (r: String)
    ensures
        r@ == spec_cpu_brand(global@, string_views(units@)),
{
    let ghost uv = string_views(units@);
    let g = trim_str(global.as_str());
    if g.unicode_len() > 0 {
        return g.to_owned();
    }
    let mut i: usize = 0;
    proof {
        assert(uv.skip(0) =~= uv);
    }
    while i < units.len()
        invariant
            uv == string_views(units@),
            uv.len() == units@.len(),
            i <= units@.len(),
            trim_seq(global@).len() == 0,
            first_unit_brand(uv) == first_unit_brand(uv.skip(i as int)),
            forall|j: int| 0 <= j < i ==> trim_seq(#[trigger] uv[j]).len() == 0,
        decreases units@.len() - i,
    {
        proof {
            assert(uv[i as int] == units@[i as int]@);
            assert(uv.skip(i as int)[0] == uv[i as int]);
        }
        let u = trim_str(units[i].as_str());
        if u.unicode_len() > 0 {
            return u.to_owned();
        }
        proof {
            assert(uv.skip(i as int).drop_first() =~= uv.skip(i as int + 1));
        }
        i = i + 1;
    }
    proof {
        assert(uv.skip(i as int) =~= Seq::<Seq<char>>::empty());
    }
    String::new()
}

/// Assemble the system-information envelope from raw host facts: the
/// aggregate CPU brand, the per-unit CPU brands, the total memory in
/// bytes, the OS display name if the host reports one, and the raw GPU
/// device names.
pub fn build_system_info(
    global_cpu_brand: &String,
    unit_brands: &Vec<String>,
    total_memory_bytes: u64,
    os_name: Option<String>,
    gpu_names: &Vec<String>,
) -> (r: SystemInfoEnvelope)
    ensures
        r.ok,
        r.cpu@ == spec_cpu_brand(global_cpu_brand@, string_views(unit_brands@)),
        r.memory_total_mb == total_memory_bytes / 1024 / 1024,
        (os_name matches Some(n) ==> r.os@ == n@),
        (os_name is None ==> r.os@ == "Unknown OS"@),
        is_gpu_pick(string_views(gpu_names@), opt_string_view(r.dgpu)),
{
    let cpu = choose_cpu_brand(global_cpu_brand, unit_brands);
    let mem_mb: u64 = total_memory_bytes / 1024 / 1024;
    let os: String = match os_name {
        Some(n) => n,
        None => "Unknown OS".to_owned(),
    };
    let dgpu = pick_dedicated_gpu(gpu_names);
    SystemInfoEnvelope { ok: true, cpu, memory_total_mb: mem_mb, os, dgpu }
}

} // verus!
