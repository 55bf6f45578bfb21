use crate::api::github::RepositoryNode;
use crate::api::wakatime::Entry;
use crate::data::language::{get_lang_color, spec_lang_color};
use crate::data::theme::{spec_theme_data, Theme, ThemeData};
use crate::prepared_templates::{spec_error_lines, PreparedTemplate};
use crate::templates::ErrorTemplate;
use crate::utils::utils::{
    join_with, sat_add_u64, spec_cap_u64, spec_digits, spec_join_with, str_eq, u64_to_string,
};
use vstd::prelude::*;
use vstd::string::*;

verus! {

/// Query parameters of a language-bar card request.
#[derive(Debug, Clone)]
pub struct Params {
    pub username: String,
    pub theme: Option<Theme>,
}

/// The stacked bar is this many pixels wide at 100 %.
pub const MAX_BAR_WIDTH: u64 = 275;

/// One displayed language: name, resolved color, and its share in
/// hundredths of a percent (4512 stands for 45.12 %).
#[derive(Debug, Clone)]
pub struct LanguageStat {
    pub name: String,
    pub color: String,
    pub percent: u32,
}

/// A raw (name, weight) pair before renormalization.
#[derive(Debug, Clone)]
pub struct MinimalLanguageStat {
    pub name: String,
    pub count: u64,
}

/// The filled language-bar card: markup fragments plus the palette.
#[derive(Debug)]
pub struct CompactLanguagesTemplate {
    pub name: String,
    pub stats_bar: String,
    pub bar_legend: String,
    pub theme_data: ThemeData,
}

/// The (name, byte-size) pairs of an aggregation table, as values.
pub open spec fn spec_pairs_view(v: Seq<(String, u64)>) -> Seq<(Seq<char>, int)> {
    v.map_values(|p: (String, u64)| (p.0@, p.1 as int))
}

/// First index from i on whose name matches, else -1.
pub open spec fn spec_find_entry(acc: Seq<(Seq<char>, int)>, i: int, name: Seq<char>) -> int
    decreases acc.len() - i,
{
    if i < 0 || i >= acc.len() {
        -1
    } else if acc[i].0 == name {
        i
    } else {
        spec_find_entry(acc, i + 1, name)
    }
}

/// Fold one (name, size) pair into the table: add to the first entry
/// of that name, else append a new entry, keeping first-seen order.
pub open spec fn spec_upsert(acc: Seq<(Seq<char>, int)>, name: Seq<char>, size: int) -> Seq<
    (Seq<char>, int),
> {
    let idx = spec_find_entry(acc, 0, name);
    if idx == -1 {
        acc.push((name, size))
    } else {
        acc.update(idx, (acc[idx].0, spec_cap_u64(acc[idx].1 + size)))
    }
}

/// The (name, size) pairs of one repository's language edges.
pub open spec fn spec_node_pairs(n: RepositoryNode) -> Seq<(Seq<char>, int)> {
    n.languages.edges@.map_values(|e: crate::api::github::LanguageEdge| (e.node.name@, e.size as int))
}

/// Fold a pair list into the table, from position i on.
pub open spec fn spec_agg_list(
    acc: Seq<(Seq<char>, int)>,
    pairs: Seq<(Seq<char>, int)>,
    i: int,
) -> Seq<(Seq<char>, int)>
    decreases pairs.len() - i,
{
    if i < 0 || i >= pairs.len() {
        acc
    } else {
        spec_agg_list(spec_upsert(acc, pairs[i].0, pairs[i].1), pairs, i + 1)
    }
}

/// Fold every node's edges into the table, from node i on.
pub open spec fn spec_agg_nodes(
    acc: Seq<(Seq<char>, int)>,
    nodes: Seq<RepositoryNode>,
    i: int,
) -> Seq<(Seq<char>, int)>
    decreases nodes.len() - i,
{
    if i < 0 || i >= nodes.len() {
        acc
    } else {
        spec_agg_nodes(spec_agg_list(acc, spec_node_pairs(nodes[i]), 0), nodes, i + 1)
    }
}

/// Total bytes per language over all repositories, first-seen order.
pub open spec fn spec_aggregate(nodes: Seq<RepositoryNode>) -> Seq<(Seq<char>, int)> {
    spec_agg_nodes(Seq::empty(), nodes, 0)
}

/// First index from i on with the largest size seen so far.
pub open spec fn spec_max_idx_from(s: Seq<(Seq<char>, int)>, i: int, best: int) -> int
    decreases s.len() - i,
{
    if i < 0 || i >= s.len() {
        best
    } else if 0 <= best < s.len() && s[i].1 > s[best].1 {
        spec_max_idx_from(s, i + 1, i)
    } else {
        spec_max_idx_from(s, i + 1, best)
    }
}

/// The k highest-share entries, in rank order; among equal sizes the
/// earlier (first-seen) entry ranks first.
pub open spec fn spec_top_k(s: Seq<(Seq<char>, int)>, k: int) -> Seq<(Seq<char>, int)>
    decreases k,
{
    if k <= 0 || s.len() == 0 {
        Seq::empty()
    } else {
        let m = spec_max_idx_from(s, 1, 0);
        if 0 <= m < s.len() {
            seq![s[m]] + spec_top_k(s.remove(m), k - 1)
        } else {
            Seq::empty()
        }
    }
}

/// Sum of the sizes from position i on.
pub open spec fn spec_sum_sizes(s: Seq<(Seq<char>, int)>, i: int) -> int
    decreases s.len() - i,
{
    if i < 0 || i >= s.len() {
        0
    } else {
        s[i].1 + spec_sum_sizes(s, i + 1)
    }
}

/// A share in hundredths of a percent: part of total, renormalized
/// against the displayed subset.
pub open spec fn spec_share_hundredths(size: int, total: int) -> int {
    if total > 0 {
        size * 10000 / total
    } else {
        0
    }
}

fn find_entry(entries: &Vec<(String, u64)>, name: &String) -> (r: Option<usize>)
    ensures
        match r {
            Some(idx) => idx < entries@.len() && spec_find_entry(
                spec_pairs_view(entries@),
                0,
                name@,
            ) == idx as int,
            None => spec_find_entry(spec_pairs_view(entries@), 0, name@) == -1,
        },
{
    let ghost pv = spec_pairs_view(entries@);
    let n = entries.len();
    let mut i: usize = 0;
    while i < n
        invariant
            pv == spec_pairs_view(entries@),
            n == entries@.len(),
            i <= n,
            spec_find_entry(pv, i as int, name@) == spec_find_entry(pv, 0, name@),
        decreases n - i,
    {
        proof {
            assert(pv[i as int] == (entries@[i as int].0@, entries@[i as int].1 as int));
        }
        if str_eq(entries[i].0.as_str(), name.as_str()) {
            return Some(i);
        }
        i += 1;
    }
    None
}

fn upsert(entries: &mut Vec<(String, u64)>, name: &String, size: u32)
    ensures
        spec_pairs_view(final(entries)@) == spec_upsert(
            spec_pairs_view(old(entries)@),
            name@,
            size as int,
        ),
{
    let ghost old_pv = spec_pairs_view(entries@);
    match find_entry(entries, name) {
        Some(idx) => {
            let (nm, sz) = entries.remove(idx);
            let bumped = sat_add_u64(sz, size as u64);
            entries.insert(idx, (nm, bumped));
            proof {
                assert(spec_pairs_view(entries@) =~= old_pv.update(
                    idx as int,
                    (old_pv[idx as int].0, spec_cap_u64(old_pv[idx as int].1 + size)),
                ));
            }
        },
        None => {
            entries.push((name.clone(), size as u64));
            proof {
                assert(spec_pairs_view(entries@) =~= old_pv.push((name@, size as int)));
            }
        },
    }
}

/// Aggregate each language's byte total over all repositories, in
/// first-seen order.
pub fn aggregate_languages(nodes: &Vec<RepositoryNode>) -> (r: Vec<(String, u64)>)
    ensures
        spec_pairs_view(r@) == spec_aggregate(nodes@),
{
    let mut entries: Vec<(String, u64)> = Vec::new();
    let mut ni: usize = 0;
    proof {
        assert(spec_pairs_view(entries@) =~= Seq::<(Seq<char>, int)>::empty());
    }
    while ni < nodes.len()
        invariant
            ni <= nodes@.len(),
            spec_agg_nodes(spec_pairs_view(entries@), nodes@, ni as int) == spec_aggregate(
                nodes@,
            ),
        decreases nodes@.len() - ni,
    {
        let node = &nodes[ni];
        let ghost pairs = spec_node_pairs(nodes@[ni as int]);
        let ghost inner_target = spec_agg_list(spec_pairs_view(entries@), pairs, 0);
        let mut ei: usize = 0;
        while ei < node.languages.edges.len()
            invariant
                ei <= node.languages.edges@.len(),
                pairs == spec_node_pairs(*node),
                spec_agg_list(spec_pairs_view(entries@), pairs, ei as int) == inner_target,
            decreases node.languages.edges@.len() - ei,
        {
            let edge = &node.languages.edges[ei];
            proof {
                assert(pairs[ei as int] == (edge.node.name@, edge.size as int));
            }
            upsert(&mut entries, &edge.node.name, edge.size);
            ei += 1;
        }
        ni += 1;
    }
    entries
}

fn max_idx(entries: &Vec<(String, u64)>) -> (r: usize)
    requires
        entries@.len() > 0,
    ensures
        r < entries@.len(),
        r as int == spec_max_idx_from(spec_pairs_view(entries@), 1, 0),
{
    let ghost pv = spec_pairs_view(entries@);
    let n = entries.len();
    let mut best: usize = 0;
    let mut i: usize = 1;
    while i < n
        invariant
            pv == spec_pairs_view(entries@),
            n == entries@.len(),
            n > 0,
            1 <= i <= n,
            best < i,
            spec_max_idx_from(pv, i as int, best as int) == spec_max_idx_from(pv, 1, 0),
        decreases n - i,
    {
        proof {
            assert(pv[i as int] == (entries@[i as int].0@, entries@[i as int].1 as int));
            assert(pv[best as int] == (entries@[best as int].0@, entries@[best as int].1 as int));
        }
        if entries[i].1 > entries[best].1 {
            best = i;
        }
        i += 1;
    }
    best
}

/// Keep the k highest-share entries, ranked, first-seen order on ties.
pub fn top_k_languages(entries: Vec<(String, u64)>, k: usize) -> (r: Vec<(String, u64)>)
    ensures
        spec_pairs_view(r@) == spec_top_k(spec_pairs_view(entries@), k as int),
        r@.len() <= k,
{
    let mut rest = entries;
    let mut out: Vec<(String, u64)> = Vec::new();
    let mut taken: usize = 0;
    proof {
        assert(spec_pairs_view(out@) =~= Seq::<(Seq<char>, int)>::empty());
    }
    let ghost target = spec_top_k(spec_pairs_view(rest@), k as int);
    while taken < k && rest.len() > 0
        invariant
            taken <= k,
            out@.len() == taken,
            spec_pairs_view(out@) + spec_top_k(spec_pairs_view(rest@), k - taken) == target,
        decreases k - taken,
    {
        let m = max_idx(&rest);
        let ghost old_rest = spec_pairs_view(rest@);
        let ghost old_out = spec_pairs_view(out@);
        let pair = rest.remove(m);
        out.push(pair);
        proof {
            assert(spec_pairs_view(rest@) =~= old_rest.remove(m as int));
            assert(spec_pairs_view(out@) =~= old_out.push(old_rest[m as int]));
            assert(spec_top_k(old_rest, k - taken) == seq![old_rest[m as int]] + spec_top_k(
                old_rest.remove(m as int),
                k - taken - 1,
            ));
            assert(spec_pairs_view(out@) + spec_top_k(spec_pairs_view(rest@), k - (taken + 1))
                =~= old_out + spec_top_k(old_rest, k - taken));
            assert(old_out + spec_top_k(old_rest, k - taken) == target) by {
                assert(old_out + spec_top_k(old_rest, k - taken) =~= old_out + (seq![
                    old_rest[m as int],
                ] + spec_top_k(old_rest.remove(m as int), k - taken - 1)));
            }
        }
        taken += 1;
    }
    proof {
        if taken >= k || rest@.len() == 0 {
            assert(spec_top_k(spec_pairs_view(rest@), k - taken) =~= Seq::<(
                Seq<char>,
                int,
            )>::empty());
            assert(spec_pairs_view(out@) + spec_top_k(spec_pairs_view(rest@), k - taken)
                =~= spec_pairs_view(out@));
        }
    }
    out
}

proof fn lemma_elem_le_sum(s: Seq<(Seq<char>, int)>, i: int, j: int)
    requires
        0 <= i <= j < s.len(),
        forall|t: int| 0 <= t < s.len() ==> #[trigger] s[t].1 >= 0,
    ensures
        s[j].1 <= spec_sum_sizes(s, i),
    decreases s.len() - i,
{
    if i < j {
        lemma_elem_le_sum(s, i + 1, j);
    } else {
        lemma_sum_sizes_nonneg(s, i + 1);
    }
}

proof fn lemma_sum_sizes_nonneg(s: Seq<(Seq<char>, int)>, i: int)
    requires
        forall|t: int| 0 <= t < s.len() ==> #[trigger] s[t].1 >= 0,
    ensures
        spec_sum_sizes(s, i) >= 0,
    decreases s.len() - i,
{
    if 0 <= i && i < s.len() {
        lemma_sum_sizes_nonneg(s, i + 1);
    }
}

/// The displayed ranking of a repository scan: the six largest
/// aggregated languages.
pub open spec fn spec_github_ranked(nodes: Seq<RepositoryNode>) -> Seq<(Seq<char>, int)> {
    spec_top_k(spec_aggregate(nodes), 6)
}

/// Build the displayed language list from a repository scan: aggregate
/// byte totals, rank, keep six, and renormalize shares against the
/// kept subset. An empty repository list means the subject has no
/// usable languages.
pub fn compute_github_top_langs(nodes: &Vec<RepositoryNode>) -> (r: Result<
    Vec<LanguageStat>,
    PreparedTemplate,
>)
    ensures
        nodes@.len() == 0 <==> r is Err,
        r matches Err(t) ==> t == PreparedTemplate::FailedFindLanguages,
        r matches Ok(v) ==> {
            let ranked = spec_github_ranked(nodes@);
            let total = spec_sum_sizes(ranked, 0);
            &&& v@.len() == ranked.len()
            &&& v@.len() <= 6
            &&& forall|i: int|
                0 <= i < v@.len() ==> {
                    &&& (#[trigger] v@[i]).name@ == ranked[i].0
                    &&& v@[i].color@ == spec_lang_color(ranked[i].0)
                    &&& v@[i].percent as int == spec_share_hundredths(ranked[i].1, total)
                    &&& v@[i].percent <= 10000
                }
        },
{
    if nodes.len() == 0 {
        return Err(PreparedTemplate::FailedFindLanguages);
    }
    let entries = aggregate_languages(nodes);
    let top = top_k_languages(entries, 6);
    let ghost ranked = spec_github_ranked(nodes@);
    proof {
        assert(forall|t: int| 0 <= t < ranked.len() ==> #[trigger] ranked[t].1 >= 0) by {
            assert(forall|t: int|
                0 <= t < ranked.len() ==> #[trigger] ranked[t] == spec_pairs_view(top@)[t]);
        }
    }
    // total bytes over the kept subset
    let mut total: u128 = 0;
    let mut i: usize = top.len();
    while i > 0
        invariant
            ranked == spec_pairs_view(top@),
            i <= top@.len(),
            total == spec_sum_sizes(ranked, i as int),
            forall|t: int| 0 <= t < ranked.len() ==> #[trigger] ranked[t].1 >= 0,
            top@.len() <= 6,
            total <= (top@.len() - i as int) * 0x1_0000_0000_0000_0000,
        decreases i,
    {
        i -= 1;
        proof {
            assert(ranked[i as int] == (top@[i as int].0@, top@[i as int].1 as int));
            lemma_sum_sizes_nonneg(ranked, i as int + 1);
        }
        total = total + (top[i].1 as u128);
    }
    let mut out: Vec<LanguageStat> = Vec::new();
    let mut j: usize = 0;
    while j < top.len()
        invariant
            ranked == spec_pairs_view(top@),
            j <= top@.len(),
            total == spec_sum_sizes(ranked, 0),
            forall|t: int| 0 <= t < ranked.len() ==> #[trigger] ranked[t].1 >= 0,
            out@.len() == j,
            forall|i2: int|
                0 <= i2 < j ==> {
                    &&& (#[trigger] out@[i2]).name@ == ranked[i2].0
                    &&& out@[i2].color@ == spec_lang_color(ranked[i2].0)
                    &&& out@[i2].percent as int == spec_share_hundredths(
                        ranked[i2].1,
                        spec_sum_sizes(ranked, 0),
                    )
                    &&& out@[i2].percent <= 10000
                },
        decreases top@.len() - j,
    {
        proof {
            assert(ranked[j as int] == (top@[j as int].0@, top@[j as int].1 as int));
        }
        let size = top[j].1;
        let percent: u32 = if total > 0 {
            proof {
                lemma_elem_le_sum(ranked, 0, j as int);
                assert(size as int * 10000 <= total as int * 10000) by (nonlinear_arith)
                    requires
                        size as int <= total as int,
                        size as int >= 0,
                ;
                assert(size as int * 10000 / (total as int) <= 10000) by (nonlinear_arith)
                    requires
                        size as int * 10000 <= total as int * 10000,
                        total as int > 0,
                ;
            }
            (size as u128 * 10000 / total) as u32
        } else {
            proof {
                lemma_elem_le_sum(ranked, 0, j as int);
                lemma_sum_sizes_nonneg(ranked, 0);
            }
            0
        };
        let name = top[j].0.clone();
        let color = get_lang_color(&name);
        out.push(LanguageStat { name, color, percent });
        j += 1;
    }
    Ok(out)
}

/// Sum of the shares of the first six entries, in hundredths.
pub open spec fn spec_waka_sum(langs: Seq<Entry>, i: int) -> int
    decreases 6 - i,
{
    if i < 0 || i >= 6 || i >= langs.len() {
        0
    } else {
        langs[i].percent_hundredths + spec_waka_sum(langs, i + 1)
    }
}

/// Build the displayed language list from a time-tracking breakdown:
/// the first six entries (or all of them when fewer), shares
/// renormalized against the displayed subset's sum. Only an empty
/// breakdown is unusable.
pub fn compute_waka_top_langs(languages: &Vec<Entry>) -> (r: Result<
    Vec<LanguageStat>,
    PreparedTemplate,
>)
    ensures
        languages@.len() == 0 <==> r is Err,
        r matches Err(t) ==> t == PreparedTemplate::FailedFindLanguages,
        r matches Ok(v) ==> {
            let shown: int = if languages@.len() < 6 {
                languages@.len() as int
            } else {
                6
            };
            let total = spec_waka_sum(languages@, 0);
            &&& v@.len() == shown
            &&& forall|i: int|
                0 <= i < shown ==> {
                    &&& (#[trigger] v@[i]).name@ == languages@[i].name@
                    &&& v@[i].color@ == spec_lang_color(languages@[i].name@)
                    &&& v@[i].percent as int == spec_share_hundredths(
                        languages@[i].percent_hundredths as int,
                        total,
                    )
                    &&& v@[i].percent <= 10000
                }
        },
{
    if languages.len() == 0 {
        return Err(PreparedTemplate::FailedFindLanguages);
    }
    let shown: usize = if languages.len() < 6 {
        languages.len()
    } else {
        6
    };
    let mut total: u64 = 0;
    let mut i: usize = shown;
    proof {
        assert(spec_waka_sum(languages@, shown as int) == 0);
    }
    while i > 0
        invariant
            shown <= 6,
            shown <= languages@.len(),
            i <= shown,
            total == spec_waka_sum(languages@, i as int),
            total <= (6 - i as int) * 0x1_0000_0000,
        decreases i,
    {
        i -= 1;
        total = total + (languages[i].percent_hundredths as u64);
        proof {
            lemma_waka_sum_nonneg(languages@, i as int + 1);
        }
    }
    let mut out: Vec<LanguageStat> = Vec::new();
    let mut j: usize = 0;
    while j < shown
        invariant
            shown <= 6,
            shown <= languages@.len(),
            j <= shown,
            total == spec_waka_sum(languages@, 0),
            out@.len() == j,
            forall|i2: int|
                0 <= i2 < j ==> {
                    &&& (#[trigger] out@[i2]).name@ == languages@[i2].name@
                    &&& out@[i2].color@ == spec_lang_color(languages@[i2].name@)
                    &&& out@[i2].percent as int == spec_share_hundredths(
                        languages@[i2].percent_hundredths as int,
                        spec_waka_sum(languages@, 0),
                    )
                    &&& out@[i2].percent <= 10000
                },
        decreases shown - j,
    {
        let p = languages[j].percent_hundredths;
        let percent: u32 = if total > 0 {
            proof {
                lemma_waka_elem_le_sum(languages@, 0, j as int);
                assert(p as int * 10000 <= total as int * 10000) by (nonlinear_arith)
                    requires
                        p as int <= total as int,
                        p as int >= 0,
                ;
                assert(p as int * 10000 / (total as int) <= 10000) by (nonlinear_arith)
                    requires
                        p as int * 10000 <= total as int * 10000,
                        total as int > 0,
                ;
            }
            ((p as u128) * 10000 / (total as u128)) as u32
        } else {
            0
        };
        let name = languages[j].name.clone();
        let color = get_lang_color(&name);
        out.push(LanguageStat { name, color, percent });
        j += 1;
    }
    Ok(out)
}

proof fn lemma_waka_sum_nonneg(langs: Seq<Entry>, i: int)
    ensures
        spec_waka_sum(langs, i) >= 0,
    decreases 6 - i,
{
    if 0 <= i && i < 6 && i < langs.len() {
        lemma_waka_sum_nonneg(langs, i + 1);
    }
}

proof fn lemma_waka_elem_le_sum(langs: Seq<Entry>, i: int, j: int)
    requires
        0 <= i <= j < 6,
        j < langs.len(),
    ensures
        langs[j].percent_hundredths <= spec_waka_sum(langs, i),
    decreases 6 - i,
{
    if i < j {
        lemma_waka_elem_le_sum(langs, i + 1, j);
    } else {
        lemma_waka_sum_nonneg(langs, i + 1);
    }
}

/// Classify a repository-languages query answer: an error payload goes
/// through the error decision table; a success payload whose user
/// field is null means the account does not exist (never an unknown
/// error); else the repository nodes are handed on.
pub fn normalize_languages(resp: crate::api::github::LanguagesResponse) -> (r: Result<
    Vec<RepositoryNode>,
    PreparedTemplate,
>)
    ensures
        match resp {
            crate::api::github::GraphQLResponse::Failed(err) => r matches Err(t) && t
                == crate::prepared_templates::spec_gh_error_class(err.message@),
            crate::api::github::GraphQLResponse::Valid(ok) => match ok.data.user {
                None => r matches Err(t) && t == PreparedTemplate::FailedFindUser,
                Some(user) => r matches Ok(nodes) && nodes == user.repositories.nodes,
            },
        },
{
    match resp {
        crate::api::github::GraphQLResponse::Failed(err) => Err(
            crate::prepared_templates::gh_handle_error_template(err),
        ),
        crate::api::github::GraphQLResponse::Valid(ok) => match ok.data.user {
            None => Err(PreparedTemplate::FailedFindUser),
            Some(user) => Ok(user.repositories.nodes),
        },
    }
}

/// The decision table for error payloads of the time-tracking API.
pub open spec fn spec_waka_error_class(error: Seq<char>) -> PreparedTemplate {
    if error == "Not found."@ {
        PreparedTemplate::FailedFindUser
    } else if error == "Time range not matching user's public stats range."@ {
        PreparedTemplate::FailedFindLanguages
    } else {
        PreparedTemplate::Unknown
    }
}

/// Classify a time-tracking statistics answer: an error payload goes
/// through its decision table; the reduced hidden-details shape means
/// no usable language data; else the statistics are handed on.
pub fn normalize_waka_stats(resp: crate::api::wakatime::StatsResponse) -> (r: Result<
    crate::api::wakatime::Stats,
    PreparedTemplate,
>)
    ensures
        match resp {
            crate::api::wakatime::StatsResponse::Failed(err) => r matches Err(t) && t
                == spec_waka_error_class(err.error@),
            crate::api::wakatime::StatsResponse::NoData(_) => r matches Err(t) && t
                == PreparedTemplate::FailedFindLanguages,
            crate::api::wakatime::StatsResponse::Valid(ok) => r matches Ok(s) && s == ok.data,
        },
{
    match resp {
        crate::api::wakatime::StatsResponse::Failed(err) => {
            if str_eq(err.error.as_str(), "Not found.") {
                Err(PreparedTemplate::FailedFindUser)
            } else if str_eq(
                err.error.as_str(),
                "Time range not matching user's public stats range.",
            ) {
                Err(PreparedTemplate::FailedFindLanguages)
            } else {
                Err(PreparedTemplate::Unknown)
            }
        },
        crate::api::wakatime::StatsResponse::NoData(_) => Err(
            PreparedTemplate::FailedFindLanguages,
        ),
        crate::api::wakatime::StatsResponse::Valid(ok) => Ok(ok.data),
    }
}

/// The cache fingerprint of a time-tracking language query.
pub open spec fn spec_waka_langs_cache_key(username: Seq<char>) -> Seq<char> {
    "wakatime:langs:"@ + username
}

/// Build the cache fingerprint of a time-tracking language query.
pub fn make_waka_langs_cache_key(username: &String) -> (r: String)
    ensures
        r@ == spec_waka_langs_cache_key(username@),
{
    let mut s = String::from_str("wakatime:langs:");
    s.append(username.as_str());
    s
}

/// The cache fingerprint of a repository-languages query.
pub open spec fn spec_github_langs_cache_key(username: Seq<char>) -> Seq<char> {
    "github:langs:"@ + username
}

/// Build the cache fingerprint of a repository-languages query.
pub fn make_github_langs_cache_key(username: &String) -> (r: String)
    ensures
        r@ == spec_github_langs_cache_key(username@),
{
    let mut s = String::from_str("github:langs:");
    s.append(username.as_str());
    s
}

/// Pixel width of one bar segment: the bar width scaled by the share.
pub open spec fn spec_bar_width(percent: int) -> int {
    MAX_BAR_WIDTH * percent / 10000
}

/// Sum of the segment widths from position i on.
pub open spec fn spec_sum_widths(stats: Seq<LanguageStat>, i: int) -> int
    decreases stats.len() - i,
{
    if i < 0 || i >= stats.len() {
        0
    } else {
        spec_bar_width(stats[i].percent as int) + spec_sum_widths(stats, i + 1)
    }
}

/// Sum of the shares from position i on, in hundredths.
pub open spec fn spec_sum_percents(stats: Seq<LanguageStat>, i: int) -> int
    decreases stats.len() - i,
{
    if i < 0 || i >= stats.len() {
        0
    } else {
        stats[i].percent + spec_sum_percents(stats, i + 1)
    }
}

proof fn lemma_widths_le_scaled(stats: Seq<LanguageStat>, i: int)
    requires
        0 <= i <= stats.len(),
    ensures
        spec_sum_widths(stats, i) <= MAX_BAR_WIDTH * spec_sum_percents(stats, i) / 10000,
    decreases stats.len() - i,
{
    if i < stats.len() {
        lemma_widths_le_scaled(stats, i + 1);
        lemma_sum_percents_nonneg(stats, i + 1);
        let p = stats[i].percent as int;
        let rest = spec_sum_percents(stats, i + 1);
        assert(MAX_BAR_WIDTH * p / 10000 + MAX_BAR_WIDTH * rest / 10000 <= MAX_BAR_WIDTH * (p
            + rest) / 10000) by (nonlinear_arith)
            requires
                p >= 0,
                rest >= 0,
        ;
        assert(MAX_BAR_WIDTH * (p + rest) == MAX_BAR_WIDTH * p + MAX_BAR_WIDTH * rest)
            by (nonlinear_arith);
    }
}

/// LAW — the stacked segments never overrun the bar: when the shares
/// sum to at most 100 % the segment widths sum to at most the fixed
/// bar width.
pub proof fn lemma_bar_widths_bounded(stats: Seq<LanguageStat>)
    requires
        spec_sum_percents(stats, 0) <= 10000,
    ensures
        spec_sum_widths(stats, 0) <= MAX_BAR_WIDTH,
{
    lemma_widths_le_scaled(stats, 0);
    lemma_sum_percents_nonneg(stats, 0);
    let s = spec_sum_percents(stats, 0);
    assert(MAX_BAR_WIDTH * s / 10000 <= MAX_BAR_WIDTH) by (nonlinear_arith)
        requires
            0 <= s <= 10000,
    ;
}

proof fn lemma_sum_percents_nonneg(stats: Seq<LanguageStat>, i: int)
    ensures
        spec_sum_percents(stats, i) >= 0,
    decreases stats.len() - i,
{
    if 0 <= i && i < stats.len() {
        lemma_sum_percents_nonneg(stats, i + 1);
    }
}

/// A share as text with two decimals: "45.12".
pub open spec fn spec_pct(p: int) -> Seq<char> {
    let frac = p % 100;
    let frac_digits = if frac <= 9 {
        seq!['0'] + spec_digits(frac)
    } else {
        spec_digits(frac)
    };
    spec_digits(p / 100) + seq!['.'] + frac_digits
}

fn pct_string(p: u32) -> (s: String)
    ensures
        s@ == spec_pct(p as int),
{
    let whole = u64_to_string((p / 100) as u64);
    let frac = p % 100;
    let mut s = whole;
    s.append(".");
    if frac <= 9 {
        s.append("0");
    }
    let frac_str = u64_to_string(frac as u64);
    s.append(frac_str.as_str());
    proof {
        reveal_strlit(".");
        reveal_strlit("0");
        assert(s@ =~= spec_pct(p as int));
    }
    s
}

/// One bar segment's markup.
pub open spec fn spec_bar_el(x: int, w: int, color: Seq<char>) -> Seq<char> {
    "<rect mask=\"url(#stats_mask)\" x=\""@ + spec_digits(x) + "\" y=\"61\" width=\""@
        + spec_digits(w) + "\" height=\"10\" fill=\""@ + color + "\" />"@
}

/// The bar segments from entry i on, edge to edge from position x.
pub open spec fn spec_bar_els(stats: Seq<LanguageStat>, i: int, x: int) -> Seq<Seq<char>>
    decreases stats.len() - i,
{
    if i < 0 || i >= stats.len() {
        Seq::empty()
    } else {
        let w = spec_bar_width(stats[i].percent as int);
        seq![spec_bar_el(x, w, stats[i].color@)] + spec_bar_els(stats, i + 1, x + w)
    }
}

/// The whole stacked bar, segments joined by line breaks, starting at
/// the fixed left margin.
pub open spec fn spec_stats_bar(stats: Seq<LanguageStat>) -> Seq<char> {
    spec_join_with(spec_bar_els(stats, 0, 20), "\n"@)
}

/// Legend column x: first three entries left, the rest right.
pub open spec fn spec_legend_x(i: int) -> int {
    if i < 3 {
        20
    } else {
        175
    }
}

/// Legend row y: a fixed step per row, reset at the column switch.
pub open spec fn spec_legend_y(i: int) -> int {
    if i < 3 {
        93 + 24 * i
    } else {
        93 + 24 * (i - 3)
    }
}

/// One legend entry's markup: a color dot and "name share%".
pub open spec fn spec_legend_el(i: int, stat: LanguageStat, text_color: Seq<char>) -> Seq<
    char,
> {
    "<g><rect x=\""@ + spec_digits(spec_legend_x(i)) + "\" y=\""@ + spec_digits(spec_legend_y(i))
        + "\" width=\"12\" height=\"12\" rx=\"6\" fill=\""@ + stat.color@ + "\" /><text x=\""@
        + spec_digits(spec_legend_x(i) + 18) + "\" y=\""@ + spec_digits(spec_legend_y(i) + 11)
        + "\" fill=\""@ + text_color + "\" class=\"stat-text\">"@ + stat.name@ + seq![' ']
        + spec_pct(stat.percent as int) + "%</text></g>"@
}

/// All legend entries from position i on.
pub open spec fn spec_legend_els(stats: Seq<LanguageStat>, i: int, text_color: Seq<char>) -> Seq<
    Seq<char>,
>
    decreases stats.len() - i,
{
    if i < 0 || i >= stats.len() {
        Seq::empty()
    } else {
        seq![spec_legend_el(i, stats[i], text_color)] + spec_legend_els(stats, i + 1, text_color)
    }
}

/// The whole legend, entries joined by line breaks.
pub open spec fn spec_bar_legend(stats: Seq<LanguageStat>, text_color: Seq<char>) -> Seq<char> {
    spec_join_with(spec_legend_els(stats, 0, text_color), "\n"@)
}

fn bar_el(x: u64, w: u64, color: &String) -> (r: String)
    ensures
        r@ == spec_bar_el(x as int, w as int, color@),
{
    let mut s = String::from_str("<rect mask=\"url(#stats_mask)\" x=\"");
    let xs = u64_to_string(x);
    s.append(xs.as_str());
    s.append("\" y=\"61\" width=\"");
    let ws = u64_to_string(w);
    s.append(ws.as_str());
    s.append("\" height=\"10\" fill=\"");
    s.append(color.as_str());
    s.append("\" />");
    proof {
        assert(s@ =~= spec_bar_el(x as int, w as int, color@));
    }
    s
}

fn legend_el(i: usize, stat: &LanguageStat, text_color: &String) -> (r: String)
    requires
        i <= 6,
    ensures
        r@ == spec_legend_el(i as int, *stat, text_color@),
{
    let sx: u64 = if i < 3 {
        20
    } else {
        175
    };
    let sy: u64 = if i < 3 {
        93 + 24 * (i as u64)
    } else {
        93 + 24 * (i as u64 - 3)
    };
    let mut s = String::from_str("<g><rect x=\"");
    let t1 = u64_to_string(sx);
    s.append(t1.as_str());
    s.append("\" y=\"");
    let t2 = u64_to_string(sy);
    s.append(t2.as_str());
    s.append("\" width=\"12\" height=\"12\" rx=\"6\" fill=\"");
    s.append(stat.color.as_str());
    s.append("\" /><text x=\"");
    let t3 = u64_to_string(sx + 18);
    s.append(t3.as_str());
    s.append("\" y=\"");
    let t4 = u64_to_string(sy + 11);
    s.append(t4.as_str());
    s.append("\" fill=\"");
    s.append(text_color.as_str());
    s.append("\" class=\"stat-text\">");
    s.append(stat.name.as_str());
    s.append(" ");
    let pct = pct_string(stat.percent);
    s.append(pct.as_str());
    s.append("%</text></g>");
    proof {
        reveal_strlit(" ");
        assert(s@ =~= spec_legend_el(i as int, *stat, text_color@));
    }
    s
}

/// Bind ranked language shares into the language-bar card: the stacked
/// bar segments laid edge to edge in rank order and the two-column
/// legend; a failure binds the matching error card instead.
pub fn render_top_langs(
    username: String,
    theme: Theme,
    top_langs_res: Result<Vec<LanguageStat>, PreparedTemplate>,
) -> (r: Result<CompactLanguagesTemplate, ErrorTemplate>)
    requires
        top_langs_res matches Ok(v) ==> v@.len() <= 6 && forall|i: int|
            0 <= i < v@.len() ==> (#[trigger] v@[i]).percent <= 10000,
    ensures
        top_langs_res matches Err(t) ==> r matches Err(e) && e.first_line@ == spec_error_lines(
            t,
        ).0 && e.second_line@ == spec_error_lines(t).1,
        top_langs_res matches Ok(v) ==> r matches Ok(c) && {
            &&& c.name@ == username@
            &&& c.stats_bar@ == spec_stats_bar(v@)
            &&& c.bar_legend@ == spec_bar_legend(v@, spec_theme_data(theme).text)
            &&& c.theme_data@ == spec_theme_data(theme)
        },
{
    let stats = match top_langs_res {
        Err(t) => {
            return Err(t.render());
        },
        Ok(stats) => stats,
    };
    let theme_data = theme.get_data();
    let ghost sv = stats@;
    let mut bar_parts: Vec<String> = Vec::new();
    let mut x: u64 = 20;
    let mut i: usize = 0;
    proof {
        assert(bar_parts@.map_values(|p: String| p@) =~= Seq::<Seq<char>>::empty());
    }
    while i < stats.len()
        invariant
            sv == stats@,
            sv.len() <= 6,
            forall|t: int| 0 <= t < sv.len() ==> (#[trigger] sv[t]).percent <= 10000,
            i <= sv.len(),
            x <= 20 + 275 * i,
            bar_parts@.map_values(|p: String| p@) + spec_bar_els(sv, i as int, x as int)
                == spec_bar_els(sv, 0, 20),
        decreases sv.len() - i,
    {
        let p64 = stats[i].percent as u64;
        let w: u64 = MAX_BAR_WIDTH * p64 / 10000;
        let el = bar_el(x, w, &stats[i].color);
        let ghost old_parts = bar_parts@.map_values(|p: String| p@);
        bar_parts.push(el);
        proof {
            assert(bar_parts@.map_values(|p: String| p@) =~= old_parts.push(
                spec_bar_el(x as int, w as int, sv[i as int].color@),
            ));
            assert(old_parts.push(spec_bar_el(x as int, w as int, sv[i as int].color@))
                + spec_bar_els(sv, i as int + 1, x as int + w as int) =~= old_parts
                + spec_bar_els(sv, i as int, x as int));
        }
        x = x + w;
        i += 1;
    }
    proof {
        assert(spec_bar_els(sv, sv.len() as int, x as int) =~= Seq::<Seq<char>>::empty());
        assert(bar_parts@.map_values(|p: String| p@) + Seq::<Seq<char>>::empty()
            =~= bar_parts@.map_values(|p: String| p@));
    }
    let stats_bar = join_with(&bar_parts, "\n");
    let mut legend_parts: Vec<String> = Vec::new();
    let mut j: usize = 0;
    proof {
        assert(legend_parts@.map_values(|p: String| p@) =~= Seq::<Seq<char>>::empty());
    }
    while j < stats.len()
        invariant
            sv == stats@,
            sv.len() <= 6,
            j <= sv.len(),
            theme_data@ == spec_theme_data(theme),
            legend_parts@.map_values(|p: String| p@) + spec_legend_els(
                sv,
                j as int,
                spec_theme_data(theme).text,
            ) == spec_legend_els(sv, 0, spec_theme_data(theme).text),
        decreases sv.len() - j,
    {
        let el = legend_el(j, &stats[j], &theme_data.text);
        let ghost old_parts = legend_parts@.map_values(|p: String| p@);
        legend_parts.push(el);
        proof {
            assert(legend_parts@.map_values(|p: String| p@) =~= old_parts.push(
                spec_legend_el(j as int, sv[j as int], spec_theme_data(theme).text),
            ));
            assert(old_parts.push(spec_legend_el(j as int, sv[j as int], spec_theme_data(theme).text))
                + spec_legend_els(sv, j as int + 1, spec_theme_data(theme).text) =~= old_parts
                + spec_legend_els(sv, j as int, spec_theme_data(theme).text));
        }
        j += 1;
    }
    proof {
        assert(spec_legend_els(sv, sv.len() as int, spec_theme_data(theme).text) =~= Seq::<
            Seq<char>,
        >::empty());
        assert(legend_parts@.map_values(|p: String| p@) + Seq::<Seq<char>>::empty()
            =~= legend_parts@.map_values(|p: String| p@));
    }
    let bar_legend = join_with(&legend_parts, "\n");
    Ok(
        CompactLanguagesTemplate {
            name: username,
            stats_bar,
            bar_legend,
            theme_data,
        },
    )
}

} // verus!
