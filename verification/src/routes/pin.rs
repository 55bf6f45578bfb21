use crate::api::github::{Gist, GistFile, Repository};
use crate::api::huggingface::{spec_repo_base, RepoData};
use crate::data::language::{get_lang_color, spec_lang_color};
use crate::data::theme::{spec_theme_data, Theme, ThemeData};
use crate::prepared_templates::{
    gh_handle_error_template, hf_handle_error_template, spec_error_lines, spec_gh_error_class,
    spec_hf_error_class, PreparedTemplate,
};
use crate::templates::ErrorTemplate;
use crate::utils::svg::{
    calc_width, sat_add_usize, spec_cap_usize, spec_measure, spec_words, spec_wrap, wrap_text,
    CharWidths, MAX_LINES,
};
use crate::utils::utils::{fmt_num, spec_fmt_num, str_eq, to_upper, upper_of};
use vstd::prelude::*;
use vstd::string::*;

verus! {

/// Tags wider than this running budget, padding included, are hidden.
pub const MAX_PIN_WIDTH: usize = 400;

/// Query parameters of a model-hub pin request.
#[derive(Debug, Clone)]
pub struct HFParams {
    pub username: String,
    pub repo: String,
    pub theme: Option<Theme>,
    pub typename: HFPinIcon,
    pub show_owner: Option<bool>,
}

/// Query parameters of a repository pin request.
#[derive(Debug, Clone)]
pub struct GHParams {
    pub username: String,
    pub repo: String,
    pub theme: Option<Theme>,
    pub show_owner: Option<bool>,
}

/// Query parameters of a gist pin request.
#[derive(Debug, Clone)]
pub struct GistParams {
    pub id: String,
    pub theme: Option<Theme>,
    pub show_owner: Option<bool>,
}

/// Which model-hub repository kind a pin shows.
#[derive(Debug, Clone, Copy, PartialEq, Eq, Structural)]
pub enum HFPinIcon {
    Model,
    Dataset,
    Space,
}

/// The kind tag of a hub pin, as it appears in cache fingerprints.
pub open spec fn spec_hf_icon_tag(i: HFPinIcon) -> Seq<char> {
    match i {
        HFPinIcon::Model => "Model"@,
        HFPinIcon::Dataset => "Dataset"@,
        HFPinIcon::Space => "Space"@,
    }
}

/// Which source-control object kind a pin shows.
#[derive(Debug, Clone, Copy, PartialEq, Eq, Structural)]
pub enum GHPinIcon {
    Repo,
    Gist,
}

/// One laid-out tag chip: its label, measured width with padding, its
/// horizontal offset, and whether it fits the budget.
#[derive(Debug, Clone)]
pub struct HFTag {
    pub name: String,
    pub width: usize,
    pub translate_x: usize,
    pub visible: bool,
}

/// Mathematical image of a laid-out tag chip.
pub struct TagV {
    pub name: Seq<char>,
    pub width: int,
    pub translate_x: int,
    pub visible: bool,
}

impl View for HFTag {
    type V = TagV;

    open spec fn view(&self) -> TagV {
        TagV {
            name: self.name@,
            width: self.width as int,
            translate_x: self.translate_x as int,
            visible: self.visible,
        }
    }
}

/// Lay one tag out at offset x: its width is the measured label plus
/// fixed padding, and it is visible exactly when its own right edge
/// stays within the budget.
pub open spec fn spec_tag_entry(name: Seq<char>, x: int, cw: CharWidths) -> TagV {
    let w = spec_cap_usize(spec_measure(cw, name) + 8);
    TagV { name, width: w, translate_x: x, visible: x + w <= MAX_PIN_WIDTH as int }
}

/// Lay the tags from position i on out left to right: each takes the
/// running offset and advances it by its width plus a fixed gap,
/// whether or not it is visible — each tag's visibility is judged
/// independently against the same running offset, never by an early
/// exit.
pub open spec fn spec_tags_layout(tags: Seq<Seq<char>>, i: int, x: int, cw: CharWidths) -> Seq<
    TagV,
>
    decreases tags.len() - i,
{
    if i < 0 || i >= tags.len() {
        Seq::empty()
    } else {
        let t = spec_tag_entry(tags[i], x, cw);
        seq![t] + spec_tags_layout(tags, i + 1, spec_cap_usize(x + t.width + 10), cw)
    }
}

/// The laid-out tags with the hidden ones dropped.
pub open spec fn spec_visible_tags(tags: Seq<Seq<char>>, i: int, x: int, cw: CharWidths) -> Seq<
    TagV,
>
    decreases tags.len() - i,
{
    if i < 0 || i >= tags.len() {
        Seq::empty()
    } else {
        let t = spec_tag_entry(tags[i], x, cw);
        let rest = spec_visible_tags(tags, i + 1, spec_cap_usize(x + t.width + 10), cw);
        if t.visible {
            seq![t] + rest
        } else {
            rest
        }
    }
}

/// LAW — a laid-out tag is visible exactly when its offset plus its
/// width stays within the budget.
pub proof fn lemma_tag_visible_iff(tags: Seq<Seq<char>>, i: int, x: int, cw: CharWidths)
    ensures
        forall|t: int|
            0 <= t < spec_tags_layout(tags, i, x, cw).len() ==> ((#[trigger] spec_tags_layout(
                tags,
                i,
                x,
                cw,
            )[t]).visible <==> spec_tags_layout(tags, i, x, cw)[t].translate_x
                + spec_tags_layout(tags, i, x, cw)[t].width <= MAX_PIN_WIDTH as int),
    decreases tags.len() - i,
{
    if 0 <= i && i < tags.len() {
        let t0 = spec_tag_entry(tags[i], x, cw);
        lemma_tag_visible_iff(tags, i + 1, spec_cap_usize(x + t0.width + 10), cw);
        let whole = spec_tags_layout(tags, i, x, cw);
        let rest = spec_tags_layout(tags, i + 1, spec_cap_usize(x + t0.width + 10), cw);
        assert forall|t: int|
            0 <= t < whole.len() implies ((#[trigger] whole[t]).visible <==> whole[t].translate_x
            + whole[t].width <= MAX_PIN_WIDTH as int) by {
            if t > 0 {
                assert(whole[t] == rest[t - 1]);
            }
        }
    }
}

/// Lay candidate tags out against the pixel budget and keep the
/// visible ones, in order.
pub fn compute_tags(cw: &CharWidths, raw_tags: &Vec<String>) -> (r: Vec<HFTag>)
    ensures
        r@.map_values(|t: HFTag| t@) == spec_visible_tags(
            raw_tags@.map_values(|s: String| s@),
            0,
            0,
            *cw,
        ),
{
    let ghost tv = raw_tags@.map_values(|s: String| s@);
    let ghost target = spec_visible_tags(tv, 0, 0, *cw);
    let mut out: Vec<HFTag> = Vec::new();
    let mut x: usize = 0;
    let mut i: usize = 0;
    proof {
        assert(out@.map_values(|t: HFTag| t@) =~= Seq::<TagV>::empty());
    }
    while i < raw_tags.len()
        invariant
            tv == raw_tags@.map_values(|s: String| s@),
            i <= tv.len(),
            out@.map_values(|t: HFTag| t@) + spec_visible_tags(tv, i as int, x as int, *cw)
                == target,
        decreases tv.len() - i,
    {
        proof {
            assert(tv[i as int] == raw_tags@[i as int]@);
        }
        let tag = &raw_tags[i];
        let width = sat_add_usize(calc_width(cw, tag.as_str()), 8);
        let here = sat_add_usize(x, width);
        let visible = here <= MAX_PIN_WIDTH;
        proof {
            assert(visible == (x + width <= MAX_PIN_WIDTH as int));
        }
        let ghost old_out = out@.map_values(|t: HFTag| t@);
        if visible {
            out.push(HFTag { name: tag.clone(), width, translate_x: x, visible });
            proof {
                assert(out@.map_values(|t: HFTag| t@) =~= old_out.push(
                    spec_tag_entry(tv[i as int], x as int, *cw),
                ));
            }
        }
        let ghost old_x = x as int;
        x = sat_add_usize(x, sat_add_usize(width, 10));
        proof {
            assert(x as int == spec_cap_usize(old_x + width + 10));
            assert(old_out + spec_visible_tags(tv, i as int, old_x, *cw) =~= out@.map_values(
                |t: HFTag| t@,
            ) + spec_visible_tags(tv, i as int + 1, x as int, *cw));
        }
        i += 1;
    }
    proof {
        assert(spec_visible_tags(tv, i as int, x as int, *cw) =~= Seq::<TagV>::empty());
        assert(out@.map_values(|t: HFTag| t@) + Seq::<TagV>::empty() =~= out@.map_values(
            |t: HFTag| t@,
        ));
    }
    out
}

/// Classify a hub repository answer of any kind: a success payload is
/// handed on as the matching repository data; an error payload goes
/// through the hub's error decision table.
pub fn huggingface_get_data(resp: crate::api::huggingface::RepoResponse) -> (r: Result<
    RepoData,
    PreparedTemplate,
>)
    ensures
        match resp {
            crate::api::huggingface::RepoResponse::Model(m) => match m {
                crate::api::huggingface::ModelResponse::Valid(v) => r matches Ok(d) && d
                    == RepoData::Model(v),
                crate::api::huggingface::ModelResponse::Failed(e) => r matches Err(t) && t
                    == spec_hf_error_class(e.error@),
            },
            crate::api::huggingface::RepoResponse::Dataset(m) => match m {
                crate::api::huggingface::DatasetResponse::Valid(v) => r matches Ok(d) && d
                    == RepoData::Dataset(v),
                crate::api::huggingface::DatasetResponse::Failed(e) => r matches Err(t) && t
                    == spec_hf_error_class(e.error@),
            },
            crate::api::huggingface::RepoResponse::Space(m) => match m {
                crate::api::huggingface::SpaceResponse::Valid(v) => r matches Ok(d) && d
                    == RepoData::Space(v),
                crate::api::huggingface::SpaceResponse::Failed(e) => r matches Err(t) && t
                    == spec_hf_error_class(e.error@),
            },
        },
{
    match resp {
        crate::api::huggingface::RepoResponse::Model(
            crate::api::huggingface::ModelResponse::Valid(v),
        ) => Ok(RepoData::Model(v)),
        crate::api::huggingface::RepoResponse::Dataset(
            crate::api::huggingface::DatasetResponse::Valid(v),
        ) => Ok(RepoData::Dataset(v)),
        crate::api::huggingface::RepoResponse::Space(
            crate::api::huggingface::SpaceResponse::Valid(v),
        ) => Ok(RepoData::Space(v)),
        crate::api::huggingface::RepoResponse::Model(
            crate::api::huggingface::ModelResponse::Failed(e),
        ) => Err(hf_handle_error_template(e)),
        crate::api::huggingface::RepoResponse::Dataset(
            crate::api::huggingface::DatasetResponse::Failed(e),
        ) => Err(hf_handle_error_template(e)),
        crate::api::huggingface::RepoResponse::Space(
            crate::api::huggingface::SpaceResponse::Failed(e),
        ) => Err(hf_handle_error_template(e)),
    }
}

/// Classify a repository facts answer: an error payload goes through
/// the error decision table, a success payload is handed on.
pub fn github_get_data(resp: crate::api::github::RepositoryResponse) -> (r: Result<
    Repository,
    PreparedTemplate,
>)
    ensures
        match resp {
            crate::api::github::RestResponse::Failed(e) => r matches Err(t) && t
                == spec_gh_error_class(e.message@),
            crate::api::github::RestResponse::Valid(v) => r matches Ok(d) && d == v,
        },
{
    match resp {
        crate::api::github::RestResponse::Failed(e) => Err(gh_handle_error_template(e)),
        crate::api::github::RestResponse::Valid(v) => Ok(v),
    }
}

/// Classify a gist facts answer: an error payload goes through the
/// error decision table; a success payload whose gist field is null
/// means no such gist (never an unknown error); else the gist is
/// handed on.
pub fn gist_get_data(resp: crate::api::github::GistResponse) -> (r: Result<
    Gist,
    PreparedTemplate,
>)
    ensures
        match resp {
            crate::api::github::GraphQLResponse::Failed(e) => r matches Err(t) && t
                == spec_gh_error_class(e.message@),
            crate::api::github::GraphQLResponse::Valid(ok) => match ok.data.viewer.gist {
                None => r matches Err(t) && t == PreparedTemplate::FailedFindRepo,
                Some(g) => r matches Ok(d) && d == g,
            },
        },
{
    match resp {
        crate::api::github::GraphQLResponse::Failed(e) => Err(gh_handle_error_template(e)),
        crate::api::github::GraphQLResponse::Valid(ok) => match ok.data.viewer.gist {
            None => Err(PreparedTemplate::FailedFindRepo),
            Some(g) => Ok(g),
        },
    }
}

/// An empty owner or repository name can never match a repository.
pub fn check_pin_subject(username: &String, repo: &String) -> (r: Result<(), PreparedTemplate>)
    ensures
        r is Err <==> (username@.len() == 0 || repo@.len() == 0),
        r matches Err(t) ==> t == PreparedTemplate::FailedFindRepo,
{
    if username.as_str().is_empty() || repo.as_str().is_empty() {
        Err(PreparedTemplate::FailedFindRepo)
    } else {
        Ok(())
    }
}

/// An empty identifier can never match a gist.
pub fn check_gist_subject(id: &String) -> (r: Result<(), PreparedTemplate>)
    ensures
        r is Err <==> id@.len() == 0,
        r matches Err(t) ==> t == PreparedTemplate::FailedFindRepo,
{
    if id.as_str().is_empty() {
        Err(PreparedTemplate::FailedFindRepo)
    } else {
        Ok(())
    }
}

/// The cache fingerprint of a hub pin query.
pub open spec fn spec_hf_cache_key(
    icon: HFPinIcon,
    username: Seq<char>,
    repo: Seq<char>,
) -> Seq<char> {
    "huggingface:"@ + spec_hf_icon_tag(icon) + seq![':'] + username + seq![':'] + repo
}

/// Build the cache fingerprint of a hub pin query.
pub fn make_hf_cache_key(icon: HFPinIcon, username: &String, repo: &String) -> (r: String)
    ensures
        r@ == spec_hf_cache_key(icon, username@, repo@),
{
    let mut s = String::from_str("huggingface:");
    match icon {
        HFPinIcon::Model => s.append("Model"),
        HFPinIcon::Dataset => s.append("Dataset"),
        HFPinIcon::Space => s.append("Space"),
    }
    s.append(":");
    s.append(username.as_str());
    s.append(":");
    s.append(repo.as_str());
    proof {
        reveal_strlit(":");
        assert(s@ =~= spec_hf_cache_key(icon, username@, repo@));
    }
    s
}

/// The cache fingerprint of a repository pin query.
pub open spec fn spec_github_repo_cache_key(username: Seq<char>, repo: Seq<char>) -> Seq<char> {
    "github:repo:"@ + username + seq![':'] + repo
}

/// Build the cache fingerprint of a repository pin query.
pub fn make_github_repo_cache_key(username: &String, repo: &String) -> (r: String)
    ensures
        r@ == spec_github_repo_cache_key(username@, repo@),
{
    let mut s = String::from_str("github:repo:");
    s.append(username.as_str());
    s.append(":");
    s.append(repo.as_str());
    proof {
        reveal_strlit(":");
        assert(s@ =~= spec_github_repo_cache_key(username@, repo@));
    }
    s
}

/// The cache fingerprint of a gist pin query.
pub open spec fn spec_gist_cache_key(id: Seq<char>) -> Seq<char> {
    "github:gist:"@ + id
}

/// Build the cache fingerprint of a gist pin query.
pub fn make_gist_cache_key(id: &String) -> (r: String)
    ensures
        r@ == spec_gist_cache_key(id@),
{
    let mut s = String::from_str("github:gist:");
    s.append(id.as_str());
    s
}

/// The filled hub pin card.
#[derive(Debug)]
pub struct HFPinTemplate {
    pub name: String,
    pub desc: String,
    pub repo_text: String,
    pub likes: String,
    pub downloads: Option<String>,
    pub icon: HFPinIcon,
    pub tags: Vec<HFTag>,
    pub theme_data: ThemeData,
}

/// A language chip on a repository pin.
#[derive(Debug, Clone)]
pub struct GHLangText {
    pub name: String,
    pub width: usize,
    pub color: String,
}

/// The filled repository or gist pin card.
#[derive(Debug)]
pub struct GHPinTemplate {
    pub name: String,
    pub desc: String,
    pub repo_text: String,
    pub icon: GHPinIcon,
    pub rows: Vec<String>,
    pub language: Option<GHLangText>,
    pub stars: Option<String>,
    pub forks: Option<String>,
    pub is_single_text_row: bool,
    pub meta_counters_x_indent: usize,
    pub forks_counter_x_indent: usize,
    pub theme_data: ThemeData,
}

/// The kind-specific candidate tags of a hub pin: a model's configured
/// type and task label, a dataset's first task category, or the
/// hardware badge of a running space.
pub open spec fn spec_hf_base_tags(data: RepoData) -> Seq<Seq<char>> {
    match data {
        RepoData::Model(m) => {
            let t1: Seq<Seq<char>> = match m.config {
                Some(cfg) => match cfg.model_type {
                    Some(mt) => seq![mt@],
                    None => Seq::empty(),
                },
                None => Seq::empty(),
            };
            let t2: Seq<Seq<char>> = match m.pipeline_tag {
                Some(pt) => seq![
                    crate::api::huggingface::spec_pipeline_tag_label(pt),
                ],
                None => Seq::empty(),
            };
            t1 + t2
        },
        RepoData::Dataset(d) => match d.base.card_data.task_categories {
            Some(cats) => if cats@.len() > 0 {
                seq![cats@[0]@]
            } else {
                Seq::empty()
            },
            None => Seq::empty(),
        },
        RepoData::Space(sp) => seq![
            "Running on "@ + crate::api::huggingface::spec_hardware_label(
                sp.runtime.hardware.current,
            ),
        ],
    }
}

/// The candidate tags with the license appended, uppercased, unless
/// it is the catch-all "other".
pub open spec fn spec_hf_tags_with_license(data: RepoData) -> Seq<Seq<char>> {
    let base = spec_hf_base_tags(data);
    match spec_repo_base(data).card_data.license {
        Some(l) => if l@ != "other"@ {
            base.push(upper_of(l@))
        } else {
            base
        },
        None => base,
    }
}

/// All candidate tags of a hub pin; when nothing else applies, the
/// repository's first raw tag stands in.
pub open spec fn spec_hf_raw_tags(data: RepoData) -> Seq<Seq<char>> {
    let tags = spec_hf_tags_with_license(data);
    if tags.len() == 0 {
        let rt = spec_repo_base(data).tags;
        if rt@.len() > 0 {
            seq![rt@[0]@]
        } else {
            Seq::empty()
        }
    } else {
        tags
    }
}

fn build_hf_raw_tags(data: &RepoData) -> (r: Vec<String>)
    ensures
        r@.map_values(|s: String| s@) == spec_hf_raw_tags(*data),
{
    let mut tags: Vec<String> = Vec::new();
    proof {
        assert(tags@.map_values(|s: String| s@) =~= Seq::<Seq<char>>::empty());
    }
    match data {
        RepoData::Model(m) => {
            match &m.config {
                Some(cfg) => match &cfg.model_type {
                    Some(mt) => {
                        let ghost before = tags@.map_values(|s: String| s@);
                        tags.push(mt.clone());
                        proof {
                            assert(tags@.map_values(|s: String| s@) =~= before.push(mt@));
                        }
                    },
                    None => {},
                },
                None => {},
            }
            match &m.pipeline_tag {
                Some(pt) => {
                    let ghost before = tags@.map_values(|s: String| s@);
                    let label = pt.to_string();
                    let ghost lv = label@;
                    tags.push(label);
                    proof {
                        assert(tags@.map_values(|s: String| s@) =~= before.push(lv));
                    }
                },
                None => {},
            }
        },
        RepoData::Dataset(d) => {
            match &d.base.card_data.task_categories {
                Some(cats) => {
                    if cats.len() > 0 {
                        let ghost before = tags@.map_values(|s: String| s@);
                        tags.push(cats[0].clone());
                        proof {
                            assert(tags@.map_values(|s: String| s@) =~= before.push(
                                cats@[0]@,
                            ));
                        }
                    }
                },
                None => {},
            }
        },
        RepoData::Space(sp) => {
            let mut s = String::from_str("Running on ");
            let hw = sp.runtime.hardware.current.to_string();
            s.append(hw.as_str());
            let ghost sv = s@;
            let ghost before = tags@.map_values(|s2: String| s2@);
            tags.push(s);
            proof {
                assert(tags@.map_values(|s2: String| s2@) =~= before.push(sv));
            }
        },
    }
    proof {
        assert(tags@.map_values(|s: String| s@) =~= spec_hf_base_tags(*data));
    }
    match data.get_license() {
        Some(l) => {
            if !str_eq(l.as_str(), "other") {
                let ghost before = tags@.map_values(|s: String| s@);
                let up = to_upper(l.as_str());
                let ghost uv = up@;
                tags.push(up);
                proof {
                    assert(tags@.map_values(|s: String| s@) =~= before.push(uv));
                }
            }
        },
        None => {},
    }
    proof {
        assert(tags@.map_values(|s: String| s@) =~= spec_hf_tags_with_license(*data));
    }
    if tags.len() == 0 {
        let rt = data.get_repo_tags();
        if rt.len() > 0 {
            let ghost before = tags@.map_values(|s: String| s@);
            tags.push(rt[0].clone());
            proof {
                assert(tags@.map_values(|s: String| s@) =~= before.push(
                    spec_repo_base(*data).tags@[0]@,
                ));
                assert(before =~= Seq::<Seq<char>>::empty());
                assert(tags@.map_values(|s: String| s@) =~= seq![
                    spec_repo_base(*data).tags@[0]@,
                ]);
            }
        }
    }
    proof {
        assert(tags@.map_values(|s: String| s@) =~= spec_hf_raw_tags(*data));
    }
    tags
}

/// Bind hub repository facts into the pin card: the kind icon, the
/// tag chips laid out against the budget, the formatted counters, and
/// the owner-qualified or bare repository label; a failure binds the
/// matching error card instead.
pub fn render_huggingface_pin(
    username: String,
    repo: String,
    show_owner: bool,
    theme: Theme,
    pin_data: Result<RepoData, PreparedTemplate>,
    cw: &CharWidths,
) -> (r: Result<HFPinTemplate, ErrorTemplate>)
    ensures
        pin_data matches Err(t) ==> r matches Err(e) && e.first_line@ == spec_error_lines(t).0
            && e.second_line@ == spec_error_lines(t).1,
        pin_data matches Ok(data) ==> r matches Ok(c) && {
            &&& c.name@ == username@
            &&& c.desc@ == repo@
            &&& c.repo_text@ == (if show_owner {
                spec_repo_base(data).id@
            } else {
                repo@
            })
            &&& c.likes@ == spec_fmt_num(spec_repo_base(data).likes as int)
            &&& (match data {
                RepoData::Model(m) => c.downloads matches Some(s) && s@ == spec_fmt_num(
                    m.downloads as int,
                ) && c.icon == HFPinIcon::Model,
                RepoData::Dataset(d) => c.downloads matches Some(s) && s@ == spec_fmt_num(
                    d.downloads as int,
                ) && c.icon == HFPinIcon::Dataset,
                RepoData::Space(_) => c.downloads is None && c.icon == HFPinIcon::Space,
            })
            &&& c.tags@.map_values(|t: HFTag| t@) == spec_visible_tags(
                spec_hf_raw_tags(data),
                0,
                0,
                *cw,
            )
            &&& c.theme_data@ == spec_theme_data(theme)
        },
{
    let raw_data = match pin_data {
        Err(t) => {
            return Err(t.render());
        },
        Ok(data) => data,
    };
    let raw_tags = build_hf_raw_tags(&raw_data);
    let downloads = raw_data.get_downloads_count();
    let icon = match &raw_data {
        RepoData::Model(_) => HFPinIcon::Model,
        RepoData::Dataset(_) => HFPinIcon::Dataset,
        RepoData::Space(_) => HFPinIcon::Space,
    };
    let likes = raw_data.get_likes();
    let tags = compute_tags(cw, &raw_tags);
    let repo_text = if show_owner {
        raw_data.get_id()
    } else {
        repo.clone()
    };
    let theme_data = theme.get_data();
    Ok(
        HFPinTemplate {
            name: username,
            desc: repo,
            repo_text,
            likes,
            downloads,
            icon,
            tags,
            theme_data,
        },
    )
}

/// "owner/name", the qualified repository label.
pub open spec fn spec_owner_slash_repo(username: Seq<char>, repo: Seq<char>) -> Seq<char> {
    username + seq!['/'] + repo
}

fn owner_slash_repo(username: &String, repo: &String) -> (r: String)
    ensures
        r@ == spec_owner_slash_repo(username@, repo@),
{
    let mut s = username.clone();
    s.append("/");
    s.append(repo.as_str());
    proof {
        reveal_strlit("/");
        assert(s@ =~= spec_owner_slash_repo(username@, repo@));
    }
    s
}

/// The description rows of a pin: the wrapped description, or one
/// fixed placeholder row.
pub open spec fn spec_desc_rows(desc: Option<String>, cw: CharWidths) -> Seq<Seq<char>> {
    match desc {
        Some(d) => spec_wrap(cw, spec_words(d@), 365, MAX_LINES as int),
        None => seq!["No description provided"@],
    }
}

fn desc_rows(desc: &Option<String>, cw: &CharWidths) -> (r: Vec<String>)
    ensures
        r@.map_values(|l: String| l@) == spec_desc_rows(*desc, *cw),
{
    match desc {
        Some(d) => wrap_text(cw, d.as_str(), 365),
        None => {
            let mut v: Vec<String> = Vec::new();
            v.push(String::from_str("No description provided"));
            proof {
                assert(v@.map_values(|l: String| l@) =~= seq!["No description provided"@]);
            }
            v
        },
    }
}

/// A counter that renders only when present: zero shows nothing.
pub open spec fn spec_counter(n: int) -> Option<Seq<char>> {
    if n == 0 {
        None
    } else {
        Some(spec_fmt_num(n))
    }
}

fn counter(n: u32) -> (r: Option<String>)
    ensures
        match r {
            Some(s) => spec_counter(n as int) matches Some(x) && s@ == x,
            None => spec_counter(n as int) is None,
        },
{
    if n == 0 {
        None
    } else {
        Some(fmt_num(n as i64))
    }
}

/// Bind repository facts into the pin card: the wrapped description
/// rows, the language chip, the star and fork counters with their
/// computed indents; a failure binds the matching error card instead.
pub fn render_github_pin(
    username: String,
    repo: String,
    show_owner: bool,
    theme: Theme,
    repo_data: Result<Repository, PreparedTemplate>,
    cw: &CharWidths,
) -> (r: Result<GHPinTemplate, ErrorTemplate>)
    ensures
        repo_data matches Err(t) ==> r matches Err(e) && e.first_line@ == spec_error_lines(t).0
            && e.second_line@ == spec_error_lines(t).1,
        repo_data matches Ok(data) ==> r matches Ok(c) && {
            let rows = spec_desc_rows(data.description, *cw);
            &&& c.name@ == username@
            &&& c.desc@ == repo@
            &&& c.repo_text@ == (if show_owner {
                spec_owner_slash_repo(username@, repo@)
            } else {
                repo@
            })
            &&& c.icon == GHPinIcon::Repo
            &&& c.rows@.map_values(|l: String| l@) == rows
            &&& (match c.stars {
                Some(s) => spec_counter(data.stargazers_count as int) matches Some(x) && s@ == x,
                None => spec_counter(data.stargazers_count as int) is None,
            })
            &&& (match c.forks {
                Some(s) => spec_counter(data.forks_count as int) matches Some(x) && s@ == x,
                None => spec_counter(data.forks_count as int) is None,
            })
            &&& (match data.language {
                Some(l) => c.language matches Some(g) && g.name@ == l@ && g.color@
                    == spec_lang_color(l@) && g.width as int == spec_measure(*cw, l@),
                None => c.language is None,
            })
            &&& c.is_single_text_row == (rows.len() == 1)
            &&& c.meta_counters_x_indent as int == (match data.language {
                Some(l) => spec_cap_usize(spec_measure(*cw, l@) + 35),
                None => 0,
            })
            &&& c.forks_counter_x_indent as int == (match spec_counter(
                data.stargazers_count as int,
            ) {
                Some(s) => spec_cap_usize(spec_measure(*cw, s) + 35),
                None => 0,
            })
            &&& c.theme_data@ == spec_theme_data(theme)
        },
{
    let raw_data = match repo_data {
        Err(t) => {
            return Err(t.render());
        },
        Ok(data) => data,
    };
    let repo_text = if show_owner {
        owner_slash_repo(&username, &repo)
    } else {
        repo.clone()
    };
    let rows = desc_rows(&raw_data.description, cw);
    let stars = counter(raw_data.stargazers_count);
    let forks = counter(raw_data.forks_count);
    let language: Option<GHLangText> = match &raw_data.language {
        Some(lang) => Some(
            GHLangText {
                color: get_lang_color(lang),
                width: calc_width(cw, lang.as_str()),
                name: lang.clone(),
            },
        ),
        None => None,
    };
    let theme_data = theme.get_data();
    let is_single_text_row = rows.len() == 1;
    let meta_counters_x_indent: usize = match &language {
        Some(lang) => sat_add_usize(lang.width, 35),
        None => 0,
    };
    let forks_counter_x_indent: usize = match &stars {
        Some(s) => sat_add_usize(calc_width(cw, s.as_str()), 35),
        None => 0,
    };
    Ok(
        GHPinTemplate {
            name: username,
            desc: repo,
            repo_text,
            icon: GHPinIcon::Repo,
            rows,
            language,
            stars,
            forks,
            is_single_text_row,
            meta_counters_x_indent,
            forks_counter_x_indent,
            theme_data,
        },
    )
}

/// Index of the largest file from position i on, the later of equals:
/// the pin shows the gist's biggest file.
pub open spec fn spec_max_file_idx(files: Seq<GistFile>, i: int, best: int) -> int
    decreases files.len() - i,
{
    if i < 0 || i >= files.len() {
        best
    } else if 0 <= best < files.len() && files[i].size >= files[best].size {
        spec_max_file_idx(files, i + 1, i)
    } else {
        spec_max_file_idx(files, i + 1, best)
    }
}

fn max_file_idx(files: &Vec<GistFile>) -> (r: usize)
    requires
        files@.len() > 0,
    ensures
        r < files@.len(),
        r as int == spec_max_file_idx(files@, 1, 0),
{
    let n = files.len();
    let mut best: usize = 0;
    let mut i: usize = 1;
    while i < n
        invariant
            n == files@.len(),
            n > 0,
            1 <= i <= n,
            best < i,
            spec_max_file_idx(files@, i as int, best as int) == spec_max_file_idx(files@, 1, 0),
        decreases n - i,
    {
        if files[i].size >= files[best].size {
            best = i;
        }
        i += 1;
    }
    best
}

/// Bind gist facts into the pin card: the owner becomes the title, the
/// largest file names the pin and its language chip, and the counters
/// and description rows are laid out as for a repository; a failure
/// binds the matching error card instead.
pub fn render_github_gist(
    gist_id: String,
    show_owner: bool,
    theme: Theme,
    repo_data: Result<Gist, PreparedTemplate>,
    cw: &CharWidths,
) -> (r: Result<GHPinTemplate, ErrorTemplate>)
    ensures
        repo_data matches Err(t) ==> r matches Err(e) && e.first_line@ == spec_error_lines(t).0
            && e.second_line@ == spec_error_lines(t).1,
        repo_data matches Ok(data) ==> r matches Ok(c) && {
            let rows = spec_desc_rows(data.description, *cw);
            let has_file = data.files@.len() > 0;
            let mfi = spec_max_file_idx(data.files@, 1, 0);
            let shown = if has_file {
                data.files@[mfi].name@
            } else {
                gist_id@
            };
            &&& c.name@ == data.owner.login@
            &&& c.desc@ == shown
            &&& c.repo_text@ == (if show_owner {
                spec_owner_slash_repo(data.owner.login@, shown)
            } else {
                shown
            })
            &&& c.icon == GHPinIcon::Gist
            &&& c.rows@.map_values(|l: String| l@) == rows
            &&& (if has_file {
                c.language matches Some(g) && g.name@ == data.files@[mfi].language.name@
                    && g.color@ == spec_lang_color(data.files@[mfi].language.name@)
                    && g.width as int == spec_measure(*cw, data.files@[mfi].language.name@)
            } else {
                c.language is None
            })
            &&& (match c.stars {
                Some(s) => spec_counter(data.stargazer_count as int) matches Some(x) && s@ == x,
                None => spec_counter(data.stargazer_count as int) is None,
            })
            &&& (match c.forks {
                Some(s) => spec_counter(data.forks.total_count as int) matches Some(x) && s@
                    == x,
                None => spec_counter(data.forks.total_count as int) is None,
            })
            &&& c.is_single_text_row == (rows.len() == 1)
            &&& c.theme_data@ == spec_theme_data(theme)
        },
{
    let raw_data = match repo_data {
        Err(t) => {
            return Err(t.render());
        },
        Ok(data) => data,
    };
    let username = raw_data.owner.login.clone();
    let mut language: Option<GHLangText> = None;
    let mut repo = gist_id;
    if raw_data.files.len() > 0 {
        let mfi = max_file_idx(&raw_data.files);
        let file = &raw_data.files[mfi];
        language = Some(
            GHLangText {
                width: calc_width(cw, file.language.name.as_str()),
                color: get_lang_color(&file.language.name),
                name: file.language.name.clone(),
            },
        );
        repo = file.name.clone();
    }
    let repo_text = if show_owner {
        owner_slash_repo(&username, &repo)
    } else {
        repo.clone()
    };
    let rows = desc_rows(&raw_data.description, cw);
    let stars = counter(raw_data.stargazer_count);
    let forks = counter(raw_data.forks.total_count);
    let theme_data = theme.get_data();
    let is_single_text_row = rows.len() == 1;
    let meta_counters_x_indent: usize = match &language {
        Some(lang) => sat_add_usize(lang.width, 35),
        None => 0,
    };
    let forks_counter_x_indent: usize = match &stars {
        Some(s) => sat_add_usize(calc_width(cw, s.as_str()), 35),
        None => 0,
    };
    Ok(
        GHPinTemplate {
            name: username,
            desc: repo,
            repo_text,
            icon: GHPinIcon::Gist,
            rows,
            language,
            stars,
            forks,
            is_single_text_row,
            meta_counters_x_indent,
            forks_counter_x_indent,
            theme_data,
        },
    )
}

} // verus!
