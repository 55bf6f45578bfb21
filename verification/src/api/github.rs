use vstd::prelude::*;

verus! {

/// One day of a contribution calendar. The date keeps only its
/// "YYYY-MM" prefix once grouped into months.
#[derive(Debug, Clone)]
pub struct ContributionDay {
    pub weekday: i8,
    pub date: String,
    pub contribution_count: i32,
    pub color: String,
}

#[derive(Debug, Clone)]
pub struct ContributionWeek {
    pub contribution_days: Vec<ContributionDay>,
}

/// Month boundary metadata as the upstream calendar reports it.
#[derive(Debug, Clone)]
pub struct ContributionMonth {
    pub name: String,
    pub year: i16,
    pub first_day: String,
    pub total_weeks: i8,
}

#[derive(Debug, Clone)]
pub struct GithubCalendar {
    pub total_contributions: i32,
    pub weeks: Vec<ContributionWeek>,
    pub months: Vec<ContributionMonth>,
}

#[derive(Debug, Clone)]
pub struct Contributions {
    pub contribution_calendar: GithubCalendar,
}

#[derive(Debug, Clone)]
pub struct UserActivity {
    pub created_at: String,
    pub contributions_collection: Contributions,
}

#[derive(Debug, Clone)]
pub struct LanguageNode {
    pub name: String,
}

#[derive(Debug, Clone)]
pub struct LanguageEdge {
    pub size: u32,
    pub node: LanguageNode,
}

#[derive(Debug, Clone)]
pub struct RepositoryNodeLanguages {
    pub edges: Vec<LanguageEdge>,
}

#[derive(Debug, Clone)]
pub struct RepositoryNode {
    pub name: String,
    pub languages: RepositoryNodeLanguages,
}

#[derive(Debug, Clone)]
pub struct UserLanguagesRepositories {
    pub nodes: Vec<RepositoryNode>,
}

#[derive(Debug, Clone)]
pub struct UserLanguages {
    pub repositories: UserLanguagesRepositories,
}

/// A query answer whose subject may be missing: the user field is null
/// when no such account exists.
#[derive(Debug, Clone)]
pub struct OptionUserData<T> {
    pub user: Option<T>,
}

/// Facts about one repository.
#[derive(Debug, Clone)]
pub struct Repository {
    pub name: String,
    pub description: Option<String>,
    pub language: Option<String>,
    pub stargazers_count: u32,
    pub forks_count: u32,
}

#[derive(Debug, Clone)]
pub struct SuccessResponse<T> {
    pub data: T,
}

/// The error payload shape shared by both API surfaces.
#[derive(Debug, Clone)]
pub struct ErrorResponse {
    pub message: String,
}

/// A GraphQL answer: error shape first, else success with a data field.
#[derive(Debug, Clone)]
pub enum GraphQLResponse<T> {
    Failed(ErrorResponse),
    Valid(SuccessResponse<T>),
}

/// A REST answer: error shape first, else the payload itself.
#[derive(Debug, Clone)]
pub enum RestResponse<T> {
    Failed(ErrorResponse),
    Valid(T),
}

/// The language of one gist file.
#[derive(Debug, Clone)]
pub struct GistFileLanguage {
    pub name: String,
}

#[derive(Debug, Clone)]
pub struct GistFile {
    pub name: String,
    pub size: u64,
    pub language: GistFileLanguage,
}

#[derive(Debug, Clone)]
pub struct GistOwner {
    pub login: String,
}

#[derive(Debug, Clone)]
pub struct GistForks {
    pub total_count: u32,
}

/// Facts about one gist.
#[derive(Debug, Clone)]
pub struct Gist {
    pub owner: GistOwner,
    pub description: Option<String>,
    pub files: Vec<GistFile>,
    pub stargazer_count: u32,
    pub forks: GistForks,
}

/// The viewer wrapper a gist query answers with; the gist field is
/// null when no such gist is visible.
#[derive(Debug, Clone)]
pub struct GistViewer {
    pub gist: Option<Gist>,
}

#[derive(Debug, Clone)]
pub struct GistData {
    pub viewer: GistViewer,
}

pub type ActivityResponse = GraphQLResponse<OptionUserData<UserActivity>>;

pub type LanguagesResponse = GraphQLResponse<OptionUserData<UserLanguages>>;

pub type RepositoryResponse = RestResponse<Repository>;

pub type GistResponse = GraphQLResponse<GistData>;

} // verus!
