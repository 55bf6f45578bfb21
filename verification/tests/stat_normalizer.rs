use statcards::api::github::{
    ErrorResponse as GHError, GistData, GistViewer, GraphQLResponse, OptionUserData, Repository,
    RestResponse, SuccessResponse,
};
use statcards::api::huggingface::ErrorResponse as HFError;
use statcards::api::wakatime::{ErrorResponse as WakaError, StatsResponse, SuccessResponse as WakaOk};
use statcards::prepared_templates::{
    gh_handle_error_template, hf_handle_error_template, PreparedTemplate,
};
use statcards::routes::activity::normalize_activity;
use statcards::routes::languages::{normalize_languages, normalize_waka_stats};
use statcards::routes::pin::{gist_get_data, github_get_data};

#[test]
fn null_user_in_activity_payload_is_user_not_found() {
    let resp = GraphQLResponse::Valid(SuccessResponse { data: OptionUserData { user: None } });
    let r = normalize_activity(resp);
    match r {
        Err(t) => {
            assert_eq!(t, PreparedTemplate::FailedFindUser);
            assert_ne!(t, PreparedTemplate::Unknown);
        },
        Ok(_) => panic!("expected a classified failure"),
    }
}

#[test]
fn null_user_in_languages_payload_is_user_not_found() {
    let resp = GraphQLResponse::Valid(SuccessResponse { data: OptionUserData { user: None } });
    let r = normalize_languages(resp);
    match r {
        Err(t) => {
            assert_eq!(t, PreparedTemplate::FailedFindUser);
            assert_ne!(t, PreparedTemplate::Unknown);
        },
        Ok(_) => panic!("expected a classified failure"),
    }
}

#[test]
fn null_gist_in_payload_is_repo_not_found() {
    let resp = GraphQLResponse::Valid(SuccessResponse {
        data: GistData { viewer: GistViewer { gist: None } },
    });
    let r = gist_get_data(resp);
    match r {
        Err(t) => {
            assert_eq!(t, PreparedTemplate::FailedFindRepo);
            assert_ne!(t, PreparedTemplate::Unknown);
        },
        Ok(_) => panic!("expected a classified failure"),
    }
}

#[test]
fn rate_limit_phrase_maps_to_rate_limited() {
    let t = gh_handle_error_template(GHError {
        message: "API rate limit exceeded for 203.0.113.9.".to_string(),
    });
    assert_eq!(t, PreparedTemplate::APIRateLimit);
}

#[test]
fn credentials_phrase_maps_to_bad_credentials() {
    let t = gh_handle_error_template(GHError { message: "Bad credentials".to_string() });
    assert_eq!(t, PreparedTemplate::BadCredentials);
}

#[test]
fn other_error_shapes_map_to_unknown() {
    let t = gh_handle_error_template(GHError { message: "Not Found".to_string() });
    assert_eq!(t, PreparedTemplate::Unknown);
}

#[test]
fn hub_error_table_rows() {
    assert_eq!(
        hf_handle_error_template(HFError {
            error: "Invalid credentials in Authorization header".to_string()
        }),
        PreparedTemplate::BadCredentials
    );
    assert_eq!(
        hf_handle_error_template(HFError { error: "Invalid username or password.".to_string() }),
        PreparedTemplate::BadCredentials
    );
    assert_eq!(
        hf_handle_error_template(HFError { error: "Repository not found".to_string() }),
        PreparedTemplate::FailedFindRepo
    );
    assert_eq!(
        hf_handle_error_template(HFError { error: "something else".to_string() }),
        PreparedTemplate::Unknown
    );
}

#[test]
fn time_tracker_error_table_rows() {
    let not_found = StatsResponse::Failed(WakaError { error: "Not found.".to_string() });
    assert_eq!(normalize_waka_stats(not_found).unwrap_err(), PreparedTemplate::FailedFindUser);
    let range = StatsResponse::Failed(WakaError {
        error: "Time range not matching user's public stats range.".to_string(),
    });
    assert_eq!(normalize_waka_stats(range).unwrap_err(), PreparedTemplate::FailedFindLanguages);
    let other = StatsResponse::Failed(WakaError { error: "boom".to_string() });
    assert_eq!(normalize_waka_stats(other).unwrap_err(), PreparedTemplate::Unknown);
}

#[test]
fn hidden_details_payload_means_no_languages() {
    let resp = StatsResponse::NoData(WakaOk {
        data: statcards::api::wakatime::PrivateStats {
            is_coding_activity_visible: false,
            is_language_usage_visible: false,
            status: "pending_update".to_string(),
        },
    });
    assert_eq!(normalize_waka_stats(resp).unwrap_err(), PreparedTemplate::FailedFindLanguages);
}

#[test]
fn valid_repository_passes_through() {
    let resp: RestResponse<Repository> = RestResponse::Valid(Repository {
        name: "verus".to_string(),
        description: None,
        language: Some("Rust".to_string()),
        stargazers_count: 7,
        forks_count: 0,
    });
    let repo = github_get_data(resp).unwrap();
    assert_eq!(repo.name.as_str(), "verus");
    assert_eq!(repo.stargazers_count, 7);
}

#[test]
fn failed_repository_goes_through_error_table() {
    let resp: RestResponse<Repository> =
        RestResponse::Failed(GHError { message: "Bad credentials".to_string() });
    assert_eq!(github_get_data(resp).unwrap_err(), PreparedTemplate::BadCredentials);
}

#[test]
fn error_cards_carry_their_fixed_lines() {
    let card = PreparedTemplate::FailedFindUser.render();
    assert_eq!(card.first_line.as_str(), "Failed to find a user.");
    assert_eq!(card.second_line.as_str(), "Check if it’s spelled correctly");
    let card = PreparedTemplate::FailedFindRepo.render();
    assert_eq!(card.first_line.as_str(), "Failed to find a repo.");
    let card = PreparedTemplate::FailedFindLanguages.render();
    assert_eq!(card.first_line.as_str(), "Failed to find a user languages.");
    assert_eq!(card.second_line.as_str(), "Maybe he’s inactive");
    let card = PreparedTemplate::BadCredentials.render();
    assert_eq!(card.second_line.as_str(), "Problems with service API token");
    let card = PreparedTemplate::APIRateLimit.render();
    assert_eq!(card.first_line.as_str(), "Failed to fetch.");
    assert_eq!(card.second_line.as_str(), "Maybe our API ratelimited :(");
    let card = PreparedTemplate::Unknown.render();
    assert_eq!(card.first_line.as_str(), "Unknown API error.");
    assert_eq!(card.second_line.as_str(), "Let us know about it");
}
