use statcards::api::github::{
    LanguageEdge, LanguageNode, RepositoryNode, RepositoryNodeLanguages,
};
use statcards::api::wakatime::Entry;
use statcards::data::language::get_lang_color;
use statcards::data::theme::Theme;
use statcards::prepared_templates::PreparedTemplate;
use statcards::routes::languages::{
    aggregate_languages, compute_github_top_langs, compute_waka_top_langs,
    make_github_langs_cache_key, make_waka_langs_cache_key, render_top_langs, top_k_languages,
    LanguageStat,
};

fn node(repo: &str, langs: &[(&str, u32)]) -> RepositoryNode {
    RepositoryNode {
        name: repo.to_string(),
        languages: RepositoryNodeLanguages {
            edges: langs
                .iter()
                .map(|(n, s)| LanguageEdge {
                    size: *s,
                    node: LanguageNode { name: n.to_string() },
                })
                .collect(),
        },
    }
}

#[test]
fn aggregates_byte_totals_in_first_seen_order() {
    let nodes = vec![
        node("a", &[("Rust", 100), ("C", 50)]),
        node("b", &[("C", 25), ("Go", 10)]),
    ];
    let table = aggregate_languages(&nodes);
    let got: Vec<(&str, u64)> = table.iter().map(|(n, s)| (n.as_str(), *s)).collect();
    assert_eq!(got, vec![("Rust", 100), ("C", 75), ("Go", 10)]);
}

#[test]
fn ranks_by_size_with_first_seen_tie_order() {
    let entries = vec![
        ("Rust".to_string(), 50u64),
        ("C".to_string(), 80u64),
        ("Go".to_string(), 80u64),
    ];
    let top = top_k_languages(entries, 2);
    let got: Vec<&str> = top.iter().map(|(n, _)| n.as_str()).collect();
    assert_eq!(got, vec!["C", "Go"]);
}

#[test]
fn computes_shares_renormalized_against_displayed_subset() {
    let nodes = vec![node("a", &[("Rust", 60), ("C", 40)])];
    let stats = compute_github_top_langs(&nodes).unwrap();
    assert_eq!(stats.len(), 2);
    assert_eq!(stats[0].name.as_str(), "Rust");
    assert_eq!(stats[0].percent, 6000);
    assert_eq!(stats[1].percent, 4000);
    assert_eq!(stats[0].color.as_str(), "#dea584");
}

#[test]
fn caps_the_ranking_at_six_languages() {
    let langs: Vec<(String, u32)> = (0..9).map(|i| (format!("l{i}"), 100 - i)).collect();
    let pairs: Vec<(&str, u32)> = langs.iter().map(|(n, s)| (n.as_str(), *s)).collect();
    let nodes = vec![node("a", &pairs)];
    let stats = compute_github_top_langs(&nodes).unwrap();
    assert_eq!(stats.len(), 6);
    assert_eq!(stats[0].name.as_str(), "l0");
    assert_eq!(stats[5].name.as_str(), "l5");
}

#[test]
fn empty_repository_list_means_no_languages() {
    let nodes: Vec<RepositoryNode> = Vec::new();
    assert_eq!(
        compute_github_top_langs(&nodes).unwrap_err(),
        PreparedTemplate::FailedFindLanguages
    );
}

fn waka_entry(name: &str, hundredths: u32) -> Entry {
    Entry { name: name.to_string(), percent_hundredths: hundredths, hours: 1, minutes: 0 }
}

#[test]
fn time_tracking_shares_renormalize_over_the_first_six() {
    let langs = vec![
        waka_entry("Rust", 4000),
        waka_entry("C", 3000),
        waka_entry("Go", 1500),
        waka_entry("Lua", 800),
        waka_entry("Zig", 500),
        waka_entry("Perl", 200),
        waka_entry("Tcl", 100000),
    ];
    let stats = compute_waka_top_langs(&langs).unwrap();
    assert_eq!(stats.len(), 6);
    // the seventh language is ignored; the first six sum to 100 %
    assert_eq!(stats[0].percent, 4000);
    assert_eq!(stats[5].percent, 200);
    assert_eq!(stats[0].name.as_str(), "Rust");
}

#[test]
fn fewer_than_six_tracked_languages_still_render() {
    let langs = vec![waka_entry("Rust", 3000), waka_entry("C", 1000)];
    let stats = compute_waka_top_langs(&langs).unwrap();
    assert_eq!(stats.len(), 2);
    // shares renormalize against the displayed subset
    assert_eq!(stats[0].percent, 7500);
    assert_eq!(stats[1].percent, 2500);
}

#[test]
fn an_empty_tracked_breakdown_is_unusable() {
    let langs: Vec<Entry> = Vec::new();
    assert_eq!(
        compute_waka_top_langs(&langs).unwrap_err(),
        PreparedTemplate::FailedFindLanguages
    );
}

fn stat(name: &str, color: &str, percent: u32) -> LanguageStat {
    LanguageStat { name: name.to_string(), color: color.to_string(), percent }
}

#[test]
fn bar_segments_stack_edge_to_edge_within_the_budget() {
    let stats = vec![stat("Rust", "#dea584", 6000), stat("C", "#555555", 4000)];
    let card = render_top_langs("octo".to_string(), Theme::Dark, Ok(stats)).unwrap();
    // widths 275*0.60 = 165 and 275*0.40 = 110, from x = 20 and 185
    assert!(card.stats_bar.contains("x=\"20\" y=\"61\" width=\"165\""));
    assert!(card.stats_bar.contains("x=\"185\" y=\"61\" width=\"110\""));
    assert_eq!(card.name.as_str(), "octo");
    // the widths sum exactly to the bar
    assert!(165 + 110 <= 275);
}

#[test]
fn bar_widths_never_overrun_for_full_percent_sets() {
    // six entries summing to exactly 100 %
    let shares = [1666u32, 1667, 1667, 1666, 1667, 1667];
    let stats: Vec<LanguageStat> =
        shares.iter().map(|p| stat("x", "#818181", *p)).collect();
    let card = render_top_langs("octo".to_string(), Theme::Dark, Ok(stats)).unwrap();
    let mut total = 0u64;
    for p in shares {
        total += 275 * (p as u64) / 10000;
    }
    assert!(total <= 275);
    assert!(card.stats_bar.contains("width=\"45\""));
}

#[test]
fn legend_switches_column_after_three_entries() {
    let stats = vec![
        stat("A", "#111111", 3000),
        stat("B", "#222222", 2500),
        stat("C", "#333333", 2000),
        stat("D", "#444444", 1500),
        stat("E", "#555555", 1000),
    ];
    let card = render_top_langs("octo".to_string(), Theme::Dark, Ok(stats)).unwrap();
    // rows at 93, 117, 141 in the left column, restarting at 93 on the right
    assert!(card.bar_legend.contains("<g><rect x=\"20\" y=\"93\""));
    assert!(card.bar_legend.contains("<g><rect x=\"20\" y=\"117\""));
    assert!(card.bar_legend.contains("<g><rect x=\"20\" y=\"141\""));
    assert!(card.bar_legend.contains("<g><rect x=\"175\" y=\"93\""));
    assert!(card.bar_legend.contains("<g><rect x=\"175\" y=\"117\""));
    // shares print with two decimals
    assert!(card.bar_legend.contains("A 30.00%"));
    assert!(card.bar_legend.contains("E 10.00%"));
}

#[test]
fn legend_pads_fractional_share_digits() {
    let stats = vec![stat("A", "#111111", 1605)];
    let card = render_top_langs("octo".to_string(), Theme::Dark, Ok(stats)).unwrap();
    assert!(card.bar_legend.contains("A 16.05%"));
}

#[test]
fn failed_language_lookup_renders_the_error_card() {
    let card = render_top_langs(
        "octo".to_string(),
        Theme::Dark,
        Err(PreparedTemplate::FailedFindLanguages),
    )
    .unwrap_err();
    assert_eq!(card.first_line.as_str(), "Failed to find a user languages.");
}

#[test]
fn language_colors_resolve_case_insensitively_with_default() {
    assert_eq!(get_lang_color(&"RUST".to_string()).as_str(), "#dea584");
    assert_eq!(get_lang_color(&"TypeScript".to_string()).as_str(), "#3178c6");
    assert_eq!(get_lang_color(&"Befunge".to_string()).as_str(), "#818181");
}

#[test]
fn language_cache_keys_are_request_fingerprints() {
    assert_eq!(
        make_waka_langs_cache_key(&"octo".to_string()).as_str(),
        "wakatime:langs:octo"
    );
    assert_eq!(
        make_github_langs_cache_key(&"octo".to_string()).as_str(),
        "github:langs:octo"
    );
}
