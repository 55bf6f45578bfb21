use statcards::api::github::{
    Gist, GistFile, GistFileLanguage, GistForks, GistOwner, Repository,
};
use statcards::api::huggingface::{
    BaseData, CardData, Dataset, Model, ModelConfig, PipelineTag, RepoData, Space, SpaceRuntime,
    SpaceRuntimeHardware, SpaceRuntimeHardwareData, SpaceRuntimeStage,
};
use statcards::data::theme::Theme;
use statcards::prepared_templates::PreparedTemplate;
use statcards::routes::pin::{
    check_gist_subject, check_pin_subject, compute_tags, make_gist_cache_key,
    make_github_repo_cache_key, make_hf_cache_key, render_github_gist, render_github_pin,
    render_huggingface_pin, GHPinIcon, HFPinIcon,
};
use statcards::utils::svg::CharWidths;

fn chip_widths() -> CharWidths {
    // one character of 382px, one of 42px (in 64ths): with the 8px
    // padding the tags measure 390 and 50
    CharWidths { entries: vec![('x', 24448), ('y', 2688)], default_width: 640 }
}

#[test]
fn tag_visibility_depends_on_the_running_offset() {
    let cw = chip_widths();
    let tags = compute_tags(&cw, &vec!["x".to_string(), "y".to_string()]);
    // 390 fits the 400px budget at offset 0; after it the offset is
    // past the budget, so the 50px tag is dropped
    assert_eq!(tags.len(), 1);
    assert_eq!(tags[0].name.as_str(), "x");
    assert_eq!(tags[0].width, 390);
    assert_eq!(tags[0].translate_x, 0);
    assert!(tags[0].visible);
}

#[test]
fn swapping_two_tags_changes_which_are_visible() {
    let cw = chip_widths();
    let tags = compute_tags(&cw, &vec!["y".to_string(), "x".to_string()]);
    // reversed: the 50px tag fits, then 50 + 10 + 390 overruns
    assert_eq!(tags.len(), 1);
    assert_eq!(tags[0].name.as_str(), "y");
    assert_eq!(tags[0].width, 50);
}

#[test]
fn a_tag_ending_exactly_at_the_budget_is_visible() {
    // measure 392 plus the 8px padding puts the right edge at 400
    let cw = CharWidths { entries: vec![('z', 25088)], default_width: 640 };
    let tags = compute_tags(&cw, &vec!["z".to_string()]);
    assert_eq!(tags.len(), 1);
    assert_eq!(tags[0].width, 400);
    assert!(tags[0].visible);
}

#[test]
fn several_small_tags_stack_with_the_fixed_gap() {
    let cw = chip_widths();
    let tags = compute_tags(
        &cw,
        &vec!["y".to_string(), "y".to_string(), "y".to_string()],
    );
    assert_eq!(tags.len(), 3);
    assert_eq!(tags[0].translate_x, 0);
    assert_eq!(tags[1].translate_x, 60);
    assert_eq!(tags[2].translate_x, 120);
}

fn base(id: &str, likes: u32, license: Option<&str>, tags: &[&str]) -> BaseData {
    BaseData {
        id: id.to_string(),
        private: false,
        tags: tags.iter().map(|t| t.to_string()).collect(),
        likes,
        author: "octo".to_string(),
        last_modified: "2024-05-01T00:00:00Z".to_string(),
        disabled: false,
        card_data: CardData {
            license: license.map(|l| l.to_string()),
            tags: None,
            task_categories: None,
        },
        created_at: "2023-05-01T00:00:00Z".to_string(),
    }
}

fn model(likes: u32, downloads: u32) -> Model {
    Model {
        base: base("octo/llama", likes, Some("mit"), &["gguf"]),
        pipeline_tag: Some(PipelineTag::TextGeneration),
        library_name: Some("transformers".to_string()),
        downloads,
        model_id: "octo/llama".to_string(),
        config: Some(ModelConfig { model_type: Some("llama".to_string()) }),
    }
}

// a table whose every character is ten pixels wide
fn wide_table() -> CharWidths {
    CharWidths { entries: Vec::new(), default_width: 640 }
}

#[test]
fn model_pin_collects_type_task_and_license_tags() {
    let cw = wide_table();
    let card = render_huggingface_pin(
        "octo".to_string(),
        "llama".to_string(),
        true,
        Theme::Dark,
        Ok(RepoData::Model(model(1234, 2000000))),
        &cw,
    )
    .unwrap();
    assert_eq!(card.icon, HFPinIcon::Model);
    assert_eq!(card.repo_text.as_str(), "octo/llama");
    assert_eq!(card.likes.as_str(), "1.2k");
    assert_eq!(card.downloads.as_ref().unwrap().as_str(), "2.0M");
    let names: Vec<&str> = card.tags.iter().map(|t| t.name.as_str()).collect();
    assert_eq!(names, vec!["llama", "Text Generation", "MIT"]);
}

#[test]
fn the_other_license_is_not_shown() {
    let cw = wide_table();
    let mut m = model(1, 1);
    m.base.card_data.license = Some("other".to_string());
    let card = render_huggingface_pin(
        "octo".to_string(),
        "llama".to_string(),
        false,
        Theme::Dark,
        Ok(RepoData::Model(m)),
        &cw,
    )
    .unwrap();
    let names: Vec<&str> = card.tags.iter().map(|t| t.name.as_str()).collect();
    assert_eq!(names, vec!["llama", "Text Generation"]);
    assert_eq!(card.repo_text.as_str(), "llama");
}

#[test]
fn tagless_repo_falls_back_to_its_first_raw_tag() {
    let cw = wide_table();
    let mut m = model(1, 1);
    m.base.card_data.license = None;
    m.config = None;
    m.pipeline_tag = None;
    let card = render_huggingface_pin(
        "octo".to_string(),
        "llama".to_string(),
        false,
        Theme::Dark,
        Ok(RepoData::Model(m)),
        &cw,
    )
    .unwrap();
    let names: Vec<&str> = card.tags.iter().map(|t| t.name.as_str()).collect();
    assert_eq!(names, vec!["gguf"]);
}

#[test]
fn dataset_pin_takes_the_first_task_category() {
    let cw = wide_table();
    let mut b = base("octo/voices", 9, None, &[]);
    b.card_data.task_categories =
        Some(vec!["text-to-speech".to_string(), "audio".to_string()]);
    let card = render_huggingface_pin(
        "octo".to_string(),
        "voices".to_string(),
        false,
        Theme::Dark,
        Ok(RepoData::Dataset(Dataset { base: b, downloads: 312 })),
        &cw,
    )
    .unwrap();
    assert_eq!(card.icon, HFPinIcon::Dataset);
    assert_eq!(card.downloads.as_ref().unwrap().as_str(), "312");
    let names: Vec<&str> = card.tags.iter().map(|t| t.name.as_str()).collect();
    assert_eq!(names, vec!["text-to-speech"]);
}

#[test]
fn space_pin_shows_its_hardware_badge_and_no_downloads() {
    let cw = wide_table();
    let sp = Space {
        base: base("octo/demo", 5, None, &[]),
        subdomain: "demo".to_string(),
        host: "example".to_string(),
        runtime: SpaceRuntime {
            stage: SpaceRuntimeStage::Running,
            hardware: SpaceRuntimeHardwareData { current: SpaceRuntimeHardware::ZeroA10G },
        },
    };
    let card = render_huggingface_pin(
        "octo".to_string(),
        "demo".to_string(),
        false,
        Theme::Dark,
        Ok(RepoData::Space(sp)),
        &cw,
    )
    .unwrap();
    assert_eq!(card.icon, HFPinIcon::Space);
    assert!(card.downloads.is_none());
    let names: Vec<&str> = card.tags.iter().map(|t| t.name.as_str()).collect();
    assert_eq!(names, vec!["Running on Zero"]);
}

#[test]
fn hub_task_labels_read_from_the_table() {
    assert_eq!(PipelineTag::TextGeneration.to_string().as_str(), "Text Generation");
    assert_eq!(
        PipelineTag::AutomaticSpeechRecognition.to_string().as_str(),
        "Automatic Speech Recognition"
    );
    assert_eq!(PipelineTag::Textto3D.to_string().as_str(), "Text-to-3D");
    assert_eq!(SpaceRuntimeHardware::H100X8.to_string().as_str(), "H100");
    assert_eq!(SpaceRuntimeHardware::CpuBasic.to_string().as_str(), "");
}

fn repo(desc: Option<&str>, lang: Option<&str>, stars: u32, forks: u32) -> Repository {
    Repository {
        name: "verus".to_string(),
        description: desc.map(|d| d.to_string()),
        language: lang.map(|l| l.to_string()),
        stargazers_count: stars,
        forks_count: forks,
    }
}

#[test]
fn repo_pin_lays_description_language_and_counters_out() {
    let cw = wide_table();
    let card = render_github_pin(
        "octo".to_string(),
        "verus".to_string(),
        true,
        Theme::Dark,
        Ok(repo(Some("a verifier"), Some("Rust"), 1500, 0)),
        &cw,
    )
    .unwrap();
    assert_eq!(card.icon, GHPinIcon::Repo);
    assert_eq!(card.repo_text.as_str(), "octo/verus");
    let rows: Vec<&str> = card.rows.iter().map(|r| r.as_str()).collect();
    assert_eq!(rows, vec!["a verifier"]);
    assert!(card.is_single_text_row);
    assert_eq!(card.stars.as_ref().unwrap().as_str(), "1.5k");
    assert!(card.forks.is_none());
    let lang = card.language.as_ref().unwrap();
    assert_eq!(lang.name.as_str(), "Rust");
    assert_eq!(lang.color.as_str(), "#dea584");
    assert_eq!(lang.width, 40);
    assert_eq!(card.meta_counters_x_indent, 40 + 35);
    // "1.5k" measures 40px under the flat table
    assert_eq!(card.forks_counter_x_indent, 40 + 35);
}

#[test]
fn repo_pin_without_description_shows_the_placeholder() {
    let cw = wide_table();
    let card = render_github_pin(
        "octo".to_string(),
        "verus".to_string(),
        false,
        Theme::Dark,
        Ok(repo(None, None, 0, 3)),
        &cw,
    )
    .unwrap();
    let rows: Vec<&str> = card.rows.iter().map(|r| r.as_str()).collect();
    assert_eq!(rows, vec!["No description provided"]);
    assert!(card.stars.is_none());
    assert_eq!(card.forks.as_ref().unwrap().as_str(), "3");
    assert!(card.language.is_none());
    assert_eq!(card.meta_counters_x_indent, 0);
    assert_eq!(card.forks_counter_x_indent, 0);
}

fn gist(files: Vec<GistFile>, stars: u32, forks: u32) -> Gist {
    Gist {
        owner: GistOwner { login: "octo".to_string() },
        description: Some("bits and pieces".to_string()),
        files,
        stargazer_count: stars,
        forks: GistForks { total_count: forks },
    }
}

fn gfile(name: &str, size: u64, lang: &str) -> GistFile {
    GistFile {
        name: name.to_string(),
        size,
        language: GistFileLanguage { name: lang.to_string() },
    }
}

#[test]
fn gist_pin_names_itself_after_the_largest_file() {
    let cw = wide_table();
    let g = gist(
        vec![gfile("notes.md", 10, "Markdown"), gfile("main.rs", 900, "Rust")],
        2,
        1,
    );
    let card = render_github_gist("abc123".to_string(), true, Theme::Dark, Ok(g), &cw).unwrap();
    assert_eq!(card.icon, GHPinIcon::Gist);
    assert_eq!(card.name.as_str(), "octo");
    assert_eq!(card.desc.as_str(), "main.rs");
    assert_eq!(card.repo_text.as_str(), "octo/main.rs");
    assert_eq!(card.language.as_ref().unwrap().name.as_str(), "Rust");
}

#[test]
fn equally_large_gist_files_pick_the_later_one() {
    let cw = wide_table();
    let g = gist(vec![gfile("a.py", 40, "Python"), gfile("b.lua", 40, "Lua")], 0, 0);
    let card = render_github_gist("abc123".to_string(), false, Theme::Dark, Ok(g), &cw).unwrap();
    assert_eq!(card.desc.as_str(), "b.lua");
    assert_eq!(card.language.as_ref().unwrap().name.as_str(), "Lua");
}

#[test]
fn fileless_gist_keeps_its_identifier() {
    let cw = wide_table();
    let g = gist(Vec::new(), 0, 0);
    let card = render_github_gist("abc123".to_string(), false, Theme::Dark, Ok(g), &cw).unwrap();
    assert_eq!(card.desc.as_str(), "abc123");
    assert!(card.language.is_none());
}

#[test]
fn failed_pin_lookups_render_error_cards() {
    let cw = wide_table();
    let card = render_github_pin(
        "octo".to_string(),
        "verus".to_string(),
        false,
        Theme::Dark,
        Err(PreparedTemplate::FailedFindRepo),
        &cw,
    )
    .unwrap_err();
    assert_eq!(card.first_line.as_str(), "Failed to find a repo.");
}

#[test]
fn pin_cache_keys_are_request_fingerprints() {
    assert_eq!(
        make_hf_cache_key(HFPinIcon::Model, &"octo".to_string(), &"llama".to_string()).as_str(),
        "huggingface:Model:octo:llama"
    );
    assert_eq!(
        make_hf_cache_key(HFPinIcon::Space, &"a".to_string(), &"b".to_string()).as_str(),
        "huggingface:Space:a:b"
    );
    assert_eq!(
        make_github_repo_cache_key(&"octo".to_string(), &"verus".to_string()).as_str(),
        "github:repo:octo:verus"
    );
    assert_eq!(make_gist_cache_key(&"abc123".to_string()).as_str(), "github:gist:abc123");
}

#[test]
fn empty_pin_subjects_are_rejected() {
    assert_eq!(
        check_pin_subject(&"".to_string(), &"verus".to_string()).unwrap_err(),
        PreparedTemplate::FailedFindRepo
    );
    assert_eq!(
        check_pin_subject(&"octo".to_string(), &"".to_string()).unwrap_err(),
        PreparedTemplate::FailedFindRepo
    );
    assert!(check_pin_subject(&"octo".to_string(), &"verus".to_string()).is_ok());
    assert!(check_gist_subject(&"abc".to_string()).is_ok());
    assert!(check_gist_subject(&"".to_string()).is_err());
}
