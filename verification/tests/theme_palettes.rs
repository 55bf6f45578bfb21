use statcards::data::theme::{ActivityColor, Theme};
use statcards::routes::health::Health;

#[test]
fn palettes_read_from_the_table() {
    let d = Theme::CatppuccinMacchiato.get_data();
    assert_eq!(d.background.as_str(), "#24273A");
    assert_eq!(d.surface_background.as_str(), "#363a4f");
    assert_eq!(d.text.as_str(), "#CAD3F5");
    assert_eq!(d.header.as_str(), "#C6A0F6");
    assert_eq!(d.mono_icon.as_str(), "#8087a2");
    let d = Theme::White.get_data();
    assert_eq!(d.background.as_str(), "#fff");
    let d = Theme::Dracula.get_data();
    assert_eq!(d.header.as_str(), "#8be9fd");
    let d = Theme::MonokaiClassic.get_data();
    assert_eq!(d.surface_background.as_str(), "#414339");
}

#[test]
fn activity_ramp_reads_from_the_table() {
    assert_eq!(
        Theme::Dracula.get_activity_color(ActivityColor::VeryHigh).as_str(),
        "#ff79c6"
    );
    assert_eq!(
        Theme::White.get_activity_color(ActivityColor::Inactive).as_str(),
        "#e5e5e5"
    );
    assert_eq!(
        Theme::KanagawaWave.get_activity_color(ActivityColor::Medium).as_str(),
        "#C0A36E"
    );
}

#[test]
fn stock_cell_colors_map_to_the_five_steps() {
    assert_eq!(ActivityColor::from_key("#ebedf0"), Some(ActivityColor::Inactive));
    assert_eq!(ActivityColor::from_key("#9be9a8"), Some(ActivityColor::Small));
    assert_eq!(ActivityColor::from_key("#40c463"), Some(ActivityColor::Medium));
    assert_eq!(ActivityColor::from_key("#30a14e"), Some(ActivityColor::High));
    assert_eq!(ActivityColor::from_key("#216e39"), Some(ActivityColor::VeryHigh));
    assert_eq!(ActivityColor::from_key("#ffffff"), None);
}

#[test]
fn health_reports_ok_with_the_given_version() {
    let h = Health::new("0.1.0".to_string());
    assert_eq!(h.version.as_str(), "0.1.0");
    assert_eq!(h.status.as_str(), "ok");
}
