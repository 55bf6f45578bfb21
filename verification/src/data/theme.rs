use vstd::prelude::*;
use vstd::string::*;

verus! {

/// The five-step activity-intensity scale of a contribution calendar.
#[derive(Debug, Clone, Copy, PartialEq, Eq, Structural)]
pub enum ActivityColor {
    Inactive,
    Small,
    Medium,
    High,
    VeryHigh,
}

/// The upstream calendar cell color keys that map onto the intensity scale.
pub open spec fn spec_activity_color_from_key(key: Seq<char>) -> Option<ActivityColor> {
    if key == "#ebedf0"@ {
        Some(ActivityColor::Inactive)
    } else if key == "#9be9a8"@ {
        Some(ActivityColor::Small)
    } else if key == "#40c463"@ {
        Some(ActivityColor::Medium)
    } else if key == "#30a14e"@ {
        Some(ActivityColor::High)
    } else if key == "#216e39"@ {
        Some(ActivityColor::VeryHigh)
    } else {
        None
    }
}

impl ActivityColor {
    /// Recognize one of the five stock calendar cell colors.
    pub fn from_key(key: &str) -> (r: Option<ActivityColor>)
        ensures
            r == spec_activity_color_from_key(key@),
    {
        if crate::utils::utils::str_eq(key, "#ebedf0") {
            Some(ActivityColor::Inactive)
        } else if crate::utils::utils::str_eq(key, "#9be9a8") {
            Some(ActivityColor::Small)
        } else if crate::utils::utils::str_eq(key, "#40c463") {
            Some(ActivityColor::Medium)
        } else if crate::utils::utils::str_eq(key, "#30a14e") {
            Some(ActivityColor::High)
        } else if crate::utils::utils::str_eq(key, "#216e39") {
            Some(ActivityColor::VeryHigh)
        } else {
            None
        }
    }
}

/// The resolved color palette of one theme.
#[derive(Debug)]
pub struct ThemeData {
    pub background: String,
    pub surface_background: String,
    pub text: String,
    pub header: String,
    pub mono_icon: String,
}

/// Mathematical image of a palette: the five colors as character sequences.
pub struct ThemeDataView {
    pub background: Seq<char>,
    pub surface_background: Seq<char>,
    pub text: Seq<char>,
    pub header: Seq<char>,
    pub mono_icon: Seq<char>,
}

impl View for ThemeData {
    type V = ThemeDataView;

    open spec fn view(&self) -> ThemeDataView {
        ThemeDataView {
            background: self.background@,
            surface_background: self.surface_background@,
            text: self.text@,
            header: self.header@,
            mono_icon: self.mono_icon@,
        }
    }
}

/// The supported themes.
#[derive(Debug, Clone, Copy, PartialEq, Eq, Structural)]
pub enum Theme {
    CatppuccinMacchiato,
    CatppuccinMocha,
    CatppuccinLatte,
    CatppuccinFrappe,
    Dark,
    White,
    OneDarkProFlat,
    Dracula,
    KanagawaWave,
    AyuMirage,
    AyuWhite,
    MonokaiClassic,
}

/// The palette table: one fixed set of five colors per theme.
pub open spec fn spec_theme_data(t: Theme) -> ThemeDataView {
    match t {
        Theme::CatppuccinMacchiato => ThemeDataView {
            background: "#24273A"@,
            surface_background: "#363a4f"@,
            text: "#CAD3F5"@,
            header: "#C6A0F6"@,
            mono_icon: "#8087a2"@,
        },
        Theme::CatppuccinMocha => ThemeDataView {
            background: "#1e1e2e"@,
            surface_background: "#313244"@,
            text: "#cdd6f4"@,
            header: "#cba6f7"@,
            mono_icon: "#7f849c"@,
        },
        Theme::CatppuccinLatte => ThemeDataView {
            background: "#eff1f5"@,
            surface_background: "#ccd0da"@,
            text: "#4c4f69"@,
            header: "#8839ef"@,
            mono_icon: "#8c8fa1"@,
        },
        Theme::CatppuccinFrappe => ThemeDataView {
            background: "#303446"@,
            surface_background: "#414559"@,
            text: "#c6d0f5"@,
            header: "#ca9ee6"@,
            mono_icon: "#838ba7"@,
        },
        Theme::Dark => ThemeDataView {
            background: "#1D1D1D"@,
            surface_background: "#27272A"@,
            text: "#cfcfcf"@,
            header: "#FF6363"@,
            mono_icon: "#A5A5A5"@,
        },
        Theme::White => ThemeDataView {
            background: "#fff"@,
            surface_background: "#e5e5e5"@,
            text: "#05010d"@,
            header: "#FF6363"@,
            mono_icon: "#A5A5A5"@,
        },
        Theme::OneDarkProFlat => ThemeDataView {
            background: "#282c34"@,
            surface_background: "#404754"@,
            text: "#c7ccd6"@,
            header: "#e06c75"@,
            mono_icon: "#abb2bf"@,
        },
        Theme::Dracula => ThemeDataView {
            background: "#282A36"@,
            surface_background: "#44475A"@,
            text: "#F8F8F2"@,
            header: "#8be9fd"@,
            mono_icon: "#8b949e"@,
        },
        Theme::KanagawaWave => ThemeDataView {
            background: "#1F1F28"@,
            surface_background: "#363646"@,
            text: "#DCD7BA"@,
            header: "#E6C384"@,
            mono_icon: "#727169"@,
        },
        Theme::AyuMirage => ThemeDataView {
            background: "#242936"@,
            surface_background: "#69758C1F"@,
            text: "#CCCAC2"@,
            header: "#FFCC66"@,
            mono_icon: "#8A9199CC"@,
        },
        Theme::AyuWhite => ThemeDataView {
            background: "#FCFCFC"@,
            surface_background: "#6B7D8F1F"@,
            text: "#5C6166"@,
            header: "#FFAA33"@,
            mono_icon: "#8A9199CC"@,
        },
        Theme::MonokaiClassic => ThemeDataView {
            background: "#272822"@,
            surface_background: "#414339"@,
            text: "#f8f8f2"@,
            header: "#E6DB74"@,
            mono_icon: "#75715e"@,
        },
    }
}

/// The activity-intensity color ramp table, per theme.
pub open spec fn spec_activity_color(t: Theme, c: ActivityColor) -> Seq<char> {
    match t {
        Theme::CatppuccinMacchiato => match c {
            ActivityColor::Inactive => "#494d64"@,
            ActivityColor::Small => "#42583c"@,
            ActivityColor::Medium => "#7ea072"@,
            ActivityColor::High => "#a6da95"@,
            ActivityColor::VeryHigh => "#8ddb73"@,
        },
        Theme::CatppuccinMocha => match c {
            ActivityColor::Inactive => "#45475a"@,
            ActivityColor::Small => "#42583c"@,
            ActivityColor::Medium => "#7ea072"@,
            ActivityColor::High => "#a6e3a1"@,
            ActivityColor::VeryHigh => "#8ddb73"@,
        },
        Theme::CatppuccinLatte => match c {
            ActivityColor::Inactive => "#bcc0cc"@,
            ActivityColor::Small => "#9be9a8"@,
            ActivityColor::Medium => "#40c463"@,
            ActivityColor::High => "#40a02b"@,
            ActivityColor::VeryHigh => "#216e39"@,
        },
        Theme::CatppuccinFrappe => match c {
            ActivityColor::Inactive => "#51576d"@,
            ActivityColor::Small => "#42583c"@,
            ActivityColor::Medium => "#7ea072"@,
            ActivityColor::High => "#a6d189"@,
            ActivityColor::VeryHigh => "#8ddb73"@,
        },
        Theme::Dark => match c {
            ActivityColor::Inactive => "#27272A"@,
            ActivityColor::Small => "#42583c"@,
            ActivityColor::Medium => "#7ea072"@,
            ActivityColor::High => "#a6da95"@,
            ActivityColor::VeryHigh => "#8ddb73"@,
        },
        Theme::White => match c {
            ActivityColor::Inactive => "#e5e5e5"@,
            ActivityColor::Small => "#9be9a8"@,
            ActivityColor::Medium => "#40c463"@,
            ActivityColor::High => "#30a14e"@,
            ActivityColor::VeryHigh => "#216e39"@,
        },
        Theme::OneDarkProFlat => match c {
            ActivityColor::Inactive => "#404754"@,
            ActivityColor::Small => "#42583c"@,
            ActivityColor::Medium => "#7ea072"@,
            ActivityColor::High => "#98c379"@,
            ActivityColor::VeryHigh => "#8ddb73"@,
        },
        Theme::Dracula => match c {
            ActivityColor::Inactive => "#44475A"@,
            ActivityColor::Small => "#6272a4"@,
            ActivityColor::Medium => "#8be9fd"@,
            ActivityColor::High => "#bd93f9"@,
            ActivityColor::VeryHigh => "#ff79c6"@,
        },
        Theme::KanagawaWave => match c {
            ActivityColor::Inactive => "#363646"@,
            ActivityColor::Small => "#7B6B45"@,
            ActivityColor::Medium => "#C0A36E"@,
            ActivityColor::High => "#DCA561"@,
            ActivityColor::VeryHigh => "#E6C384"@,
        },
        Theme::AyuMirage => match c {
            ActivityColor::Inactive => "#8A919959"@,
            ActivityColor::Small => "#EACA88"@,
            ActivityColor::Medium => "#F29E74"@,
            ActivityColor::High => "#F27983"@,
            ActivityColor::VeryHigh => "#FF6666"@,
        },
        Theme::AyuWhite => match c {
            ActivityColor::Inactive => "#8A919959"@,
            ActivityColor::Small => "#F4C989"@,
            ActivityColor::Medium => "#ED9366"@,
            ActivityColor::High => "#FF7383"@,
            ActivityColor::VeryHigh => "#E65050"@,
        },
        Theme::MonokaiClassic => match c {
            ActivityColor::Inactive => "#75715E"@,
            ActivityColor::Small => "#848528"@,
            ActivityColor::Medium => "#E6DB74"@,
            ActivityColor::High => "#e2e22e"@,
            ActivityColor::VeryHigh => "#A6E22E"@,
        },
    }
}

impl Theme {
    /// The fixed five-color palette of this theme.
    pub fn get_data(&self) -> (r: ThemeData)
        ensures
            r@ == spec_theme_data(*self),
    {
        let r = match self {
            Theme::CatppuccinMacchiato => ThemeData {
                background: String::from_str("#24273A"),
                surface_background: String::from_str("#363a4f"),
                text: String::from_str("#CAD3F5"),
                header: String::from_str("#C6A0F6"),
                mono_icon: String::from_str("#8087a2"),
            },
            Theme::CatppuccinMocha => ThemeData {
                background: String::from_str("#1e1e2e"),
                surface_background: String::from_str("#313244"),
                text: String::from_str("#cdd6f4"),
                header: String::from_str("#cba6f7"),
                mono_icon: String::from_str("#7f849c"),
            },
            Theme::CatppuccinLatte => ThemeData {
                background: String::from_str("#eff1f5"),
                surface_background: String::from_str("#ccd0da"),
                text: String::from_str("#4c4f69"),
                header: String::from_str("#8839ef"),
                mono_icon: String::from_str("#8c8fa1"),
            },
            Theme::CatppuccinFrappe => ThemeData {
                background: String::from_str("#303446"),
                surface_background: String::from_str("#414559"),
                text: String::from_str("#c6d0f5"),
                header: String::from_str("#ca9ee6"),
                mono_icon: String::from_str("#838ba7"),
            },
            Theme::Dark => ThemeData {
                background: String::from_str("#1D1D1D"),
                surface_background: String::from_str("#27272A"),
                text: String::from_str("#cfcfcf"),
                header: String::from_str("#FF6363"),
                mono_icon: String::from_str("#A5A5A5"),
            },
            Theme::White => ThemeData {
                background: String::from_str("#fff"),
                surface_background: String::from_str("#e5e5e5"),
                text: String::from_str("#05010d"),
                header: String::from_str("#FF6363"),
                mono_icon: String::from_str("#A5A5A5"),
            },
            Theme::OneDarkProFlat => ThemeData {
                background: String::from_str("#282c34"),
                surface_background: String::from_str("#404754"),
                text: String::from_str("#c7ccd6"),
                header: String::from_str("#e06c75"),
                mono_icon: String::from_str("#abb2bf"),
            },
            Theme::Dracula => ThemeData {
                background: String::from_str("#282A36"),
                surface_background: String::from_str("#44475A"),
                text: String::from_str("#F8F8F2"),
                header: String::from_str("#8be9fd"),
                mono_icon: String::from_str("#8b949e"),
            },
            Theme::KanagawaWave => ThemeData {
                background: String::from_str("#1F1F28"),
                surface_background: String::from_str("#363646"),
                text: String::from_str("#DCD7BA"),
                header: String::from_str("#E6C384"),
                mono_icon: String::from_str("#727169"),
            },
            Theme::AyuMirage => ThemeData {
                background: String::from_str("#242936"),
                surface_background: String::from_str("#69758C1F"),
                text: String::from_str("#CCCAC2"),
                header: String::from_str("#FFCC66"),
                mono_icon: String::from_str("#8A9199CC"),
            },
            Theme::AyuWhite => ThemeData {
                background: String::from_str("#FCFCFC"),
                surface_background: String::from_str("#6B7D8F1F"),
                text: String::from_str("#5C6166"),
                header: String::from_str("#FFAA33"),
                mono_icon: String::from_str("#8A9199CC"),
            },
            Theme::MonokaiClassic => ThemeData {
                background: String::from_str("#272822"),
                surface_background: String::from_str("#414339"),
                text: String::from_str("#f8f8f2"),
                header: String::from_str("#E6DB74"),
                mono_icon: String::from_str("#75715e"),
            },
        };
        r
    }

    /// The ramp color of this theme for one intensity step.
    pub fn get_activity_color(&self, activity_color: ActivityColor) -> (r: String)
        ensures
            r@ == spec_activity_color(*self, activity_color),
    {
        match self {
            Theme::CatppuccinMacchiato => match activity_color {
                ActivityColor::Inactive => String::from_str("#494d64"),
                ActivityColor::Small => String::from_str("#42583c"),
                ActivityColor::Medium => String::from_str("#7ea072"),
                ActivityColor::High => String::from_str("#a6da95"),
                ActivityColor::VeryHigh => String::from_str("#8ddb73"),
            },
            Theme::CatppuccinMocha => match activity_color {
                ActivityColor::Inactive => String::from_str("#45475a"),
                ActivityColor::Small => String::from_str("#42583c"),
                ActivityColor::Medium => String::from_str("#7ea072"),
                ActivityColor::High => String::from_str("#a6e3a1"),
                ActivityColor::VeryHigh => String::from_str("#8ddb73"),
            },
            Theme::CatppuccinLatte => match activity_color {
                ActivityColor::Inactive => String::from_str("#bcc0cc"),
                ActivityColor::Small => String::from_str("#9be9a8"),
                ActivityColor::Medium => String::from_str("#40c463"),
                ActivityColor::High => String::from_str("#40a02b"),
                ActivityColor::VeryHigh => String::from_str("#216e39"),
            },
            Theme::CatppuccinFrappe => match activity_color {
                ActivityColor::Inactive => String::from_str("#51576d"),
                ActivityColor::Small => String::from_str("#42583c"),
                ActivityColor::Medium => String::from_str("#7ea072"),
                ActivityColor::High => String::from_str("#a6d189"),
                ActivityColor::VeryHigh => String::from_str("#8ddb73"),
            },
            Theme::Dark => match activity_color {
                ActivityColor::Inactive => String::from_str("#27272A"),
                ActivityColor::Small => String::from_str("#42583c"),
                ActivityColor::Medium => String::from_str("#7ea072"),
                ActivityColor::High => String::from_str("#a6da95"),
                ActivityColor::VeryHigh => String::from_str("#8ddb73"),
            },
            Theme::White => match activity_color {
                ActivityColor::Inactive => String::from_str("#e5e5e5"),
                ActivityColor::Small => String::from_str("#9be9a8"),
                ActivityColor::Medium => String::from_str("#40c463"),
                ActivityColor::High => String::from_str("#30a14e"),
                ActivityColor::VeryHigh => String::from_str("#216e39"),
            },
            Theme::OneDarkProFlat => match activity_color {
                ActivityColor::Inactive => String::from_str("#404754"),
                ActivityColor::Small => String::from_str("#42583c"),
                ActivityColor::Medium => String::from_str("#7ea072"),
                ActivityColor::High => String::from_str("#98c379"),
                ActivityColor::VeryHigh => String::from_str("#8ddb73"),
            },
            Theme::Dracula => match activity_color {
                ActivityColor::Inactive => String::from_str("#44475A"),
                ActivityColor::Small => String::from_str("#6272a4"),
                ActivityColor::Medium => String::from_str("#8be9fd"),
                ActivityColor::High => String::from_str("#bd93f9"),
                ActivityColor::VeryHigh => String::from_str("#ff79c6"),
            },
            Theme::KanagawaWave => match activity_color {
                ActivityColor::Inactive => String::from_str("#363646"),
                ActivityColor::Small => String::from_str("#7B6B45"),
                ActivityColor::Medium => String::from_str("#C0A36E"),
                ActivityColor::High => String::from_str("#DCA561"),
                ActivityColor::VeryHigh => String::from_str("#E6C384"),
            },
            Theme::AyuMirage => match activity_color {
                ActivityColor::Inactive => String::from_str("#8A919959"),
                ActivityColor::Small => String::from_str("#EACA88"),
                ActivityColor::Medium => String::from_str("#F29E74"),
                ActivityColor::High => String::from_str("#F27983"),
                ActivityColor::VeryHigh => String::from_str("#FF6666"),
            },
            Theme::AyuWhite => match activity_color {
                ActivityColor::Inactive => String::from_str("#8A919959"),
                ActivityColor::Small => String::from_str("#F4C989"),
                ActivityColor::Medium => String::from_str("#ED9366"),
                ActivityColor::High => String::from_str("#FF7383"),
                ActivityColor::VeryHigh => String::from_str("#E65050"),
            },
            Theme::MonokaiClassic => match activity_color {
                ActivityColor::Inactive => String::from_str("#75715E"),
                ActivityColor::Small => String::from_str("#848528"),
                ActivityColor::Medium => String::from_str("#E6DB74"),
                ActivityColor::High => String::from_str("#e2e22e"),
                ActivityColor::VeryHigh => String::from_str("#A6E22E"),
            },
        }
    }
}

} // verus!
