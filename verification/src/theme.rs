//! The user's theme choice.
use vstd::prelude::*;

verus! {

#[derive(Clone, Copy, Debug, PartialEq, Eq, Structural)]
pub enum ThemePalette {
    Gruvbox,
    Nordbones,
    Sonokai,
    Catppuccin,
    Everforest,
    RosePine,
    Dayfox,
}

#[derive(Clone, Copy, Debug, PartialEq, Eq, Structural)]
pub enum ThemeMode {
    System,
    Dark,
    Light,
}

#[derive(Clone, Copy, Debug, PartialEq, Eq, Structural)]
pub struct ThemePreference {
    pub palette: ThemePalette,
    pub mode: ThemeMode,
}

impl ThemePreference {
    pub open spec fn default_spec() -> ThemePreference {
        ThemePreference { palette: ThemePalette::RosePine, mode: ThemeMode::System }
    }
}

impl Default for ThemePreference {
    fn default() -> (r: Self)
        ensures
            r == (ThemePreference { palette: ThemePalette::RosePine, mode: ThemeMode::System }),
    {
        ThemePreference { palette: ThemePalette::RosePine, mode: ThemeMode::System }
    }
}

impl ThemePalette {
    /// Every palette, in the order the picker lists them.
    pub fn all() -> (r: Vec<ThemePalette>)
        ensures
            r@ == seq![
                ThemePalette::Gruvbox,
                ThemePalette::Nordbones,
                ThemePalette::Sonokai,
                ThemePalette::Catppuccin,
                ThemePalette::Everforest,
                ThemePalette::RosePine,
                ThemePalette::Dayfox,
            ],
    {
        let mut v = Vec::new();
        v.push(ThemePalette::Gruvbox);
        v.push(ThemePalette::Nordbones);
        v.push(ThemePalette::Sonokai);
        v.push(ThemePalette::Catppuccin);
        v.push(ThemePalette::Everforest);
        v.push(ThemePalette::RosePine);
        v.push(ThemePalette::Dayfox);
        assert(v@ =~= seq![
            ThemePalette::Gruvbox,
            ThemePalette::Nordbones,
            ThemePalette::Sonokai,
            ThemePalette::Catppuccin,
            ThemePalette::Everforest,
            ThemePalette::RosePine,
            ThemePalette::Dayfox,
        ]);
        v
    }

    pub open spec fn label_spec(self) -> Seq<char> {
        match self {
            ThemePalette::Gruvbox => "Gruvbox"@,
            ThemePalette::Nordbones => "Nordbones"@,
            ThemePalette::Sonokai => "Sonokai"@,
            ThemePalette::Catppuccin => "Catppuccin"@,
            ThemePalette::Everforest => "Everforest"@,
            ThemePalette::RosePine => "Rose Pine"@,
            ThemePalette::Dayfox => "Dayfox"@,
        }
    }

    /// Display name of the palette.
    pub fn label(self) -> (r: &'static str)
        ensures
            r@ == self.label_spec(),
    {
        match self {
            ThemePalette::Gruvbox => "Gruvbox",
            ThemePalette::Nordbones => "Nordbones",
            ThemePalette::Sonokai => "Sonokai",
            ThemePalette::Catppuccin => "Catppuccin",
            ThemePalette::Everforest => "Everforest",
            ThemePalette::RosePine => "Rose Pine",
            ThemePalette::Dayfox => "Dayfox",
        }
    }

    pub open spec fn note_spec(self) -> Seq<char> {
        match self {
            ThemePalette::Nordbones => "dark-native"@,
            ThemePalette::Sonokai => "dark-native"@,
            ThemePalette::Dayfox => "light-native"@,
            ThemePalette::Catppuccin => "latte/macchiato"@,
            ThemePalette::RosePine => "dawn/moon"@,
            ThemePalette::Gruvbox => "light/dark"@,
            ThemePalette::Everforest => "light/dark"@,
        }
    }

    /// Short note on the variants the palette offers.
    pub fn note(self) -> (r: &'static str)
        ensures
            r@ == self.note_spec(),
    {
        match self {
            ThemePalette::Nordbones => "dark-native",
            ThemePalette::Sonokai => "dark-native",
            ThemePalette::Dayfox => "light-native",
            ThemePalette::Catppuccin => "latte/macchiato",
            ThemePalette::RosePine => "dawn/moon",
            ThemePalette::Gruvbox => "light/dark",
            ThemePalette::Everforest => "light/dark",
        }
    }
}

impl ThemeMode {
    /// Every mode, in the order the picker lists them.
    pub fn all() -> (r: Vec<ThemeMode>)
        ensures
            r@ == seq![ThemeMode::System, ThemeMode::Dark, ThemeMode::Light],
    {
        let mut v = Vec::new();
        v.push(ThemeMode::System);
        v.push(ThemeMode::Dark);
        v.push(ThemeMode::Light);
        assert(v@ =~= seq![ThemeMode::System, ThemeMode::Dark, ThemeMode::Light]);
        v
    }

    pub open spec fn label_spec(self) -> Seq<char> {
        match self {
            ThemeMode::System => "System"@,
            ThemeMode::Dark => "Dark"@,
            ThemeMode::Light => "Light"@,
        }
    }

    /// Display name of the mode.
    pub fn label(self) -> (r: &'static str)
        ensures
            r@ == self.label_spec(),
    {
        match self {
            ThemeMode::System => "System",
            ThemeMode::Dark => "Dark",
            ThemeMode::Light => "Light",
        }
    }
}

/// Whether a mode shows the dark variant, given the system's preference.
pub open spec fn wants_dark_spec(mode: ThemeMode, system_prefers_dark: bool) -> bool {
    match mode {
        ThemeMode::Dark => true,
        ThemeMode::Light => false,
        ThemeMode::System => system_prefers_dark,
    }
}

/// Whether a mode shows the dark variant, given the system's preference.
pub fn wants_dark(mode: ThemeMode, system_prefers_dark: bool) -> (r: bool)
    ensures
        r == wants_dark_spec(mode, system_prefers_dark),
{
    match mode {
        ThemeMode::Dark => true,
        ThemeMode::Light => false,
        ThemeMode::System => system_prefers_dark,
    }
}


/// The colours and styles of one palette variant, one CSS value per field.
#[derive(Clone, Copy, Debug, PartialEq, Eq)]
pub struct ThemeTokens {
    pub color_scheme: &'static str,
    pub bg: &'static str,
    pub bg_elevated: &'static str,
    pub bg_card: &'static str,
    pub line: &'static str,
    pub line_strong: &'static str,
    pub text: &'static str,
    pub text_soft: &'static str,
    pub amber: &'static str,
    pub amber_deep: &'static str,
    pub lime: &'static str,
    pub rose: &'static str,
    pub blue: &'static str,
    pub shadow: &'static str,
    pub page_glow_primary: &'static str,
    pub page_glow_secondary: &'static str,
    pub page_gradient: &'static str,
    pub panel_bg: &'static str,
    pub banner_bg: &'static str,
    pub pill_bg: &'static str,
    pub pill_border: &'static str,
    pub ghost_bg: &'static str,
    pub ghost_border: &'static str,
    pub secondary_bg: &'static str,
    pub secondary_border: &'static str,
    pub quit_bg: &'static str,
    pub quit_border: &'static str,
    pub accent_text: &'static str,
    pub primary_shadow: &'static str,
    pub scene_shell_bg: &'static str,
    pub room_shell_bg: &'static str,
    pub room_shell_border: &'static str,
    pub chip_bg: &'static str,
    pub chip_border: &'static str,
    pub slider_bg: &'static str,
    pub slider_fill: &'static str,
}

/// The tokens of a palette in its dark or light variant.
pub open spec fn tokens_spec(palette: ThemePalette, dark: bool) -> ThemeTokens {
    match (palette, dark) {
        (ThemePalette::Gruvbox, true) => ThemeTokens {
            color_scheme: "dark",
            bg: "#282828",
            bg_elevated: "rgba(40, 40, 40, 0.92)",
            bg_card: "rgba(50, 48, 47, 0.86)",
            line: "rgba(168, 153, 132, 0.18)",
            line_strong: "rgba(250, 189, 47, 0.34)",
            text: "#ebdbb2",
            text_soft: "rgba(235, 219, 178, 0.72)",
            amber: "#fabd2f",
            amber_deep: "#fe8019",
            lime: "#b8bb26",
            rose: "#fb4934",
            blue: "#83a598",
            shadow: "0 24px 72px rgba(0, 0, 0, 0.34)",
            page_glow_primary: "rgba(250, 189, 47, 0.18)",
            page_glow_secondary: "rgba(131, 165, 152, 0.14)",
            page_gradient: "linear-gradient(160deg, #282828 0%, #1d2021 58%, #32302f 100%)",
            panel_bg: "linear-gradient(160deg, rgba(251, 241, 199, 0.02), transparent 38%), rgba(40, 40, 40, 0.84)",
            banner_bg: "rgba(50, 48, 47, 0.86)",
            pill_bg: "rgba(60, 56, 54, 0.72)",
            pill_border: "rgba(189, 174, 147, 0.18)",
            ghost_bg: "rgba(60, 56, 54, 0.7)",
            ghost_border: "rgba(168, 153, 132, 0.18)",
            secondary_bg: "rgba(80, 73, 69, 0.66)",
            secondary_border: "rgba(250, 189, 47, 0.18)",
            quit_bg: "rgba(157, 0, 6, 0.18)",
            quit_border: "rgba(251, 73, 52, 0.22)",
            accent_text: "#282828",
            primary_shadow: "0 16px 32px rgba(254, 128, 25, 0.18)",
            scene_shell_bg: "rgba(60, 56, 54, 0.42)",
            room_shell_bg: "rgba(50, 48, 47, 0.7)",
            room_shell_border: "rgba(189, 174, 147, 0.1)",
            chip_bg: "rgba(60, 56, 54, 0.68)",
            chip_border: "rgba(168, 153, 132, 0.14)",
            slider_bg: "rgba(124, 111, 100, 0.24)",
            slider_fill: "linear-gradient(90deg, #fabd2f, #fe8019)",
        },
        (ThemePalette::Gruvbox, false) => ThemeTokens {
            color_scheme: "light",
            bg: "#fbf1c7",
            bg_elevated: "rgba(253, 244, 193, 0.94)",
            bg_card: "rgba(242, 229, 188, 0.92)",
            line: "rgba(80, 73, 69, 0.14)",
            line_strong: "rgba(215, 153, 33, 0.34)",
            text: "#3c3836",
            text_soft: "rgba(60, 56, 54, 0.68)",
            amber: "#d79921",
            amber_deep: "#d65d0e",
            lime: "#98971a",
            rose: "#cc241d",
            blue: "#458588",
            shadow: "0 20px 60px rgba(87, 68, 36, 0.12)",
            page_glow_primary: "rgba(215, 153, 33, 0.18)",
            page_glow_secondary: "rgba(69, 133, 136, 0.12)",
            page_gradient: "linear-gradient(160deg, #fbf1c7 0%, #f2e5bc 54%, #ebdbb2 100%)",
            panel_bg: "linear-gradient(160deg, rgba(255, 255, 255, 0.28), transparent 34%), rgba(253, 244, 193, 0.88)",
            banner_bg: "rgba(242, 229, 188, 0.94)",
            pill_bg: "rgba(255, 255, 255, 0.56)",
            pill_border: "rgba(80, 73, 69, 0.1)",
            ghost_bg: "rgba(255, 255, 255, 0.56)",
            ghost_border: "rgba(80, 73, 69, 0.12)",
            secondary_bg: "rgba(255, 255, 255, 0.72)",
            secondary_border: "rgba(215, 153, 33, 0.16)",
            quit_bg: "rgba(204, 36, 29, 0.08)",
            quit_border: "rgba(204, 36, 29, 0.18)",
            accent_text: "#fbf1c7",
            primary_shadow: "0 14px 30px rgba(214, 93, 14, 0.12)",
            scene_shell_bg: "rgba(255, 255, 255, 0.44)",
            room_shell_bg: "rgba(255, 255, 255, 0.56)",
            room_shell_border: "rgba(80, 73, 69, 0.08)",
            chip_bg: "rgba(255, 255, 255, 0.62)",
            chip_border: "rgba(80, 73, 69, 0.1)",
            slider_bg: "rgba(80, 73, 69, 0.12)",
            slider_fill: "linear-gradient(90deg, #d79921, #d65d0e)",
        },
        (ThemePalette::Nordbones, _) => ThemeTokens {
            color_scheme: "dark",
            bg: "#2F3541",
            bg_elevated: "rgba(47, 53, 65, 0.92)",
            bg_card: "rgba(53, 60, 73, 0.88)",
            line: "rgba(115, 124, 144, 0.22)",
            line_strong: "rgba(143, 188, 186, 0.34)",
            text: "#EBEEF3",
            text_soft: "rgba(235, 238, 243, 0.7)",
            amber: "#CF866F",
            amber_deep: "#E09680",
            lime: "#A4BE8D",
            rose: "#C1616A",
            blue: "#8FBCBA",
            shadow: "0 24px 70px rgba(20, 25, 35, 0.32)",
            page_glow_primary: "rgba(207, 134, 111, 0.16)",
            page_glow_secondary: "rgba(135, 191, 206, 0.14)",
            page_gradient: "linear-gradient(160deg, #2F3541 0%, #252b35 56%, #353c49 100%)",
            panel_bg: "linear-gradient(160deg, rgba(242, 244, 247, 0.025), transparent 38%), rgba(47, 53, 65, 0.84)",
            banner_bg: "rgba(53, 60, 73, 0.86)",
            pill_bg: "rgba(57, 64, 78, 0.76)",
            pill_border: "rgba(126, 140, 168, 0.18)",
            ghost_bg: "rgba(57, 64, 78, 0.72)",
            ghost_border: "rgba(126, 140, 168, 0.16)",
            secondary_bg: "rgba(65, 73, 89, 0.74)",
            secondary_border: "rgba(143, 188, 186, 0.18)",
            quit_bg: "rgba(193, 97, 106, 0.12)",
            quit_border: "rgba(214, 120, 127, 0.2)",
            accent_text: "#2F3541",
            primary_shadow: "0 16px 32px rgba(224, 150, 128, 0.16)",
            scene_shell_bg: "rgba(65, 73, 89, 0.44)",
            room_shell_bg: "rgba(53, 60, 73, 0.72)",
            room_shell_border: "rgba(126, 140, 168, 0.12)",
            chip_bg: "rgba(57, 64, 78, 0.68)",
            chip_border: "rgba(126, 140, 168, 0.14)",
            slider_bg: "rgba(129, 142, 171, 0.18)",
            slider_fill: "linear-gradient(90deg, #CF866F, #8FBCBA)",
        },
        (ThemePalette::Sonokai, _) => ThemeTokens {
            color_scheme: "dark",
            bg: "#2c2e34",
            bg_elevated: "rgba(44, 46, 52, 0.92)",
            bg_card: "rgba(51, 53, 63, 0.88)",
            line: "rgba(127, 132, 144, 0.2)",
            line_strong: "rgba(118, 204, 224, 0.28)",
            text: "#e2e2e3",
            text_soft: "rgba(226, 226, 227, 0.72)",
            amber: "#e7c664",
            amber_deep: "#f39660",
            lime: "#9ed072",
            rose: "#fc5d7c",
            blue: "#76cce0",
            shadow: "0 24px 72px rgba(19, 22, 30, 0.34)",
            page_glow_primary: "rgba(243, 150, 96, 0.16)",
            page_glow_secondary: "rgba(118, 204, 224, 0.14)",
            page_gradient: "linear-gradient(160deg, #2c2e34 0%, #181819 56%, #33353f 100%)",
            panel_bg: "linear-gradient(160deg, rgba(226, 226, 227, 0.02), transparent 38%), rgba(44, 46, 52, 0.84)",
            banner_bg: "rgba(51, 53, 63, 0.86)",
            pill_bg: "rgba(59, 62, 72, 0.76)",
            pill_border: "rgba(127, 132, 144, 0.16)",
            ghost_bg: "rgba(59, 62, 72, 0.74)",
            ghost_border: "rgba(127, 132, 144, 0.16)",
            secondary_bg: "rgba(65, 69, 80, 0.74)",
            secondary_border: "rgba(118, 204, 224, 0.18)",
            quit_bg: "rgba(252, 93, 124, 0.12)",
            quit_border: "rgba(252, 93, 124, 0.2)",
            accent_text: "#222327",
            primary_shadow: "0 16px 32px rgba(243, 150, 96, 0.18)",
            scene_shell_bg: "rgba(59, 62, 72, 0.44)",
            room_shell_bg: "rgba(51, 53, 63, 0.72)",
            room_shell_border: "rgba(127, 132, 144, 0.1)",
            chip_bg: "rgba(59, 62, 72, 0.68)",
            chip_border: "rgba(127, 132, 144, 0.14)",
            slider_bg: "rgba(127, 132, 144, 0.2)",
            slider_fill: "linear-gradient(90deg, #e7c664, #76cce0)",
        },
        (ThemePalette::Catppuccin, true) => ThemeTokens {
            color_scheme: "dark",
            bg: "#24273a",
            bg_elevated: "rgba(36, 39, 58, 0.94)",
            bg_card: "rgba(30, 32, 48, 0.9)",
            line: "rgba(147, 153, 178, 0.2)",
            line_strong: "rgba(138, 173, 244, 0.3)",
            text: "#cad3f5",
            text_soft: "rgba(202, 211, 245, 0.72)",
            amber: "#eed49f",
            amber_deep: "#f5a97f",
            lime: "#a6da95",
            rose: "#ed8796",
            blue: "#8aadf4",
            shadow: "0 24px 72px rgba(17, 17, 27, 0.36)",
            page_glow_primary: "rgba(245, 169, 127, 0.18)",
            page_glow_secondary: "rgba(138, 173, 244, 0.16)",
            page_gradient: "linear-gradient(160deg, #24273a 0%, #181926 58%, #1e2030 100%)",
            panel_bg: "linear-gradient(160deg, rgba(202, 211, 245, 0.02), transparent 38%), rgba(30, 32, 48, 0.86)",
            banner_bg: "rgba(30, 32, 48, 0.88)",
            pill_bg: "rgba(54, 58, 79, 0.74)",
            pill_border: "rgba(147, 153, 178, 0.18)",
            ghost_bg: "rgba(54, 58, 79, 0.74)",
            ghost_border: "rgba(147, 153, 178, 0.16)",
            secondary_bg: "rgba(54, 58, 79, 0.78)",
            secondary_border: "rgba(138, 173, 244, 0.18)",
            quit_bg: "rgba(237, 135, 150, 0.12)",
            quit_border: "rgba(237, 135, 150, 0.2)",
            accent_text: "#1e2030",
            primary_shadow: "0 16px 32px rgba(245, 169, 127, 0.18)",
            scene_shell_bg: "rgba(54, 58, 79, 0.46)",
            room_shell_bg: "rgba(30, 32, 48, 0.72)",
            room_shell_border: "rgba(147, 153, 178, 0.1)",
            chip_bg: "rgba(54, 58, 79, 0.68)",
            chip_border: "rgba(147, 153, 178, 0.14)",
            slider_bg: "rgba(147, 153, 178, 0.18)",
            slider_fill: "linear-gradient(90deg, #eed49f, #8aadf4)",
        },
        (ThemePalette::Catppuccin, false) => ThemeTokens {
            color_scheme: "light",
            bg: "#eff1f5",
            bg_elevated: "rgba(239, 241, 245, 0.96)",
            bg_card: "rgba(230, 233, 239, 0.92)",
            line: "rgba(124, 127, 147, 0.16)",
            line_strong: "rgba(30, 102, 245, 0.24)",
            text: "#4c4f69",
            text_soft: "rgba(76, 79, 105, 0.68)",
            amber: "#df8e1d",
            amber_deep: "#fe640b",
            lime: "#40a02b",
            rose: "#d20f39",
            blue: "#1e66f5",
            shadow: "0 20px 60px rgba(76, 79, 105, 0.12)",
            page_glow_primary: "rgba(223, 142, 29, 0.16)",
            page_glow_secondary: "rgba(30, 102, 245, 0.12)",
            page_gradient: "linear-gradient(160deg, #eff1f5 0%, #e6e9ef 54%, #dce0e8 100%)",
            panel_bg: "linear-gradient(160deg, rgba(255, 255, 255, 0.3), transparent 34%), rgba(239, 241, 245, 0.88)",
            banner_bg: "rgba(230, 233, 239, 0.94)",
            pill_bg: "rgba(255, 255, 255, 0.58)",
            pill_border: "rgba(124, 127, 147, 0.1)",
            ghost_bg: "rgba(255, 255, 255, 0.58)",
            ghost_border: "rgba(124, 127, 147, 0.12)",
            secondary_bg: "rgba(255, 255, 255, 0.72)",
            secondary_border: "rgba(30, 102, 245, 0.14)",
            quit_bg: "rgba(210, 15, 57, 0.08)",
            quit_border: "rgba(210, 15, 57, 0.16)",
            accent_text: "#eff1f5",
            primary_shadow: "0 14px 30px rgba(223, 142, 29, 0.12)",
            scene_shell_bg: "rgba(255, 255, 255, 0.44)",
            room_shell_bg: "rgba(255, 255, 255, 0.58)",
            room_shell_border: "rgba(124, 127, 147, 0.08)",
            chip_bg: "rgba(255, 255, 255, 0.62)",
            chip_border: "rgba(124, 127, 147, 0.1)",
            slider_bg: "rgba(124, 127, 147, 0.12)",
            slider_fill: "linear-gradient(90deg, #df8e1d, #1e66f5)",
        },
        (ThemePalette::Everforest, true) => ThemeTokens {
            color_scheme: "dark",
            bg: "#2D353B",
            bg_elevated: "rgba(45, 53, 59, 0.94)",
            bg_card: "rgba(52, 63, 68, 0.9)",
            line: "rgba(133, 146, 137, 0.22)",
            line_strong: "rgba(127, 187, 179, 0.28)",
            text: "#D3C6AA",
            text_soft: "rgba(211, 198, 170, 0.72)",
            amber: "#DBBC7F",
            amber_deep: "#E69875",
            lime: "#A7C080",
            rose: "#E67E80",
            blue: "#7FBBB3",
            shadow: "0 24px 72px rgba(18, 24, 24, 0.34)",
            page_glow_primary: "rgba(219, 188, 127, 0.16)",
            page_glow_secondary: "rgba(127, 187, 179, 0.14)",
            page_gradient: "linear-gradient(160deg, #2D353B 0%, #232A2E 56%, #343F44 100%)",
            panel_bg: "linear-gradient(160deg, rgba(211, 198, 170, 0.02), transparent 38%), rgba(45, 53, 59, 0.86)",
            banner_bg: "rgba(52, 63, 68, 0.88)",
            pill_bg: "rgba(61, 72, 77, 0.74)",
            pill_border: "rgba(133, 146, 137, 0.18)",
            ghost_bg: "rgba(61, 72, 77, 0.74)",
            ghost_border: "rgba(133, 146, 137, 0.16)",
            secondary_bg: "rgba(71, 82, 88, 0.76)",
            secondary_border: "rgba(127, 187, 179, 0.16)",
            quit_bg: "rgba(230, 126, 128, 0.12)",
            quit_border: "rgba(230, 126, 128, 0.18)",
            accent_text: "#232A2E",
            primary_shadow: "0 16px 32px rgba(230, 152, 117, 0.18)",
            scene_shell_bg: "rgba(71, 82, 88, 0.44)",
            room_shell_bg: "rgba(52, 63, 68, 0.74)",
            room_shell_border: "rgba(133, 146, 137, 0.1)",
            chip_bg: "rgba(61, 72, 77, 0.68)",
            chip_border: "rgba(133, 146, 137, 0.14)",
            slider_bg: "rgba(133, 146, 137, 0.18)",
            slider_fill: "linear-gradient(90deg, #DBBC7F, #7FBBB3)",
        },
        (ThemePalette::Everforest, false) => ThemeTokens {
            color_scheme: "light",
            bg: "#FDF6E3",
            bg_elevated: "rgba(253, 246, 227, 0.96)",
            bg_card: "rgba(244, 240, 217, 0.92)",
            line: "rgba(130, 145, 129, 0.16)",
            line_strong: "rgba(58, 148, 197, 0.22)",
            text: "#5C6A72",
            text_soft: "rgba(92, 106, 114, 0.68)",
            amber: "#DFA000",
            amber_deep: "#F57D26",
            lime: "#8DA101",
            rose: "#F85552",
            blue: "#3A94C5",
            shadow: "0 20px 60px rgba(92, 106, 114, 0.12)",
            page_glow_primary: "rgba(245, 125, 38, 0.14)",
            page_glow_secondary: "rgba(58, 148, 197, 0.12)",
            page_gradient: "linear-gradient(160deg, #FDF6E3 0%, #F4F0D9 54%, #E6E2CC 100%)",
            panel_bg: "linear-gradient(160deg, rgba(255, 255, 255, 0.3), transparent 34%), rgba(253, 246, 227, 0.9)",
            banner_bg: "rgba(244, 240, 217, 0.94)",
            pill_bg: "rgba(255, 255, 255, 0.58)",
            pill_border: "rgba(130, 145, 129, 0.1)",
            ghost_bg: "rgba(255, 255, 255, 0.58)",
            ghost_border: "rgba(130, 145, 129, 0.12)",
            secondary_bg: "rgba(255, 255, 255, 0.74)",
            secondary_border: "rgba(58, 148, 197, 0.14)",
            quit_bg: "rgba(248, 85, 82, 0.08)",
            quit_border: "rgba(248, 85, 82, 0.16)",
            accent_text: "#FDF6E3",
            primary_shadow: "0 14px 30px rgba(245, 125, 38, 0.12)",
            scene_shell_bg: "rgba(255, 255, 255, 0.44)",
            room_shell_bg: "rgba(255, 255, 255, 0.58)",
            room_shell_border: "rgba(130, 145, 129, 0.08)",
            chip_bg: "rgba(255, 255, 255, 0.62)",
            chip_border: "rgba(130, 145, 129, 0.1)",
            slider_bg: "rgba(130, 145, 129, 0.12)",
            slider_fill: "linear-gradient(90deg, #DFA000, #3A94C5)",
        },
        (ThemePalette::RosePine, true) => ThemeTokens {
            color_scheme: "dark",
            bg: "#232136",
            bg_elevated: "rgba(35, 33, 54, 0.94)",
            bg_card: "rgba(42, 39, 63, 0.9)",
            line: "rgba(144, 140, 170, 0.22)",
            line_strong: "rgba(62, 143, 176, 0.28)",
            text: "#e0def4",
            text_soft: "rgba(224, 222, 244, 0.72)",
            amber: "#f6c177",
            amber_deep: "#ea9a97",
            lime: "#9ccfd8",
            rose: "#eb6f92",
            blue: "#3e8fb0",
            shadow: "0 24px 72px rgba(18, 17, 27, 0.36)",
            page_glow_primary: "rgba(246, 193, 119, 0.18)",
            page_glow_secondary: "rgba(62, 143, 176, 0.16)",
            page_gradient: "linear-gradient(160deg, #232136 0%, #1f1d2e 56%, #2a273f 100%)",
            panel_bg: "linear-gradient(160deg, rgba(224, 222, 244, 0.02), transparent 38%), rgba(31, 29, 46, 0.86)",
            banner_bg: "rgba(42, 39, 63, 0.88)",
            pill_bg: "rgba(57, 53, 82, 0.72)",
            pill_border: "rgba(144, 140, 170, 0.18)",
            ghost_bg: "rgba(57, 53, 82, 0.72)",
            ghost_border: "rgba(144, 140, 170, 0.16)",
            secondary_bg: "rgba(57, 53, 82, 0.78)",
            secondary_border: "rgba(62, 143, 176, 0.18)",
            quit_bg: "rgba(235, 111, 146, 0.12)",
            quit_border: "rgba(235, 111, 146, 0.2)",
            accent_text: "#232136",
            primary_shadow: "0 16px 32px rgba(246, 193, 119, 0.18)",
            scene_shell_bg: "rgba(57, 53, 82, 0.46)",
            room_shell_bg: "rgba(42, 39, 63, 0.74)",
            room_shell_border: "rgba(144, 140, 170, 0.1)",
            chip_bg: "rgba(57, 53, 82, 0.68)",
            chip_border: "rgba(144, 140, 170, 0.14)",
            slider_bg: "rgba(144, 140, 170, 0.18)",
            slider_fill: "linear-gradient(90deg, #f6c177, #3e8fb0)",
        },
        (ThemePalette::RosePine, false) => ThemeTokens {
            color_scheme: "light",
            bg: "#faf4ed",
            bg_elevated: "rgba(250, 244, 237, 0.96)",
            bg_card: "rgba(255, 250, 243, 0.92)",
            line: "rgba(121, 117, 147, 0.14)",
            line_strong: "rgba(40, 105, 131, 0.22)",
            text: "#464261",
            text_soft: "rgba(70, 66, 97, 0.68)",
            amber: "#ea9d34",
            amber_deep: "#d7827e",
            lime: "#56949f",
            rose: "#b4637a",
            blue: "#286983",
            shadow: "0 20px 60px rgba(70, 66, 97, 0.12)",
            page_glow_primary: "rgba(234, 157, 52, 0.14)",
            page_glow_secondary: "rgba(40, 105, 131, 0.12)",
            page_gradient: "linear-gradient(160deg, #faf4ed 0%, #fffaf3 54%, #f2e9e1 100%)",
            panel_bg: "linear-gradient(160deg, rgba(255, 255, 255, 0.3), transparent 34%), rgba(250, 244, 237, 0.9)",
            banner_bg: "rgba(255, 250, 243, 0.94)",
            pill_bg: "rgba(255, 255, 255, 0.58)",
            pill_border: "rgba(121, 117, 147, 0.1)",
            ghost_bg: "rgba(255, 255, 255, 0.58)",
            ghost_border: "rgba(121, 117, 147, 0.12)",
            secondary_bg: "rgba(255, 255, 255, 0.72)",
            secondary_border: "rgba(40, 105, 131, 0.14)",
            quit_bg: "rgba(180, 99, 122, 0.08)",
            quit_border: "rgba(180, 99, 122, 0.16)",
            accent_text: "#faf4ed",
            primary_shadow: "0 14px 30px rgba(215, 130, 126, 0.12)",
            scene_shell_bg: "rgba(255, 255, 255, 0.44)",
            room_shell_bg: "rgba(255, 255, 255, 0.58)",
            room_shell_border: "rgba(121, 117, 147, 0.08)",
            chip_bg: "rgba(255, 255, 255, 0.62)",
            chip_border: "rgba(121, 117, 147, 0.1)",
            slider_bg: "rgba(121, 117, 147, 0.12)",
            slider_fill: "linear-gradient(90deg, #ea9d34, #286983)",
        },
        (ThemePalette::Dayfox, _) => ThemeTokens {
            color_scheme: "light",
            bg: "#f6f2ee",
            bg_elevated: "rgba(246, 242, 238, 0.96)",
            bg_card: "rgba(228, 220, 212, 0.9)",
            line: "rgba(131, 122, 114, 0.14)",
            line_strong: "rgba(40, 121, 128, 0.22)",
            text: "#3d2b5a",
            text_soft: "rgba(61, 43, 90, 0.68)",
            amber: "#AC5402",
            amber_deep: "#955f61",
            lime: "#396847",
            rose: "#a5222f",
            blue: "#2848a9",
            shadow: "0 20px 60px rgba(53, 44, 36, 0.12)",
            page_glow_primary: "rgba(172, 84, 2, 0.14)",
            page_glow_secondary: "rgba(40, 72, 169, 0.1)",
            page_gradient: "linear-gradient(160deg, #f6f2ee 0%, #e4dcd4 54%, #dbd1dd 100%)",
            panel_bg: "linear-gradient(160deg, rgba(255, 255, 255, 0.34), transparent 34%), rgba(246, 242, 238, 0.9)",
            banner_bg: "rgba(228, 220, 212, 0.94)",
            pill_bg: "rgba(255, 255, 255, 0.58)",
            pill_border: "rgba(131, 122, 114, 0.1)",
            ghost_bg: "rgba(255, 255, 255, 0.58)",
            ghost_border: "rgba(131, 122, 114, 0.12)",
            secondary_bg: "rgba(255, 255, 255, 0.72)",
            secondary_border: "rgba(40, 121, 128, 0.14)",
            quit_bg: "rgba(165, 34, 47, 0.08)",
            quit_border: "rgba(165, 34, 47, 0.16)",
            accent_text: "#f6f2ee",
            primary_shadow: "0 14px 30px rgba(172, 84, 2, 0.12)",
            scene_shell_bg: "rgba(255, 255, 255, 0.44)",
            room_shell_bg: "rgba(255, 255, 255, 0.58)",
            room_shell_border: "rgba(131, 122, 114, 0.08)",
            chip_bg: "rgba(255, 255, 255, 0.62)",
            chip_border: "rgba(131, 122, 114, 0.1)",
            slider_bg: "rgba(131, 122, 114, 0.12)",
            slider_fill: "linear-gradient(90deg, #AC5402, #287980)",
        },
    }
}

impl ThemePreference {
    /// The tokens this preference shows, `system_prefers_dark` deciding for the system
    /// mode.
    pub fn resolved_tokens(&self, system_prefers_dark: bool) -> (r: ThemeTokens)
        ensures
            r == tokens_spec(self.palette, wants_dark_spec(self.mode, system_prefers_dark)),
    {
        let dark = wants_dark(self.mode, system_prefers_dark);
        match (self.palette, dark) {
            (ThemePalette::Gruvbox, true) => ThemeTokens {
                color_scheme: "dark",
                bg: "#282828",
                bg_elevated: "rgba(40, 40, 40, 0.92)",
                bg_card: "rgba(50, 48, 47, 0.86)",
                line: "rgba(168, 153, 132, 0.18)",
                line_strong: "rgba(250, 189, 47, 0.34)",
                text: "#ebdbb2",
                text_soft: "rgba(235, 219, 178, 0.72)",
                amber: "#fabd2f",
                amber_deep: "#fe8019",
                lime: "#b8bb26",
                rose: "#fb4934",
                blue: "#83a598",
                shadow: "0 24px 72px rgba(0, 0, 0, 0.34)",
                page_glow_primary: "rgba(250, 189, 47, 0.18)",
                page_glow_secondary: "rgba(131, 165, 152, 0.14)",
                page_gradient: "linear-gradient(160deg, #282828 0%, #1d2021 58%, #32302f 100%)",
                panel_bg: "linear-gradient(160deg, rgba(251, 241, 199, 0.02), transparent 38%), rgba(40, 40, 40, 0.84)",
                banner_bg: "rgba(50, 48, 47, 0.86)",
                pill_bg: "rgba(60, 56, 54, 0.72)",
                pill_border: "rgba(189, 174, 147, 0.18)",
                ghost_bg: "rgba(60, 56, 54, 0.7)",
                ghost_border: "rgba(168, 153, 132, 0.18)",
                secondary_bg: "rgba(80, 73, 69, 0.66)",
                secondary_border: "rgba(250, 189, 47, 0.18)",
                quit_bg: "rgba(157, 0, 6, 0.18)",
                quit_border: "rgba(251, 73, 52, 0.22)",
                accent_text: "#282828",
                primary_shadow: "0 16px 32px rgba(254, 128, 25, 0.18)",
                scene_shell_bg: "rgba(60, 56, 54, 0.42)",
                room_shell_bg: "rgba(50, 48, 47, 0.7)",
                room_shell_border: "rgba(189, 174, 147, 0.1)",
                chip_bg: "rgba(60, 56, 54, 0.68)",
                chip_border: "rgba(168, 153, 132, 0.14)",
                slider_bg: "rgba(124, 111, 100, 0.24)",
                slider_fill: "linear-gradient(90deg, #fabd2f, #fe8019)",
            },
            (ThemePalette::Gruvbox, false) => ThemeTokens {
                color_scheme: "light",
                bg: "#fbf1c7",
                bg_elevated: "rgba(253, 244, 193, 0.94)",
                bg_card: "rgba(242, 229, 188, 0.92)",
                line: "rgba(80, 73, 69, 0.14)",
                line_strong: "rgba(215, 153, 33, 0.34)",
                text: "#3c3836",
                text_soft: "rgba(60, 56, 54, 0.68)",
                amber: "#d79921",
                amber_deep: "#d65d0e",
                lime: "#98971a",
                rose: "#cc241d",
                blue: "#458588",
                shadow: "0 20px 60px rgba(87, 68, 36, 0.12)",
                page_glow_primary: "rgba(215, 153, 33, 0.18)",
                page_glow_secondary: "rgba(69, 133, 136, 0.12)",
                page_gradient: "linear-gradient(160deg, #fbf1c7 0%, #f2e5bc 54%, #ebdbb2 100%)",
                panel_bg: "linear-gradient(160deg, rgba(255, 255, 255, 0.28), transparent 34%), rgba(253, 244, 193, 0.88)",
                banner_bg: "rgba(242, 229, 188, 0.94)",
                pill_bg: "rgba(255, 255, 255, 0.56)",
                pill_border: "rgba(80, 73, 69, 0.1)",
                ghost_bg: "rgba(255, 255, 255, 0.56)",
                ghost_border: "rgba(80, 73, 69, 0.12)",
                secondary_bg: "rgba(255, 255, 255, 0.72)",
                secondary_border: "rgba(215, 153, 33, 0.16)",
                quit_bg: "rgba(204, 36, 29, 0.08)",
                quit_border: "rgba(204, 36, 29, 0.18)",
                accent_text: "#fbf1c7",
                primary_shadow: "0 14px 30px rgba(214, 93, 14, 0.12)",
                scene_shell_bg: "rgba(255, 255, 255, 0.44)",
                room_shell_bg: "rgba(255, 255, 255, 0.56)",
                room_shell_border: "rgba(80, 73, 69, 0.08)",
                chip_bg: "rgba(255, 255, 255, 0.62)",
                chip_border: "rgba(80, 73, 69, 0.1)",
                slider_bg: "rgba(80, 73, 69, 0.12)",
                slider_fill: "linear-gradient(90deg, #d79921, #d65d0e)",
            },
            (ThemePalette::Nordbones, _) => ThemeTokens {
                color_scheme: "dark",
                bg: "#2F3541",
                bg_elevated: "rgba(47, 53, 65, 0.92)",
                bg_card: "rgba(53, 60, 73, 0.88)",
                line: "rgba(115, 124, 144, 0.22)",
                line_strong: "rgba(143, 188, 186, 0.34)",
                text: "#EBEEF3",
                text_soft: "rgba(235, 238, 243, 0.7)",
                amber: "#CF866F",
                amber_deep: "#E09680",
                lime: "#A4BE8D",
                rose: "#C1616A",
                blue: "#8FBCBA",
                shadow: "0 24px 70px rgba(20, 25, 35, 0.32)",
                page_glow_primary: "rgba(207, 134, 111, 0.16)",
                page_glow_secondary: "rgba(135, 191, 206, 0.14)",
                page_gradient: "linear-gradient(160deg, #2F3541 0%, #252b35 56%, #353c49 100%)",
                panel_bg: "linear-gradient(160deg, rgba(242, 244, 247, 0.025), transparent 38%), rgba(47, 53, 65, 0.84)",
                banner_bg: "rgba(53, 60, 73, 0.86)",
                pill_bg: "rgba(57, 64, 78, 0.76)",
                pill_border: "rgba(126, 140, 168, 0.18)",
                ghost_bg: "rgba(57, 64, 78, 0.72)",
                ghost_border: "rgba(126, 140, 168, 0.16)",
                secondary_bg: "rgba(65, 73, 89, 0.74)",
                secondary_border: "rgba(143, 188, 186, 0.18)",
                quit_bg: "rgba(193, 97, 106, 0.12)",
                quit_border: "rgba(214, 120, 127, 0.2)",
                accent_text: "#2F3541",
                primary_shadow: "0 16px 32px rgba(224, 150, 128, 0.16)",
                scene_shell_bg: "rgba(65, 73, 89, 0.44)",
                room_shell_bg: "rgba(53, 60, 73, 0.72)",
                room_shell_border: "rgba(126, 140, 168, 0.12)",
                chip_bg: "rgba(57, 64, 78, 0.68)",
                chip_border: "rgba(126, 140, 168, 0.14)",
                slider_bg: "rgba(129, 142, 171, 0.18)",
                slider_fill: "linear-gradient(90deg, #CF866F, #8FBCBA)",
            },
            (ThemePalette::Sonokai, _) => ThemeTokens {
                color_scheme: "dark",
                bg: "#2c2e34",
                bg_elevated: "rgba(44, 46, 52, 0.92)",
                bg_card: "rgba(51, 53, 63, 0.88)",
                line: "rgba(127, 132, 144, 0.2)",
                line_strong: "rgba(118, 204, 224, 0.28)",
                text: "#e2e2e3",
                text_soft: "rgba(226, 226, 227, 0.72)",
                amber: "#e7c664",
                amber_deep: "#f39660",
                lime: "#9ed072",
                rose: "#fc5d7c",
                blue: "#76cce0",
                shadow: "0 24px 72px rgba(19, 22, 30, 0.34)",
                page_glow_primary: "rgba(243, 150, 96, 0.16)",
                page_glow_secondary: "rgba(118, 204, 224, 0.14)",
                page_gradient: "linear-gradient(160deg, #2c2e34 0%, #181819 56%, #33353f 100%)",
                panel_bg: "linear-gradient(160deg, rgba(226, 226, 227, 0.02), transparent 38%), rgba(44, 46, 52, 0.84)",
                banner_bg: "rgba(51, 53, 63, 0.86)",
                pill_bg: "rgba(59, 62, 72, 0.76)",
                pill_border: "rgba(127, 132, 144, 0.16)",
                ghost_bg: "rgba(59, 62, 72, 0.74)",
                ghost_border: "rgba(127, 132, 144, 0.16)",
                secondary_bg: "rgba(65, 69, 80, 0.74)",
                secondary_border: "rgba(118, 204, 224, 0.18)",
                quit_bg: "rgba(252, 93, 124, 0.12)",
                quit_border: "rgba(252, 93, 124, 0.2)",
                accent_text: "#222327",
                primary_shadow: "0 16px 32px rgba(243, 150, 96, 0.18)",
                scene_shell_bg: "rgba(59, 62, 72, 0.44)",
                room_shell_bg: "rgba(51, 53, 63, 0.72)",
                room_shell_border: "rgba(127, 132, 144, 0.1)",
                chip_bg: "rgba(59, 62, 72, 0.68)",
                chip_border: "rgba(127, 132, 144, 0.14)",
                slider_bg: "rgba(127, 132, 144, 0.2)",
                slider_fill: "linear-gradient(90deg, #e7c664, #76cce0)",
            },
            (ThemePalette::Catppuccin, true) => ThemeTokens {
                color_scheme: "dark",
                bg: "#24273a",
                bg_elevated: "rgba(36, 39, 58, 0.94)",
                bg_card: "rgba(30, 32, 48, 0.9)",
                line: "rgba(147, 153, 178, 0.2)",
                line_strong: "rgba(138, 173, 244, 0.3)",
                text: "#cad3f5",
                text_soft: "rgba(202, 211, 245, 0.72)",
                amber: "#eed49f",
                amber_deep: "#f5a97f",
                lime: "#a6da95",
                rose: "#ed8796",
                blue: "#8aadf4",
                shadow: "0 24px 72px rgba(17, 17, 27, 0.36)",
                page_glow_primary: "rgba(245, 169, 127, 0.18)",
                page_glow_secondary: "rgba(138, 173, 244, 0.16)",
                page_gradient: "linear-gradient(160deg, #24273a 0%, #181926 58%, #1e2030 100%)",
                panel_bg: "linear-gradient(160deg, rgba(202, 211, 245, 0.02), transparent 38%), rgba(30, 32, 48, 0.86)",
                banner_bg: "rgba(30, 32, 48, 0.88)",
                pill_bg: "rgba(54, 58, 79, 0.74)",
                pill_border: "rgba(147, 153, 178, 0.18)",
                ghost_bg: "rgba(54, 58, 79, 0.74)",
                ghost_border: "rgba(147, 153, 178, 0.16)",
                secondary_bg: "rgba(54, 58, 79, 0.78)",
                secondary_border: "rgba(138, 173, 244, 0.18)",
                quit_bg: "rgba(237, 135, 150, 0.12)",
                quit_border: "rgba(237, 135, 150, 0.2)",
                accent_text: "#1e2030",
                primary_shadow: "0 16px 32px rgba(245, 169, 127, 0.18)",
                scene_shell_bg: "rgba(54, 58, 79, 0.46)",
                room_shell_bg: "rgba(30, 32, 48, 0.72)",
                room_shell_border: "rgba(147, 153, 178, 0.1)",
                chip_bg: "rgba(54, 58, 79, 0.68)",
                chip_border: "rgba(147, 153, 178, 0.14)",
                slider_bg: "rgba(147, 153, 178, 0.18)",
                slider_fill: "linear-gradient(90deg, #eed49f, #8aadf4)",
            },
            (ThemePalette::Catppuccin, false) => ThemeTokens {
                color_scheme: "light",
                bg: "#eff1f5",
                bg_elevated: "rgba(239, 241, 245, 0.96)",
                bg_card: "rgba(230, 233, 239, 0.92)",
                line: "rgba(124, 127, 147, 0.16)",
                line_strong: "rgba(30, 102, 245, 0.24)",
                text: "#4c4f69",
                text_soft: "rgba(76, 79, 105, 0.68)",
                amber: "#df8e1d",
                amber_deep: "#fe640b",
                lime: "#40a02b",
                rose: "#d20f39",
                blue: "#1e66f5",
                shadow: "0 20px 60px rgba(76, 79, 105, 0.12)",
                page_glow_primary: "rgba(223, 142, 29, 0.16)",
                page_glow_secondary: "rgba(30, 102, 245, 0.12)",
                page_gradient: "linear-gradient(160deg, #eff1f5 0%, #e6e9ef 54%, #dce0e8 100%)",
                panel_bg: "linear-gradient(160deg, rgba(255, 255, 255, 0.3), transparent 34%), rgba(239, 241, 245, 0.88)",
                banner_bg: "rgba(230, 233, 239, 0.94)",
                pill_bg: "rgba(255, 255, 255, 0.58)",
                pill_border: "rgba(124, 127, 147, 0.1)",
                ghost_bg: "rgba(255, 255, 255, 0.58)",
                ghost_border: "rgba(124, 127, 147, 0.12)",
                secondary_bg: "rgba(255, 255, 255, 0.72)",
                secondary_border: "rgba(30, 102, 245, 0.14)",
                quit_bg: "rgba(210, 15, 57, 0.08)",
                quit_border: "rgba(210, 15, 57, 0.16)",
                accent_text: "#eff1f5",
                primary_shadow: "0 14px 30px rgba(223, 142, 29, 0.12)",
                scene_shell_bg: "rgba(255, 255, 255, 0.44)",
                room_shell_bg: "rgba(255, 255, 255, 0.58)",
                room_shell_border: "rgba(124, 127, 147, 0.08)",
                chip_bg: "rgba(255, 255, 255, 0.62)",
                chip_border: "rgba(124, 127, 147, 0.1)",
                slider_bg: "rgba(124, 127, 147, 0.12)",
                slider_fill: "linear-gradient(90deg, #df8e1d, #1e66f5)",
            },
            (ThemePalette::Everforest, true) => ThemeTokens {
                color_scheme: "dark",
                bg: "#2D353B",
                bg_elevated: "rgba(45, 53, 59, 0.94)",
                bg_card: "rgba(52, 63, 68, 0.9)",
                line: "rgba(133, 146, 137, 0.22)",
                line_strong: "rgba(127, 187, 179, 0.28)",
                text: "#D3C6AA",
                text_soft: "rgba(211, 198, 170, 0.72)",
                amber: "#DBBC7F",
                amber_deep: "#E69875",
                lime: "#A7C080",
                rose: "#E67E80",
                blue: "#7FBBB3",
                shadow: "0 24px 72px rgba(18, 24, 24, 0.34)",
                page_glow_primary: "rgba(219, 188, 127, 0.16)",
                page_glow_secondary: "rgba(127, 187, 179, 0.14)",
                page_gradient: "linear-gradient(160deg, #2D353B 0%, #232A2E 56%, #343F44 100%)",
                panel_bg: "linear-gradient(160deg, rgba(211, 198, 170, 0.02), transparent 38%), rgba(45, 53, 59, 0.86)",
                banner_bg: "rgba(52, 63, 68, 0.88)",
                pill_bg: "rgba(61, 72, 77, 0.74)",
                pill_border: "rgba(133, 146, 137, 0.18)",
                ghost_bg: "rgba(61, 72, 77, 0.74)",
                ghost_border: "rgba(133, 146, 137, 0.16)",
                secondary_bg: "rgba(71, 82, 88, 0.76)",
                secondary_border: "rgba(127, 187, 179, 0.16)",
                quit_bg: "rgba(230, 126, 128, 0.12)",
                quit_border: "rgba(230, 126, 128, 0.18)",
                accent_text: "#232A2E",
                primary_shadow: "0 16px 32px rgba(230, 152, 117, 0.18)",
                scene_shell_bg: "rgba(71, 82, 88, 0.44)",
                room_shell_bg: "rgba(52, 63, 68, 0.74)",
                room_shell_border: "rgba(133, 146, 137, 0.1)",
                chip_bg: "rgba(61, 72, 77, 0.68)",
                chip_border: "rgba(133, 146, 137, 0.14)",
                slider_bg: "rgba(133, 146, 137, 0.18)",
                slider_fill: "linear-gradient(90deg, #DBBC7F, #7FBBB3)",
            },
            (ThemePalette::Everforest, false) => ThemeTokens {
                color_scheme: "light",
                bg: "#FDF6E3",
                bg_elevated: "rgba(253, 246, 227, 0.96)",
                bg_card: "rgba(244, 240, 217, 0.92)",
                line: "rgba(130, 145, 129, 0.16)",
                line_strong: "rgba(58, 148, 197, 0.22)",
                text: "#5C6A72",
                text_soft: "rgba(92, 106, 114, 0.68)",
                amber: "#DFA000",
                amber_deep: "#F57D26",
                lime: "#8DA101",
                rose: "#F85552",
                blue: "#3A94C5",
                shadow: "0 20px 60px rgba(92, 106, 114, 0.12)",
                page_glow_primary: "rgba(245, 125, 38, 0.14)",
                page_glow_secondary: "rgba(58, 148, 197, 0.12)",
                page_gradient: "linear-gradient(160deg, #FDF6E3 0%, #F4F0D9 54%, #E6E2CC 100%)",
                panel_bg: "linear-gradient(160deg, rgba(255, 255, 255, 0.3), transparent 34%), rgba(253, 246, 227, 0.9)",
                banner_bg: "rgba(244, 240, 217, 0.94)",
                pill_bg: "rgba(255, 255, 255, 0.58)",
                pill_border: "rgba(130, 145, 129, 0.1)",
                ghost_bg: "rgba(255, 255, 255, 0.58)",
                ghost_border: "rgba(130, 145, 129, 0.12)",
                secondary_bg: "rgba(255, 255, 255, 0.74)",
                secondary_border: "rgba(58, 148, 197, 0.14)",
                quit_bg: "rgba(248, 85, 82, 0.08)",
                quit_border: "rgba(248, 85, 82, 0.16)",
                accent_text: "#FDF6E3",
                primary_shadow: "0 14px 30px rgba(245, 125, 38, 0.12)",
                scene_shell_bg: "rgba(255, 255, 255, 0.44)",
                room_shell_bg: "rgba(255, 255, 255, 0.58)",
                room_shell_border: "rgba(130, 145, 129, 0.08)",
                chip_bg: "rgba(255, 255, 255, 0.62)",
                chip_border: "rgba(130, 145, 129, 0.1)",
                slider_bg: "rgba(130, 145, 129, 0.12)",
                slider_fill: "linear-gradient(90deg, #DFA000, #3A94C5)",
            },
            (ThemePalette::RosePine, true) => ThemeTokens {
                color_scheme: "dark",
                bg: "#232136",
                bg_elevated: "rgba(35, 33, 54, 0.94)",
                bg_card: "rgba(42, 39, 63, 0.9)",
                line: "rgba(144, 140, 170, 0.22)",
                line_strong: "rgba(62, 143, 176, 0.28)",
                text: "#e0def4",
                text_soft: "rgba(224, 222, 244, 0.72)",
                amber: "#f6c177",
                amber_deep: "#ea9a97",
                lime: "#9ccfd8",
                rose: "#eb6f92",
                blue: "#3e8fb0",
                shadow: "0 24px 72px rgba(18, 17, 27, 0.36)",
                page_glow_primary: "rgba(246, 193, 119, 0.18)",
                page_glow_secondary: "rgba(62, 143, 176, 0.16)",
                page_gradient: "linear-gradient(160deg, #232136 0%, #1f1d2e 56%, #2a273f 100%)",
                panel_bg: "linear-gradient(160deg, rgba(224, 222, 244, 0.02), transparent 38%), rgba(31, 29, 46, 0.86)",
                banner_bg: "rgba(42, 39, 63, 0.88)",
                pill_bg: "rgba(57, 53, 82, 0.72)",
                pill_border: "rgba(144, 140, 170, 0.18)",
                ghost_bg: "rgba(57, 53, 82, 0.72)",
                ghost_border: "rgba(144, 140, 170, 0.16)",
                secondary_bg: "rgba(57, 53, 82, 0.78)",
                secondary_border: "rgba(62, 143, 176, 0.18)",
                quit_bg: "rgba(235, 111, 146, 0.12)",
                quit_border: "rgba(235, 111, 146, 0.2)",
                accent_text: "#232136",
                primary_shadow: "0 16px 32px rgba(246, 193, 119, 0.18)",
                scene_shell_bg: "rgba(57, 53, 82, 0.46)",
                room_shell_bg: "rgba(42, 39, 63, 0.74)",
                room_shell_border: "rgba(144, 140, 170, 0.1)",
                chip_bg: "rgba(57, 53, 82, 0.68)",
                chip_border: "rgba(144, 140, 170, 0.14)",
                slider_bg: "rgba(144, 140, 170, 0.18)",
                slider_fill: "linear-gradient(90deg, #f6c177, #3e8fb0)",
            },
            (ThemePalette::RosePine, false) => ThemeTokens {
                color_scheme: "light",
                bg: "#faf4ed",
                bg_elevated: "rgba(250, 244, 237, 0.96)",
                bg_card: "rgba(255, 250, 243, 0.92)",
                line: "rgba(121, 117, 147, 0.14)",
                line_strong: "rgba(40, 105, 131, 0.22)",
                text: "#464261",
                text_soft: "rgba(70, 66, 97, 0.68)",
                amber: "#ea9d34",
                amber_deep: "#d7827e",
                lime: "#56949f",
                rose: "#b4637a",
                blue: "#286983",
                shadow: "0 20px 60px rgba(70, 66, 97, 0.12)",
                page_glow_primary: "rgba(234, 157, 52, 0.14)",
                page_glow_secondary: "rgba(40, 105, 131, 0.12)",
                page_gradient: "linear-gradient(160deg, #faf4ed 0%, #fffaf3 54%, #f2e9e1 100%)",
                panel_bg: "linear-gradient(160deg, rgba(255, 255, 255, 0.3), transparent 34%), rgba(250, 244, 237, 0.9)",
                banner_bg: "rgba(255, 250, 243, 0.94)",
                pill_bg: "rgba(255, 255, 255, 0.58)",
                pill_border: "rgba(121, 117, 147, 0.1)",
                ghost_bg: "rgba(255, 255, 255, 0.58)",
                ghost_border: "rgba(121, 117, 147, 0.12)",
                secondary_bg: "rgba(255, 255, 255, 0.72)",
                secondary_border: "rgba(40, 105, 131, 0.14)",
                quit_bg: "rgba(180, 99, 122, 0.08)",
                quit_border: "rgba(180, 99, 122, 0.16)",
                accent_text: "#faf4ed",
                primary_shadow: "0 14px 30px rgba(215, 130, 126, 0.12)",
                scene_shell_bg: "rgba(255, 255, 255, 0.44)",
                room_shell_bg: "rgba(255, 255, 255, 0.58)",
                room_shell_border: "rgba(121, 117, 147, 0.08)",
                chip_bg: "rgba(255, 255, 255, 0.62)",
                chip_border: "rgba(121, 117, 147, 0.1)",
                slider_bg: "rgba(121, 117, 147, 0.12)",
                slider_fill: "linear-gradient(90deg, #ea9d34, #286983)",
            },
            (ThemePalette::Dayfox, _) => ThemeTokens {
                color_scheme: "light",
                bg: "#f6f2ee",
                bg_elevated: "rgba(246, 242, 238, 0.96)",
                bg_card: "rgba(228, 220, 212, 0.9)",
                line: "rgba(131, 122, 114, 0.14)",
                line_strong: "rgba(40, 121, 128, 0.22)",
                text: "#3d2b5a",
                text_soft: "rgba(61, 43, 90, 0.68)",
                amber: "#AC5402",
                amber_deep: "#955f61",
                lime: "#396847",
                rose: "#a5222f",
                blue: "#2848a9",
                shadow: "0 20px 60px rgba(53, 44, 36, 0.12)",
                page_glow_primary: "rgba(172, 84, 2, 0.14)",
                page_glow_secondary: "rgba(40, 72, 169, 0.1)",
                page_gradient: "linear-gradient(160deg, #f6f2ee 0%, #e4dcd4 54%, #dbd1dd 100%)",
                panel_bg: "linear-gradient(160deg, rgba(255, 255, 255, 0.34), transparent 34%), rgba(246, 242, 238, 0.9)",
                banner_bg: "rgba(228, 220, 212, 0.94)",
                pill_bg: "rgba(255, 255, 255, 0.58)",
                pill_border: "rgba(131, 122, 114, 0.1)",
                ghost_bg: "rgba(255, 255, 255, 0.58)",
                ghost_border: "rgba(131, 122, 114, 0.12)",
                secondary_bg: "rgba(255, 255, 255, 0.72)",
                secondary_border: "rgba(40, 121, 128, 0.14)",
                quit_bg: "rgba(165, 34, 47, 0.08)",
                quit_border: "rgba(165, 34, 47, 0.16)",
                accent_text: "#f6f2ee",
                primary_shadow: "0 14px 30px rgba(172, 84, 2, 0.12)",
                scene_shell_bg: "rgba(255, 255, 255, 0.44)",
                room_shell_bg: "rgba(255, 255, 255, 0.58)",
                room_shell_border: "rgba(131, 122, 114, 0.08)",
                chip_bg: "rgba(255, 255, 255, 0.62)",
                chip_border: "rgba(131, 122, 114, 0.1)",
                slider_bg: "rgba(131, 122, 114, 0.12)",
                slider_fill: "linear-gradient(90deg, #AC5402, #287980)",
            },
        }
    }
}

/// The CSS custom properties a token set is applied as, in order.
pub open spec fn css_properties_spec(t: ThemeTokens) -> Seq<(&'static str, &'static str)> {
    seq![
        ("--bg", t.bg),
        ("--bg-elevated", t.bg_elevated),
        ("--bg-card", t.bg_card),
        ("--line", t.line),
        ("--line-strong", t.line_strong),
        ("--text", t.text),
        ("--text-soft", t.text_soft),
        ("--amber", t.amber),
        ("--amber-deep", t.amber_deep),
        ("--lime", t.lime),
        ("--rose", t.rose),
        ("--blue", t.blue),
        ("--shadow", t.shadow),
        ("--page-glow-primary", t.page_glow_primary),
        ("--page-glow-secondary", t.page_glow_secondary),
        ("--page-gradient", t.page_gradient),
        ("--panel-bg", t.panel_bg),
        ("--banner-bg", t.banner_bg),
        ("--pill-bg", t.pill_bg),
        ("--pill-border", t.pill_border),
        ("--ghost-bg", t.ghost_bg),
        ("--ghost-border", t.ghost_border),
        ("--secondary-bg", t.secondary_bg),
        ("--secondary-border", t.secondary_border),
        ("--quit-bg", t.quit_bg),
        ("--quit-border", t.quit_border),
        ("--accent-text", t.accent_text),
        ("--primary-shadow", t.primary_shadow),
        ("--scene-shell-bg", t.scene_shell_bg),
        ("--room-shell-bg", t.room_shell_bg),
        ("--room-shell-border", t.room_shell_border),
        ("--chip-bg", t.chip_bg),
        ("--chip-border", t.chip_border),
        ("--slider-bg", t.slider_bg),
        ("--slider-fill", t.slider_fill),
    ]
}

/// The CSS custom properties a token set is applied as, in order.
pub fn css_properties(t: &ThemeTokens) -> (r: Vec<(&'static str, &'static str)>)
    ensures
        r@ == css_properties_spec(*t),
{
    let mut v: Vec<(&'static str, &'static str)> = Vec::new();
    v.push(("--bg", t.bg));
    v.push(("--bg-elevated", t.bg_elevated));
    v.push(("--bg-card", t.bg_card));
    v.push(("--line", t.line));
    v.push(("--line-strong", t.line_strong));
    v.push(("--text", t.text));
    v.push(("--text-soft", t.text_soft));
    v.push(("--amber", t.amber));
    v.push(("--amber-deep", t.amber_deep));
    v.push(("--lime", t.lime));
    v.push(("--rose", t.rose));
    v.push(("--blue", t.blue));
    v.push(("--shadow", t.shadow));
    v.push(("--page-glow-primary", t.page_glow_primary));
    v.push(("--page-glow-secondary", t.page_glow_secondary));
    v.push(("--page-gradient", t.page_gradient));
    v.push(("--panel-bg", t.panel_bg));
    v.push(("--banner-bg", t.banner_bg));
    v.push(("--pill-bg", t.pill_bg));
    v.push(("--pill-border", t.pill_border));
    v.push(("--ghost-bg", t.ghost_bg));
    v.push(("--ghost-border", t.ghost_border));
    v.push(("--secondary-bg", t.secondary_bg));
    v.push(("--secondary-border", t.secondary_border));
    v.push(("--quit-bg", t.quit_bg));
    v.push(("--quit-border", t.quit_border));
    v.push(("--accent-text", t.accent_text));
    v.push(("--primary-shadow", t.primary_shadow));
    v.push(("--scene-shell-bg", t.scene_shell_bg));
    v.push(("--room-shell-bg", t.room_shell_bg));
    v.push(("--room-shell-border", t.room_shell_border));
    v.push(("--chip-bg", t.chip_bg));
    v.push(("--chip-border", t.chip_border));
    v.push(("--slider-bg", t.slider_bg));
    v.push(("--slider-fill", t.slider_fill));
    assert(v@ =~= css_properties_spec(*t));
    v
}

} // verus!
