//! The palette of each colour scheme.

use crate::scheme::ColorScheme;
use vstd::prelude::*;

verus! {

/// The colours of the interface, one field per element that is drawn. Each
/// field holds a colour as `#` and six or eight hexadecimal digits (RGB or RGBA).
pub struct Theme {
    pub background: String,
    pub text_color: String,
    pub directory_link_color: String,
    pub file_link_color: String,
    pub symlink_link_color: String,
    pub table_background: String,
    pub table_text_color: String,
    pub table_header_background: String,
    pub table_header_text_color: String,
    pub table_header_active_color: String,
    pub active_row_color: String,
    pub odd_row_background: String,
    pub even_row_background: String,
    pub root_link_color: String,
    pub download_button_background: String,
    pub download_button_background_hover: String,
    pub download_button_link_color: String,
    pub download_button_link_color_hover: String,
    pub back_button_background: String,
    pub back_button_background_hover: String,
    pub back_button_link_color: String,
    pub back_button_link_color_hover: String,
    pub date_text_color: String,
    pub at_color: String,
    pub switch_theme_background: String,
    pub switch_theme_link_color: String,
    pub switch_theme_active: String,
    pub switch_theme_border: String,
    pub change_theme_link_color: String,
    pub change_theme_link_color_hover: String,
    pub upload_text_color: String,
    pub upload_form_border_color: String,
    pub upload_form_background: String,
    pub upload_button_background: String,
    pub upload_button_text_color: String,
    pub drag_background: String,
    pub drag_border_color: String,
    pub drag_text_color: String,
    pub size_background_color: String,
    pub size_text_color: String,
}

/// Names the fields of a [`Theme`], in declaration order.
#[derive(Clone, Copy, Debug, PartialEq, Eq, Structural)]
pub enum ThemeField {
    Background,
    TextColor,
    DirectoryLinkColor,
    FileLinkColor,
    SymlinkLinkColor,
    TableBackground,
    TableTextColor,
    TableHeaderBackground,
    TableHeaderTextColor,
    TableHeaderActiveColor,
    ActiveRowColor,
    OddRowBackground,
    EvenRowBackground,
    RootLinkColor,
    DownloadButtonBackground,
    DownloadButtonBackgroundHover,
    DownloadButtonLinkColor,
    DownloadButtonLinkColorHover,
    BackButtonBackground,
    BackButtonBackgroundHover,
    BackButtonLinkColor,
    BackButtonLinkColorHover,
    DateTextColor,
    AtColor,
    SwitchThemeBackground,
    SwitchThemeLinkColor,
    SwitchThemeActive,
    SwitchThemeBorder,
    ChangeThemeLinkColor,
    ChangeThemeLinkColorHover,
    UploadTextColor,
    UploadFormBorderColor,
    UploadFormBackground,
    UploadButtonBackground,
    UploadButtonTextColor,
    DragBackground,
    DragBorderColor,
    DragTextColor,
    SizeBackgroundColor,
    SizeTextColor,
}

impl Theme {
    /// The colour held in field `f`.
    pub open spec fn color(&self, f: ThemeField) -> Seq<char> {
        match f {
            ThemeField::Background => self.background@,
            ThemeField::TextColor => self.text_color@,
            ThemeField::DirectoryLinkColor => self.directory_link_color@,
            ThemeField::FileLinkColor => self.file_link_color@,
            ThemeField::SymlinkLinkColor => self.symlink_link_color@,
            ThemeField::TableBackground => self.table_background@,
            ThemeField::TableTextColor => self.table_text_color@,
            ThemeField::TableHeaderBackground => self.table_header_background@,
            ThemeField::TableHeaderTextColor => self.table_header_text_color@,
            ThemeField::TableHeaderActiveColor => self.table_header_active_color@,
            ThemeField::ActiveRowColor => self.active_row_color@,
            ThemeField::OddRowBackground => self.odd_row_background@,
            ThemeField::EvenRowBackground => self.even_row_background@,
            ThemeField::RootLinkColor => self.root_link_color@,
            ThemeField::DownloadButtonBackground => self.download_button_background@,
            ThemeField::DownloadButtonBackgroundHover => self.download_button_background_hover@,
            ThemeField::DownloadButtonLinkColor => self.download_button_link_color@,
            ThemeField::DownloadButtonLinkColorHover => self.download_button_link_color_hover@,
            ThemeField::BackButtonBackground => self.back_button_background@,
            ThemeField::BackButtonBackgroundHover => self.back_button_background_hover@,
            ThemeField::BackButtonLinkColor => self.back_button_link_color@,
            ThemeField::BackButtonLinkColorHover => self.back_button_link_color_hover@,
            ThemeField::DateTextColor => self.date_text_color@,
            ThemeField::AtColor => self.at_color@,
            ThemeField::SwitchThemeBackground => self.switch_theme_background@,
            ThemeField::SwitchThemeLinkColor => self.switch_theme_link_color@,
            ThemeField::SwitchThemeActive => self.switch_theme_active@,
            ThemeField::SwitchThemeBorder => self.switch_theme_border@,
            ThemeField::ChangeThemeLinkColor => self.change_theme_link_color@,
            ThemeField::ChangeThemeLinkColorHover => self.change_theme_link_color_hover@,
            ThemeField::UploadTextColor => self.upload_text_color@,
            ThemeField::UploadFormBorderColor => self.upload_form_border_color@,
            ThemeField::UploadFormBackground => self.upload_form_background@,
            ThemeField::UploadButtonBackground => self.upload_button_background@,
            ThemeField::UploadButtonTextColor => self.upload_button_text_color@,
            ThemeField::DragBackground => self.drag_background@,
            ThemeField::DragBorderColor => self.drag_border_color@,
            ThemeField::DragTextColor => self.drag_text_color@,
            ThemeField::SizeBackgroundColor => self.size_background_color@,
            ThemeField::SizeTextColor => self.size_text_color@,
        }
    }
}

/// Whether `c` is a hexadecimal digit, in either case.
pub open spec fn is_hex_digit(c: char) -> bool {
    ||| '0' <= c <= '9'
    ||| 'a' <= c <= 'f'
    ||| 'A' <= c <= 'F'
}

/// Whether `s` is a colour: `#` followed by six or eight hexadecimal digits.
pub open spec fn is_color(s: Seq<char>) -> bool {
    &&& s.len() == 7 || s.len() == 9
    &&& s[0] == '#'
    &&& forall|i: int| 1 <= i < s.len() ==> is_hex_digit(#[trigger] s[i])
}

/// The colour of field `f` in scheme `s`.
pub open spec fn palette(s: ColorScheme, f: ThemeField) -> Seq<char> {
    match s {
        ColorScheme::Archlinux => archlinux_color(f),
        ColorScheme::Zenburn => zenburn_color(f),
        ColorScheme::Monokai => monokai_color(f),
        ColorScheme::Squirrel => squirrel_color(f),
    }
}

/// The palette of the Archlinux scheme.
pub open spec fn archlinux_color(f: ThemeField) -> Seq<char> {
    match f {
        ThemeField::Background => "#383c4a"@,
        ThemeField::TextColor => "#fefefe"@,
        ThemeField::DirectoryLinkColor => "#03a9f4"@,
        ThemeField::FileLinkColor => "#ea95ff"@,
        ThemeField::SymlinkLinkColor => "#ff9800"@,
        ThemeField::TableBackground => "#353946"@,
        ThemeField::TableTextColor => "#eeeeee"@,
        ThemeField::TableHeaderBackground => "#5294e2"@,
        ThemeField::TableHeaderTextColor => "#eeeeee"@,
        ThemeField::TableHeaderActiveColor => "#ffffff"@,
        ThemeField::ActiveRowColor => "#5194e259"@,
        ThemeField::OddRowBackground => "#404552"@,
        ThemeField::EvenRowBackground => "#4b5162"@,
        ThemeField::RootLinkColor => "#abb2bb"@,
        ThemeField::DownloadButtonBackground => "#ea95ff"@,
        ThemeField::DownloadButtonBackgroundHover => "#eea7ff"@,
        ThemeField::DownloadButtonLinkColor => "#ffffff"@,
        ThemeField::DownloadButtonLinkColorHover => "#ffffff"@,
        ThemeField::BackButtonBackground => "#ea95ff"@,
        ThemeField::BackButtonBackgroundHover => "#ea95ff"@,
        ThemeField::BackButtonLinkColor => "#ffffff"@,
        ThemeField::BackButtonLinkColorHover => "#ffffff"@,
        ThemeField::DateTextColor => "#9ebbdc"@,
        ThemeField::AtColor => "#9ebbdc"@,
        ThemeField::SwitchThemeBackground => "#4b5162"@,
        ThemeField::SwitchThemeLinkColor => "#fefefe"@,
        ThemeField::SwitchThemeActive => "#ea95ff"@,
        ThemeField::SwitchThemeBorder => "#6a728a"@,
        ThemeField::ChangeThemeLinkColor => "#fefefe"@,
        ThemeField::ChangeThemeLinkColorHover => "#fefefe"@,
        ThemeField::UploadTextColor => "#fefefe"@,
        ThemeField::UploadFormBorderColor => "#353946"@,
        ThemeField::UploadFormBackground => "#4b5162"@,
        ThemeField::UploadButtonBackground => "#ea95ff"@,
        ThemeField::UploadButtonTextColor => "#ffffff"@,
        ThemeField::DragBackground => "#3333338f"@,
        ThemeField::DragBorderColor => "#fefefe"@,
        ThemeField::DragTextColor => "#fefefe"@,
        ThemeField::SizeBackgroundColor => "#5294e2"@,
        ThemeField::SizeTextColor => "#fefefe"@,
    }
}

/// The palette of the Zenburn scheme.
pub open spec fn zenburn_color(f: ThemeField) -> Seq<char> {
    match f {
        ThemeField::Background => "#3f3f3f"@,
        ThemeField::TextColor => "#efefef"@,
        ThemeField::DirectoryLinkColor => "#f0dfaf"@,
        ThemeField::FileLinkColor => "#87D6D5"@,
        ThemeField::SymlinkLinkColor => "#FFCCEE"@,
        ThemeField::TableBackground => "#4a4949"@,
        ThemeField::TableTextColor => "#efefef"@,
        ThemeField::TableHeaderBackground => "#7f9f7f"@,
        ThemeField::TableHeaderTextColor => "#efefef"@,
        ThemeField::TableHeaderActiveColor => "#efef8f"@,
        ThemeField::ActiveRowColor => "#7e9f7f9c"@,
        ThemeField::OddRowBackground => "#777777"@,
        ThemeField::EvenRowBackground => "#5a5a5a"@,
        ThemeField::RootLinkColor => "#dca3a3"@,
        ThemeField::DownloadButtonBackground => "#cc9393"@,
        ThemeField::DownloadButtonBackgroundHover => "#dca3a3"@,
        ThemeField::DownloadButtonLinkColor => "#efefef"@,
        ThemeField::DownloadButtonLinkColorHover => "#efefef"@,
        ThemeField::BackButtonBackground => "#cc9393"@,
        ThemeField::BackButtonBackgroundHover => "#cc9393"@,
        ThemeField::BackButtonLinkColor => "#efefef"@,
        ThemeField::BackButtonLinkColorHover => "#efefef"@,
        ThemeField::DateTextColor => "#cfbfaf"@,
        ThemeField::AtColor => "#cfbfaf"@,
        ThemeField::SwitchThemeBackground => "#4a4949"@,
        ThemeField::SwitchThemeLinkColor => "#efefef"@,
        ThemeField::SwitchThemeActive => "#efef8f"@,
        ThemeField::SwitchThemeBorder => "#5a5a5a"@,
        ThemeField::ChangeThemeLinkColor => "#efefef"@,
        ThemeField::ChangeThemeLinkColorHover => "#efefef"@,
        ThemeField::UploadTextColor => "#efefef"@,
        ThemeField::UploadFormBorderColor => "#4a4949"@,
        ThemeField::UploadFormBackground => "#777777"@,
        ThemeField::UploadButtonBackground => "#cc9393"@,
        ThemeField::UploadButtonTextColor => "#efefef"@,
        ThemeField::DragBackground => "#3333338f"@,
        ThemeField::DragBorderColor => "#efefef"@,
        ThemeField::DragTextColor => "#efefef"@,
        ThemeField::SizeBackgroundColor => "#7f9f7f"@,
        ThemeField::SizeTextColor => "#efefef"@,
    }
}

/// The palette of the Monokai scheme.
pub open spec fn monokai_color(f: ThemeField) -> Seq<char> {
    match f {
        ThemeField::Background => "#272822"@,
        ThemeField::TextColor => "#F8F8F2"@,
        ThemeField::DirectoryLinkColor => "#F92672"@,
        ThemeField::FileLinkColor => "#A6E22E"@,
        ThemeField::SymlinkLinkColor => "#FD971F"@,
        ThemeField::TableBackground => "#3B3A32"@,
        ThemeField::TableTextColor => "#F8F8F0"@,
        ThemeField::TableHeaderBackground => "#75715E"@,
        ThemeField::TableHeaderTextColor => "#F8F8F2"@,
        ThemeField::TableHeaderActiveColor => "#E6DB74"@,
        ThemeField::ActiveRowColor => "#ae81fe3d"@,
        ThemeField::OddRowBackground => "#3E3D32"@,
        ThemeField::EvenRowBackground => "#49483E"@,
        ThemeField::RootLinkColor => "#66D9EF"@,
        ThemeField::DownloadButtonBackground => "#AE81FF"@,
        ThemeField::DownloadButtonBackgroundHover => "#c6a6ff"@,
        ThemeField::DownloadButtonLinkColor => "#F8F8F0"@,
        ThemeField::DownloadButtonLinkColorHover => "#F8F8F0"@,
        ThemeField::BackButtonBackground => "#AE81FF"@,
        ThemeField::BackButtonBackgroundHover => "#AE81FF"@,
        ThemeField::BackButtonLinkColor => "#F8F8F0"@,
        ThemeField::BackButtonLinkColorHover => "#F8F8F0"@,
        ThemeField::DateTextColor => "#66D9EF"@,
        ThemeField::AtColor => "#66D9EF"@,
        ThemeField::SwitchThemeBackground => "#3B3A32"@,
        ThemeField::SwitchThemeLinkColor => "#F8F8F2"@,
        ThemeField::SwitchThemeActive => "#A6E22E"@,
        ThemeField::SwitchThemeBorder => "#49483E"@,
        ThemeField::ChangeThemeLinkColor => "#F8F8F2"@,
        ThemeField::ChangeThemeLinkColorHover => "#F8F8F2"@,
        ThemeField::UploadTextColor => "#F8F8F2"@,
        ThemeField::UploadFormBorderColor => "#3B3A32"@,
        ThemeField::UploadFormBackground => "#49483E"@,
        ThemeField::UploadButtonBackground => "#AE81FF"@,
        ThemeField::UploadButtonTextColor => "#F8F8F0"@,
        ThemeField::DragBackground => "#3333338f"@,
        ThemeField::DragBorderColor => "#F8F8F2"@,
        ThemeField::DragTextColor => "#F8F8F2"@,
        ThemeField::SizeBackgroundColor => "#75715E"@,
        ThemeField::SizeTextColor => "#F8F8F2"@,
    }
}

/// The palette of the Squirrel scheme.
pub open spec fn squirrel_color(f: ThemeField) -> Seq<char> {
    match f {
        ThemeField::Background => "#FFFFFF"@,
        ThemeField::TextColor => "#323232"@,
        ThemeField::DirectoryLinkColor => "#d02474"@,
        ThemeField::FileLinkColor => "#0086B3"@,
        ThemeField::SymlinkLinkColor => "#ED6A43"@,
        ThemeField::TableBackground => "#ffffff"@,
        ThemeField::TableTextColor => "#323232"@,
        ThemeField::TableHeaderBackground => "#323232"@,
        ThemeField::TableHeaderTextColor => "#F5F5F5"@,
        ThemeField::TableHeaderActiveColor => "#FFFFFF"@,
        ThemeField::ActiveRowColor => "#f6f8fa"@,
        ThemeField::OddRowBackground => "#fbfbfb"@,
        ThemeField::EvenRowBackground => "#f2f2f2"@,
        ThemeField::RootLinkColor => "#323232"@,
        ThemeField::DownloadButtonBackground => "#d02474"@,
        ThemeField::DownloadButtonBackgroundHover => "#f52d8a"@,
        ThemeField::DownloadButtonLinkColor => "#FFFFFF"@,
        ThemeField::DownloadButtonLinkColorHover => "#FFFFFF"@,
        ThemeField::BackButtonBackground => "#d02474"@,
        ThemeField::BackButtonBackgroundHover => "#d02474"@,
        ThemeField::BackButtonLinkColor => "#FFFFFF"@,
        ThemeField::BackButtonLinkColorHover => "#FFFFFF"@,
        ThemeField::DateTextColor => "#797979"@,
        ThemeField::AtColor => "#797979"@,
        ThemeField::SwitchThemeBackground => "#323232"@,
        ThemeField::SwitchThemeLinkColor => "#F5F5F5"@,
        ThemeField::SwitchThemeActive => "#d02474"@,
        ThemeField::SwitchThemeBorder => "#49483E"@,
        ThemeField::ChangeThemeLinkColor => "#F5F5F5"@,
        ThemeField::ChangeThemeLinkColorHover => "#F5F5F5"@,
        ThemeField::UploadTextColor => "#323232"@,
        ThemeField::UploadFormBorderColor => "#d2d2d2"@,
        ThemeField::UploadFormBackground => "#f2f2f2"@,
        ThemeField::UploadButtonBackground => "#d02474"@,
        ThemeField::UploadButtonTextColor => "#FFFFFF"@,
        ThemeField::DragBackground => "#3333338f"@,
        ThemeField::DragBorderColor => "#ffffff"@,
        ThemeField::DragTextColor => "#ffffff"@,
        ThemeField::SizeBackgroundColor => "#323232"@,
        ThemeField::SizeTextColor => "#FFFFFF"@,
    }
}

/// A text of the right shape, checked position by position, is a colour.
proof fn lemma_color_by_chars(s: Seq<char>)
    requires
        s.len() == 7 || s.len() == 9,
        s[0] == '#',
        is_hex_digit(s[1]),
        is_hex_digit(s[2]),
        is_hex_digit(s[3]),
        is_hex_digit(s[4]),
        is_hex_digit(s[5]),
        is_hex_digit(s[6]),
        s.len() == 9 ==> is_hex_digit(s[7]) && is_hex_digit(s[8]),
    ensures
        is_color(s),
{
    assert forall|i: int| 1 <= i < s.len() implies is_hex_digit(#[trigger] s[i]) by {
        assert(i == 1 || i == 2 || i == 3 || i == 4 || i == 5 || i == 6 || i == 7 || i == 8);
    }
}

/// Every colour of the Archlinux palette is well formed.
proof fn lemma_archlinux_colors_valid()
    ensures
        forall|f: ThemeField| is_color(#[trigger] archlinux_color(f)),
{
    reveal_strlit("#383c4a");
    lemma_color_by_chars("#383c4a"@);
    reveal_strlit("#fefefe");
    lemma_color_by_chars("#fefefe"@);
    reveal_strlit("#03a9f4");
    lemma_color_by_chars("#03a9f4"@);
    reveal_strlit("#ea95ff");
    lemma_color_by_chars("#ea95ff"@);
    reveal_strlit("#ff9800");
    lemma_color_by_chars("#ff9800"@);
    reveal_strlit("#353946");
    lemma_color_by_chars("#353946"@);
    reveal_strlit("#eeeeee");
    lemma_color_by_chars("#eeeeee"@);
    reveal_strlit("#5294e2");
    lemma_color_by_chars("#5294e2"@);
    reveal_strlit("#ffffff");
    lemma_color_by_chars("#ffffff"@);
    reveal_strlit("#5194e259");
    lemma_color_by_chars("#5194e259"@);
    reveal_strlit("#404552");
    lemma_color_by_chars("#404552"@);
    reveal_strlit("#4b5162");
    lemma_color_by_chars("#4b5162"@);
    reveal_strlit("#abb2bb");
    lemma_color_by_chars("#abb2bb"@);
    reveal_strlit("#eea7ff");
    lemma_color_by_chars("#eea7ff"@);
    reveal_strlit("#9ebbdc");
    lemma_color_by_chars("#9ebbdc"@);
    reveal_strlit("#6a728a");
    lemma_color_by_chars("#6a728a"@);
    reveal_strlit("#3333338f");
    lemma_color_by_chars("#3333338f"@);
}

/// Every colour of the Zenburn palette is well formed.
proof fn lemma_zenburn_colors_valid()
    ensures
        forall|f: ThemeField| is_color(#[trigger] zenburn_color(f)),
{
    reveal_strlit("#3f3f3f");
    lemma_color_by_chars("#3f3f3f"@);
    reveal_strlit("#efefef");
    lemma_color_by_chars("#efefef"@);
    reveal_strlit("#f0dfaf");
    lemma_color_by_chars("#f0dfaf"@);
    reveal_strlit("#87D6D5");
    lemma_color_by_chars("#87D6D5"@);
    reveal_strlit("#FFCCEE");
    lemma_color_by_chars("#FFCCEE"@);
    reveal_strlit("#4a4949");
    lemma_color_by_chars("#4a4949"@);
    reveal_strlit("#7f9f7f");
    lemma_color_by_chars("#7f9f7f"@);
    reveal_strlit("#efef8f");
    lemma_color_by_chars("#efef8f"@);
    reveal_strlit("#7e9f7f9c");
    lemma_color_by_chars("#7e9f7f9c"@);
    reveal_strlit("#777777");
    lemma_color_by_chars("#777777"@);
    reveal_strlit("#5a5a5a");
    lemma_color_by_chars("#5a5a5a"@);
    reveal_strlit("#dca3a3");
    lemma_color_by_chars("#dca3a3"@);
    reveal_strlit("#cc9393");
    lemma_color_by_chars("#cc9393"@);
    reveal_strlit("#cfbfaf");
    lemma_color_by_chars("#cfbfaf"@);
    reveal_strlit("#3333338f");
    lemma_color_by_chars("#3333338f"@);
}

/// Every colour of the Monokai palette is well formed.
proof fn lemma_monokai_colors_valid()
    ensures
        forall|f: ThemeField| is_color(#[trigger] monokai_color(f)),
{
    reveal_strlit("#272822");
    lemma_color_by_chars("#272822"@);
    reveal_strlit("#F8F8F2");
    lemma_color_by_chars("#F8F8F2"@);
    reveal_strlit("#F92672");
    lemma_color_by_chars("#F92672"@);
    reveal_strlit("#A6E22E");
    lemma_color_by_chars("#A6E22E"@);
    reveal_strlit("#FD971F");
    lemma_color_by_chars("#FD971F"@);
    reveal_strlit("#3B3A32");
    lemma_color_by_chars("#3B3A32"@);
    reveal_strlit("#F8F8F0");
    lemma_color_by_chars("#F8F8F0"@);
    reveal_strlit("#75715E");
    lemma_color_by_chars("#75715E"@);
    reveal_strlit("#E6DB74");
    lemma_color_by_chars("#E6DB74"@);
    reveal_strlit("#ae81fe3d");
    lemma_color_by_chars("#ae81fe3d"@);
    reveal_strlit("#3E3D32");
    lemma_color_by_chars("#3E3D32"@);
    reveal_strlit("#49483E");
    lemma_color_by_chars("#49483E"@);
    reveal_strlit("#66D9EF");
    lemma_color_by_chars("#66D9EF"@);
    reveal_strlit("#AE81FF");
    lemma_color_by_chars("#AE81FF"@);
    reveal_strlit("#c6a6ff");
    lemma_color_by_chars("#c6a6ff"@);
    reveal_strlit("#3333338f");
    lemma_color_by_chars("#3333338f"@);
}

/// Every colour of the Squirrel palette is well formed.
proof fn lemma_squirrel_colors_valid()
    ensures
        forall|f: ThemeField| is_color(#[trigger] squirrel_color(f)),
{
    reveal_strlit("#FFFFFF");
    lemma_color_by_chars("#FFFFFF"@);
    reveal_strlit("#323232");
    lemma_color_by_chars("#323232"@);
    reveal_strlit("#d02474");
    lemma_color_by_chars("#d02474"@);
    reveal_strlit("#0086B3");
    lemma_color_by_chars("#0086B3"@);
    reveal_strlit("#ED6A43");
    lemma_color_by_chars("#ED6A43"@);
    reveal_strlit("#ffffff");
    lemma_color_by_chars("#ffffff"@);
    reveal_strlit("#F5F5F5");
    lemma_color_by_chars("#F5F5F5"@);
    reveal_strlit("#f6f8fa");
    lemma_color_by_chars("#f6f8fa"@);
    reveal_strlit("#fbfbfb");
    lemma_color_by_chars("#fbfbfb"@);
    reveal_strlit("#f2f2f2");
    lemma_color_by_chars("#f2f2f2"@);
    reveal_strlit("#f52d8a");
    lemma_color_by_chars("#f52d8a"@);
    reveal_strlit("#797979");
    lemma_color_by_chars("#797979"@);
    reveal_strlit("#49483E");
    lemma_color_by_chars("#49483E"@);
    reveal_strlit("#d2d2d2");
    lemma_color_by_chars("#d2d2d2"@);
    reveal_strlit("#3333338f");
    lemma_color_by_chars("#3333338f"@);
}

/// Every field of every palette holds a well-formed colour.
pub proof fn lemma_palette_colors_valid(s: ColorScheme, f: ThemeField)
    ensures
        is_color(palette(s, f)),
{
    match s {
        ColorScheme::Archlinux => lemma_archlinux_colors_valid(),
        ColorScheme::Zenburn => lemma_zenburn_colors_valid(),
        ColorScheme::Monokai => lemma_monokai_colors_valid(),
        ColorScheme::Squirrel => lemma_squirrel_colors_valid(),
    }
}

impl ColorScheme {
    /// Returns the palette of the scheme.
    pub fn get_theme(self) -> (r: Theme)
        ensures
            forall|f: ThemeField| #[trigger] r.color(f) == palette(self, f),
    {
        match self {
            ColorScheme::Archlinux => Theme {
                background: "#383c4a".to_string(),
                text_color: "#fefefe".to_string(),
                directory_link_color: "#03a9f4".to_string(),
                file_link_color: "#ea95ff".to_string(),
                symlink_link_color: "#ff9800".to_string(),
                table_background: "#353946".to_string(),
                table_text_color: "#eeeeee".to_string(),
                table_header_background: "#5294e2".to_string(),
                table_header_text_color: "#eeeeee".to_string(),
                table_header_active_color: "#ffffff".to_string(),
                active_row_color: "#5194e259".to_string(),
                odd_row_background: "#404552".to_string(),
                even_row_background: "#4b5162".to_string(),
                root_link_color: "#abb2bb".to_string(),
                download_button_background: "#ea95ff".to_string(),
                download_button_background_hover: "#eea7ff".to_string(),
                download_button_link_color: "#ffffff".to_string(),
                download_button_link_color_hover: "#ffffff".to_string(),
                back_button_background: "#ea95ff".to_string(),
                back_button_background_hover: "#ea95ff".to_string(),
                back_button_link_color: "#ffffff".to_string(),
                back_button_link_color_hover: "#ffffff".to_string(),
                date_text_color: "#9ebbdc".to_string(),
                at_color: "#9ebbdc".to_string(),
                switch_theme_background: "#4b5162".to_string(),
                switch_theme_link_color: "#fefefe".to_string(),
                switch_theme_active: "#ea95ff".to_string(),
                switch_theme_border: "#6a728a".to_string(),
                change_theme_link_color: "#fefefe".to_string(),
                change_theme_link_color_hover: "#fefefe".to_string(),
                upload_text_color: "#fefefe".to_string(),
                upload_form_border_color: "#353946".to_string(),
                upload_form_background: "#4b5162".to_string(),
                upload_button_background: "#ea95ff".to_string(),
                upload_button_text_color: "#ffffff".to_string(),
                drag_background: "#3333338f".to_string(),
                drag_border_color: "#fefefe".to_string(),
                drag_text_color: "#fefefe".to_string(),
                size_background_color: "#5294e2".to_string(),
                size_text_color: "#fefefe".to_string(),
            },
            ColorScheme::Zenburn => Theme {
                background: "#3f3f3f".to_string(),
                text_color: "#efefef".to_string(),
                directory_link_color: "#f0dfaf".to_string(),
                file_link_color: "#87D6D5".to_string(),
                symlink_link_color: "#FFCCEE".to_string(),
                table_background: "#4a4949".to_string(),
                table_text_color: "#efefef".to_string(),
                table_header_background: "#7f9f7f".to_string(),
                table_header_text_color: "#efefef".to_string(),
                table_header_active_color: "#efef8f".to_string(),
                active_row_color: "#7e9f7f9c".to_string(),
                odd_row_background: "#777777".to_string(),
                even_row_background: "#5a5a5a".to_string(),
                root_link_color: "#dca3a3".to_string(),
                download_button_background: "#cc9393".to_string(),
                download_button_background_hover: "#dca3a3".to_string(),
                download_button_link_color: "#efefef".to_string(),
                download_button_link_color_hover: "#efefef".to_string(),
                back_button_background: "#cc9393".to_string(),
                back_button_background_hover: "#cc9393".to_string(),
                back_button_link_color: "#efefef".to_string(),
                back_button_link_color_hover: "#efefef".to_string(),
                date_text_color: "#cfbfaf".to_string(),
                at_color: "#cfbfaf".to_string(),
                switch_theme_background: "#4a4949".to_string(),
                switch_theme_link_color: "#efefef".to_string(),
                switch_theme_active: "#efef8f".to_string(),
                switch_theme_border: "#5a5a5a".to_string(),
                change_theme_link_color: "#efefef".to_string(),
                change_theme_link_color_hover: "#efefef".to_string(),
                upload_text_color: "#efefef".to_string(),
                upload_form_border_color: "#4a4949".to_string(),
                upload_form_background: "#777777".to_string(),
                upload_button_background: "#cc9393".to_string(),
                upload_button_text_color: "#efefef".to_string(),
                drag_background: "#3333338f".to_string(),
                drag_border_color: "#efefef".to_string(),
                drag_text_color: "#efefef".to_string(),
                size_background_color: "#7f9f7f".to_string(),
                size_text_color: "#efefef".to_string(),
            },
            ColorScheme::Monokai => Theme {
                background: "#272822".to_string(),
                text_color: "#F8F8F2".to_string(),
                directory_link_color: "#F92672".to_string(),
                file_link_color: "#A6E22E".to_string(),
                symlink_link_color: "#FD971F".to_string(),
                table_background: "#3B3A32".to_string(),
                table_text_color: "#F8F8F0".to_string(),
                table_header_background: "#75715E".to_string(),
                table_header_text_color: "#F8F8F2".to_string(),
                table_header_active_color: "#E6DB74".to_string(),
                active_row_color: "#ae81fe3d".to_string(),
                odd_row_background: "#3E3D32".to_string(),
                even_row_background: "#49483E".to_string(),
                root_link_color: "#66D9EF".to_string(),
                download_button_background: "#AE81FF".to_string(),
                download_button_background_hover: "#c6a6ff".to_string(),
                download_button_link_color: "#F8F8F0".to_string(),
                download_button_link_color_hover: "#F8F8F0".to_string(),
                back_button_background: "#AE81FF".to_string(),
                back_button_background_hover: "#AE81FF".to_string(),
                back_button_link_color: "#F8F8F0".to_string(),
                back_button_link_color_hover: "#F8F8F0".to_string(),
                date_text_color: "#66D9EF".to_string(),
                at_color: "#66D9EF".to_string(),
                switch_theme_background: "#3B3A32".to_string(),
                switch_theme_link_color: "#F8F8F2".to_string(),
                switch_theme_active: "#A6E22E".to_string(),
                switch_theme_border: "#49483E".to_string(),
                change_theme_link_color: "#F8F8F2".to_string(),
                change_theme_link_color_hover: "#F8F8F2".to_string(),
                upload_text_color: "#F8F8F2".to_string(),
                upload_form_border_color: "#3B3A32".to_string(),
                upload_form_background: "#49483E".to_string(),
                upload_button_background: "#AE81FF".to_string(),
                upload_button_text_color: "#F8F8F0".to_string(),
                drag_background: "#3333338f".to_string(),
                drag_border_color: "#F8F8F2".to_string(),
                drag_text_color: "#F8F8F2".to_string(),
                size_background_color: "#75715E".to_string(),
                size_text_color: "#F8F8F2".to_string(),
            },
            ColorScheme::Squirrel => Theme {
                background: "#FFFFFF".to_string(),
                text_color: "#323232".to_string(),
                directory_link_color: "#d02474".to_string(),
                file_link_color: "#0086B3".to_string(),
                symlink_link_color: "#ED6A43".to_string(),
                table_background: "#ffffff".to_string(),
                table_text_color: "#323232".to_string(),
                table_header_background: "#323232".to_string(),
                table_header_text_color: "#F5F5F5".to_string(),
                table_header_active_color: "#FFFFFF".to_string(),
                active_row_color: "#f6f8fa".to_string(),
                odd_row_background: "#fbfbfb".to_string(),
                even_row_background: "#f2f2f2".to_string(),
                root_link_color: "#323232".to_string(),
                download_button_background: "#d02474".to_string(),
                download_button_background_hover: "#f52d8a".to_string(),
                download_button_link_color: "#FFFFFF".to_string(),
                download_button_link_color_hover: "#FFFFFF".to_string(),
                back_button_background: "#d02474".to_string(),
                back_button_background_hover: "#d02474".to_string(),
                back_button_link_color: "#FFFFFF".to_string(),
                back_button_link_color_hover: "#FFFFFF".to_string(),
                date_text_color: "#797979".to_string(),
                at_color: "#797979".to_string(),
                switch_theme_background: "#323232".to_string(),
                switch_theme_link_color: "#F5F5F5".to_string(),
                switch_theme_active: "#d02474".to_string(),
                switch_theme_border: "#49483E".to_string(),
                change_theme_link_color: "#F5F5F5".to_string(),
                change_theme_link_color_hover: "#F5F5F5".to_string(),
                upload_text_color: "#323232".to_string(),
                upload_form_border_color: "#d2d2d2".to_string(),
                upload_form_background: "#f2f2f2".to_string(),
                upload_button_background: "#d02474".to_string(),
                upload_button_text_color: "#FFFFFF".to_string(),
                drag_background: "#3333338f".to_string(),
                drag_border_color: "#ffffff".to_string(),
                drag_text_color: "#ffffff".to_string(),
                size_background_color: "#323232".to_string(),
                size_text_color: "#FFFFFF".to_string(),
            },
        }
    }
}

} // verus!
