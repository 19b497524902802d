use vstd::prelude::*;

verus! {

/// The window the game opens: fixed size, not resizable.
#[derive(Clone, Debug, PartialEq, Eq)]
pub struct WindowSettings {
    pub title: String,
    pub width: u32,
    pub height: u32,
    pub resizable: bool,
}

/// The assets loaded before the menu can be shown.
#[derive(Clone, Copy, Debug, PartialEq, Eq, Hash, Structural)]
pub enum Asset {
    /// The font of every label.
    MenuFont,
    /// The main menu's looped song.
    MenuSong,
}

pub open spec fn asset_path_of(a: Asset) -> Seq<char> {
    match a {
        Asset::MenuFont => "fonts/open_sans/OpenSans-Bold.ttf"@,
        Asset::MenuSong => "sounds/main_menu_song.ogg"@,
    }
}

/// The full size the window's dimensions are halved from.
pub const FULL_WIDTH: u32 = 1280;
pub const FULL_HEIGHT: u32 = 960;

/// The window: titled "Gight", half of 1280 by 960, not resizable.
pub fn window_settings() -> (r: WindowSettings)
    ensures
        r.title@ == "Gight"@,
        r.width == FULL_WIDTH / 2,
        r.height == FULL_HEIGHT / 2,
        r.width == 640,
        r.height == 480,
        !r.resizable,
{
    WindowSettings {
        title: "Gight".to_string(),
        width: FULL_WIDTH / 2,
        height: FULL_HEIGHT / 2,
        resizable: false,
    }
}

/// The file an asset is loaded from.
pub fn asset_path(a: Asset) -> (r: &'static str)
    ensures
        r@ == asset_path_of(a),
{
    match a {
        Asset::MenuFont => "fonts/open_sans/OpenSans-Bold.ttf",
        Asset::MenuSong => "sounds/main_menu_song.ogg",
    }
}

/// The assets declared for loading, font first.
pub fn declared_assets() -> (r: Vec<Asset>)
    ensures
        r@ == seq![Asset::MenuFont, Asset::MenuSong],
{
    let mut v: Vec<Asset> = Vec::new();
    v.push(Asset::MenuFont);
    v.push(Asset::MenuSong);
    assert(v@ =~= seq![Asset::MenuFont, Asset::MenuSong]);
    v
}

} // verus!
