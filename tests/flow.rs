use gight::flow::{Effect, Event, MenuFlow, Track};
use gight::menu::{ButtonKind, IdleStyle, Interaction, MenuColor};
use gight::state::AppState;

fn in_menu(style: IdleStyle) -> MenuFlow {
    let mut f = MenuFlow::new(style);
    f.step(Event::Startup);
    f.step(Event::AssetsLoaded);
    f
}

fn count(effects: &[Effect], e: Effect) -> usize {
    effects.iter().filter(|x| **x == e).count()
}

#[test]
fn new_flow_starts_in_preload() {
    let f = MenuFlow::new(IdleStyle::Plain);
    assert_eq!(f.state, AppState::Preload);
    assert!(!f.loading_text);
    assert!(f.colors.is_empty());
}

#[test]
fn startup_shows_loading_text_and_starts_loading() {
    let mut f = MenuFlow::new(IdleStyle::Plain);
    let r = f.step(Event::Startup);
    assert_eq!(
        r,
        vec![Effect::SpawnUiCamera, Effect::SpawnLoadingText, Effect::LoadAssets]
    );
    assert_eq!(f.state, AppState::LoadingAssets);
    assert!(f.loading_text);
}

#[test]
fn assets_loaded_enters_main_menu() {
    let mut f = MenuFlow::new(IdleStyle::Plain);
    f.step(Event::Startup);
    let r = f.step(Event::AssetsLoaded);
    assert_eq!(
        r,
        vec![
            Effect::DespawnLoadingText,
            Effect::SpawnCamera2d,
            Effect::PlayLooped(Track::MenuSong),
            Effect::SpawnButton { kind: ButtonKind::Play, color: MenuColor::White },
            Effect::SpawnButton { kind: ButtonKind::Settings, color: MenuColor::White },
            Effect::SpawnButton { kind: ButtonKind::Quit, color: MenuColor::White },
        ]
    );
    assert_eq!(f.state, AppState::MainMenu);
    assert!(!f.loading_text);
    assert_eq!(f.colors, vec![MenuColor::White; 3]);
}

#[test]
fn run_visits_states_in_order() {
    let mut f = MenuFlow::new(IdleStyle::Plain);
    let mut seen = vec![f.state];
    for ev in [Event::Startup, Event::AssetsLoaded] {
        f.step(ev);
        seen.push(f.state);
    }
    assert_eq!(
        seen,
        vec![AppState::Preload, AppState::LoadingAssets, AppState::MainMenu]
    );
    let ranks: Vec<u8> = seen.iter().map(|s| s.rank()).collect();
    assert_eq!(ranks, vec![0, 1, 3]);
    assert_eq!(AppState::Loading.rank(), 2);
}

#[test]
fn out_of_order_events_change_nothing() {
    let mut f = MenuFlow::new(IdleStyle::Plain);
    assert!(f.step(Event::AssetsLoaded).is_empty());
    let click = Event::Pointer { button: ButtonKind::Quit, interaction: Interaction::Clicked };
    assert!(f.step(click).is_empty());
    assert_eq!(f.state, AppState::Preload);
    let mut g = in_menu(IdleStyle::Plain);
    assert!(g.step(Event::Startup).is_empty());
    assert!(g.step(Event::AssetsLoaded).is_empty());
    assert_eq!(g.state, AppState::MainMenu);
}

#[test]
fn loading_text_only_while_loading() {
    let mut f = MenuFlow::new(IdleStyle::Plain);
    f.step(Event::Startup);
    assert!(f.loading_text && f.state.shows_loading_text());
    f.step(Event::AssetsLoaded);
    assert!(!f.loading_text && !f.state.shows_loading_text());
    assert!(AppState::Preload.shows_loading_text());
    assert!(!AppState::Loading.shows_loading_text());
}

#[test]
fn colors_follow_interaction() {
    for style in [IdleStyle::Plain, IdleStyle::Augmented] {
        let idle = if style == IdleStyle::Plain { MenuColor::White } else { MenuColor::DarkGreen };
        let mut f = in_menu(style);
        for (i, c) in [
            (Interaction::Hovered, MenuColor::Green),
            (Interaction::Clicked, MenuColor::Yellow),
            (Interaction::Idle, idle),
        ] {
            let ev = Event::Pointer { button: ButtonKind::Settings, interaction: i };
            let r = f.step(ev);
            assert_eq!(r[0], Effect::SetColor { kind: ButtonKind::Settings, color: c });
            assert_eq!(f.colors, vec![MenuColor::White, c, MenuColor::White]);
            // reported again, the colour stays
            f.step(ev);
            assert_eq!(f.colors, vec![MenuColor::White, c, MenuColor::White]);
        }
    }
}

#[test]
fn quit_click_requests_one_exit() {
    let mut f = in_menu(IdleStyle::Augmented);
    let ev = Event::Pointer { button: ButtonKind::Quit, interaction: Interaction::Clicked };
    let r = f.step(ev);
    assert_eq!(
        r,
        vec![
            Effect::SetColor { kind: ButtonKind::Quit, color: MenuColor::Yellow },
            Effect::RequestExit,
        ]
    );
    let r2 = f.step(ev);
    assert_eq!(count(&r2, Effect::RequestExit), 1);
    let hover = Event::Pointer { button: ButtonKind::Quit, interaction: Interaction::Hovered };
    assert_eq!(count(&f.step(hover), Effect::RequestExit), 0);
}

#[test]
fn play_and_settings_clicks_do_nothing_else() {
    for b in [ButtonKind::Play, ButtonKind::Settings] {
        let mut f = in_menu(IdleStyle::Plain);
        let r = f.step(Event::Pointer { button: b, interaction: Interaction::Clicked });
        assert_eq!(r, vec![Effect::SetColor { kind: b, color: MenuColor::Yellow }]);
        assert_eq!(f.state, AppState::MainMenu);
    }
}

#[test]
fn menu_song_plays_once_per_entry() {
    let mut f = MenuFlow::new(IdleStyle::Plain);
    let song = Effect::PlayLooped(Track::MenuSong);
    let mut total = 0;
    let events = [
        Event::Startup,
        Event::AssetsLoaded,
        Event::AssetsLoaded,
        Event::Pointer { button: ButtonKind::Play, interaction: Interaction::Hovered },
        Event::Startup,
    ];
    for ev in events {
        total += count(&f.step(ev), song);
    }
    assert_eq!(total, 1);
}
