use vstd::prelude::*;

use crate::menu::{button_color, color_for, menu_buttons, menu_layout, slot, action_for};
use crate::menu::{ButtonKind, ClickAction, IdleStyle, Interaction, MenuColor};
use crate::state::{is_run_prefix, rank, run_order, AppState};

verus! {

/// Something that happens to the application from outside its own decisions.
#[derive(Clone, Copy, Debug, PartialEq, Eq, Hash, Structural)]
pub enum Event {
    /// The application has started.
    Startup,
    /// Every declared asset has finished loading.
    AssetsLoaded,
    /// The pointer's interaction with a menu button has changed.
    Pointer { button: ButtonKind, interaction: Interaction },
}

/// The looped tracks the application can play.
#[derive(Clone, Copy, Debug, PartialEq, Eq, Hash, Structural)]
pub enum Track {
    MenuSong,
}

/// Work that the flow asks the host to carry out.
#[derive(Clone, Copy, Debug, PartialEq, Eq, Hash, Structural)]
pub enum Effect {
    SpawnUiCamera,
    SpawnLoadingText,
    LoadAssets,
    DespawnLoadingText,
    SpawnCamera2d,
    PlayLooped(Track),
    SpawnButton { kind: ButtonKind, color: MenuColor },
    SetColor { kind: ButtonKind, color: MenuColor },
    RequestExit,
}

/// How many times `e` occurs in `s`.
pub open spec fn count_of(s: Seq<Effect>, e: Effect) -> nat
    decreases s.len(),
{
    if s.len() == 0 {
        0
    } else {
        count_of(s.drop_last(), e) + if s.last() == e { 1nat } else { 0nat }
    }
}

/// The state after an event.
pub open spec fn next_state(s: AppState, ev: Event) -> AppState {
    match (s, ev) {
        (AppState::Preload, Event::Startup) => AppState::LoadingAssets,
        (AppState::LoadingAssets, Event::AssetsLoaded) => AppState::MainMenu,
        _ => s,
    }
}

/// The states entered on an event, in order. Loading is entered and left
/// within the same event: its setup asks for the main menu at once.
pub open spec fn entered(s: AppState, ev: Event) -> Seq<AppState> {
    match (s, ev) {
        (AppState::Preload, Event::Startup) => seq![AppState::LoadingAssets],
        (AppState::LoadingAssets, Event::AssetsLoaded) => seq![AppState::Loading, AppState::MainMenu],
        _ => seq![],
    }
}

/// What entering the main menu asks for: the menu song, looped, then the
/// buttons top first, each white.
pub open spec fn menu_entry_effects() -> Seq<Effect> {
    seq![
        Effect::PlayLooped(Track::MenuSong),
        Effect::SpawnButton { kind: ButtonKind::Play, color: MenuColor::White },
        Effect::SpawnButton { kind: ButtonKind::Settings, color: MenuColor::White },
        Effect::SpawnButton { kind: ButtonKind::Quit, color: MenuColor::White },
    ]
}

/// What an interaction with a button asks for while the menu is shown: its new
/// colour, then, for a click on Quit, one exit request.
pub open spec fn pointer_effects(style: IdleStyle, b: ButtonKind, i: Interaction) -> Seq<Effect> {
    let recolor = seq![Effect::SetColor { kind: b, color: color_for(style, i) }];
    if i is Clicked && action_for(b) is Exit {
        recolor.push(Effect::RequestExit)
    } else {
        recolor
    }
}

/// The effects of an event in a state. An event that does not apply in the
/// state asks for nothing.
pub open spec fn effects_of(s: AppState, style: IdleStyle, ev: Event) -> Seq<Effect> {
    match (s, ev) {
        (AppState::Preload, Event::Startup) => seq![
            Effect::SpawnUiCamera,
            Effect::SpawnLoadingText,
            Effect::LoadAssets,
        ],
        (AppState::LoadingAssets, Event::AssetsLoaded) => seq![
            Effect::DespawnLoadingText,
            Effect::SpawnCamera2d,
        ] + menu_entry_effects(),
        (AppState::MainMenu, Event::Pointer { button, interaction }) => pointer_effects(
            style,
            button,
            interaction,
        ),
        _ => seq![],
    }
}

/// The button colours after an event, one per menu slot.
pub open spec fn next_colors(
    colors: Seq<MenuColor>,
    s: AppState,
    style: IdleStyle,
    ev: Event,
) -> Seq<MenuColor> {
    match (s, ev) {
        (AppState::LoadingAssets, Event::AssetsLoaded) => seq![
            MenuColor::White,
            MenuColor::White,
            MenuColor::White,
        ],
        (AppState::MainMenu, Event::Pointer { button, interaction }) => colors.update(
            slot(button),
            color_for(style, interaction),
        ),
        _ => colors,
    }
}

/// The main-menu flow: which state the application is in, what is on screen,
/// and the states it has gone through.
pub struct MenuFlow {
    /// The current state.
    pub state: AppState,
    /// The idle colour style of the menu buttons.
    pub style: IdleStyle,
    /// Whether the "please wait" label is on screen.
    pub loading_text: bool,
    /// The colours of the menu buttons, top first; empty until the menu is shown.
    pub colors: Vec<MenuColor>,
    /// Every state the run has been in, first to current.
    pub history: Ghost<Seq<AppState>>,
}

impl MenuFlow {
    pub open spec fn wf(&self) -> bool {
        &&& is_run_prefix(self.history@)
        &&& self.history@.last() == self.state
        &&& self.loading_text == (self.state is LoadingAssets)
        &&& self.colors@.len() == if self.state is MainMenu { 3int } else { 0int }
    }

    /// A flow at its start: in Preload, with nothing on screen.
    pub fn new(style: IdleStyle) -> (r: MenuFlow)
        ensures
            r.wf(),
            r.state == AppState::Preload,
            r.style == style,
            !r.loading_text,
            r.colors@.len() == 0,
            r.history@ == seq![AppState::Preload],
    {
        let ghost start = seq![AppState::Preload];
        let r = MenuFlow {
            state: AppState::Preload,
            style,
            loading_text: false,
            colors: Vec::new(),
            history: Ghost(start),
        };
        assert(r.history@ =~= run_order().take(1));
        r
    }

    /// Hands an event to the flow: moves it to its next state and returns what
    /// the host is asked to do, in order.
    pub fn step(&mut self, ev: Event) -> (r: Vec<Effect>)
        requires
            old(self).wf(),
        ensures
            final(self).wf(),
            final(self).style == old(self).style,
            final(self).state == next_state(old(self).state, ev),
            final(self).history@ == old(self).history@ + entered(old(self).state, ev),
            final(self).colors@ == next_colors(
                old(self).colors@,
                old(self).state,
                old(self).style,
                ev,
            ),
            r@ == effects_of(old(self).state, old(self).style, ev),
    {
        let mut r: Vec<Effect> = Vec::new();
        match (self.state, ev) {
            (AppState::Preload, Event::Startup) => {
                r.push(Effect::SpawnUiCamera);
                r.push(Effect::SpawnLoadingText);
                r.push(Effect::LoadAssets);
                self.loading_text = true;
                self.state = AppState::LoadingAssets;
                proof { self.history@ = self.history@.push(AppState::LoadingAssets); }
            },
            (AppState::LoadingAssets, Event::AssetsLoaded) => {
                // entering Loading: take the label down and set up the camera
                self.state = AppState::Loading;
                proof { self.history@ = self.history@.push(AppState::Loading); }
                r.push(Effect::DespawnLoadingText);
                self.loading_text = false;
                r.push(Effect::SpawnCamera2d);
                // entering the main menu: music, then the buttons
                self.state = AppState::MainMenu;
                proof { self.history@ = self.history@.push(AppState::MainMenu); }
                r.push(Effect::PlayLooped(Track::MenuSong));
                let buttons = menu_buttons();
                let mut colors: Vec<MenuColor> = Vec::new();
                let mut k: usize = 0;
                while k < buttons.len()
                    invariant
                        buttons@ == menu_layout(),
                        0 <= k <= buttons@.len(),
                        colors@ == Seq::new(k as nat, |j: int| MenuColor::White),
                        r@ == seq![
                            Effect::DespawnLoadingText,
                            Effect::SpawnCamera2d,
                            Effect::PlayLooped(Track::MenuSong),
                        ] + Seq::new(
                            k as nat,
                            |j: int| Effect::SpawnButton { kind: menu_layout()[j], color: MenuColor::White },
                        ),
                    decreases buttons@.len() - k,
                {
                    r.push(Effect::SpawnButton { kind: buttons[k], color: MenuColor::White });
                    colors.push(MenuColor::White);
                    k = k + 1;
                    assert(colors@ =~= Seq::new(k as nat, |j: int| MenuColor::White));
                }
                self.colors = colors;
            },
            (AppState::MainMenu, Event::Pointer { button, interaction }) => {
                let color = button_color(self.style, interaction);
                self.colors.set(button.slot(), color);
                r.push(Effect::SetColor { kind: button, color });
                if let Interaction::Clicked = interaction {
                    if let ClickAction::Exit = button.click_action() {
                        r.push(Effect::RequestExit);
                    }
                }
            },
            _ => {},
        }
        proof {
            assert(r@ =~= effects_of(old(self).state, old(self).style, ev));
            assert(self.colors@ =~= next_colors(old(self).colors@, old(self).state, old(self).style, ev));
            assert(self.history@ =~= old(self).history@ + entered(old(self).state, ev));
            assert(self.history@ =~= run_order().take(self.history@.len() as int));
        }
        r
    }
}

/// Appending one effect adds one to its count when it is the effect counted.
proof fn lemma_count_push(s: Seq<Effect>, x: Effect, e: Effect)
    ensures
        #[trigger] count_of(s.push(x), e) == count_of(s, e) + if x == e { 1nat } else { 0nat },
{
    assert(s.push(x).drop_last() =~= s);
}

/// Counts add up over concatenation.
pub proof fn lemma_count_concat(a: Seq<Effect>, b: Seq<Effect>, e: Effect)
    ensures
        count_of(a + b, e) == count_of(a, e) + count_of(b, e),
    decreases b.len(),
{
    if b.len() > 0 {
        lemma_count_concat(a, b.drop_last(), e);
        assert((a + b).drop_last() =~= a + b.drop_last());
    } else {
        assert(a + b =~= a);
    }
}

/// A run only moves forward: an event leaves the state where it is or moves
/// it on, and the states it enters are exactly those that follow in the run
/// order, none skipped.
pub proof fn lemma_step_moves_forward(s: AppState, ev: Event)
    ensures
        rank(s) <= rank(next_state(s, ev)),
        seq![s] + entered(s, ev) == run_order().subrange(rank(s), rank(next_state(s, ev)) + 1),
{
    assert(seq![s] + entered(s, ev) =~= run_order().subrange(rank(s), rank(next_state(s, ev)) + 1));
}

/// Every state a flow has been through, first to current, is the start of
/// Preload, LoadingAssets, Loading, MainMenu: never out of order, none
/// skipped or seen twice.
pub proof fn lemma_history_in_run_order(f: &MenuFlow)
    requires
        f.wf(),
    ensures
        f.history@ == run_order().take(f.history@.len() as int),
        f.history@.last() == f.state,
        forall|i: int, j: int|
            0 <= i < j < f.history@.len() ==> rank(#[trigger] f.history@[i]) < rank(
                #[trigger] f.history@[j],
            ),
{
    assert forall|i: int, j: int| 0 <= i < j < f.history@.len() implies rank(
        #[trigger] f.history@[i],
    ) < rank(#[trigger] f.history@[j]) by {
        assert(f.history@[i] == run_order()[i]);
        assert(f.history@[j] == run_order()[j]);
    }
}

/// The "please wait" label is on screen while assets load and is gone on
/// Loading and in the main menu; it is never on screen outside Preload and
/// LoadingAssets. (In Preload it comes up with the startup event, which also
/// moves the flow on to LoadingAssets.)
pub proof fn lemma_loading_text_shown(f: &MenuFlow)
    requires
        f.wf(),
    ensures
        f.loading_text ==> (f.state is Preload || f.state is LoadingAssets),
        f.state is LoadingAssets ==> f.loading_text,
        (f.state is Loading || f.state is MainMenu) ==> !f.loading_text,
{
}

/// A button's colour depends on its latest interaction alone: the same
/// interaction reported twice leaves the colours as once, and the button takes
/// the colour that the interaction and the idle style give.
pub proof fn lemma_recolor_idempotent(
    colors: Seq<MenuColor>,
    style: IdleStyle,
    button: ButtonKind,
    interaction: Interaction,
)
    requires
        colors.len() == 3,
    ensures
        ({
            let ev = Event::Pointer { button, interaction };
            let once = next_colors(colors, AppState::MainMenu, style, ev);
            &&& next_state(AppState::MainMenu, ev) == AppState::MainMenu
            &&& next_colors(once, AppState::MainMenu, style, ev) == once
            &&& once[slot(button)] == color_for(style, interaction)
        }),
{
    let ev = Event::Pointer { button, interaction };
    let once = next_colors(colors, AppState::MainMenu, style, ev);
    assert(next_colors(once, AppState::MainMenu, style, ev) =~= once);
}

/// The counts of an exit request and of the menu song among the effects of
/// an event, case by case.
proof fn lemma_counts_of_effects(s: AppState, style: IdleStyle, ev: Event, e: Effect)
    requires
        e == Effect::RequestExit || e == Effect::PlayLooped(Track::MenuSong),
    ensures
        count_of(effects_of(s, style, ev), e) == match (s, ev) {
            (AppState::LoadingAssets, Event::AssetsLoaded) => if e is PlayLooped {
                1nat
            } else {
                0nat
            },
            (AppState::MainMenu, Event::Pointer { button, interaction }) => if e is RequestExit
                && interaction is Clicked && button is Quit {
                1nat
            } else {
                0nat
            },
            _ => 0nat,
        },
{
    let empty = Seq::<Effect>::empty();
    assert(count_of(empty, e) == 0);
    match (s, ev) {
        (AppState::Preload, Event::Startup) => {
            let s1 = empty.push(Effect::SpawnUiCamera);
            let s2 = s1.push(Effect::SpawnLoadingText);
            lemma_count_push(empty, Effect::SpawnUiCamera, e);
            lemma_count_push(s1, Effect::SpawnLoadingText, e);
            lemma_count_push(s2, Effect::LoadAssets, e);
            assert(effects_of(s, style, ev) =~= s2.push(Effect::LoadAssets));
        },
        (AppState::LoadingAssets, Event::AssetsLoaded) => {
            let head = seq![Effect::DespawnLoadingText, Effect::SpawnCamera2d];
            lemma_count_push(empty, Effect::DespawnLoadingText, e);
            lemma_count_push(empty.push(Effect::DespawnLoadingText), Effect::SpawnCamera2d, e);
            assert(head =~= empty.push(Effect::DespawnLoadingText).push(Effect::SpawnCamera2d));
            let m0 = empty.push(Effect::PlayLooped(Track::MenuSong));
            let m1 = m0.push(Effect::SpawnButton { kind: ButtonKind::Play, color: MenuColor::White });
            let m2 = m1.push(
                Effect::SpawnButton { kind: ButtonKind::Settings, color: MenuColor::White },
            );
            let q = Effect::SpawnButton { kind: ButtonKind::Quit, color: MenuColor::White };
            lemma_count_push(empty, Effect::PlayLooped(Track::MenuSong), e);
            lemma_count_push(m0, Effect::SpawnButton { kind: ButtonKind::Play, color: MenuColor::White }, e);
            lemma_count_push(m1, Effect::SpawnButton { kind: ButtonKind::Settings, color: MenuColor::White }, e);
            lemma_count_push(m2, q, e);
            assert(menu_entry_effects() =~= m2.push(q));
            lemma_count_concat(head, menu_entry_effects(), e);
        },
        (AppState::MainMenu, Event::Pointer { button, interaction }) => {
            let c = Effect::SetColor { kind: button, color: color_for(style, interaction) };
            lemma_count_push(empty, c, e);
            lemma_count_push(empty.push(c), Effect::RequestExit, e);
            assert(seq![c] =~= empty.push(c));
        },
        _ => {
            assert(effects_of(s, style, ev) =~= empty);
        },
    }
}

/// Exactly one exit request comes of each click on Quit in the main menu, and
/// none of any other event.
pub proof fn lemma_exit_requests(s: AppState, style: IdleStyle, ev: Event)
    ensures
        count_of(effects_of(s, style, ev), Effect::RequestExit) == if s is MainMenu && ev
            == (Event::Pointer { button: ButtonKind::Quit, interaction: Interaction::Clicked }) {
            1nat
        } else {
            0nat
        },
{
    lemma_counts_of_effects(s, style, ev, Effect::RequestExit);
}

/// A click on Play or Settings asks for no exit and leaves the state as it is.
pub proof fn lemma_unassigned_clicks(s: AppState, style: IdleStyle, button: ButtonKind)
    requires
        button is Play || button is Settings,
    ensures
        ({
            let ev = Event::Pointer { button, interaction: Interaction::Clicked };
            &&& count_of(effects_of(s, style, ev), Effect::RequestExit) == 0
            &&& next_state(s, ev) == s
            &&& entered(s, ev).len() == 0
        }),
{
    lemma_exit_requests(s, style, Event::Pointer { button, interaction: Interaction::Clicked });
}

/// The menu song is asked for, looped, exactly once for each entry into the
/// main menu, and never otherwise.
pub proof fn lemma_one_song_per_menu_entry(s: AppState, style: IdleStyle, ev: Event)
    ensures
        count_of(effects_of(s, style, ev), Effect::PlayLooped(Track::MenuSong)) == if entered(
            s,
            ev,
        ).contains(AppState::MainMenu) {
            1nat
        } else {
            0nat
        },
{
    lemma_counts_of_effects(s, style, ev, Effect::PlayLooped(Track::MenuSong));
    if s is LoadingAssets && ev is AssetsLoaded {
        assert(entered(s, ev)[1] == AppState::MainMenu);
    } else if s is MainMenu && ev is Pointer {
        assert(!entered(s, ev).contains(AppState::MainMenu));
    }
}

} // verus!
