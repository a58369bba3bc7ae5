//! Where on screen to look, for which game, in which language.
use vstd::prelude::*;

use crate::i18n::Language;

verus! {

/// A screen zone, in percent of the screen's width and height.
#[derive(Clone, Copy, Debug, PartialEq, Eq, Structural, Hash)]
pub struct CropPosition {
    pub x_percent: u32,
    pub y_percent: u32,
    pub width_percent: u32,
    pub height_percent: u32,
}

/// `percent` percent of `size`, rounded down.
pub open spec fn share(size: u32, percent: u32) -> int {
    (size as int * percent as int) / 100
}

/// The product fits the 32 bits it is computed in.
pub open spec fn fits(size: u32, percent: u32) -> bool {
    size as int * percent as int <= u32::MAX
}

impl CropPosition {
    pub fn new(x_percent: u32, y_percent: u32, width_percent: u32, height_percent: u32) -> (r: Self)
        ensures
            r == (CropPosition { x_percent, y_percent, width_percent, height_percent }),
    {
        CropPosition { x_percent, y_percent, width_percent, height_percent }
    }

    /// The zone in pixels of a screen of the given size: left, top, width,
    /// height.
    pub fn to_pixels(&self, screen_width: u32, screen_height: u32) -> (r: (u32, u32, u32, u32))
        requires
            fits(screen_width, self.x_percent),
            fits(screen_height, self.y_percent),
            fits(screen_width, self.width_percent),
            fits(screen_height, self.height_percent),
        ensures
            r.0 == share(screen_width, self.x_percent),
            r.1 == share(screen_height, self.y_percent),
            r.2 == share(screen_width, self.width_percent),
            r.3 == share(screen_height, self.height_percent),
    {
        let x = (screen_width * self.x_percent) / 100;
        let y = (screen_height * self.y_percent) / 100;
        let width = (screen_width * self.width_percent) / 100;
        let height = (screen_height * self.height_percent) / 100;
        (x, y, width, height)
    }
}

/// The games whose screens are known.
#[derive(Clone, Copy, Debug, PartialEq, Eq, Structural, Hash)]
pub enum Game {
    EldenRing,
}

impl Game {
    /// The game's name as shown.
    pub fn label(&self) -> (r: &'static str)
        ensures
            r@ == "Elden Ring"@,
    {
        "Elden Ring"
    }
}

/// The zones to read for one game: one for the death banner, and the boss
/// name zones in the order they are scanned.
#[derive(Clone, Debug)]
pub struct GameConfig {
    death_zone: CropPosition,
    boss_zones: Vec<CropPosition>,
}

impl GameConfig {
    pub closed spec fn spec_death_zone(&self) -> CropPosition {
        self.death_zone
    }

    pub closed spec fn spec_boss_zones(&self) -> Seq<CropPosition> {
        self.boss_zones@
    }

    pub fn new(death_zone: CropPosition, boss_zones: Vec<CropPosition>) -> (r: Self)
        ensures
            r.spec_death_zone() == death_zone,
            r.spec_boss_zones() == boss_zones@,
    {
        GameConfig { death_zone, boss_zones }
    }

    pub fn elden_ring_default() -> (r: Self)
        ensures
            (r.spec_death_zone(), r.spec_boss_zones()) == default_zones(Game::EldenRing),
    {
        let mut boss_zones: Vec<CropPosition> = Vec::new();
        boss_zones.push(CropPosition::new(25, 30, 50, 15));
        let r = GameConfig { death_zone: CropPosition::new(31, 46, 39, 10), boss_zones };
        assert(r.boss_zones@ =~= default_zones(Game::EldenRing).1);
        r
    }

    pub fn dark_souls_3_default() -> (r: Self)
        ensures
            r.spec_death_zone() == (CropPosition {
                x_percent: 30,
                y_percent: 45,
                width_percent: 40,
                height_percent: 12,
            }),
            r.spec_boss_zones() == seq![
                CropPosition { x_percent: 20, y_percent: 25, width_percent: 60, height_percent: 20 },
            ],
    {
        let mut boss_zones: Vec<CropPosition> = Vec::new();
        boss_zones.push(CropPosition::new(20, 25, 60, 20));
        let r = GameConfig { death_zone: CropPosition::new(30, 45, 40, 12), boss_zones };
        assert(r.boss_zones@ =~= seq![
            CropPosition { x_percent: 20, y_percent: 25, width_percent: 60, height_percent: 20 },
        ]);
        r
    }

    pub fn get_death_zone(&self) -> (r: &CropPosition)
        ensures
            *r == self.spec_death_zone(),
    {
        &self.death_zone
    }

    pub fn get_boss_zones(&self) -> (r: &Vec<CropPosition>)
        ensures
            r@ == self.spec_boss_zones(),
    {
        &self.boss_zones
    }

    /// A copy of this configuration.
    pub fn duplicate(&self) -> (r: Self)
        ensures
            r.spec_death_zone() == self.spec_death_zone(),
            r.spec_boss_zones() == self.spec_boss_zones(),
    {
        let mut boss_zones: Vec<CropPosition> = Vec::new();
        let mut i: usize = 0;
        while i < self.boss_zones.len()
            invariant
                i <= self.boss_zones@.len(),
                boss_zones@ == self.boss_zones@.take(i as int),
            decreases self.boss_zones@.len() - i,
        {
            boss_zones.push(self.boss_zones[i]);
            i = i + 1;
            assert(boss_zones@ =~= self.boss_zones@.take(i as int));
        }
        assert(self.boss_zones@.take(i as int) =~= self.boss_zones@);
        GameConfig { death_zone: self.death_zone, boss_zones }
    }
}

/// The death zone and boss zones that a game has by default.
pub open spec fn default_zones(game: Game) -> (CropPosition, Seq<CropPosition>) {
    match game {
        Game::EldenRing => (
            CropPosition { x_percent: 31, y_percent: 46, width_percent: 39, height_percent: 10 },
            seq![CropPosition { x_percent: 25, y_percent: 30, width_percent: 50, height_percent: 15 }],
        ),
    }
}

/// A monitor that can be watched.
#[derive(Clone, Debug)]
pub struct ScreenInfo {
    pub index: i8,
    pub name: String,
}

/// The death phrase of the default settings.
pub open spec fn default_death_text() -> Seq<char> {
    "VOUS AVEZ PERI"@
}

/// What the user chose: the game, the monitor, the language, the death
/// phrase, and zones of their own for some games.
#[derive(Clone, Debug)]
pub struct Settings {
    game: Game,
    screen: i8,
    language: Language,
    death_text: String,
    custom_game_configs: Vec<(Game, GameConfig)>,
}

impl Settings {
    pub closed spec fn spec_game(&self) -> Game {
        self.game
    }

    pub closed spec fn spec_screen(&self) -> i8 {
        self.screen
    }

    pub closed spec fn spec_language(&self) -> Language {
        self.language
    }

    pub closed spec fn spec_death_text(&self) -> Seq<char> {
        self.death_text@
    }

    /// The zones the user set for `game`, if any: the first entry for it.
    pub closed spec fn custom_config(&self, game: Game) -> Option<GameConfig> {
        if exists|i: int| 0 <= i < self.custom_game_configs@.len() && self.custom_game_configs@[i].0 == game {
            let i = choose|i: int|
                0 <= i < self.custom_game_configs@.len() && self.custom_game_configs@[i].0 == game && forall|j: int|
                    0 <= j < i ==> self.custom_game_configs@[j].0 != game;
            Some(self.custom_game_configs@[i].1)
        } else {
            None
        }
    }

    /// Elden Ring on the first monitor, in French, with the French death
    /// phrase and no zones of the user's own.
    pub fn new() -> (r: Self)
        ensures
            r.spec_game() == Game::EldenRing,
            r.spec_screen() == 0,
            r.spec_language() == Language::French,
            r.spec_death_text() == default_death_text(),
            r.custom_config(Game::EldenRing) is None,
    {
        Settings {
            game: Game::EldenRing,
            screen: 0,
            language: Language::French,
            death_text: String::from_str("VOUS AVEZ PERI"),
            custom_game_configs: Vec::new(),
        }
    }

    /// The zones of the chosen game: the user's own if set, else the game's
    /// defaults.
    pub fn get_game_config(&self) -> (r: GameConfig)
        ensures
            self.custom_config(self.spec_game()) matches Some(c) ==> r.spec_death_zone()
                == c.spec_death_zone() && r.spec_boss_zones() == c.spec_boss_zones(),
            self.custom_config(self.spec_game()) is None ==> (r.spec_death_zone(), r.spec_boss_zones())
                == default_zones(self.spec_game()),
    {
        let mut i: usize = 0;
        while i < self.custom_game_configs.len()
            invariant
                i <= self.custom_game_configs@.len(),
                forall|j: int| 0 <= j < i ==> self.custom_game_configs@[j].0 != self.game,
            decreases self.custom_game_configs@.len() - i,
        {
            if self.custom_game_configs[i].0 == self.game {
                proof {
                    let k = choose|k: int|
                        0 <= k < self.custom_game_configs@.len() && self.custom_game_configs@[k].0 == self.game
                            && forall|j: int| 0 <= j < k ==> self.custom_game_configs@[j].0 != self.game;
                    if k < i {
                    } else if k > i {
                        assert(self.custom_game_configs@[i as int].0 == self.game);
                    }
                }
                return self.custom_game_configs[i].1.duplicate();
            }
            i = i + 1;
        }
        Settings::default_game_config(&self.game)
    }

    /// The zones that a game has by default.
    pub fn default_game_config(game: &Game) -> (r: GameConfig)
        ensures
            (r.spec_death_zone(), r.spec_boss_zones()) == default_zones(*game),
    {
        match game {
            Game::EldenRing => GameConfig::elden_ring_default(),
        }
    }

    /// The zones the user set, one entry per game.
    pub closed spec fn spec_custom_configs(&self) -> Seq<(Game, GameConfig)> {
        self.custom_game_configs@
    }

    pub fn get_custom_game_configs(&self) -> (r: &Vec<(Game, GameConfig)>)
        ensures
            r@ == self.spec_custom_configs(),
    {
        &self.custom_game_configs
    }

    /// Sets the zones of `game` to the user's own, replacing an earlier
    /// entry for it where there is one.
    pub fn set_custom_game_config(&mut self, game: Game, config: GameConfig)
        ensures
            final(self).custom_config(game) == Some(config),
            old(self).custom_config(game) is Some ==> final(self).spec_custom_configs().len()
                == old(self).spec_custom_configs().len(),
            old(self).custom_config(game) is None ==> final(self).spec_custom_configs()
                == old(self).spec_custom_configs().push((game, config)),
            final(self).spec_game() == old(self).spec_game(),
            final(self).spec_screen() == old(self).spec_screen(),
            final(self).spec_language() == old(self).spec_language(),
            final(self).spec_death_text() == old(self).spec_death_text(),
    {
        let ghost v0 = self.custom_game_configs@;
        let mut i: usize = 0;
        while i < self.custom_game_configs.len()
            invariant
                self.custom_game_configs@ == v0,
                v0 == old(self).custom_game_configs@,
                self.game == old(self).game,
                self.screen == old(self).screen,
                self.language == old(self).language,
                self.death_text == old(self).death_text,
                i <= v0.len(),
                forall|j: int| 0 <= j < i ==> v0[j].0 != game,
            decreases v0.len() - i,
        {
            if self.custom_game_configs[i].0 == game {
                self.custom_game_configs.remove(i);
                self.custom_game_configs.insert(i, (game, config));
                proof {
                    let v = self.custom_game_configs@;
                    assert(v =~= v0.update(i as int, (game, config)));
                    let k = choose|k: int|
                        0 <= k < v.len() && v[k].0 == game && forall|j: int| 0 <= j < k ==> v[j].0 != game;
                    assert(0 <= i < v.len() && v[i as int].0 == game && forall|j: int|
                        0 <= j < i ==> v[j].0 != game);
                    if k < i {
                        assert(v0[k].0 != game);
                    } else if k > i {
                        assert(v[i as int].0 == game);
                    }
                    let k0 = choose|k: int|
                        0 <= k < v0.len() && v0[k].0 == game && forall|j: int| 0 <= j < k ==> v0[j].0 != game;
                    assert(v0[i as int].0 == game);
                }
                return;
            }
            i = i + 1;
        }
        self.custom_game_configs.push((game, config));
        proof {
            let v = self.custom_game_configs@;
            let n = v0.len() as int;
            assert(v[n].0 == game);
            let k = choose|k: int|
                0 <= k < v.len() && v[k].0 == game && forall|j: int| 0 <= j < k ==> v[j].0 != game;
            assert(0 <= n < v.len() && v[n].0 == game && forall|j: int| 0 <= j < n ==> v[j].0 != game);
            if k < n {
                assert(v0[k].0 != game);
            } else if k > n {
                assert(v[n].0 == game);
            }
        }
    }

    pub fn set_game(&mut self, game: Game)
        ensures
            final(self).spec_game() == game,
            final(self).spec_screen() == old(self).spec_screen(),
            final(self).spec_language() == old(self).spec_language(),
            final(self).spec_death_text() == old(self).spec_death_text(),
    {
        self.game = game;
    }

    pub fn get_game(&self) -> (r: Game)
        ensures
            r == self.spec_game(),
    {
        self.game
    }

    pub fn set_screen(&mut self, screen: i8)
        ensures
            final(self).spec_screen() == screen,
            final(self).spec_game() == old(self).spec_game(),
            final(self).spec_language() == old(self).spec_language(),
            final(self).spec_death_text() == old(self).spec_death_text(),
    {
        self.screen = screen;
    }

    pub fn get_screen(&self) -> (r: i8)
        ensures
            r == self.spec_screen(),
    {
        self.screen
    }

    pub fn get_language(&self) -> (r: &Language)
        ensures
            *r == self.spec_language(),
    {
        &self.language
    }

    pub fn set_language(&mut self, language: Language)
        ensures
            final(self).spec_language() == language,
            final(self).spec_game() == old(self).spec_game(),
            final(self).spec_screen() == old(self).spec_screen(),
            final(self).spec_death_text() == old(self).spec_death_text(),
    {
        self.language = language;
    }

    pub fn set_death_text(&mut self, death_text: String)
        ensures
            final(self).spec_death_text() == death_text@,
            final(self).spec_game() == old(self).spec_game(),
            final(self).spec_screen() == old(self).spec_screen(),
            final(self).spec_language() == old(self).spec_language(),
    {
        self.death_text = death_text;
    }

    pub fn get_death_text(&self) -> (r: &String)
        ensures
            r@ == self.spec_death_text(),
    {
        &self.death_text
    }
}

} // verus!
