use vstd::prelude::*;

use crate::enemy::{Enemy, EnemyView};
use crate::fp_vec::FpVec;
use crate::game_effects::{GameEffect, GameEffectView};
use crate::player::{
    plays_fits, spec_end_turn_effects, spec_plays, spec_power_added, spec_start_turn_effects,
    CardView, Player, PlayerCard, PlayerView,
};
use crate::{fits_i32, EffectTarget, EffectTrigger, EffectType, Enchantment, TriggerView};

verus! {

/// Where the match stands; the two winning states are terminal and carry the
/// turn on which they were reached.
#[derive(Debug, Clone, Copy, PartialEq, Eq, Structural)]
pub enum GameOutcome {
    Undecided,
    PlayerWins(u32),
    EnemyWins(u32),
}

/// The outcome a pair of actors has reached: the player's loss is checked
/// first, so a fold that fells both actors at once is an enemy win.
pub open spec fn spec_outcome(enemy: EnemyView, player: PlayerView, turn_number: u32) -> GameOutcome {
    if player.hit_points <= 0 {
        GameOutcome::EnemyWins(turn_number)
    } else if enemy.hit_points <= 0 {
        GameOutcome::PlayerWins(turn_number)
    } else {
        GameOutcome::Undecided
    }
}

/// One step of the fold: the effect's target selects which actor resolves the
/// trigger; the other passes through unchanged.
pub open spec fn spec_fold_step(
    enemy: EnemyView,
    player: PlayerView,
    effect: GameEffectView,
) -> (EnemyView, PlayerView) {
    match effect.target {
        EffectTarget::Player => (enemy, player.spec_trigger_effect(effect.effect, enemy)),
        EffectTarget::Enemy => (enemy.spec_trigger_effect(effect.effect, player), player),
    }
}

/// One fold step keeps the touched actor representable.
pub open spec fn fold_step_fits(
    enemy: EnemyView,
    player: PlayerView,
    effect: GameEffectView,
) -> bool {
    match effect.target {
        EffectTarget::Player => player.trigger_fits(effect.effect, enemy),
        EffectTarget::Enemy => enemy.trigger_fits(effect.effect, player),
    }
}

/// The strict left-to-right fold of an effect list over the actor pair: each
/// step observes the cumulative result of every step before it.
pub open spec fn spec_fold_effects(
    enemy: EnemyView,
    player: PlayerView,
    fx: Seq<GameEffectView>,
) -> (EnemyView, PlayerView)
    decreases fx.len(),
{
    if fx.len() == 0 {
        (enemy, player)
    } else {
        let next = spec_fold_step(enemy, player, fx[0]);
        spec_fold_effects(next.0, next.1, fx.skip(1))
    }
}

/// Every intermediate state of the fold stays representable.
pub open spec fn fold_fits(enemy: EnemyView, player: PlayerView, fx: Seq<GameEffectView>) -> bool
    decreases fx.len(),
{
    fx.len() == 0 || (fold_step_fits(enemy, player, fx[0]) && {
        let next = spec_fold_step(enemy, player, fx[0]);
        fold_fits(next.0, next.1, fx.skip(1))
    })
}

/// What one declared effect contributes to the two activated sets at game
/// start: an `Enchantment` payload under `Always`, or under a `Condition`
/// that holds right now, lands in the set of the actor the effect targets.
pub open spec fn spec_enchant_contribution(
    effect: GameEffectView,
    enemy: EnemyView,
    player: PlayerView,
) -> (Seq<Enchantment>, Seq<Enchantment>) {
    if effect.target is Enemy {
        match effect.effect {
            TriggerView::Always(EffectType::Enchantment(en)) => (seq![en], Seq::empty()),
            TriggerView::Condition(cond, EffectType::Enchantment(en)) => if cond.spec_check_enemy(
                enemy,
            ) {
                (seq![en], Seq::empty())
            } else {
                (Seq::empty(), Seq::empty())
            },
            _ => (Seq::empty(), Seq::empty()),
        }
    } else {
        match effect.effect {
            TriggerView::Always(EffectType::Enchantment(en)) => (Seq::empty(), seq![en]),
            TriggerView::Condition(cond, EffectType::Enchantment(en)) => if cond.spec_check_player(
                player.cards,
            ) {
                (Seq::empty(), seq![en])
            } else {
                (Seq::empty(), Seq::empty())
            },
            _ => (Seq::empty(), Seq::empty()),
        }
    }
}

/// The (enemy, player) activated sets one declared effect list yields.
pub open spec fn spec_check_enchantments(
    fx: Seq<GameEffectView>,
    enemy: EnemyView,
    player: PlayerView,
) -> (Seq<Enchantment>, Seq<Enchantment>)
    decreases fx.len(),
{
    if fx.len() == 0 {
        (Seq::empty(), Seq::empty())
    } else {
        let head = spec_enchant_contribution(fx[0], enemy, player);
        let rest = spec_check_enchantments(fx.skip(1), enemy, player);
        (head.0 + rest.0, head.1 + rest.1)
    }
}

/// The activated sets contributed by every card's possession effects, in hand
/// order.
pub open spec fn spec_cards_enchantments(
    cards: Seq<CardView>,
    enemy: EnemyView,
    player: PlayerView,
) -> (Seq<Enchantment>, Seq<Enchantment>)
    decreases cards.len(),
{
    if cards.len() == 0 {
        (Seq::empty(), Seq::empty())
    } else {
        let head = spec_check_enchantments(cards[0].game_start_effects, enemy, player);
        let rest = spec_cards_enchantments(cards.skip(1), enemy, player);
        (head.0 + rest.0, head.1 + rest.1)
    }
}

/// The snapshot `Game::start` produces: the one-time enchantment activation,
/// turn one, outcome open.
pub open spec fn spec_start(enemy: EnemyView, player: PlayerView) -> GameView {
    let from_enemy = spec_check_enchantments(enemy.enchantments, enemy, player);
    let from_cards = spec_cards_enchantments(player.cards, enemy, player);
    GameView {
        enemy: EnemyView {
            current_activated_effects: from_enemy.0 + from_cards.0,
            ..enemy
        },
        player: PlayerView {
            current_activated_effects: from_enemy.1 + from_cards.1,
            ..player
        },
        turn_number: 1,
        game_result: GameOutcome::Undecided,
    }
}

/// This turn's power pool: the carried reserve, the fixed grant of three, and
/// whatever the activated enchantments add.
pub open spec fn spec_power_pool(player: PlayerView) -> int {
    player.power_reserve + 3 + spec_power_added(player.current_activated_effects)
}

/// The ordered effect list one player turn folds: start-of-turn effects, the
/// accepted plays' effects, then end-of-turn effects.
pub open spec fn spec_player_turn_effects(g: GameView, cards: Seq<CardView>) -> Seq<GameEffectView> {
    let pool = spec_power_pool(g.player);
    let p1 = PlayerView { power_reserve: pool, ..g.player };
    spec_start_turn_effects(p1.cards) + spec_plays(p1, g.enemy, cards, pool).0
        + spec_end_turn_effects(p1.current_activated_effects)
}

/// One player turn.  On a decided game it is a no-op; otherwise the pool is
/// granted into the reserve, the requested cards are resolved left to right,
/// the turn's effect list is folded, and the outcome is recomputed.
pub open spec fn spec_take_player_turn(g: GameView, cards: Seq<CardView>) -> GameView {
    if !(g.game_result is Undecided) {
        g
    } else {
        let pool = spec_power_pool(g.player);
        let p1 = PlayerView { power_reserve: pool, ..g.player };
        let folded = spec_fold_effects(g.enemy, p1, spec_player_turn_effects(g, cards));
        GameView {
            enemy: folded.0,
            player: folded.1,
            turn_number: g.turn_number,
            game_result: spec_outcome(folded.0, folded.1, g.turn_number),
        }
    }
}

/// Every value a player turn stores stays representable.
pub open spec fn player_turn_fits(g: GameView, cards: Seq<CardView>) -> bool {
    g.game_result is Undecided ==> {
        let pool = spec_power_pool(g.player);
        let p1 = PlayerView { power_reserve: pool, ..g.player };
        fits_i32(pool) && plays_fits(p1, g.enemy, cards, pool) && fold_fits(
            g.enemy,
            p1,
            spec_player_turn_effects(g, cards),
        )
    }
}

/// One enemy turn.  On a decided game it is a no-op; otherwise the one-shot
/// queue is folded first, the attack phase runs unless the skip flag is set,
/// the outcome is recomputed, the turn number advances, and the skip flag and
/// the one-shot queue are cleared whatever branch was taken.
pub open spec fn spec_take_enemy_turn(g: GameView) -> GameView {
    if !(g.game_result is Undecided) {
        g
    } else {
        let t = spec_fold_effects(g.enemy, g.player, g.enemy.temp_start_turn_effects);
        let a = if !t.0.skip_next_turn {
            spec_fold_effects(t.0, t.1, t.0.start_turn_effects + t.0.end_turn_effects)
        } else {
            t
        };
        GameView {
            enemy: EnemyView {
                skip_next_turn: false,
                temp_start_turn_effects: Seq::empty(),
                ..a.0
            },
            player: a.1,
            turn_number: (g.turn_number + 1) as u32,
            game_result: spec_outcome(a.0, a.1, g.turn_number),
        }
    }
}

/// Every value an enemy turn stores stays representable, and the turn counter
/// can advance.
pub open spec fn enemy_turn_fits(g: GameView) -> bool {
    g.game_result is Undecided ==> {
        let t = spec_fold_effects(g.enemy, g.player, g.enemy.temp_start_turn_effects);
        fold_fits(g.enemy, g.player, g.enemy.temp_start_turn_effects) && (!t.0.skip_next_turn
            ==> fold_fits(t.0, t.1, t.0.start_turn_effects + t.0.end_turn_effects))
            && g.turn_number < u32::MAX
    }
}

/// The mathematical shape of a `Game`.
pub ghost struct GameView {
    pub enemy: EnemyView,
    pub player: PlayerView,
    pub turn_number: u32,
    pub game_result: GameOutcome,
}

/// One snapshot of the match.
#[derive(Debug)]
pub struct Game {
    pub enemy: Enemy,
    pub player: Player,
    pub turn_number: u32,
    pub game_result: GameOutcome,
}

impl View for Game {
    type V = GameView;

    open spec fn view(&self) -> GameView {
        GameView {
            enemy: self.enemy@,
            player: self.player@,
            turn_number: self.turn_number,
            game_result: self.game_result,
        }
    }
}

/// The strict left-to-right fold of an effect list over the actor pair.
fn fold_effect_list(enemy: Enemy, player: Player, effects: &FpVec<GameEffect>) -> (r: (Enemy, Player))
    requires
        fold_fits(enemy@, player@, effects.deep_view()),
    ensures
        r.0@ == spec_fold_effects(enemy@, player@, effects.deep_view()).0,
        r.1@ == spec_fold_effects(enemy@, player@, effects.deep_view()).1,
{
    let ghost e0 = enemy@;
    let ghost p0 = player@;
    let ghost fx = effects.deep_view();
    let mut enemy = enemy;
    let mut player = player;
    let mut i: usize = 0;
    proof {
        assert(fx.skip(0) =~= fx);
    }
    while i < effects.inner.len()
        invariant
            0 <= i <= effects.inner.len(),
            fx == effects.deep_view(),
            spec_fold_effects(enemy@, player@, fx.skip(i as int)) == spec_fold_effects(e0, p0, fx),
            fold_fits(enemy@, player@, fx.skip(i as int)),
        decreases effects.inner.len() - i,
    {
        proof {
            assert(fx.skip(i as int).skip(1) =~= fx.skip(i as int + 1));
            assert(fx.skip(i as int)[0] == fx[i as int]);
            assert(fx[i as int] == effects.inner[i as int]@);
        }
        let eff = &effects.inner[i];
        let trigger = eff.effect.clone();
        match eff.target {
            EffectTarget::Player => {
                player = player.trigger_effect(trigger, &enemy);
            },
            EffectTarget::Enemy => {
                enemy = enemy.trigger_effect(trigger, &player);
            },
        }
        i = i + 1;
    }
    proof {
        assert(fx.skip(effects.inner.len() as int) =~= Seq::<GameEffectView>::empty());
    }
    (enemy, player)
}

impl Game {
    /// The outcome the given pair of actors has reached on the given turn.
    pub fn check_game_result(enemy: &Enemy, player: &Player, turn_number: u32) -> (r: GameOutcome)
        ensures
            r == spec_outcome(enemy@, player@, turn_number),
    {
        if player.hit_points <= 0 {
            GameOutcome::EnemyWins(turn_number)
        } else if enemy.hit_points <= 0 {
            GameOutcome::PlayerWins(turn_number)
        } else {
            GameOutcome::Undecided
        }
    }

    /// The two activated sets one declared effect list yields right now: the
    /// first for the enemy, the second for the player.
    pub fn check_enchantments(
        enchantments: &FpVec<GameEffect>,
        enemy: &Enemy,
        player: &Player,
    ) -> (r: (FpVec<Enchantment>, FpVec<Enchantment>))
        ensures
            r.0@ == spec_check_enchantments(enchantments.deep_view(), enemy@, player@).0,
            r.1@ == spec_check_enchantments(enchantments.deep_view(), enemy@, player@).1,
    {
        let ghost fx = enchantments.deep_view();
        let mut for_enemy: Vec<Enchantment> = Vec::new();
        let mut for_player: Vec<Enchantment> = Vec::new();
        let mut i: usize = 0;
        proof {
            assert(fx.skip(0) =~= fx);
            assert(for_enemy@ + spec_check_enchantments(fx, enemy@, player@).0
                =~= spec_check_enchantments(fx, enemy@, player@).0);
            assert(for_player@ + spec_check_enchantments(fx, enemy@, player@).1
                =~= spec_check_enchantments(fx, enemy@, player@).1);
        }
        while i < enchantments.inner.len()
            invariant
                0 <= i <= enchantments.inner.len(),
                fx == enchantments.deep_view(),
                for_enemy@ + spec_check_enchantments(fx.skip(i as int), enemy@, player@).0
                    == spec_check_enchantments(fx, enemy@, player@).0,
                for_player@ + spec_check_enchantments(fx.skip(i as int), enemy@, player@).1
                    == spec_check_enchantments(fx, enemy@, player@).1,
            decreases enchantments.inner.len() - i,
        {
            proof {
                assert(fx.skip(i as int).skip(1) =~= fx.skip(i as int + 1));
                assert(fx.skip(i as int)[0] == fx[i as int]);
                assert(fx[i as int] == enchantments.inner[i as int]@);
            }
            let ghost ev0 = for_enemy@;
            let ghost pv0 = for_player@;
            let ghost head = spec_enchant_contribution(fx[i as int], enemy@, player@);
            let eff = &enchantments.inner[i];
            if eff.target.is_enemy() {
                match &eff.effect {
                    EffectTrigger::Always(EffectType::Enchantment(en)) => {
                        for_enemy.push(*en);
                    },
                    EffectTrigger::Condition(cond, EffectType::Enchantment(en)) => {
                        if cond.check_enemy(enemy) {
                            for_enemy.push(*en);
                        }
                    },
                    _ => {},
                }
            } else {
                match &eff.effect {
                    EffectTrigger::Always(EffectType::Enchantment(en)) => {
                        for_player.push(*en);
                    },
                    EffectTrigger::Condition(cond, EffectType::Enchantment(en)) => {
                        if cond.check_player(player) {
                            for_player.push(*en);
                        }
                    },
                    _ => {},
                }
            }
            proof {
                assert(for_enemy@ =~= ev0 + head.0);
                assert(for_player@ =~= pv0 + head.1);
                assert(for_enemy@ + spec_check_enchantments(fx.skip(i as int + 1), enemy@, player@).0
                    =~= ev0 + (head.0 + spec_check_enchantments(
                    fx.skip(i as int + 1),
                    enemy@,
                    player@,
                ).0));
                assert(for_player@ + spec_check_enchantments(fx.skip(i as int + 1), enemy@, player@).1
                    =~= pv0 + (head.1 + spec_check_enchantments(
                    fx.skip(i as int + 1),
                    enemy@,
                    player@,
                ).1));
            }
            i = i + 1;
        }
        proof {
            assert(fx.skip(enchantments.inner.len() as int) =~= Seq::<GameEffectView>::empty());
            assert(for_enemy@ + spec_check_enchantments(
                Seq::<GameEffectView>::empty(),
                enemy@,
                player@,
            ).0 =~= for_enemy@);
            assert(for_player@ + spec_check_enchantments(
                Seq::<GameEffectView>::empty(),
                enemy@,
                player@,
            ).1 =~= for_player@);
        }
        (FpVec::from_vec(for_enemy), FpVec::from_vec(for_player))
    }

    /// Game start: the one-time enchantment activation.  Every enemy-declared
    /// global effect and every card's possession effects are scanned once,
    /// against the starting hand, and the kept payloads become the two
    /// immutable activated sets.
    pub fn start(enemy: Enemy, player: Player) -> (r: Self)
        ensures
            r@ == spec_start(enemy@, player@),
    {
        let ghost ev = enemy@;
        let ghost pv = player@;
        let ghost cards_v = player@.cards;
        let (from_enemy_e, from_enemy_p) = Self::check_enchantments(
            &enemy.enchantments,
            &enemy,
            &player,
        );
        let mut cards_e: Vec<Enchantment> = Vec::new();
        let mut cards_p: Vec<Enchantment> = Vec::new();
        let mut i: usize = 0;
        proof {
            assert(cards_v.skip(0) =~= cards_v);
            assert(cards_e@ + spec_cards_enchantments(cards_v, ev, pv).0
                =~= spec_cards_enchantments(cards_v, ev, pv).0);
            assert(cards_p@ + spec_cards_enchantments(cards_v, ev, pv).1
                =~= spec_cards_enchantments(cards_v, ev, pv).1);
        }
        while i < player.cards.inner.len()
            invariant
                0 <= i <= player.cards.inner.len(),
                ev == enemy@,
                pv == player@,
                cards_v == player@.cards,
                cards_e@ + spec_cards_enchantments(cards_v.skip(i as int), ev, pv).0
                    == spec_cards_enchantments(cards_v, ev, pv).0,
                cards_p@ + spec_cards_enchantments(cards_v.skip(i as int), ev, pv).1
                    == spec_cards_enchantments(cards_v, ev, pv).1,
            decreases player.cards.inner.len() - i,
        {
            proof {
                assert(cards_v.skip(i as int).skip(1) =~= cards_v.skip(i as int + 1));
                assert(cards_v.skip(i as int)[0] == cards_v[i as int]);
                assert(cards_v[i as int] == player.cards.inner[i as int]@);
            }
            let ghost ev0 = cards_e@;
            let ghost pv0 = cards_p@;
            let ghost head = spec_check_enchantments(
                cards_v[i as int].game_start_effects,
                ev,
                pv,
            );
            let (e_vec, p_vec) = Self::check_enchantments(
                &player.cards.inner[i].game_start_effects,
                &enemy,
                &player,
            );
            let mut e_inner = e_vec.inner;
            let mut p_inner = p_vec.inner;
            cards_e.append(&mut e_inner);
            cards_p.append(&mut p_inner);
            proof {
                assert(cards_e@ =~= ev0 + head.0);
                assert(cards_p@ =~= pv0 + head.1);
                assert(cards_e@ + spec_cards_enchantments(cards_v.skip(i as int + 1), ev, pv).0
                    =~= ev0 + (head.0 + spec_cards_enchantments(
                    cards_v.skip(i as int + 1),
                    ev,
                    pv,
                ).0));
                assert(cards_p@ + spec_cards_enchantments(cards_v.skip(i as int + 1), ev, pv).1
                    =~= pv0 + (head.1 + spec_cards_enchantments(
                    cards_v.skip(i as int + 1),
                    ev,
                    pv,
                ).1));
            }
            i = i + 1;
        }
        proof {
            assert(cards_v.skip(player.cards.inner.len() as int) =~= Seq::<CardView>::empty());
            assert(cards_e@ + spec_cards_enchantments(Seq::<CardView>::empty(), ev, pv).0
                =~= cards_e@);
            assert(cards_p@ + spec_cards_enchantments(Seq::<CardView>::empty(), ev, pv).1
                =~= cards_p@);
        }
        let enemy_set = from_enemy_e.extend(FpVec::from_vec(cards_e));
        let player_set = from_enemy_p.extend(FpVec::from_vec(cards_p));
        let r = Game {
            enemy: Enemy { current_activated_effects: enemy_set, ..enemy },
            player: Player { current_activated_effects: player_set, ..player },
            turn_number: 1,
            game_result: GameOutcome::Undecided,
        };
        proof {
            assert(r@.enemy =~= spec_start(ev, pv).enemy);
            assert(r@.player =~= spec_start(ev, pv).player);
        }
        r
    }

    /// One player turn: grant the pool, resolve the requested cards left to
    /// right, fold the turn's effects, recompute the outcome.  A decided game
    /// is left untouched.
    pub fn take_player_turn(self, card_play_list: FpVec<PlayerCard>) -> (r: Self)
        requires
            player_turn_fits(self@, card_play_list.deep_view()),
        ensures
            r@ == spec_take_player_turn(self@, card_play_list.deep_view()),
    {
        let ghost g0 = self@;
        let ghost cards_v = card_play_list.deep_view();
        let undecided = match self.game_result {
            GameOutcome::Undecided => true,
            _ => false,
        };
        if !undecided {
            return self;
        }
        let Game { enemy, mut player, turn_number, game_result: _ } = self;
        let added: i128 = player.power_added();
        let pool: i128 = player.power_reserve as i128 + 3 + added;
        player.power_reserve = pool as i32;
        let ghost p1 = PlayerView { power_reserve: pool as int, ..g0.player };
        proof {
            assert(player@ == p1);
        }
        let mut effects = player.start_turn();
        let ghost all_plays = spec_plays(p1, g0.enemy, cards_v, pool as int);
        let mut avail: i128 = pool;
        let mut i: usize = 0;
        proof {
            assert(cards_v.skip(0) =~= cards_v);
            assert(effects.deep_view() + spec_plays(p1, g0.enemy, cards_v, pool as int).0
                =~= spec_start_turn_effects(p1.cards) + all_plays.0);
        }
        while i < card_play_list.inner.len()
            invariant
                0 <= i <= card_play_list.inner.len(),
                cards_v == card_play_list.deep_view(),
                player@ == p1,
                enemy@ == g0.enemy,
                effects.deep_view() + spec_plays(p1, g0.enemy, cards_v.skip(i as int), avail as int).0
                    == spec_start_turn_effects(p1.cards) + all_plays.0,
                spec_plays(p1, g0.enemy, cards_v.skip(i as int), avail as int).1 == all_plays.1,
                plays_fits(p1, g0.enemy, cards_v.skip(i as int), avail as int),
                -0x80000000 - (i as int) * 0x80000000 <= avail <= 0x80000000 + (i as int)
                    * 0x80000000,
            decreases card_play_list.inner.len() - i,
        {
            proof {
                assert(cards_v.skip(i as int).skip(1) =~= cards_v.skip(i as int + 1));
                assert(cards_v.skip(i as int)[0] == cards_v[i as int]);
                assert(cards_v[i as int] == card_play_list.inner[i as int]@);
            }
            let ghost fx0 = effects.deep_view();
            let ghost step = p1.spec_play_card(g0.enemy, cards_v[i as int], avail as int);
            let card = card_play_list.inner[i].clone();
            let played = player.play_card_resolved(&enemy, card, avail);
            effects = effects.extend(played.0);
            proof {
                assert(effects.deep_view() =~= fx0 + step.0);
                assert(effects.deep_view() + spec_plays(
                    p1,
                    g0.enemy,
                    cards_v.skip(i as int + 1),
                    avail as int - step.1,
                ).0 =~= fx0 + (step.0 + spec_plays(
                    p1,
                    g0.enemy,
                    cards_v.skip(i as int + 1),
                    avail as int - step.1,
                ).0));
            }
            avail = avail - played.1 as i128;
            i = i + 1;
        }
        proof {
            assert(cards_v.skip(card_play_list.inner.len() as int) =~= Seq::<CardView>::empty());
            assert(effects.deep_view() + spec_plays(
                p1,
                g0.enemy,
                Seq::<CardView>::empty(),
                avail as int,
            ).0 =~= effects.deep_view());
        }
        let end_fx = player.end_turn();
        let ghost fx1 = effects.deep_view();
        let effects = effects.extend(end_fx);
        proof {
            assert(effects.deep_view() =~= fx1 + spec_end_turn_effects(
                p1.current_activated_effects,
            ));
            assert(effects.deep_view() =~= spec_player_turn_effects(g0, cards_v));
        }
        let folded = fold_effect_list(enemy, player, &effects);
        let enemy = folded.0;
        let player = folded.1;
        let game_result = Self::check_game_result(&enemy, &player, turn_number);
        Game { enemy, player, turn_number, game_result }
    }

    /// One enemy turn: drain the one-shot queue, run the attack phase unless
    /// the skip flag is set, recompute the outcome, advance the turn counter,
    /// and clear the flag and the queue whatever happened.  A decided game is
    /// left untouched.
    pub fn take_enemy_turn(self) -> (r: Self)
        requires
            enemy_turn_fits(self@),
        ensures
            r@ == spec_take_enemy_turn(self@),
    {
        let ghost g0 = self@;
        let undecided = match self.game_result {
            GameOutcome::Undecided => true,
            _ => false,
        };
        if !undecided {
            return self;
        }
        let Game { enemy, player, turn_number, game_result: _ } = self;
        let temp = enemy.temp_start_turn_effects.clone();
        let folded = fold_effect_list(enemy, player, &temp);
        let mut enemy = folded.0;
        let mut player = folded.1;
        if !enemy.skip_next_turn {
            let fx = enemy.start_turn(&player).extend(enemy.end_turn(&player));
            let ghost t = spec_fold_effects(g0.enemy, g0.player, g0.enemy.temp_start_turn_effects);
            proof {
                assert(fx.deep_view() =~= t.0.start_turn_effects + t.0.end_turn_effects);
            }
            let folded2 = fold_effect_list(enemy, player, &fx);
            enemy = folded2.0;
            player = folded2.1;
        }
        let game_result = Self::check_game_result(&enemy, &player, turn_number);
        enemy.skip_next_turn = false;
        enemy.temp_start_turn_effects = FpVec::new();
        let r = Game { enemy, player, turn_number: turn_number + 1, game_result };
        proof {
            assert(r@.enemy.temp_start_turn_effects =~= Seq::<GameEffectView>::empty());
            assert(r@.enemy =~= spec_take_enemy_turn(g0).enemy);
        }
        r
    }
}

/// A fold that leaves both actors at or below zero hit points resolves to an
/// enemy win: the player-loss check precedes the enemy-loss check.
pub proof fn lemma_simultaneous_ko_favors_enemy(enemy: EnemyView, player: PlayerView, turn: u32)
    requires
        player.hit_points <= 0,
        enemy.hit_points <= 0,
    ensures
        spec_outcome(enemy, player, turn) == GameOutcome::EnemyWins(turn),
{
}

/// No effect an effect list can carry touches an activated set: the fold
/// leaves both actors' activated enchantments exactly as they were.
pub proof fn lemma_fold_preserves_activated_sets(
    enemy: EnemyView,
    player: PlayerView,
    fx: Seq<GameEffectView>,
)
    ensures
        spec_fold_effects(enemy, player, fx).0.current_activated_effects
            == enemy.current_activated_effects,
        spec_fold_effects(enemy, player, fx).1.current_activated_effects
            == player.current_activated_effects,
    decreases fx.len(),
{
    if fx.len() == 0 {
    } else {
        let next = spec_fold_step(enemy, player, fx[0]);
        lemma_fold_preserves_activated_sets(next.0, next.1, fx.skip(1));
    }
}

/// The activated enchantments are fixed at game start: neither turn operation
/// changes either actor's activated set, whatever cards are offered and
/// however the turn unfolds.
pub proof fn lemma_turns_preserve_activated_sets(g: GameView, cards: Seq<CardView>)
    ensures
        spec_take_player_turn(g, cards).player.current_activated_effects
            == g.player.current_activated_effects,
        spec_take_player_turn(g, cards).enemy.current_activated_effects
            == g.enemy.current_activated_effects,
        spec_take_enemy_turn(g).player.current_activated_effects
            == g.player.current_activated_effects,
        spec_take_enemy_turn(g).enemy.current_activated_effects
            == g.enemy.current_activated_effects,
{
    if g.game_result is Undecided {
        let pool = spec_power_pool(g.player);
        let p1 = PlayerView { power_reserve: pool, ..g.player };
        lemma_fold_preserves_activated_sets(g.enemy, p1, spec_player_turn_effects(g, cards));
        let t = spec_fold_effects(g.enemy, g.player, g.enemy.temp_start_turn_effects);
        lemma_fold_preserves_activated_sets(g.enemy, g.player, g.enemy.temp_start_turn_effects);
        if !t.0.skip_next_turn {
            lemma_fold_preserves_activated_sets(
                t.0,
                t.1,
                t.0.start_turn_effects + t.0.end_turn_effects,
            );
        }
    }
}

/// However an undecided enemy turn unfolds, it ends with the skip flag
/// lowered and the one-shot queue empty.
pub proof fn lemma_enemy_turn_clears_skip_state(g: GameView)
    requires
        g.game_result is Undecided,
    ensures
        !spec_take_enemy_turn(g).enemy.skip_next_turn,
        spec_take_enemy_turn(g).enemy.temp_start_turn_effects == Seq::<GameEffectView>::empty(),
{
}

} // verus!
