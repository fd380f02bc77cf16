use card_game_simulator::enemy::Enemy;
use card_game_simulator::fp_vec::FpVec;
use card_game_simulator::game::{Game, GameOutcome};
use card_game_simulator::game_effects::{CardEffects, Enchantments, OnCardPlayEffects};
use card_game_simulator::player::{Player, PlayerCard, SpecialCards};
use card_game_simulator::{
    DamageAdjustment, DefenseProps, EffectCondition, EffectTrigger, EffectType, ElementType,
    Enchantment,
};

fn all_normal() -> DefenseProps {
    DefenseProps {
        wind: DamageAdjustment::Normal,
        water: DamageAdjustment::Normal,
        land: DamageAdjustment::Normal,
        any: DamageAdjustment::Normal,
    }
}

fn wind_card(name: &str, amount: i32) -> PlayerCard {
    PlayerCard::new(name, "deals wind damage", ElementType::Wind)
        .play_card_effect(CardEffects::do_element_damage(ElementType::Wind, amount))
}

#[test]
fn defense_min_picks_protective_slot() {
    // any: Normal gives 10, wind: Percent(0) gives 0; the minimum, 0, lands.
    let props = DefenseProps {
        wind: DamageAdjustment::Percent(0),
        water: DamageAdjustment::Normal,
        land: DamageAdjustment::Normal,
        any: DamageAdjustment::Normal,
    };
    let enemy = Enemy::new("Gale", 10, props, 0);
    let player = Player::new(20, FpVec::new());
    let trigger = EffectTrigger::Always(EffectType::Damage(
        card_game_simulator::Damage { element_type: ElementType::Wind, amount: 10 },
    ));
    let enemy = enemy.trigger_effect(trigger, &player);
    assert_eq!(enemy.hit_points, 10);
}

#[test]
fn defense_min_ignores_worse_any_slot() {
    // any: Absolute(-1) gives 6, land: Normal gives 5; the minimum, 5, lands.
    let props = DefenseProps {
        wind: DamageAdjustment::Normal,
        water: DamageAdjustment::Normal,
        land: DamageAdjustment::Normal,
        any: DamageAdjustment::Absolute(-1),
    };
    let enemy = Enemy::new("Crag", 10, props, 0);
    let player = Player::new(20, FpVec::new());
    let trigger = EffectTrigger::Always(EffectType::Damage(
        card_game_simulator::Damage { element_type: ElementType::Land, amount: 5 },
    ));
    let enemy = enemy.trigger_effect(trigger, &player);
    assert_eq!(enemy.hit_points, 5);
}

#[test]
fn defense_worse_any_slot_amplifies_elementless_damage() {
    // For NoElement the element branch is the raw amount, 5; any: Absolute(-1)
    // gives 6; the minimum is the raw 5.
    let props = DefenseProps {
        wind: DamageAdjustment::Normal,
        water: DamageAdjustment::Normal,
        land: DamageAdjustment::Normal,
        any: DamageAdjustment::Absolute(-1),
    };
    let enemy = Enemy::new("Crag", 10, props, 0);
    let player = Player::new(20, FpVec::new());
    let trigger = EffectTrigger::Always(EffectType::Damage(card_game_simulator::Damage::raw(5)));
    let enemy = enemy.trigger_effect(trigger, &player);
    assert_eq!(enemy.hit_points, 5);
}

#[test]
fn cost_adjust_floors_at_one() {
    let enemy = Enemy::new("Dummy", 10, all_normal(), 0);
    let mut player = Player::new(20, FpVec::new());
    player.current_activated_effects = FpVec::from_vec(vec![
        Enchantment::SpellCostAdjust(ElementType::Water, -5),
    ]);
    let card = PlayerCard::new("Splash", "a water spell", ElementType::Water)
        .power_cost(3)
        .play_card_effect(CardEffects::do_element_damage(ElementType::Water, 2));
    let (effects, spent) = player.player_play_card(&enemy, card, 10);
    assert_eq!(spent, 1);
    assert!(spent > 0);
    // The first emitted effect charges exactly the adjusted cost.
    match &effects.inner[0].effect {
        EffectTrigger::Always(EffectType::PowerAdjust(amount)) => assert_eq!(*amount, -1),
        other => panic!("unexpected first effect: {:?}", other),
    }
}

#[test]
fn wildcard_cost_adjust_applies_to_every_element() {
    let enemy = Enemy::new("Dummy", 10, all_normal(), 0);
    let mut player = Player::new(20, FpVec::new());
    player.current_activated_effects = FpVec::from_vec(vec![
        Enchantment::SpellCostAdjust(ElementType::NoElement, 2),
    ]);
    let card = wind_card("Gust", 3).power_cost(1);
    let (_, spent) = player.player_play_card(&enemy, card, 10);
    assert_eq!(spent, 3);
}

#[test]
fn condition_false_leaves_player_untouched() {
    let enemy = Enemy::new("Dummy", 10, all_normal(), 0);
    let player = Player::new(20, FpVec::new());
    let trigger = EffectTrigger::Condition(
        EffectCondition::PlayerHasCardWithElement(ElementType::Wind),
        EffectType::LifeAdjust(-5),
    );
    let player = player.trigger_effect(trigger, &enemy);
    assert_eq!(player.hit_points, 20);
    assert_eq!(player.power_reserve, 0);
    assert_eq!(player.cards.inner.len(), 0);
    assert_eq!(player.current_activated_effects.inner.len(), 0);
}

#[test]
fn condition_true_applies_effect() {
    let enemy = Enemy::new("Dummy", 10, all_normal(), 0);
    let player = Player::new(20, FpVec::from_vec(vec![wind_card("Gust", 3)]));
    let trigger = EffectTrigger::Condition(
        EffectCondition::PlayerHasCardWithElement(ElementType::Wind),
        EffectType::LifeAdjust(-5),
    );
    let player = player.trigger_effect(trigger, &enemy);
    assert_eq!(player.hit_points, 15);
}

#[test]
fn enemy_condition_hook_accepts_everything() {
    // The enemy-side predicate is a deliberate always-true extension point.
    let enemy = Enemy::new("Dummy", 10, all_normal(), 0);
    assert!(EffectCondition::PlayerHasCardWithElement(ElementType::Wind).check_enemy(&enemy));
    assert!(EffectCondition::PlayerHasNoCardWithElement(ElementType::Land).check_enemy(&enemy));
    assert!(EffectCondition::PlayerPlaysCardWithElement(ElementType::Water).check_enemy(&enemy));
}

#[test]
fn one_full_round() {
    // Player 20 HP with one always-playable wind card dealing 3; enemy 10 HP,
    // all-Normal defenses, end-of-turn attack 3.  After one player turn and
    // one enemy turn: enemy 7 HP, player 17 HP, turn 2, still undecided.
    let player = Player::new(20, FpVec::from_vec(vec![wind_card("Gust", 3)]));
    let enemy = Enemy::new("Storm", 10, all_normal(), 3);
    let game = Game::start(enemy, player);
    let chosen = game.player.cards.inner[0].clone();
    let game = game.take_player_turn(FpVec::from_vec(vec![chosen]));
    assert_eq!(game.enemy.hit_points, 7);
    assert_eq!(game.game_result, GameOutcome::Undecided);
    let game = game.take_enemy_turn();
    assert_eq!(game.player.hit_points, 17);
    assert_eq!(game.enemy.hit_points, 7);
    assert_eq!(game.turn_number, 2);
    assert_eq!(game.game_result, GameOutcome::Undecided);
}

#[test]
fn simultaneous_ko_is_an_enemy_win() {
    // Playing the card fells the enemy, and the enemy's counter-effect fells
    // the player in the same fold; the player-loss check comes first.
    let enemy = Enemy::new("Spiky", 2, all_normal(), 1)
        .player_play_card_effect(OnCardPlayEffects::take_damage_on_play_elem(
            ElementType::Wind,
            5,
        ));
    let player = Player::new(1, FpVec::from_vec(vec![wind_card("Gust", 5)]));
    let game = Game::start(enemy, player);
    let chosen = game.player.cards.inner[0].clone();
    let game = game.take_player_turn(FpVec::from_vec(vec![chosen]));
    assert!(game.player.hit_points <= 0);
    assert!(game.enemy.hit_points <= 0);
    assert_eq!(game.game_result, GameOutcome::EnemyWins(1));
}

#[test]
fn discard_keeps_activated_enchantment() {
    // The possession enchantment is activated at game start; discarding the
    // card that declared it does not remove it from the activated set.
    let card = PlayerCard::new("Charm", "a protective charm", ElementType::Water)
        .game_start_effect(Enchantments::player_shield_from_elem(2))
        .play_card_effect(OnCardPlayEffects::discard_this_card());
    let player = Player::new(20, FpVec::from_vec(vec![card]));
    let enemy = Enemy::new("Dummy", 10, all_normal(), 0);
    let game = Game::start(enemy, player);
    assert_eq!(
        game.player.current_activated_effects.inner,
        vec![Enchantment::ShieldDamage(2)]
    );
    let chosen = game.player.cards.inner[0].clone();
    let game = game.take_player_turn(FpVec::from_vec(vec![chosen]));
    assert_eq!(game.player.cards.inner.len(), 0);
    assert_eq!(
        game.player.current_activated_effects.inner,
        vec![Enchantment::ShieldDamage(2)]
    );
}

#[test]
fn shields_clamp_each_subtraction_at_zero() {
    let enemy = Enemy::new("Dummy", 10, all_normal(), 0);
    let mut player = Player::new(20, FpVec::new());
    player.current_activated_effects = FpVec::from_vec(vec![
        Enchantment::ShieldDamage(5),
        Enchantment::ShieldDamage(-2),
    ]);
    // 3 damage: the first shield absorbs it all (clamped at 0), the second,
    // negative shield then adds 2 back; shields cannot heal.
    let trigger = EffectTrigger::Always(EffectType::Damage(card_game_simulator::Damage::raw(3)));
    let player = player.trigger_effect(trigger, &enemy);
    assert_eq!(player.hit_points, 18);
}

#[test]
fn forbidden_element_is_a_silent_no_op() {
    let enemy = Enemy::new("Dummy", 10, all_normal(), 0);
    let mut player = Player::new(20, FpVec::new());
    player.current_activated_effects = FpVec::from_vec(vec![
        Enchantment::SpellElementForbidden(ElementType::Wind),
    ]);
    let card = wind_card("Gust", 3);
    let (effects, spent) = player.player_play_card(&enemy, card, 10);
    assert_eq!(effects.inner.len(), 0);
    assert_eq!(spent, 0);
}

#[test]
fn unaffordable_card_is_skipped_without_error() {
    let player = Player::new(20, FpVec::from_vec(vec![wind_card("Gust", 3).power_cost(9)]));
    let enemy = Enemy::new("Dummy", 10, all_normal(), 0);
    let game = Game::start(enemy, player);
    let chosen = game.player.cards.inner[0].clone();
    // The pool is 0 + 3 + 0 = 3, the card costs 9: nothing happens.
    let game = game.take_player_turn(FpVec::from_vec(vec![chosen]));
    assert_eq!(game.enemy.hit_points, 10);
    assert_eq!(game.player.power_reserve, 3);
    assert_eq!(game.player.cards.inner.len(), 1);
}

#[test]
fn power_pool_grant_spend_and_carry() {
    let mut player = Player::new(20, FpVec::from_vec(vec![wind_card("Gust", 3).power_cost(4)]));
    player.current_activated_effects = FpVec::from_vec(vec![Enchantment::PowerAddPerTurn(2)]);
    let enemy = Enemy::new("Dummy", 10, all_normal(), 0);
    let mut game = Game { enemy, player, turn_number: 1, game_result: GameOutcome::Undecided };
    // Pool = 0 + 3 + 2 = 5; the card costs 4; 1 is left in reserve.
    let chosen = game.player.cards.inner[0].clone();
    game = game.take_player_turn(FpVec::from_vec(vec![chosen]));
    assert_eq!(game.enemy.hit_points, 7);
    assert_eq!(game.player.power_reserve, 1);
    // Next turn the pool carries the reserve: 1 + 3 + 2 = 6.
    let chosen = game.player.cards.inner[0].clone();
    game = game.take_player_turn(FpVec::from_vec(vec![chosen]));
    assert_eq!(game.enemy.hit_points, 4);
    assert_eq!(game.player.power_reserve, 2);
}

#[test]
fn spell_damage_adjust_appends_a_rider() {
    let enemy = Enemy::new("Dummy", 10, all_normal(), 0);
    let mut player = Player::new(20, FpVec::new());
    player.current_activated_effects = FpVec::from_vec(vec![
        Enchantment::SpellDamageAdjust(ElementType::Wind, 2),
    ]);
    let card = wind_card("Gust", 3);
    let (effects, spent) = player.player_play_card(&enemy, card, 10);
    assert_eq!(spent, 0);
    // Charge, the card's own damage, then the synthetic rider.
    assert_eq!(effects.inner.len(), 3);
    match &effects.inner[2].effect {
        EffectTrigger::Always(EffectType::Damage(d)) => {
            assert_eq!(d.amount, 2);
            assert_eq!(d.element_type, ElementType::Wind);
        },
        other => panic!("unexpected rider: {:?}", other),
    }
}

#[test]
fn skip_turn_suppresses_one_enemy_turn() {
    let card = PlayerCard::new("Stall", "skip the enemy", ElementType::Wind)
        .play_card_effect(CardEffects::skip_enemy_turn());
    let player = Player::new(20, FpVec::from_vec(vec![card]));
    let enemy = Enemy::new("Brute", 10, all_normal(), 4);
    let game = Game::start(enemy, player);
    let chosen = game.player.cards.inner[0].clone();
    let game = game.take_player_turn(FpVec::from_vec(vec![chosen]));
    assert!(game.enemy.skip_next_turn);
    let game = game.take_enemy_turn();
    // The attack phase was skipped; flag and queue are cleared.
    assert_eq!(game.player.hit_points, 20);
    assert!(!game.enemy.skip_next_turn);
    assert_eq!(game.enemy.temp_start_turn_effects.inner.len(), 0);
    assert_eq!(game.turn_number, 2);
    // The next enemy turn attacks again.
    let game = game.take_enemy_turn();
    assert_eq!(game.player.hit_points, 16);
}

#[test]
fn percent_damage_halves_enemy_health() {
    let card = PlayerCard::new("Sabotage", "halve enemy health", ElementType::Wind)
        .play_card_effect(CardEffects::do_percent_damage(50));
    let player = Player::new(20, FpVec::from_vec(vec![card]));
    let enemy = Enemy::new("Blob", 11, all_normal(), 0);
    let game = Game::start(enemy, player);
    let chosen = game.player.cards.inner[0].clone();
    let game = game.take_player_turn(FpVec::from_vec(vec![chosen]));
    // floor(11 * 50 / 100) = 5 damage.
    assert_eq!(game.enemy.hit_points, 6);
}

#[test]
fn heal_per_turn_fires_at_end_of_player_turn() {
    let card = SpecialCards::helis();
    let player = Player::new(20, FpVec::from_vec(vec![card]));
    let enemy = Enemy::new("Dummy", 10, all_normal(), 0);
    let game = Game::start(enemy, player);
    let game = game.take_player_turn(FpVec::new());
    assert_eq!(game.player.hit_points, 23);
}

#[test]
fn life_adjust_has_no_cap() {
    let enemy = Enemy::new("Dummy", 10, all_normal(), 0);
    let player = Player::new(20, FpVec::new());
    let player = player.trigger_effect(
        EffectTrigger::Always(EffectType::LifeAdjust(1000)),
        &enemy,
    );
    assert_eq!(player.hit_points, 1020);
}

#[test]
fn decided_game_ignores_further_turns() {
    let player = Player::new(0, FpVec::new());
    let enemy = Enemy::new("Dummy", 10, all_normal(), 3);
    let game = Game { enemy, player, turn_number: 4, game_result: GameOutcome::EnemyWins(3) };
    let game = game.take_enemy_turn();
    assert_eq!(game.turn_number, 4);
    assert_eq!(game.game_result, GameOutcome::EnemyWins(3));
    let game = game.take_player_turn(FpVec::new());
    assert_eq!(game.turn_number, 4);
}

#[test]
fn fresh_cards_carry_full_length_ids() {
    let card = PlayerCard::new("Gust", "a card", ElementType::Wind);
    assert_eq!(card.id.chars().count(), 36);
}

#[test]
fn thorns_fire_only_for_matching_element() {
    let enemy = Enemy::new("Spiky", 20, all_normal(), 0)
        .player_play_card_effect(OnCardPlayEffects::take_damage_on_play_elem(
            ElementType::Water,
            2,
        ));
    let water = PlayerCard::new("Splash", "a water spell", ElementType::Water);
    let wind = PlayerCard::new("Gust", "a wind spell", ElementType::Wind);
    let player = Player::new(20, FpVec::new());
    let (fx_water, _) = player.player_play_card(&enemy, water, 10);
    let (fx_wind, _) = player.player_play_card(&enemy, wind, 10);
    // Charge plus counter-effect for the matching element; charge alone else.
    assert_eq!(fx_water.inner.len(), 2);
    assert_eq!(fx_wind.inner.len(), 1);
}

#[test]
fn discard_removes_every_card_with_the_id() {
    let enemy = Enemy::new("Dummy", 10, all_normal(), 0);
    let gust = wind_card("Gust", 3);
    let other = PlayerCard::new("Other", "another card", ElementType::Land);
    let player = Player::new(20, FpVec::from_vec(vec![gust.clone(), other, gust.clone()]));
    let player = player.trigger_effect(EffectTrigger::Discard(gust.id.clone()), &enemy);
    assert_eq!(player.cards.inner.len(), 1);
    assert_eq!(player.cards.inner[0].name, "Other");
}

#[test]
fn counter_effect_sees_the_cards_own_damage() {
    // Forest Fire heals 1 whenever the player plays a wind spell; the heal is
    // folded after the card's own damage, so it lands on the reduced total.
    let player = Player::new(20, FpVec::from_vec(vec![wind_card("Gust", 3)]));
    let game = Game::start(Enemy::forest_fire(), player);
    let chosen = game.player.cards.inner[0].clone();
    let game = game.take_player_turn(FpVec::from_vec(vec![chosen]));
    assert_eq!(game.enemy.hit_points, 6);
}

#[test]
fn percent_damage_against_the_player_uses_current_hit_points() {
    let enemy = Enemy::new("Dummy", 10, all_normal(), 0);
    let player = Player::new(21, FpVec::new());
    let player = player.trigger_effect(
        EffectTrigger::Always(EffectType::PercentDamage(50)),
        &enemy,
    );
    assert_eq!(player.hit_points, 11);
}

#[test]
fn catalog_enemies_match_their_declarations() {
    let e = Enemy::blackout();
    assert_eq!(e.name, "Electricity Blackout");
    assert_eq!(e.hit_points, 20);
    assert_eq!(e.defense_props.wind, DamageAdjustment::Absolute(1));
    assert_eq!(e.player_play_card_effects.inner.len(), 1);
    let e = Enemy::meltdown();
    assert_eq!(e.hit_points, 35);
    assert_eq!(e.player_play_card_effects.inner.len(), 2);
    let e = Enemy::avalanche();
    assert_eq!(e.enchantments.inner.len(), 1);
}

#[test]
fn status_lines() {
    let player = Player::new(20, FpVec::new());
    assert_eq!(player.description(), "HP [20]\n  * Enchantment Effects []");
    let heal = CardEffects::heal(8);
    assert_eq!(heal.description(), "Heal - target [PLAYER] effect [[ALWAYS] Life 8]");
    let enemy = Enemy::new("Storm", 10, all_normal(), 3);
    let text = enemy.description();
    assert!(text.starts_with("Storm - HP [10]"));
    assert!(text.contains("Enemy Attack - target [PLAYER] effect [[ALWAYS] Damage [No Elem/3]]"));
}
