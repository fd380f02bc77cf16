use vstd::prelude::*;

use crate::fp_vec::FpVec;
use crate::game_effects::{
    attack_effect, backlash_on_play_effect, describe_effects, describe_enchantments,
    enemy_heal_on_play_effect, heal_on_play_effect, skip_turn_effect, spec_effect_descs,
    spec_enchantment_descs, spells_forbidden_effect, EnemyEffects, Enchantments, GameEffect,
    GameEffectView, OnCardPlayEffects,
};
use crate::text::{i32_string, join_comma, spec_int_dec, spec_joined};
use vstd::string::StringExecFns;
use crate::player::{Player, PlayerView};
use crate::{
    adjust_wide, fits_i32, scale_wide, scaled, within, DamageAdjustment, DefenseProps,
    EffectCondition, EffectTrigger, EffectType, ElementType, Enchantment, TriggerView,
};

verus! {

/// The mathematical shape of an `Enemy`.
pub ghost struct EnemyView {
    pub name: Seq<char>,
    pub hit_points: int,
    pub defense_props: DefenseProps,
    pub skip_next_turn: bool,
    pub start_turn_effects: Seq<GameEffectView>,
    pub end_turn_effects: Seq<GameEffectView>,
    pub temp_start_turn_effects: Seq<GameEffectView>,
    pub player_start_turn_effects: Seq<GameEffectView>,
    pub player_play_card_effects: Seq<GameEffectView>,
    pub enchantments: Seq<GameEffectView>,
    pub current_activated_effects: Seq<Enchantment>,
}

/// The other side of the match: hit points behind defensive adjustments, a
/// skip flag with its one-shot queue, and the effect lists its declaration
/// was built from.
#[derive(Debug)]
pub struct Enemy {
    pub name: String,
    pub hit_points: i32,
    pub defense_props: DefenseProps,
    pub skip_next_turn: bool,
    pub start_turn_effects: FpVec<GameEffect>,
    pub end_turn_effects: FpVec<GameEffect>,
    pub temp_start_turn_effects: FpVec<GameEffect>,
    pub player_start_turn_effects: FpVec<GameEffect>,
    pub player_play_card_effects: FpVec<GameEffect>,
    pub enchantments: FpVec<GameEffect>,
    pub current_activated_effects: FpVec<Enchantment>,
}

impl View for Enemy {
    type V = EnemyView;

    open spec fn view(&self) -> EnemyView {
        EnemyView {
            name: self.name@,
            hit_points: self.hit_points as int,
            defense_props: self.defense_props,
            skip_next_turn: self.skip_next_turn,
            start_turn_effects: self.start_turn_effects.deep_view(),
            end_turn_effects: self.end_turn_effects.deep_view(),
            temp_start_turn_effects: self.temp_start_turn_effects.deep_view(),
            player_start_turn_effects: self.player_start_turn_effects.deep_view(),
            player_play_card_effects: self.player_play_card_effects.deep_view(),
            enchantments: self.enchantments.deep_view(),
            current_activated_effects: self.current_activated_effects@,
        }
    }
}

impl EnemyView {
    /// The state `Enemy::new` constructs.
    pub open spec fn spec_new(
        name: Seq<char>,
        hit_points: int,
        defense_props: DefenseProps,
        turn_damage: i32,
    ) -> EnemyView {
        EnemyView {
            name,
            hit_points,
            defense_props,
            skip_next_turn: false,
            start_turn_effects: Seq::empty(),
            end_turn_effects: seq![attack_effect(turn_damage)],
            temp_start_turn_effects: Seq::empty(),
            player_start_turn_effects: Seq::empty(),
            player_play_card_effects: Seq::empty(),
            enchantments: Seq::empty(),
            current_activated_effects: Seq::empty(),
        }
    }

    /// Damage resolution against the enemy: the raw amount runs through the
    /// defensive posture and what remains is subtracted.
    pub open spec fn spec_take_damage(self, element: ElementType, amount: int) -> EnemyView {
        EnemyView {
            hit_points: self.hit_points - self.defense_props.spec_resolved(element, amount),
            ..self
        }
    }

    /// One effect applied to the enemy.  `PowerAdjust` concerns only the
    /// player's pool and enchantment payloads are inert during play, so both
    /// pass through; `SkipTurn` raises the skip flag and enqueues the one
    /// marker that will clear it.
    pub open spec fn spec_apply_effect(self, effect: EffectType) -> EnemyView {
        match effect {
            EffectType::Damage(dmg) => self.spec_take_damage(dmg.element_type, dmg.amount as int),
            EffectType::LifeAdjust(amt) => EnemyView { hit_points: self.hit_points + amt, ..self },
            EffectType::PowerAdjust(_) => self,
            EffectType::PercentDamage(pct) => self.spec_take_damage(
                ElementType::NoElement,
                scaled(self.hit_points, pct),
            ),
            EffectType::Enchantment(_) => self,
            EffectType::SkipTurn => EnemyView {
                skip_next_turn: true,
                temp_start_turn_effects: self.temp_start_turn_effects.push(skip_turn_effect()),
                ..self
            },
        }
    }

    /// The updated fields of `spec_apply_effect` stay representable.
    pub open spec fn apply_fits(self, effect: EffectType) -> bool {
        match effect {
            EffectType::Damage(dmg) => fits_i32(
                self.spec_take_damage(dmg.element_type, dmg.amount as int).hit_points,
            ),
            EffectType::LifeAdjust(amt) => fits_i32(self.hit_points + amt),
            EffectType::PercentDamage(pct) => fits_i32(
                self.spec_take_damage(
                    ElementType::NoElement,
                    scaled(self.hit_points, pct),
                ).hit_points,
            ),
            _ => true,
        }
    }

    /// One trigger resolved against the enemy; `Discard` only concerns the
    /// player's hand, so it passes through.
    pub open spec fn spec_trigger_effect(self, trigger: TriggerView, player: PlayerView) -> EnemyView {
        match trigger {
            TriggerView::Always(effect) => self.spec_apply_effect(effect),
            TriggerView::Condition(cond, effect) => if cond.spec_check_enemy(self)
                && cond.spec_check_player(player.cards) {
                self.spec_apply_effect(effect)
            } else {
                self
            },
            TriggerView::Discard(_) => self,
        }
    }

    /// The updated fields of `spec_trigger_effect` stay representable.
    pub open spec fn trigger_fits(self, trigger: TriggerView, player: PlayerView) -> bool {
        match trigger {
            TriggerView::Always(effect) => self.apply_fits(effect),
            TriggerView::Condition(cond, effect) => (cond.spec_check_enemy(self)
                && cond.spec_check_player(player.cards)) ==> self.apply_fits(effect),
            TriggerView::Discard(_) => true,
        }
    }

    /// What `Enemy::description` returns.
    pub open spec fn spec_description(self) -> Seq<char> {
        self.name + " - HP ["@ + spec_int_dec(self.hit_points) + "]\n  * Start Turn Effects ["@
            + spec_joined(spec_effect_descs(self.start_turn_effects))
            + "]\n  * End Turn Effects ["@ + spec_joined(spec_effect_descs(self.end_turn_effects))
            + "]\n  * Player Start Turn Effects ["@ + spec_joined(
            spec_effect_descs(self.player_start_turn_effects),
        ) + "]\n  * Player Play Card Effects ["@ + spec_joined(
            spec_effect_descs(self.player_play_card_effects),
        ) + "]\n  * Current Enchantments ["@ + spec_joined(
            spec_enchantment_descs(self.current_activated_effects),
        ) + "]"@
    }
}

impl Enemy {
    /// A fresh enemy whose recurring end-of-turn attack deals `turn_damage`.
    pub fn new(name: &str, hit_points: i32, defense_props: DefenseProps, turn_damage: i32) -> (r:
        Self)
        ensures
            r@ == EnemyView::spec_new(name@, hit_points as int, defense_props, turn_damage),
    {
        let r = Self {
            name: name.to_owned(),
            hit_points,
            defense_props,
            skip_next_turn: false,
            start_turn_effects: FpVec::new(),
            end_turn_effects: FpVec::from_vec(vec![EnemyEffects::attack(turn_damage)]),
            temp_start_turn_effects: FpVec::new(),
            player_start_turn_effects: FpVec::new(),
            player_play_card_effects: FpVec::new(),
            enchantments: FpVec::new(),
            current_activated_effects: FpVec::new(),
        };
        proof {
            assert(r@.end_turn_effects =~= seq![attack_effect(turn_damage)]);
            assert(r@.start_turn_effects =~= Seq::<GameEffectView>::empty());
            assert(r@.temp_start_turn_effects =~= Seq::<GameEffectView>::empty());
            assert(r@.player_start_turn_effects =~= Seq::<GameEffectView>::empty());
            assert(r@.player_play_card_effects =~= Seq::<GameEffectView>::empty());
            assert(r@.enchantments =~= Seq::<GameEffectView>::empty());
            assert(r@.current_activated_effects =~= Seq::<Enchantment>::empty());
        }
        r
    }

    /// The enemy, with one more start-of-turn effect.
    pub fn start_turn_effect(self, effect: GameEffect) -> (r: Self)
        ensures
            r@ == (EnemyView {
                start_turn_effects: self@.start_turn_effects.push(effect@),
                ..self@
            }),
    {
        let r = Self { start_turn_effects: self.start_turn_effects.push(effect), ..self };
        proof {
            assert(r@.start_turn_effects =~= self@.start_turn_effects.push(effect@));
        }
        r
    }

    /// The enemy, with one more end-of-turn effect.
    pub fn end_turn_effect(self, effect: GameEffect) -> (r: Self)
        ensures
            r@ == (EnemyView { end_turn_effects: self@.end_turn_effects.push(effect@), ..self@ }),
    {
        let r = Self { end_turn_effects: self.end_turn_effects.push(effect), ..self };
        proof {
            assert(r@.end_turn_effects =~= self@.end_turn_effects.push(effect@));
        }
        r
    }

    /// The enemy, with one more effect fired at the start of the player turn.
    pub fn player_start_turn_effect(self, effect: GameEffect) -> (r: Self)
        ensures
            r@ == (EnemyView {
                player_start_turn_effects: self@.player_start_turn_effects.push(effect@),
                ..self@
            }),
    {
        let r = Self {
            player_start_turn_effects: self.player_start_turn_effects.push(effect),
            ..self
        };
        proof {
            assert(r@.player_start_turn_effects =~= self@.player_start_turn_effects.push(effect@));
        }
        r
    }

    /// The enemy, with one more counter-effect fired when the player plays a
    /// card.
    pub fn player_play_card_effect(self, effect: GameEffect) -> (r: Self)
        ensures
            r@ == (EnemyView {
                player_play_card_effects: self@.player_play_card_effects.push(effect@),
                ..self@
            }),
    {
        let r = Self {
            player_play_card_effects: self.player_play_card_effects.push(effect),
            ..self
        };
        proof {
            assert(r@.player_play_card_effects =~= self@.player_play_card_effects.push(effect@));
        }
        r
    }

    /// The enemy, with one more global enchantment declaration.
    pub fn enchantment(self, effect: GameEffect) -> (r: Self)
        ensures
            r@ == (EnemyView { enchantments: self@.enchantments.push(effect@), ..self@ }),
    {
        let r = Self { enchantments: self.enchantments.push(effect), ..self };
        proof {
            assert(r@.enchantments =~= self@.enchantments.push(effect@));
        }
        r
    }

    /// The enemy's status block.
    pub fn description(&self) -> (r: String)
        ensures
            r@ == self@.spec_description(),
    {
        let start_descs = join_comma(&describe_effects(&self.start_turn_effects));
        let end_descs = join_comma(&describe_effects(&self.end_turn_effects));
        let player_start_descs = join_comma(&describe_effects(&self.player_start_turn_effects));
        let play_descs = join_comma(&describe_effects(&self.player_play_card_effects));
        let ench_descs = join_comma(&describe_enchantments(&self.current_activated_effects));
        self.name.clone().concat(" - HP [").concat(i32_string(self.hit_points).as_str()).concat(
            "]\n  * Start Turn Effects [",
        ).concat(start_descs.as_str()).concat("]\n  * End Turn Effects [").concat(
            end_descs.as_str(),
        ).concat("]\n  * Player Start Turn Effects [").concat(player_start_descs.as_str()).concat(
            "]\n  * Player Play Card Effects [",
        ).concat(play_descs.as_str()).concat("]\n  * Current Enchantments [").concat(
            ench_descs.as_str(),
        ).concat("]")
    }

    /// The effects the enemy fires at the start of its own turn.
    pub fn start_turn(&self, player: &Player) -> (r: FpVec<GameEffect>)
        ensures
            r.deep_view() == self@.start_turn_effects,
    {
        self.start_turn_effects.clone()
    }

    /// The effects the enemy fires at the end of its own turn (the recurring
    /// attack lives here).
    pub fn end_turn(&self, player: &Player) -> (r: FpVec<GameEffect>)
        ensures
            r.deep_view() == self@.end_turn_effects,
    {
        self.end_turn_effects.clone()
    }

    /// One trigger resolved against the enemy; the player is read only to
    /// evaluate conditions.
    pub fn trigger_effect(self, trigger: EffectTrigger, player: &Player) -> (r: Self)
        requires
            self@.trigger_fits(trigger@, player@),
        ensures
            r@ == self@.spec_trigger_effect(trigger@, player@),
    {
        match trigger {
            EffectTrigger::Always(effect) => self.apply_effect(effect),
            EffectTrigger::Condition(cond, effect) => {
                if cond.check_enemy(&self) && cond.check_player(player) {
                    self.apply_effect(effect)
                } else {
                    self
                }
            },
            EffectTrigger::Discard(_) => self,
        }
    }

    /// One effect payload applied to the enemy.
    fn apply_effect(self, effect: EffectType) -> (r: Self)
        requires
            self@.apply_fits(effect),
        ensures
            r@ == self@.spec_apply_effect(effect),
    {
        match effect {
            EffectType::Damage(dmg) => {
                let amount: i128 = dmg.amount as i128;
                self.take_damage(dmg.element_type, amount)
            },
            EffectType::LifeAdjust(amt) => {
                let hp: i64 = self.hit_points as i64 + amt as i64;
                Self { hit_points: hp as i32, ..self }
            },
            EffectType::PowerAdjust(_) => self,
            EffectType::PercentDamage(pct) => {
                let amount: i128 = scale_wide(self.hit_points as i128, pct);
                self.take_damage(ElementType::NoElement, amount)
            },
            EffectType::Enchantment(_) => self,
            EffectType::SkipTurn => {
                let r = Self {
                    skip_next_turn: true,
                    temp_start_turn_effects: self.temp_start_turn_effects.push(
                        GameEffect::enemy("Skip Turn", EffectTrigger::Always(EffectType::SkipTurn)),
                    ),
                    ..self
                };
                proof {
                    assert(r@.temp_start_turn_effects =~= self@.temp_start_turn_effects.push(
                        skip_turn_effect(),
                    ));
                }
                r
            },
        }
    }

    /// The enemy, with its skip flag lowered.
    pub fn skip_turn(self) -> (r: Self)
        ensures
            r@ == (EnemyView { skip_next_turn: false, ..self@ }),
    {
        Self { skip_next_turn: false, ..self }
    }

    /// Raw damage resolved through the defensive posture: the `any` slot and
    /// the element slot each adjust the same raw amount, and the smaller
    /// result is what lands.
    fn take_damage(self, element_type: ElementType, amount: i128) -> (r: Self)
        requires
            within(amount as int, 0x1000000000000000000000000),
            fits_i32(self@.spec_take_damage(element_type, amount as int).hit_points),
        ensures
            r@ == self@.spec_take_damage(element_type, amount as int),
    {
        let any_branch: i128 = adjust_wide(&self.defense_props.any, amount);
        let elem_branch: i128 = match element_type {
            ElementType::Wind => adjust_wide(&self.defense_props.wind, amount),
            ElementType::Land => adjust_wide(&self.defense_props.land, amount),
            ElementType::Water => adjust_wide(&self.defense_props.water, amount),
            ElementType::NoElement => amount,
        };
        let actual: i128 = if any_branch <= elem_branch {
            any_branch
        } else {
            elem_branch
        };
        let hp: i128 = self.hit_points as i128 - actual;
        Self { hit_points: hp as i32, ..self }
    }
}

impl Enemy {
    pub fn oil_spill() -> (r: Self)
        ensures
            r@ == EnemyView::spec_new(
                "Oil Spill"@,
                14,
                DefenseProps {
                    wind: DamageAdjustment::Normal,
                    water: DamageAdjustment::Absolute(1),
                    land: DamageAdjustment::Absolute(-1i32),
                    any: DamageAdjustment::Normal,
                },
                3,
            ),
    {
        Self::new(
            "Oil Spill",
            14,
            DefenseProps {
                wind: DamageAdjustment::Normal,
                water: DamageAdjustment::Absolute(1),
                land: DamageAdjustment::Absolute(-1i32),
                any: DamageAdjustment::Normal,
            },
            3,
        )
    }

    pub fn typhoon() -> (r: Self)
        ensures
            r@ == EnemyView::spec_new(
                "Typhoon"@,
                12,
                DefenseProps {
                    wind: DamageAdjustment::Percent(0),
                    water: DamageAdjustment::Normal,
                    land: DamageAdjustment::Absolute(-2i32),
                    any: DamageAdjustment::Normal,
                },
                4,
            ),
    {
        Self::new(
            "Typhoon",
            12,
            DefenseProps {
                wind: DamageAdjustment::Percent(0),
                water: DamageAdjustment::Normal,
                land: DamageAdjustment::Absolute(-2i32),
                any: DamageAdjustment::Normal,
            },
            4,
        )
    }

    pub fn forest_fire() -> (r: Self)
        ensures
            r@ == (EnemyView {
                player_play_card_effects: seq![
                    enemy_heal_on_play_effect(ElementType::Wind, 1),
                ],
                ..EnemyView::spec_new(
                    "Forest Fire"@,
                    8,
                    DefenseProps {
                        wind: DamageAdjustment::Normal,
                        water: DamageAdjustment::Absolute(1),
                        land: DamageAdjustment::Percent(0),
                        any: DamageAdjustment::Normal,
                    },
                    8,
                )
            }),
    {
        let r = Self::new(
            "Forest Fire",
            8,
            DefenseProps {
                wind: DamageAdjustment::Normal,
                water: DamageAdjustment::Absolute(1),
                land: DamageAdjustment::Percent(0),
                any: DamageAdjustment::Normal,
            },
            8,
        ).player_play_card_effect(OnCardPlayEffects::heal_enemy_on_play_elem(ElementType::Wind, 1));
        proof {
            assert(r@.player_play_card_effects =~= seq![
                enemy_heal_on_play_effect(ElementType::Wind, 1),
            ]);
        }
        r
    }

    pub fn landslide() -> (r: Self)
        ensures
            r@ == EnemyView::spec_new(
                "Landslide"@,
                20,
                DefenseProps {
                    wind: DamageAdjustment::Normal,
                    water: DamageAdjustment::Normal,
                    land: DamageAdjustment::Normal,
                    any: DamageAdjustment::Absolute(-1i32),
                },
                2,
            ),
    {
        Self::new(
            "Landslide",
            20,
            DefenseProps {
                wind: DamageAdjustment::Normal,
                water: DamageAdjustment::Normal,
                land: DamageAdjustment::Normal,
                any: DamageAdjustment::Absolute(-1i32),
            },
            2,
        )
    }

    pub fn avalanche() -> (r: Self)
        ensures
            r@ == (EnemyView {
                enchantments: seq![spells_forbidden_effect(ElementType::Water)],
                ..EnemyView::spec_new(
                    "Avalanche"@,
                    10,
                    DefenseProps {
                        wind: DamageAdjustment::Normal,
                        water: DamageAdjustment::Normal,
                        land: DamageAdjustment::Normal,
                        any: DamageAdjustment::Normal,
                    },
                    7,
                )
            }),
    {
        let r = Self::new(
            "Avalanche",
            10,
            DefenseProps {
                wind: DamageAdjustment::Normal,
                water: DamageAdjustment::Normal,
                land: DamageAdjustment::Normal,
                any: DamageAdjustment::Normal,
            },
            7,
        ).enchantment(Enchantments::player_elem_spells_forbidden(ElementType::Water));
        proof {
            assert(r@.enchantments =~= seq![spells_forbidden_effect(ElementType::Water)]);
        }
        r
    }

    pub fn famine() -> (r: Self)
        ensures
            r@ == (EnemyView {
                player_play_card_effects: seq![
                    backlash_on_play_effect(ElementType::Wind, 1),
                ],
                ..EnemyView::spec_new(
                    "Famine"@,
                    16,
                    DefenseProps {
                        wind: DamageAdjustment::Normal,
                        water: DamageAdjustment::Absolute(2),
                        land: DamageAdjustment::Normal,
                        any: DamageAdjustment::Normal,
                    },
                    5,
                )
            }),
    {
        let r = Self::new(
            "Famine",
            16,
            DefenseProps {
                wind: DamageAdjustment::Normal,
                water: DamageAdjustment::Absolute(2),
                land: DamageAdjustment::Normal,
                any: DamageAdjustment::Normal,
            },
            5,
        ).player_play_card_effect(OnCardPlayEffects::take_damage_on_play_elem(ElementType::Wind, 1));
        proof {
            assert(r@.player_play_card_effects =~= seq![
                backlash_on_play_effect(ElementType::Wind, 1),
            ]);
        }
        r
    }

    pub fn earthquake() -> (r: Self)
        ensures
            r@ == (EnemyView {
                enchantments: seq![spells_forbidden_effect(ElementType::Land)],
                ..EnemyView::spec_new(
                    "Earthquake"@,
                    10,
                    DefenseProps {
                        wind: DamageAdjustment::Normal,
                        water: DamageAdjustment::Normal,
                        land: DamageAdjustment::Normal,
                        any: DamageAdjustment::Normal,
                    },
                    5,
                )
            }),
    {
        let r = Self::new(
            "Earthquake",
            10,
            DefenseProps {
                wind: DamageAdjustment::Normal,
                water: DamageAdjustment::Normal,
                land: DamageAdjustment::Normal,
                any: DamageAdjustment::Normal,
            },
            5,
        ).enchantment(Enchantments::player_elem_spells_forbidden(ElementType::Land));
        proof {
            assert(r@.enchantments =~= seq![spells_forbidden_effect(ElementType::Land)]);
        }
        r
    }

    pub fn volcano() -> (r: Self)
        ensures
            r@ == (EnemyView {
                player_play_card_effects: seq![
                    heal_on_play_effect(ElementType::Water, 5),
                ],
                ..EnemyView::spec_new(
                    "Volcano Eruption"@,
                    5,
                    DefenseProps {
                        wind: DamageAdjustment::Normal,
                        water: DamageAdjustment::Normal,
                        land: DamageAdjustment::Normal,
                        any: DamageAdjustment::Absolute(-1i32),
                    },
                    8,
                )
            }),
    {
        let r = Self::new(
            "Volcano Eruption",
            5,
            DefenseProps {
                wind: DamageAdjustment::Normal,
                water: DamageAdjustment::Normal,
                land: DamageAdjustment::Normal,
                any: DamageAdjustment::Absolute(-1i32),
            },
            8,
        ).player_play_card_effect(OnCardPlayEffects::heal_on_play_elem(ElementType::Water, 5));
        proof {
            assert(r@.player_play_card_effects =~= seq![
                heal_on_play_effect(ElementType::Water, 5),
            ]);
        }
        r
    }

    pub fn floods() -> (r: Self)
        ensures
            r@ == EnemyView::spec_new(
                "Floods Eruption"@,
                12,
                DefenseProps {
                    wind: DamageAdjustment::Normal,
                    water: DamageAdjustment::Normal,
                    land: DamageAdjustment::Normal,
                    any: DamageAdjustment::Normal,
                },
                5,
            ),
    {
        Self::new(
            "Floods Eruption",
            12,
            DefenseProps {
                wind: DamageAdjustment::Normal,
                water: DamageAdjustment::Normal,
                land: DamageAdjustment::Normal,
                any: DamageAdjustment::Normal,
            },
            5,
        )
    }

    pub fn drought() -> (r: Self)
        ensures
            r@ == EnemyView::spec_new(
                "Drought"@,
                25,
                DefenseProps {
                    wind: DamageAdjustment::Normal,
                    water: DamageAdjustment::Absolute(1),
                    land: DamageAdjustment::Percent(0),
                    any: DamageAdjustment::Normal,
                },
                2,
            ),
    {
        Self::new(
            "Drought",
            25,
            DefenseProps {
                wind: DamageAdjustment::Normal,
                water: DamageAdjustment::Absolute(1),
                land: DamageAdjustment::Percent(0),
                any: DamageAdjustment::Normal,
            },
            2,
        )
    }

    pub fn tornado() -> (r: Self)
        ensures
            r@ == EnemyView::spec_new(
                "Tornado"@,
                10,
                DefenseProps {
                    wind: DamageAdjustment::Percent(0),
                    water: DamageAdjustment::Normal,
                    land: DamageAdjustment::Normal,
                    any: DamageAdjustment::Normal,
                },
                6,
            ),
    {
        Self::new(
            "Tornado",
            10,
            DefenseProps {
                wind: DamageAdjustment::Percent(0),
                water: DamageAdjustment::Normal,
                land: DamageAdjustment::Normal,
                any: DamageAdjustment::Normal,
            },
            6,
        )
    }

    pub fn meltdown() -> (r: Self)
        ensures
            r@ == (EnemyView {
                player_play_card_effects: seq![
                    backlash_on_play_effect(ElementType::Wind, 2),
                    enemy_heal_on_play_effect(ElementType::Wind, 1),
                ],
                ..EnemyView::spec_new(
                    "Nuclear Meltdown"@,
                    35,
                    DefenseProps {
                        wind: DamageAdjustment::Normal,
                        water: DamageAdjustment::Normal,
                        land: DamageAdjustment::Normal,
                        any: DamageAdjustment::Normal,
                    },
                    2,
                )
            }),
    {
        let r = Self::new(
            "Nuclear Meltdown",
            35,
            DefenseProps {
                wind: DamageAdjustment::Normal,
                water: DamageAdjustment::Normal,
                land: DamageAdjustment::Normal,
                any: DamageAdjustment::Normal,
            },
            2,
        ).player_play_card_effect(
            OnCardPlayEffects::take_damage_on_play_elem(ElementType::Wind, 2),
        ).player_play_card_effect(OnCardPlayEffects::heal_enemy_on_play_elem(ElementType::Wind, 1));
        proof {
            assert(r@.player_play_card_effects =~= seq![
                backlash_on_play_effect(ElementType::Wind, 2),
                enemy_heal_on_play_effect(ElementType::Wind, 1),
            ]);
        }
        r
    }

    pub fn blackout() -> (r: Self)
        ensures
            r@ == (EnemyView {
                player_play_card_effects: seq![
                    backlash_on_play_effect(ElementType::Water, 1),
                ],
                ..EnemyView::spec_new(
                    "Electricity Blackout"@,
                    20,
                    DefenseProps {
                        wind: DamageAdjustment::Absolute(1),
                        water: DamageAdjustment::Normal,
                        land: DamageAdjustment::Normal,
                        any: DamageAdjustment::Normal,
                    },
                    3,
                )
            }),
    {
        let r = Self::new(
            "Electricity Blackout",
            20,
            DefenseProps {
                wind: DamageAdjustment::Absolute(1),
                water: DamageAdjustment::Normal,
                land: DamageAdjustment::Normal,
                any: DamageAdjustment::Normal,
            },
            3,
        ).player_play_card_effect(OnCardPlayEffects::take_damage_on_play_elem(ElementType::Water, 1));
        proof {
            assert(r@.player_play_card_effects =~= seq![
                backlash_on_play_effect(ElementType::Water, 1),
            ]);
        }
        r
    }
}

/// A conditional trigger whose condition does not hold leaves the enemy equal
/// in every field to what it was.
pub proof fn lemma_enemy_condition_false_is_identity(
    e: EnemyView,
    p: PlayerView,
    cond: EffectCondition,
    effect: EffectType,
)
    requires
        !(cond.spec_check_enemy(e) && cond.spec_check_player(p.cards)),
    ensures
        e.spec_trigger_effect(TriggerView::Condition(cond, effect), p) == e,
{
}

} // verus!
