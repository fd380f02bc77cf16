use vstd::prelude::*;

use crate::enemy::{Enemy, EnemyView};
use crate::fp_vec::FpVec;
use crate::game_effects::{
    describe_enchantments, discard_marker_effect, element_damage_effect, heal_effect,
    heal_per_turn_effect, percent_damage_effect, physical_damage_effect, shield_effect,
    skip_turn_effect, spec_enchantment_descs, spell_damage_adjust_effect, CardEffects,
    Enchantments, GameEffect, GameEffectView, OnCardPlayEffects,
};
use crate::text::{i32_string, join_comma, spec_int_dec, spec_joined};
use vstd::string::StringExecFns;
use crate::{
    fits_i32, scale_wide, scaled, within, Damage, EffectCondition, EffectTarget, EffectTrigger,
    EffectType, ElementType, Enchantment, TriggerView,
};

verus! {

/// Relies on `uuid::Uuid::new_v4` and its `Display` form: a fresh random
/// identifier rendered as 36 hyphenated characters.  Nothing more is assumed
/// of the value: in particular no two calls are assumed distinct.
#[verifier::external_body]
fn fresh_card_id() -> (r: String)
    ensures
        r@.len() == 36,
{
    uuid::Uuid::new_v4().to_string()
}

/// The mathematical shape of a `PlayerCard`.
pub ghost struct CardView {
    pub id: Seq<char>,
    pub element: ElementType,
    pub can_play: bool,
    pub power_cost: int,
    pub name: Seq<char>,
    pub description: Seq<char>,
    pub game_start_effects: Seq<GameEffectView>,
    pub start_turn_effects: Seq<GameEffectView>,
    pub play_card_effects: Seq<GameEffectView>,
}

/// A playable unit owned by the player.
#[derive(Debug)]
pub struct PlayerCard {
    pub id: String,
    pub element: ElementType,
    pub can_play: bool,
    pub power_cost: i32,
    pub name: String,
    pub description: String,
    pub game_start_effects: FpVec<GameEffect>,
    pub start_turn_effects: FpVec<GameEffect>,
    pub play_card_effects: FpVec<GameEffect>,
}

impl View for PlayerCard {
    type V = CardView;

    open spec fn view(&self) -> CardView {
        CardView {
            id: self.id@,
            element: self.element,
            can_play: self.can_play,
            power_cost: self.power_cost as int,
            name: self.name@,
            description: self.description@,
            game_start_effects: self.game_start_effects.deep_view(),
            start_turn_effects: self.start_turn_effects.deep_view(),
            play_card_effects: self.play_card_effects.deep_view(),
        }
    }
}

impl DeepView for PlayerCard {
    type V = CardView;

    open spec fn deep_view(&self) -> CardView {
        self.view()
    }
}

impl Clone for PlayerCard {
    fn clone(&self) -> (r: Self)
        ensures
            r@ == self@,
    {
        PlayerCard {
            id: self.id.clone(),
            element: self.element,
            can_play: self.can_play,
            power_cost: self.power_cost,
            name: self.name.clone(),
            description: self.description.clone(),
            game_start_effects: self.game_start_effects.clone(),
            start_turn_effects: self.start_turn_effects.clone(),
            play_card_effects: self.play_card_effects.clone(),
        }
    }
}

impl PlayerCard {
    /// A fresh card with no effects, zero cost, and a newly drawn id.
    pub fn new(name: &str, description: &str, element: ElementType) -> (r: Self)
        ensures
            r@.name == name@,
            r@.description == description@,
            r@.element == element,
            r@.can_play == true,
            r@.power_cost == 0,
            r@.id.len() == 36,
            r@.game_start_effects == Seq::<GameEffectView>::empty(),
            r@.start_turn_effects == Seq::<GameEffectView>::empty(),
            r@.play_card_effects == Seq::<GameEffectView>::empty(),
    {
        let r = Self {
            id: fresh_card_id(),
            name: name.to_owned(),
            description: description.to_owned(),
            element,
            can_play: true,
            power_cost: 0,
            game_start_effects: FpVec::new(),
            start_turn_effects: FpVec::new(),
            play_card_effects: FpVec::new(),
        };
        proof {
            assert(r@.game_start_effects =~= Seq::<GameEffectView>::empty());
            assert(r@.start_turn_effects =~= Seq::<GameEffectView>::empty());
            assert(r@.play_card_effects =~= Seq::<GameEffectView>::empty());
        }
        r
    }

    /// The card, marked unplayable.
    pub fn cant_play(self) -> (r: Self)
        ensures
            r@ == (CardView { can_play: false, ..self@ }),
    {
        Self { can_play: false, ..self }
    }

    /// The card, with its base power cost set.
    pub fn power_cost(self, cost: i32) -> (r: Self)
        ensures
            r@ == (CardView { power_cost: cost as int, ..self@ }),
    {
        Self { power_cost: cost, ..self }
    }

    /// The card, with one more possession (game-start) effect.
    pub fn game_start_effect(self, effect: GameEffect) -> (r: Self)
        ensures
            r@ == (CardView {
                game_start_effects: self@.game_start_effects.push(effect@),
                ..self@
            }),
    {
        let r = Self { game_start_effects: self.game_start_effects.push(effect), ..self };
        proof {
            assert(r@.game_start_effects =~= self@.game_start_effects.push(effect@));
        }
        r
    }

    /// The card, with one more start-of-turn effect.
    pub fn start_turn_effects(self, effect: GameEffect) -> (r: Self)
        ensures
            r@ == (CardView {
                start_turn_effects: self@.start_turn_effects.push(effect@),
                ..self@
            }),
    {
        let r = Self { start_turn_effects: self.start_turn_effects.push(effect), ..self };
        proof {
            assert(r@.start_turn_effects =~= self@.start_turn_effects.push(effect@));
        }
        r
    }

    /// The card, with one more on-play effect.
    pub fn play_card_effect(self, effect: GameEffect) -> (r: Self)
        ensures
            r@ == (CardView {
                play_card_effects: self@.play_card_effects.push(effect@),
                ..self@
            }),
    {
        let r = Self { play_card_effects: self.play_card_effects.push(effect), ..self };
        proof {
            assert(r@.play_card_effects =~= self@.play_card_effects.push(effect@));
        }
        r
    }
}

/// The mathematical shape of a `Player`.
pub ghost struct PlayerView {
    pub cards: Seq<CardView>,
    pub hit_points: int,
    pub power_reserve: int,
    pub current_activated_effects: Seq<Enchantment>,
}

/// One side of the match: hit points, a power reserve, an ordered hand, and
/// the enchantments activated at game start.
#[derive(Debug)]
pub struct Player {
    pub cards: FpVec<PlayerCard>,
    pub hit_points: i32,
    pub power_reserve: i32,
    pub current_activated_effects: FpVec<Enchantment>,
}

impl View for Player {
    type V = PlayerView;

    open spec fn view(&self) -> PlayerView {
        PlayerView {
            cards: self.cards.deep_view(),
            hit_points: self.hit_points as int,
            power_reserve: self.power_reserve as int,
            current_activated_effects: self.current_activated_effects@,
        }
    }
}

/// One shield application: `ShieldDamage` subtracts from the running damage,
/// clamped at zero; every other enchantment leaves it alone.
pub open spec fn shield_step(amount: int, e: Enchantment) -> int {
    match e {
        Enchantment::ShieldDamage(amt) => if amount - amt < 0 {
            0
        } else {
            amount - amt
        },
        _ => amount,
    }
}

/// The damage left after every activated shield has been applied in order.
pub open spec fn spec_shielded(amount: int, effs: Seq<Enchantment>) -> int
    decreases effs.len(),
{
    if effs.len() == 0 {
        amount
    } else {
        spec_shielded(shield_step(amount, effs[0]), effs.skip(1))
    }
}

/// The hand with every card of the given id removed; order is kept.
pub open spec fn spec_discard(cards: Seq<CardView>, id: Seq<char>) -> Seq<CardView>
    decreases cards.len(),
{
    if cards.len() == 0 {
        Seq::empty()
    } else {
        (if cards[0].id == id {
            Seq::empty()
        } else {
            seq![cards[0]]
        }) + spec_discard(cards.skip(1), id)
    }
}

/// The synthetic damage rider a `SpellDamageAdjust` enchantment appends to a
/// matching card.
pub open spec fn spell_damage_rider(element: ElementType, amount: i32) -> GameEffectView {
    GameEffectView {
        name: "Spell Damage Adjust Effect"@,
        target: EffectTarget::Enemy,
        effect: TriggerView::Always(EffectType::Damage(Damage { element_type: element, amount })),
    }
}

/// The effect that charges the player for an accepted play.
pub open spec fn power_spent_effect(amount: i32) -> GameEffectView {
    GameEffectView {
        name: "Power Cost"@,
        target: EffectTarget::Player,
        effect: TriggerView::Always(EffectType::PowerAdjust(amount)),
    }
}

/// One activated enchantment folded over a card about to be played.
/// `SpellCostAdjust` matches the card's element or, as a wildcard,
/// `NoElement`; the shifted cost is floored at one.  `SpellDamageAdjust` and
/// `SpellElementForbidden` match the card's element exactly.
pub open spec fn spec_enchanted_card_step(card: CardView, e: Enchantment) -> CardView {
    match e {
        Enchantment::SpellCostAdjust(el, delta) => if el == card.element
            || el is NoElement {
            CardView {
                power_cost: if card.power_cost + delta < 1 {
                    1
                } else {
                    card.power_cost + delta
                },
                ..card
            }
        } else {
            card
        },
        Enchantment::SpellDamageAdjust(el, adj) => if el == card.element {
            CardView {
                play_card_effects: card.play_card_effects.push(spell_damage_rider(el, adj)),
                ..card
            }
        } else {
            card
        },
        Enchantment::SpellElementForbidden(el) => if el == card.element {
            CardView { can_play: false, ..card }
        } else {
            card
        },
        _ => card,
    }
}

/// The working copy of a card after every activated enchantment has been
/// folded over it, in order.
pub open spec fn spec_enchanted_card(card: CardView, effs: Seq<Enchantment>) -> CardView
    decreases effs.len(),
{
    if effs.len() == 0 {
        card
    } else {
        spec_enchanted_card(spec_enchanted_card_step(card, effs[0]), effs.skip(1))
    }
}

/// A discard marker re-bound to the concrete card being played; every other
/// effect passes through unchanged.
pub open spec fn rebound_one(e: GameEffectView, id: Seq<char>) -> GameEffectView {
    if e.effect is Discard {
        GameEffectView {
            name: "Discard"@,
            target: EffectTarget::Player,
            effect: TriggerView::Discard(id),
        }
    } else {
        e
    }
}

/// A card's play effects with every discard marker bound to the card's id.
pub open spec fn spec_rebound(effs: Seq<GameEffectView>, id: Seq<char>) -> Seq<GameEffectView> {
    effs.map_values(|e: GameEffectView| rebound_one(e, id))
}

/// The enemy counter-effects fired by the event of playing this card: every
/// declared effect whose condition is the play-event predicate for the card's
/// element, re-emitted unconditionally at its declared target.
pub open spec fn spec_thorns(fx: Seq<GameEffectView>, card: CardView) -> Seq<GameEffectView>
    decreases fx.len(),
{
    if fx.len() == 0 {
        Seq::empty()
    } else {
        (match fx[0].effect {
            TriggerView::Condition(cond, teff) => if cond.spec_check_card(card) {
                seq![GameEffectView { name: fx[0].name, target: fx[0].target, effect: TriggerView::Always(teff) }]
            } else {
                Seq::empty()
            },
            _ => Seq::empty(),
        }) + spec_thorns(fx.skip(1), card)
    }
}

/// The concatenated start-of-turn effects of every card in hand, in hand
/// order.
pub open spec fn spec_start_turn_effects(cards: Seq<CardView>) -> Seq<GameEffectView>
    decreases cards.len(),
{
    if cards.len() == 0 {
        Seq::empty()
    } else {
        cards[0].start_turn_effects + spec_start_turn_effects(cards.skip(1))
    }
}

/// The end-of-turn effects the activated enchantments produce: one heal per
/// `LifeAdjPerTurn`, in activation order.
pub open spec fn spec_end_turn_effects(effs: Seq<Enchantment>) -> Seq<GameEffectView>
    decreases effs.len(),
{
    if effs.len() == 0 {
        Seq::empty()
    } else {
        (match effs[0] {
            Enchantment::LifeAdjPerTurn(amt) => seq![heal_effect(amt)],
            _ => Seq::empty(),
        }) + spec_end_turn_effects(effs.skip(1))
    }
}

/// The extra power the activated enchantments grant at the start of each
/// player turn.
pub open spec fn spec_power_added(effs: Seq<Enchantment>) -> int
    decreases effs.len(),
{
    if effs.len() == 0 {
        0
    } else {
        (match effs[0] {
            Enchantment::PowerAddPerTurn(amt) => amt as int,
            _ => 0,
        }) + spec_power_added(effs.skip(1))
    }
}

impl PlayerView {
    /// Damage resolution against the player: shields soften the raw amount,
    /// then hit points drop by what is left.
    pub open spec fn spec_take_damage(self, amount: int) -> PlayerView {
        PlayerView {
            hit_points: self.hit_points - spec_shielded(
                amount,
                self.current_activated_effects,
            ),
            ..self
        }
    }

    /// One effect applied to the player.  Enchantment payloads are inert here
    /// (they are materialized only at game start) and `SkipTurn` only concerns
    /// the enemy.
    pub open spec fn spec_apply_effect(self, effect: EffectType) -> PlayerView {
        match effect {
            EffectType::Damage(dmg) => self.spec_take_damage(dmg.amount as int),
            EffectType::LifeAdjust(amt) => PlayerView {
                hit_points: self.hit_points + amt,
                ..self
            },
            EffectType::PowerAdjust(amt) => PlayerView {
                power_reserve: self.power_reserve + amt,
                ..self
            },
            EffectType::PercentDamage(pct) => self.spec_take_damage(
                scaled(self.hit_points, pct),
            ),
            EffectType::Enchantment(_) => self,
            EffectType::SkipTurn => self,
        }
    }

    /// The updated fields of `spec_apply_effect` stay representable.
    pub open spec fn apply_fits(self, effect: EffectType) -> bool {
        match effect {
            EffectType::Damage(dmg) => fits_i32(self.spec_take_damage(dmg.amount as int).hit_points),
            EffectType::LifeAdjust(amt) => fits_i32(self.hit_points + amt),
            EffectType::PowerAdjust(amt) => fits_i32(self.power_reserve + amt),
            EffectType::PercentDamage(pct) => fits_i32(
                self.spec_take_damage(scaled(self.hit_points, pct)).hit_points,
            ),
            EffectType::Enchantment(_) => true,
            EffectType::SkipTurn => true,
        }
    }

    /// One trigger resolved against the player: `Always` applies, `Condition`
    /// applies only when the condition holds against both actors, and
    /// `Discard` removes the matching hand cards.
    pub open spec fn spec_trigger_effect(self, trigger: TriggerView, enemy: EnemyView) -> PlayerView {
        match trigger {
            TriggerView::Always(effect) => self.spec_apply_effect(effect),
            TriggerView::Condition(cond, effect) => if cond.spec_check_player(self.cards)
                && cond.spec_check_enemy(enemy) {
                self.spec_apply_effect(effect)
            } else {
                self
            },
            TriggerView::Discard(id) => PlayerView { cards: spec_discard(self.cards, id), ..self },
        }
    }

    /// The updated fields of `spec_trigger_effect` stay representable.
    pub open spec fn trigger_fits(self, trigger: TriggerView, enemy: EnemyView) -> bool {
        match trigger {
            TriggerView::Always(effect) => self.apply_fits(effect),
            TriggerView::Condition(cond, effect) => (cond.spec_check_player(self.cards)
                && cond.spec_check_enemy(enemy)) ==> self.apply_fits(effect),
            TriggerView::Discard(_) => true,
        }
    }

    /// Card-play resolution: the activated enchantments are folded over the
    /// card; an unplayable or unaffordable card is an all-or-nothing no-op;
    /// an accepted card emits, in order, the power charge, its own play
    /// effects with discard markers bound to its id, and the enemy's
    /// counter-effects for this play event.  The second component is the
    /// power actually spent.
    pub open spec fn spec_play_card(
        self,
        enemy: EnemyView,
        card: CardView,
        available: int,
    ) -> (Seq<GameEffectView>, int) {
        let c = spec_enchanted_card(card, self.current_activated_effects);
        if !c.can_play || available < c.power_cost {
            (Seq::empty(), 0)
        } else {
            (
                seq![power_spent_effect((0 - c.power_cost) as i32)] + spec_rebound(
                    c.play_card_effects,
                    c.id,
                ) + spec_thorns(enemy.player_play_card_effects, c),
                c.power_cost,
            )
        }
    }

    /// An accepted play's cost is representable, so the power charge can be
    /// emitted.
    pub open spec fn play_fits(self, card: CardView, available: int) -> bool {
        let c = spec_enchanted_card(card, self.current_activated_effects);
        (c.can_play && available >= c.power_cost) ==> within(c.power_cost, 0x7fffffff)
    }

    /// What `Player::description` returns.
    pub open spec fn spec_description(self) -> Seq<char> {
        "HP ["@ + spec_int_dec(self.hit_points) + "]\n  * Enchantment Effects ["@ + spec_joined(
            spec_enchantment_descs(self.current_activated_effects),
        ) + "]"@
    }
}

/// The requested cards folded left to right through card-play resolution,
/// each accepted play consuming from the running pool.  The first component
/// concatenates the accepted plays' effects; the second is the pool left.
pub open spec fn spec_plays(
    player: PlayerView,
    enemy: EnemyView,
    cards: Seq<CardView>,
    available: int,
) -> (Seq<GameEffectView>, int)
    decreases cards.len(),
{
    if cards.len() == 0 {
        (Seq::empty(), available)
    } else {
        let first = player.spec_play_card(enemy, cards[0], available);
        let rest = spec_plays(player, enemy, cards.skip(1), available - first.1);
        (first.0 + rest.0, rest.1)
    }
}

/// Every attempted play along the fold has a representable cost.
pub open spec fn plays_fits(
    player: PlayerView,
    enemy: EnemyView,
    cards: Seq<CardView>,
    available: int,
) -> bool
    decreases cards.len(),
{
    cards.len() == 0 || (player.play_fits(cards[0], available) && plays_fits(
        player,
        enemy,
        cards.skip(1),
        available - player.spec_play_card(enemy, cards[0], available).1,
    ))
}

impl Player {
    /// A fresh player: full hit points, the given hand, no power in reserve,
    /// and nothing activated yet.
    pub fn new(hit_points: i32, cards: FpVec<PlayerCard>) -> (r: Self)
        ensures
            r@ == (PlayerView {
                cards: cards.deep_view(),
                hit_points: hit_points as int,
                power_reserve: 0,
                current_activated_effects: Seq::<Enchantment>::empty(),
            }),
    {
        let r = Self { cards, hit_points, power_reserve: 0, current_activated_effects: FpVec::new() };
        proof {
            assert(r@.current_activated_effects =~= Seq::<Enchantment>::empty());
        }
        r
    }

    /// The player's status line.
    pub fn description(&self) -> (r: String)
        ensures
            r@ == self@.spec_description(),
    {
        let descs = describe_enchantments(&self.current_activated_effects);
        let joined = join_comma(&descs);
        "HP [".to_owned().concat(i32_string(self.hit_points).as_str()).concat(
            "]\n  * Enchantment Effects [",
        ).concat(joined.as_str()).concat("]")
    }

    /// The effects fired at the start of the player's turn: every hand card's
    /// start-of-turn effects, in hand order.
    pub fn start_turn(&self) -> (r: FpVec<GameEffect>)
        ensures
            r.deep_view() == spec_start_turn_effects(self@.cards),
    {
        let ghost cards_v = self@.cards;
        let mut acc = FpVec::<GameEffect>::new();
        let mut i: usize = 0;
        proof {
            assert(cards_v.skip(0) =~= cards_v);
            assert(acc.deep_view() + spec_start_turn_effects(cards_v) =~= spec_start_turn_effects(
                cards_v,
            ));
        }
        while i < self.cards.inner.len()
            invariant
                0 <= i <= self.cards.inner.len(),
                cards_v == self.cards.deep_view(),
                acc.deep_view() + spec_start_turn_effects(cards_v.skip(i as int))
                    == spec_start_turn_effects(cards_v),
            decreases self.cards.inner.len() - i,
        {
            proof {
                assert(cards_v.skip(i as int).skip(1) =~= cards_v.skip(i as int + 1));
                assert(cards_v.skip(i as int)[0] == cards_v[i as int]);
            }
            let ghost acc0 = acc.deep_view();
            let fx = self.cards.inner[i].start_turn_effects.clone();
            acc = acc.extend(fx);
            proof {
                assert(acc.deep_view() =~= acc0 + cards_v[i as int].start_turn_effects);
                assert(acc.deep_view() + spec_start_turn_effects(cards_v.skip(i as int + 1))
                    =~= acc0 + (cards_v[i as int].start_turn_effects + spec_start_turn_effects(
                    cards_v.skip(i as int + 1),
                )));
            }
            i = i + 1;
        }
        proof {
            assert(cards_v.skip(self.cards.inner.len() as int) =~= Seq::<CardView>::empty());
            assert(acc.deep_view() + spec_start_turn_effects(Seq::<CardView>::empty())
                =~= acc.deep_view());
        }
        acc
    }

    /// The effects fired at the end of the player's turn: one heal per
    /// activated `LifeAdjPerTurn` enchantment, in activation order.
    pub fn end_turn(&self) -> (r: FpVec<GameEffect>)
        ensures
            r.deep_view() == spec_end_turn_effects(self@.current_activated_effects),
    {
        let ghost effs = self@.current_activated_effects;
        let mut acc = FpVec::<GameEffect>::new();
        let mut i: usize = 0;
        proof {
            assert(effs.skip(0) =~= effs);
            assert(acc.deep_view() + spec_end_turn_effects(effs) =~= spec_end_turn_effects(effs));
        }
        while i < self.current_activated_effects.inner.len()
            invariant
                0 <= i <= self.current_activated_effects.inner.len(),
                effs == self.current_activated_effects@,
                acc.deep_view() + spec_end_turn_effects(effs.skip(i as int))
                    == spec_end_turn_effects(effs),
            decreases self.current_activated_effects.inner.len() - i,
        {
            proof {
                assert(effs.skip(i as int).skip(1) =~= effs.skip(i as int + 1));
                assert(effs.skip(i as int)[0] == effs[i as int]);
            }
            let ghost acc0 = acc.deep_view();
            match self.current_activated_effects.inner[i] {
                Enchantment::LifeAdjPerTurn(amt) => {
                    acc = acc.push(CardEffects::heal(amt));
                    proof {
                        assert(acc.deep_view() =~= acc0 + seq![heal_effect(amt)]);
                        assert(acc.deep_view() + spec_end_turn_effects(effs.skip(i as int + 1))
                            =~= acc0 + (seq![heal_effect(amt)] + spec_end_turn_effects(
                            effs.skip(i as int + 1),
                        )));
                    }
                },
                _ => {},
            }
            i = i + 1;
        }
        proof {
            assert(effs.skip(self.current_activated_effects.inner.len() as int)
                =~= Seq::<Enchantment>::empty());
            assert(acc.deep_view() + spec_end_turn_effects(Seq::<Enchantment>::empty())
                =~= acc.deep_view());
        }
        acc
    }

    /// The total power the activated enchantments add each turn.
    pub(crate) fn power_added(&self) -> (r: i128)
        ensures
            r as int == spec_power_added(self@.current_activated_effects),
    {
        let ghost effs = self@.current_activated_effects;
        let mut sum: i128 = 0;
        let mut i: usize = 0;
        proof {
            assert(effs.skip(0) =~= effs);
        }
        while i < self.current_activated_effects.inner.len()
            invariant
                0 <= i <= self.current_activated_effects.inner.len(),
                effs == self.current_activated_effects@,
                sum as int + spec_power_added(effs.skip(i as int)) == spec_power_added(effs),
                within(sum as int, 0x100000000 * (i as int)),
            decreases self.current_activated_effects.inner.len() - i,
        {
            proof {
                assert(effs.skip(i as int).skip(1) =~= effs.skip(i as int + 1));
                assert(effs.skip(i as int)[0] == effs[i as int]);
            }
            match self.current_activated_effects.inner[i] {
                Enchantment::PowerAddPerTurn(amt) => {
                    sum = sum + amt as i128;
                },
                _ => {},
            }
            i = i + 1;
        }
        proof {
            assert(effs.skip(self.current_activated_effects.inner.len() as int)
                =~= Seq::<Enchantment>::empty());
        }
        sum
    }

    /// One trigger resolved against the player; the enemy is read only to
    /// evaluate conditions.
    pub fn trigger_effect(self, trigger: EffectTrigger, enemy: &Enemy) -> (r: Self)
        requires
            self@.trigger_fits(trigger@, enemy@),
        ensures
            r@ == self@.spec_trigger_effect(trigger@, enemy@),
    {
        match trigger {
            EffectTrigger::Always(effect) => self.apply_effect(effect),
            EffectTrigger::Condition(cond, effect) => {
                if cond.check_player(&self) && cond.check_enemy(enemy) {
                    self.apply_effect(effect)
                } else {
                    self
                }
            },
            EffectTrigger::Discard(id) => {
                let ghost cards_v = self@.cards;
                let ghost id_v = id@;
                let mut kept: Vec<PlayerCard> = Vec::new();
                let mut i: usize = 0;
                proof {
                    assert(cards_v.skip(0) =~= cards_v);
                    assert(kept.deep_view() + spec_discard(cards_v, id_v) =~= spec_discard(
                        cards_v,
                        id_v,
                    ));
                }
                while i < self.cards.inner.len()
                    invariant
                        0 <= i <= self.cards.inner.len(),
                        cards_v == self.cards.deep_view(),
                        id_v == id@,
                        kept.deep_view() + spec_discard(cards_v.skip(i as int), id_v)
                            == spec_discard(cards_v, id_v),
                    decreases self.cards.inner.len() - i,
                {
                    proof {
                        assert(cards_v.skip(i as int).skip(1) =~= cards_v.skip(i as int + 1));
                        assert(cards_v.skip(i as int)[0] == cards_v[i as int]);
                    }
                    let card = &self.cards.inner[i];
                    if !(card.id == id) {
                        let ghost kept0 = kept.deep_view();
                        kept.push(card.clone());
                        proof {
                            assert(kept.deep_view() =~= kept0.push(cards_v[i as int]));
                            assert(kept.deep_view() + spec_discard(cards_v.skip(i as int + 1), id_v)
                                =~= kept0 + (seq![cards_v[i as int]] + spec_discard(
                                cards_v.skip(i as int + 1),
                                id_v,
                            )));
                        }
                    }
                    i = i + 1;
                }
                proof {
                    assert(cards_v.skip(self.cards.inner.len() as int)
                        =~= Seq::<CardView>::empty());
                    assert(kept.deep_view() + spec_discard(
                        cards_v.skip(self.cards.inner.len() as int),
                        id_v,
                    ) =~= kept.deep_view());
                }
                Self { cards: FpVec::from_vec(kept), ..self }
            },
        }
    }

    /// One card offered for play, resolved against the enemy with the given
    /// power available.  A rejected play returns no effects and spends
    /// nothing.
    pub fn player_play_card(&self, enemy: &Enemy, card: PlayerCard, available_power: i32) -> (r: (
        FpVec<GameEffect>,
        i32,
    ))
        requires
            self@.play_fits(card@, available_power as int),
        ensures
            r.0.deep_view() == self@.spec_play_card(enemy@, card@, available_power as int).0,
            r.1 as int == self@.spec_play_card(enemy@, card@, available_power as int).1,
    {
        self.play_card_resolved(enemy, card, available_power as i128)
    }

    /// Card-play resolution over a wide running pool, shared by the public
    /// entry point and the turn engine.
    pub(crate) fn play_card_resolved(&self, enemy: &Enemy, card: PlayerCard, available: i128) -> (r:
        (FpVec<GameEffect>, i32))
        requires
            self@.play_fits(card@, available as int),
        ensures
            r.0.deep_view() == self@.spec_play_card(enemy@, card@, available as int).0,
            r.1 as int == self@.spec_play_card(enemy@, card@, available as int).1,
    {
        let ghost card0 = card@;
        let ghost effs = self@.current_activated_effects;
        let ghost c = spec_enchanted_card(card0, effs);
        let mut card = card;
        let mut cost: i128 = card.power_cost as i128;
        let mut i: usize = 0;
        proof {
            assert(effs.skip(0) =~= effs);
            assert((CardView { power_cost: cost as int, ..card@ }) == card0);
        }
        while i < self.current_activated_effects.inner.len()
            invariant
                0 <= i <= self.current_activated_effects.inner.len(),
                effs == self.current_activated_effects@,
                card@ == (CardView {
                    can_play: card@.can_play,
                    play_card_effects: card@.play_card_effects,
                    power_cost: card@.power_cost,
                    ..card0
                }),
                spec_enchanted_card(card0, effs) == spec_enchanted_card(
                    CardView { power_cost: cost as int, ..card@ },
                    effs.skip(i as int),
                ),
                -0x80000000 <= cost <= 0x80000000 + (i as int) * 0x100000000,
            decreases self.current_activated_effects.inner.len() - i,
        {
            proof {
                assert(effs.skip(i as int).skip(1) =~= effs.skip(i as int + 1));
                assert(effs.skip(i as int)[0] == effs[i as int]);
            }
            let ghost cur = CardView { power_cost: cost as int, ..card@ };
            match self.current_activated_effects.inner[i] {
                Enchantment::SpellCostAdjust(el, delta) => {
                    if el == card.element || el == ElementType::NoElement {
                        let next: i128 = cost + delta as i128;
                        cost = if next < 1 {
                            1
                        } else {
                            next
                        };
                    }
                },
                Enchantment::SpellDamageAdjust(el, adj) => {
                    if el == card.element {
                        let rider = GameEffect::enemy(
                            "Spell Damage Adjust Effect",
                            EffectTrigger::Always(
                                EffectType::Damage(Damage { element_type: el, amount: adj }),
                            ),
                        );
                        let ghost before = card@;
                        card.play_card_effects.inner.push(rider);
                        proof {
                            assert(card@.play_card_effects =~= before.play_card_effects.push(
                                spell_damage_rider(el, adj),
                            ));
                        }
                    }
                },
                Enchantment::SpellElementForbidden(el) => {
                    if el == card.element {
                        card.can_play = false;
                    }
                },
                _ => {},
            }
            proof {
                assert((CardView { power_cost: cost as int, ..card@ })
                    == spec_enchanted_card_step(cur, effs[i as int]));
            }
            i = i + 1;
        }
        proof {
            assert(effs.skip(self.current_activated_effects.inner.len() as int)
                =~= Seq::<Enchantment>::empty());
            assert(c == (CardView { power_cost: cost as int, ..card@ }));
        }
        if !card.can_play {
            let empty = FpVec::<GameEffect>::new();
            proof {
                assert(empty.deep_view() =~= Seq::<GameEffectView>::empty());
            }
            return (empty, 0);
        }
        if available < cost {
            let empty = FpVec::<GameEffect>::new();
            proof {
                assert(empty.deep_view() =~= Seq::<GameEffectView>::empty());
            }
            return (empty, 0);
        }
        let spent: i32 = cost as i32;
        let charge: i32 = -spent;
        let mut out: Vec<GameEffect> = Vec::new();
        out.push(
            GameEffect::player("Power Cost", EffectTrigger::Always(EffectType::PowerAdjust(charge))),
        );
        let ghost idv = card@.id;
        proof {
            assert(out.deep_view() =~= seq![power_spent_effect((0 - c.power_cost) as i32)]);
        }
        let mut j: usize = 0;
        while j < card.play_card_effects.inner.len()
            invariant
                0 <= j <= card.play_card_effects.inner.len(),
                idv == card@.id,
                c.play_card_effects == card@.play_card_effects,
                out.deep_view().len() == 1 + j,
                out.deep_view()[0] == power_spent_effect((0 - c.power_cost) as i32),
                forall|m: int| 0 <= m < j ==> out.deep_view()[1 + m] == rebound_one(
                    #[trigger] card@.play_card_effects[m],
                    idv,
                ),
            decreases card.play_card_effects.inner.len() - j,
        {
            let ghost out0 = out.deep_view();
            let eff = &card.play_card_effects.inner[j];
            let is_discard = match &eff.effect {
                EffectTrigger::Discard(_) => true,
                _ => false,
            };
            if is_discard {
                out.push(GameEffect::player("Discard", EffectTrigger::Discard(card.id.clone())));
            } else {
                out.push(eff.clone());
            }
            proof {
                assert(out.deep_view() =~= out0.push(
                    rebound_one(card@.play_card_effects[j as int], idv),
                ));
            }
            j = j + 1;
        }
        let ghost base = seq![power_spent_effect((0 - c.power_cost) as i32)] + spec_rebound(
            c.play_card_effects,
            c.id,
        );
        proof {
            assert(out.deep_view() =~= base);
        }
        let ghost thorns_fx = enemy@.player_play_card_effects;
        let mut k: usize = 0;
        proof {
            assert(thorns_fx.skip(0) =~= thorns_fx);
            assert(out.deep_view() + spec_thorns(thorns_fx, c) =~= base + spec_thorns(
                thorns_fx,
                c,
            ));
        }
        while k < enemy.player_play_card_effects.inner.len()
            invariant
                0 <= k <= enemy.player_play_card_effects.inner.len(),
                thorns_fx == enemy.player_play_card_effects.deep_view(),
                c.element == card@.element,
                out.deep_view() + spec_thorns(thorns_fx.skip(k as int), c) == base + spec_thorns(
                    thorns_fx,
                    c,
                ),
            decreases enemy.player_play_card_effects.inner.len() - k,
        {
            proof {
                assert(thorns_fx.skip(k as int).skip(1) =~= thorns_fx.skip(k as int + 1));
                assert(thorns_fx.skip(k as int)[0] == thorns_fx[k as int]);
                assert(thorns_fx[k as int] == enemy.player_play_card_effects.inner[k as int]@);
            }
            let ghost out0 = out.deep_view();
            let eff = &enemy.player_play_card_effects.inner[k];
            match &eff.effect {
                EffectTrigger::Condition(cond, teff) => {
                    if cond.check_player_card(&card) {
                        out.push(
                            GameEffect {
                                name: eff.name.clone(),
                                target: eff.target,
                                effect: EffectTrigger::Always(*teff),
                            },
                        );
                        proof {
                            assert(out.deep_view() =~= out0.push(
                                GameEffectView {
                                    name: thorns_fx[k as int].name,
                                    target: thorns_fx[k as int].target,
                                    effect: TriggerView::Always(*teff),
                                },
                            ));
                            assert(out.deep_view() + spec_thorns(thorns_fx.skip(k as int + 1), c)
                                =~= out0 + (seq![
                                GameEffectView {
                                    name: thorns_fx[k as int].name,
                                    target: thorns_fx[k as int].target,
                                    effect: TriggerView::Always(*teff),
                                },
                            ] + spec_thorns(thorns_fx.skip(k as int + 1), c)));
                        }
                    }
                },
                _ => {},
            }
            k = k + 1;
        }
        proof {
            assert(thorns_fx.skip(enemy.player_play_card_effects.inner.len() as int)
                =~= Seq::<GameEffectView>::empty());
            assert(out.deep_view() + spec_thorns(Seq::<GameEffectView>::empty(), c)
                =~= out.deep_view());
            assert(out.deep_view() =~= self@.spec_play_card(enemy@, card0, available as int).0);
        }
        (FpVec::from_vec(out), spent)
    }

    /// One effect payload applied to the player.
    fn apply_effect(self, effect: EffectType) -> (r: Self)
        requires
            self@.apply_fits(effect),
        ensures
            r@ == self@.spec_apply_effect(effect),
    {
        match effect {
            EffectType::Damage(dmg) => {
                let amount: i128 = dmg.amount as i128;
                self.take_damage(amount)
            },
            EffectType::LifeAdjust(amt) => {
                let hp: i64 = self.hit_points as i64 + amt as i64;
                Self { hit_points: hp as i32, ..self }
            },
            EffectType::PowerAdjust(amt) => {
                let power: i64 = self.power_reserve as i64 + amt as i64;
                Self { power_reserve: power as i32, ..self }
            },
            EffectType::PercentDamage(pct) => {
                let amount: i128 = scale_wide(self.hit_points as i128, pct);
                self.take_damage(amount)
            },
            EffectType::Enchantment(_) => self,
            EffectType::SkipTurn => self,
        }
    }

    /// Raw damage softened by the activated shields, in order, each
    /// subtraction clamped at zero; the element plays no part on the player's
    /// side.
    fn take_damage(self, amount: i128) -> (r: Self)
        requires
            within(amount as int, 0x1000000000000000000000000),
            fits_i32(self@.spec_take_damage(amount as int).hit_points),
        ensures
            r@ == self@.spec_take_damage(amount as int),
    {
        let ghost effs = self@.current_activated_effects;
        let mut dmg: i128 = amount;
        let mut i: usize = 0;
        proof {
            assert(effs.skip(0) =~= effs);
        }
        while i < self.current_activated_effects.inner.len()
            invariant
                0 <= i <= self.current_activated_effects.inner.len(),
                effs == self.current_activated_effects@,
                spec_shielded(amount as int, effs) == spec_shielded(dmg as int, effs.skip(i as int)),
                dmg >= -0x1000000000000000000000000,
                dmg <= 0x1000000000000000000000000 + (i as int) * 0x100000000,
            decreases self.current_activated_effects.inner.len() - i,
        {
            proof {
                assert(effs.skip(i as int).skip(1) =~= effs.skip(i as int + 1));
                assert(effs.skip(i as int)[0] == effs[i as int]);
            }
            match self.current_activated_effects.inner[i] {
                Enchantment::ShieldDamage(amt) => {
                    let next: i128 = dmg - amt as i128;
                    if next < 0 {
                        dmg = 0;
                    } else {
                        dmg = next;
                    }
                },
                _ => {},
            }
            i = i + 1;
        }
        proof {
            assert(effs.skip(self.current_activated_effects.inner.len() as int)
                =~= Seq::<Enchantment>::empty());
        }
        let hp: i128 = self.hit_points as i128 - dmg;
        Self { hit_points: hp as i32, ..self }
    }
}

/// The ready-made cards of the catalog.  Each carries a fresh id; everything
/// else about it is pinned down.
pub struct SpecialCards;

impl SpecialCards {
    pub fn env_suit() -> (r: PlayerCard)
        ensures
            r@.name == "Environmental Suit"@,
            r@.element == ElementType::Water,
            r@.can_play == true,
            r@.power_cost == 0,
            r@.game_start_effects == seq![shield_effect(2)],
            r@.start_turn_effects == Seq::<GameEffectView>::empty(),
            r@.play_card_effects == Seq::<GameEffectView>::empty(),
    {
        let r = PlayerCard::new(
            "Environmental Suit",
            "If you have this card in your hand, take 2 less damage",
            ElementType::Water,
        ).game_start_effect(Enchantments::player_shield_from_elem(2));
        proof {
            assert(r@.game_start_effects =~= seq![shield_effect(2)]);
        }
        r
    }

    pub fn power_amp() -> (r: PlayerCard)
        ensures
            r@.name == "Power Amplifier"@,
            r@.element == ElementType::Wind,
            r@.can_play == true,
            r@.power_cost == 0,
            r@.game_start_effects == seq![
                spell_damage_adjust_effect(ElementType::NoElement, 2),
            ],
            r@.start_turn_effects == Seq::<GameEffectView>::empty(),
            r@.play_card_effects == Seq::<GameEffectView>::empty(),
    {
        let r = PlayerCard::new(
            "Power Amplifier",
            "If you have this card in your hand, all spells do 2 more damage",
            ElementType::Wind,
        ).game_start_effect(Enchantments::player_elem_spell_damage_adj(ElementType::NoElement, 2));
        proof {
            assert(r@.game_start_effects =~= seq![
                spell_damage_adjust_effect(ElementType::NoElement, 2),
            ]);
        }
        r
    }

    pub fn helis() -> (r: PlayerCard)
        ensures
            r@.name == "Hospital Helicopters"@,
            r@.element == ElementType::Wind,
            r@.can_play == true,
            r@.power_cost == 0,
            r@.game_start_effects == seq![heal_per_turn_effect(3)],
            r@.start_turn_effects == Seq::<GameEffectView>::empty(),
            r@.play_card_effects == Seq::<GameEffectView>::empty(),
    {
        let r = PlayerCard::new(
            "Hospital Helicopters",
            "If you have this card in your hand, heal 3 per turn",
            ElementType::Wind,
        ).game_start_effect(Enchantments::player_heal_per_turn(3));
        proof {
            assert(r@.game_start_effects =~= seq![heal_per_turn_effect(3)]);
        }
        r
    }

    pub fn hydro_power() -> (r: PlayerCard)
        ensures
            r@.name == "Hydroelectric Power"@,
            r@.element == ElementType::Water,
            r@.can_play == true,
            r@.power_cost == 0,
            r@.game_start_effects == seq![
                spell_damage_adjust_effect(ElementType::Water, 3),
            ],
            r@.start_turn_effects == Seq::<GameEffectView>::empty(),
            r@.play_card_effects == Seq::<GameEffectView>::empty(),
    {
        let r = PlayerCard::new(
            "Hydroelectric Power",
            "If you have this card in your hand, water spells do 3 more damage",
            ElementType::Water,
        ).game_start_effect(Enchantments::player_elem_spell_damage_adj(ElementType::Water, 3));
        proof {
            assert(r@.game_start_effects =~= seq![
                spell_damage_adjust_effect(ElementType::Water, 3),
            ]);
        }
        r
    }

    pub fn bulldozers() -> (r: PlayerCard)
        ensures
            r@.name == "heavy Bulldozers"@,
            r@.element == ElementType::Land,
            r@.can_play == true,
            r@.power_cost == 0,
            r@.game_start_effects == seq![
                spell_damage_adjust_effect(ElementType::Land, 3),
            ],
            r@.start_turn_effects == Seq::<GameEffectView>::empty(),
            r@.play_card_effects == Seq::<GameEffectView>::empty(),
    {
        let r = PlayerCard::new(
            "heavy Bulldozers",
            "If you have this card in your hand, land spells do 3 more damage",
            ElementType::Land,
        ).game_start_effect(Enchantments::player_elem_spell_damage_adj(ElementType::Land, 3));
        proof {
            assert(r@.game_start_effects =~= seq![
                spell_damage_adjust_effect(ElementType::Land, 3),
            ]);
        }
        r
    }

    pub fn wind_turbines() -> (r: PlayerCard)
        ensures
            r@.name == "Wind Turbines"@,
            r@.element == ElementType::Wind,
            r@.can_play == true,
            r@.power_cost == 0,
            r@.game_start_effects == seq![
                spell_damage_adjust_effect(ElementType::Wind, 3),
            ],
            r@.start_turn_effects == Seq::<GameEffectView>::empty(),
            r@.play_card_effects == Seq::<GameEffectView>::empty(),
    {
        let r = PlayerCard::new(
            "Wind Turbines",
            "If you have this card in your hand, wind spells do 3 more damage",
            ElementType::Wind,
        ).game_start_effect(Enchantments::player_elem_spell_damage_adj(ElementType::Wind, 3));
        proof {
            assert(r@.game_start_effects =~= seq![
                spell_damage_adjust_effect(ElementType::Wind, 3),
            ]);
        }
        r
    }

    pub fn military_aid() -> (r: PlayerCard)
        ensures
            r@.name == "Military Aid"@,
            r@.element == ElementType::Land,
            r@.can_play == true,
            r@.power_cost == 0,
            r@.game_start_effects == seq![
                spell_damage_adjust_effect(ElementType::NoElement, 2),
            ],
            r@.start_turn_effects == Seq::<GameEffectView>::empty(),
            r@.play_card_effects == Seq::<GameEffectView>::empty(),
    {
        let r = PlayerCard::new(
            "Military Aid",
            "If you have this card in your hand, add 3 to any physical damage",
            ElementType::Land,
        ).game_start_effect(Enchantments::player_elem_spell_damage_adj(ElementType::NoElement, 2));
        proof {
            assert(r@.game_start_effects =~= seq![
                spell_damage_adjust_effect(ElementType::NoElement, 2),
            ]);
        }
        r
    }

    pub fn time_slip() -> (r: PlayerCard)
        ensures
            r@.name == "Time Slip"@,
            r@.element == ElementType::Wind,
            r@.can_play == true,
            r@.power_cost == 0,
            r@.game_start_effects == Seq::<GameEffectView>::empty(),
            r@.start_turn_effects == Seq::<GameEffectView>::empty(),
            r@.play_card_effects == seq![skip_turn_effect(), discard_marker_effect()],
    {
        let r = PlayerCard::new(
            "Time Slip",
            "Discard this card and Skip Enemy Turn",
            ElementType::Wind,
        ).play_card_effect(CardEffects::skip_enemy_turn()).play_card_effect(
            OnCardPlayEffects::discard_this_card(),
        );
        proof {
            assert(r@.play_card_effects =~= seq![skip_turn_effect(), discard_marker_effect()]);
        }
        r
    }

    pub fn fire_breaks() -> (r: PlayerCard)
        ensures
            r@.name == "Fire Breaks"@,
            r@.element == ElementType::Land,
            r@.can_play == true,
            r@.power_cost == 0,
            r@.game_start_effects == Seq::<GameEffectView>::empty(),
            r@.start_turn_effects == Seq::<GameEffectView>::empty(),
            r@.play_card_effects == seq![
                element_damage_effect(ElementType::Land, 6),
                discard_marker_effect(),
            ],
    {
        let r = PlayerCard::new(
            "Fire Breaks",
            "Discard this card and Deal 6 Land Damage",
            ElementType::Land,
        ).play_card_effect(CardEffects::do_element_damage(ElementType::Land, 6)).play_card_effect(
            OnCardPlayEffects::discard_this_card(),
        );
        proof {
            assert(r@.play_card_effects =~= seq![
                element_damage_effect(ElementType::Land, 6),
                discard_marker_effect(),
            ]);
        }
        r
    }

    pub fn fire_hose() -> (r: PlayerCard)
        ensures
            r@.name == "Fire Hoses"@,
            r@.element == ElementType::Water,
            r@.can_play == true,
            r@.power_cost == 0,
            r@.game_start_effects == Seq::<GameEffectView>::empty(),
            r@.start_turn_effects == Seq::<GameEffectView>::empty(),
            r@.play_card_effects == seq![
                element_damage_effect(ElementType::Water, 6),
                discard_marker_effect(),
            ],
    {
        let r = PlayerCard::new(
            "Fire Hoses",
            "Discard this card and Deal 6 Water Damage",
            ElementType::Water,
        ).play_card_effect(CardEffects::do_element_damage(ElementType::Water, 6)).play_card_effect(
            OnCardPlayEffects::discard_this_card(),
        );
        proof {
            assert(r@.play_card_effects =~= seq![
                element_damage_effect(ElementType::Water, 6),
                discard_marker_effect(),
            ]);
        }
        r
    }

    pub fn jet_blast() -> (r: PlayerCard)
        ensures
            r@.name == "Jet Blast"@,
            r@.element == ElementType::Wind,
            r@.can_play == true,
            r@.power_cost == 0,
            r@.game_start_effects == Seq::<GameEffectView>::empty(),
            r@.start_turn_effects == Seq::<GameEffectView>::empty(),
            r@.play_card_effects == seq![
                element_damage_effect(ElementType::Wind, 6),
                discard_marker_effect(),
            ],
    {
        let r = PlayerCard::new(
            "Jet Blast",
            "Discard this card and Deal 6 Wind Damage",
            ElementType::Wind,
        ).play_card_effect(CardEffects::do_element_damage(ElementType::Wind, 6)).play_card_effect(
            OnCardPlayEffects::discard_this_card(),
        );
        proof {
            assert(r@.play_card_effects =~= seq![
                element_damage_effect(ElementType::Wind, 6),
                discard_marker_effect(),
            ]);
        }
        r
    }

    pub fn logistics() -> (r: PlayerCard)
        ensures
            r@.name == "Supply Chains"@,
            r@.element == ElementType::Wind,
            r@.can_play == true,
            r@.power_cost == 0,
            r@.game_start_effects == Seq::<GameEffectView>::empty(),
            r@.start_turn_effects == Seq::<GameEffectView>::empty(),
            r@.play_card_effects == seq![
                physical_damage_effect(4),
                discard_marker_effect(),
            ],
    {
        let r = PlayerCard::new(
            "Supply Chains",
            "Discard this card and Deal 4 Physical Damage",
            ElementType::Wind,
        ).play_card_effect(CardEffects::do_physical_damage(4)).play_card_effect(
            OnCardPlayEffects::discard_this_card(),
        );
        proof {
            assert(r@.play_card_effects =~= seq![
                physical_damage_effect(4),
                discard_marker_effect(),
            ]);
        }
        r
    }

    pub fn inside_help() -> (r: PlayerCard)
        ensures
            r@.name == "Inside Help"@,
            r@.element == ElementType::Wind,
            r@.can_play == true,
            r@.power_cost == 0,
            r@.game_start_effects == Seq::<GameEffectView>::empty(),
            r@.start_turn_effects == Seq::<GameEffectView>::empty(),
            r@.play_card_effects == seq![
                percent_damage_effect(50),
                discard_marker_effect(),
            ],
    {
        let r = PlayerCard::new(
            "Inside Help",
            "Discard this card and Cut Enemy Health in Half",
            ElementType::Wind,
        ).play_card_effect(CardEffects::do_percent_damage(50)).play_card_effect(
            OnCardPlayEffects::discard_this_card(),
        );
        proof {
            assert(r@.play_card_effects =~= seq![
                percent_damage_effect(50),
                discard_marker_effect(),
            ]);
        }
        r
    }

    pub fn tbd() -> (r: PlayerCard)
        ensures
            r@.name == "Time Slip"@,
            r@.element == ElementType::Wind,
            r@.can_play == true,
            r@.power_cost == 0,
            r@.game_start_effects == Seq::<GameEffectView>::empty(),
            r@.start_turn_effects == Seq::<GameEffectView>::empty(),
            r@.play_card_effects == seq![skip_turn_effect(), discard_marker_effect()],
    {
        let r = PlayerCard::new(
            "Time Slip",
            "Discard this card and Skip Enemy Turn",
            ElementType::Wind,
        ).play_card_effect(CardEffects::skip_enemy_turn()).play_card_effect(
            OnCardPlayEffects::discard_this_card(),
        );
        proof {
            assert(r@.play_card_effects =~= seq![skip_turn_effect(), discard_marker_effect()]);
        }
        r
    }
}

/// However the activated enchantments shift a card's cost, the result is
/// either at least one or the card's own cost untouched: a cost adjustment can
/// never drive the price of a play to zero or below.
pub proof fn lemma_cost_never_below_one(card: CardView, effs: Seq<Enchantment>)
    ensures
        spec_enchanted_card(card, effs).power_cost >= 1 || spec_enchanted_card(card, effs).power_cost
            == card.power_cost,
    decreases effs.len(),
{
    if effs.len() == 0 {
    } else {
        lemma_cost_never_below_one(spec_enchanted_card_step(card, effs[0]), effs.skip(1));
    }
}

/// A conditional trigger whose condition does not hold leaves the player equal
/// in every field to what it was.
pub proof fn lemma_condition_false_is_identity(
    p: PlayerView,
    e: EnemyView,
    cond: EffectCondition,
    effect: EffectType,
)
    requires
        !(cond.spec_check_player(p.cards) && cond.spec_check_enemy(e)),
    ensures
        p.spec_trigger_effect(TriggerView::Condition(cond, effect), e) == p,
{
}

/// Discarding a card never touches the activated enchantments: an enchantment
/// granted at game start outlives the card that declared it.  Hit points and
/// the power reserve are untouched as well.
pub proof fn lemma_discard_preserves_enchantments(p: PlayerView, e: EnemyView, id: Seq<char>)
    ensures
        p.spec_trigger_effect(TriggerView::Discard(id), e).current_activated_effects
            == p.current_activated_effects,
        p.spec_trigger_effect(TriggerView::Discard(id), e).hit_points == p.hit_points,
        p.spec_trigger_effect(TriggerView::Discard(id), e).power_reserve == p.power_reserve,
{
}

} // verus!
