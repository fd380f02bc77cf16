pub mod enemy;
pub mod fp_vec;
pub mod game;
pub mod game_effects;
pub mod player;
pub mod text;

use vstd::prelude::*;
use vstd::string::StringExecFns;

use crate::enemy::{Enemy, EnemyView};
use crate::player::{CardView, Player, PlayerCard};
use crate::text::{i32_string, spec_int_dec, spec_nat_dec, u32_string};

verus! {

/// True when `v` is representable as an `i32`.
pub open spec fn fits_i32(v: int) -> bool {
    i32::MIN <= v <= i32::MAX
}

/// True when `v` lies within `[-b, b]`.
pub open spec fn within(v: int, b: int) -> bool {
    -b <= v <= b
}

/// Which actor an effect is aimed at.
#[derive(Debug, Clone, Copy, PartialEq, Eq, Structural)]
pub enum EffectTarget {
    Player,
    Enemy,
}

impl EffectTarget {
    /// What `description` returns.
    pub open spec fn spec_description(self) -> Seq<char> {
        match self {
            EffectTarget::Player => "PLAYER"@,
            EffectTarget::Enemy => "ENEMY"@,
        }
    }

    pub fn description(&self) -> (r: String)
        ensures
            r@ == self.spec_description(),
    {
        match self {
            EffectTarget::Player => "PLAYER".to_owned(),
            EffectTarget::Enemy => "ENEMY".to_owned(),
        }
    }

    pub fn is_player(&self) -> (r: bool)
        ensures
            r == (self is Player),
    {
        match self {
            EffectTarget::Player => true,
            EffectTarget::Enemy => false,
        }
    }

    pub fn is_enemy(&self) -> (r: bool)
        ensures
            r == (self is Enemy),
    {
        match self {
            EffectTarget::Player => false,
            EffectTarget::Enemy => true,
        }
    }
}

/// The elemental affinity of cards and damage.
#[derive(Debug, Clone, Copy, PartialEq, Eq, Structural)]
pub enum ElementType {
    Wind,
    Land,
    Water,
    NoElement,
}

impl ElementType {
    /// What `description` returns.
    pub open spec fn spec_description(self) -> Seq<char> {
        match self {
            ElementType::Wind => "Wind"@,
            ElementType::Land => "Land"@,
            ElementType::Water => "Water"@,
            ElementType::NoElement => "No Elem"@,
        }
    }

    pub fn description(&self) -> (r: String)
        ensures
            r@ == self.spec_description(),
    {
        match self {
            ElementType::Wind => "Wind".to_owned(),
            ElementType::Land => "Land".to_owned(),
            ElementType::Water => "Water".to_owned(),
            ElementType::NoElement => "No Elem".to_owned(),
        }
    }
}

/// One damage event: an amount tagged with an element.
#[derive(Debug, Clone, Copy, PartialEq, Eq, Structural)]
pub struct Damage {
    pub amount: i32,
    pub element_type: ElementType,
}

impl Damage {
    /// Physical (element-less) damage.
    pub fn raw(amount: i32) -> (r: Self)
        ensures
            r == (Damage { element_type: ElementType::NoElement, amount }),
    {
        Self { element_type: ElementType::NoElement, amount }
    }
}

/// `amount` scaled by a percentage given in whole points (50 means one half),
/// truncated toward zero.
pub open spec fn scaled(amount: int, pct: u32) -> int {
    if amount >= 0 {
        (amount * pct) / 100
    } else {
        -((-amount * pct) / 100)
    }
}

/// One defensive rule: how a raw damage amount is adjusted before it lands.
///
/// `Percent` carries a percentage in whole points, so `Percent(0)` voids the
/// damage and `Percent(50)` halves it, truncating toward zero.
#[derive(Debug, Clone, Copy, PartialEq, Eq, Structural)]
pub enum DamageAdjustment {
    Percent(u32),
    Absolute(i32),
    Normal,
}

impl DamageAdjustment {
    /// What `adjust_damage` returns, over unbounded integers.  An `Absolute`
    /// slot shields by its delta, so a negative delta makes the slot strictly
    /// worse than `Normal`: `Absolute(-1)` takes one extra.
    pub open spec fn spec_adjust(self, damage: int) -> int {
        match self {
            DamageAdjustment::Absolute(v) => damage - v,
            DamageAdjustment::Percent(p) => scaled(damage, p),
            DamageAdjustment::Normal => damage,
        }
    }

    pub fn adjust_damage(&self, damage: i32) -> (r: i32)
        requires
            fits_i32(self.spec_adjust(damage as int)),
        ensures
            r as int == self.spec_adjust(damage as int),
    {
        match self {
            DamageAdjustment::Absolute(v) => {
                let wide: i128 = damage as i128 - *v as i128;
                wide as i32
            },
            DamageAdjustment::Percent(p) => {
                let wide: i128 = scale_wide(damage as i128, *p);
                wide as i32
            },
            DamageAdjustment::Normal => damage,
        }
    }
}

/// Scaling by a percentage, computed over wide integers so that no operand an
/// effect can produce ever overflows.
pub(crate) fn scale_wide(amount: i128, pct: u32) -> (r: i128)
    requires
        within(amount as int, 0x1000000000000000000000000),
    ensures
        r as int == scaled(amount as int, pct),
        within(r as int, 0x10000000000000000000000000000000),
        within(amount as int, 0x100000000) ==> within(r as int, 0x10000000000000000),
{
    if amount >= 0 {
        let a: u128 = amount as u128;
        let p: u128 = pct as u128;
        assert(a * p <= 0x1000000000000000000000000u128 * 0xffffffffu128) by (nonlinear_arith)
            requires
                a <= 0x1000000000000000000000000u128,
                p <= 0xffffffffu128,
        ;
        let prod: u128 = a * p;
        proof {
            if within(amount as int, 0x100000000) {
                assert(a * p <= 0x100000000u128 * 0xffffffffu128) by (nonlinear_arith)
                    requires
                        a <= 0x100000000u128,
                        p <= 0xffffffffu128,
                ;
            }
        }
        (prod / 100) as i128
    } else {
        let mag: u128 = (-amount) as u128;
        let p: u128 = pct as u128;
        assert(mag * p <= 0x1000000000000000000000000u128 * 0xffffffffu128) by (nonlinear_arith)
            requires
                mag <= 0x1000000000000000000000000u128,
                p <= 0xffffffffu128,
        ;
        let prod: u128 = mag * p;
        proof {
            if within(amount as int, 0x100000000) {
                assert(mag * p <= 0x100000000u128 * 0xffffffffu128) by (nonlinear_arith)
                    requires
                        mag <= 0x100000000u128,
                        p <= 0xffffffffu128,
                ;
            }
        }
        -((prod / 100) as i128)
    }
}

/// One defensive adjustment applied over wide integers.
pub(crate) fn adjust_wide(adj: &DamageAdjustment, amount: i128) -> (r: i128)
    requires
        within(amount as int, 0x1000000000000000000000000),
    ensures
        r as int == adj.spec_adjust(amount as int),
        within(r as int, 0x10000000000000000000000000000000),
{
    match adj {
        DamageAdjustment::Absolute(v) => amount - *v as i128,
        DamageAdjustment::Percent(p) => scale_wide(amount, *p),
        DamageAdjustment::Normal => amount,
    }
}

/// An enemy's full defensive posture: one adjustment per element and a
/// catch-all `any` slot.  Incoming damage is adjusted by the `any` slot and by
/// the matching element slot independently, and the smaller result lands.
#[derive(Debug, Clone, Copy, PartialEq, Eq, Structural)]
pub struct DefenseProps {
    pub wind: DamageAdjustment,
    pub water: DamageAdjustment,
    pub land: DamageAdjustment,
    pub any: DamageAdjustment,
}

impl DefenseProps {
    /// The element-specific branch of the resolution; element-less damage
    /// passes through unadjusted.
    pub open spec fn spec_element_branch(self, element: ElementType, amount: int) -> int {
        match element {
            ElementType::Wind => self.wind.spec_adjust(amount),
            ElementType::Land => self.land.spec_adjust(amount),
            ElementType::Water => self.water.spec_adjust(amount),
            ElementType::NoElement => amount,
        }
    }

    /// Actual damage: the minimum of the `any` branch and the element branch,
    /// both computed from the same raw amount.
    pub open spec fn spec_resolved(self, element: ElementType, amount: int) -> int {
        let any_branch = self.any.spec_adjust(amount);
        let elem_branch = self.spec_element_branch(element, amount);
        if any_branch <= elem_branch {
            any_branch
        } else {
            elem_branch
        }
    }
}

/// A persistent modifier, activated once at game start and held in an actor's
/// activated set for the whole match.
#[derive(Debug, Clone, Copy, PartialEq, Eq, Structural)]
pub enum Enchantment {
    /// Shifts the power cost of spells of the given element (or of every
    /// element, when the tag is `NoElement`); the shifted cost never drops
    /// below one.
    SpellCostAdjust(ElementType, i32),
    /// Adds a damage rider to spells of the given element.
    SpellDamageAdjust(ElementType, i32),
    /// Grants extra power at the start of each player turn.
    PowerAddPerTurn(i32),
    /// Subtracts from incoming damage, clamped at zero.
    ShieldDamage(i32),
    /// Adjusts the player's life at the end of each player turn.
    LifeAdjPerTurn(i32),
    /// Spells of the given element cannot be played.
    SpellElementForbidden(ElementType),
}

/// A predicate gating a conditional effect.
#[derive(Debug, Clone, Copy, PartialEq, Eq, Structural)]
pub enum EffectCondition {
    /// Hand-state query: the live hand holds a card of this element.
    PlayerHasCardWithElement(ElementType),
    /// Hand-state query: the live hand holds no card of this element.
    PlayerHasNoCardWithElement(ElementType),
    /// Play-event query: the card being played right now is of this element.
    PlayerPlaysCardWithElement(ElementType),
}

impl EffectCondition {
    /// What `description` returns.
    pub open spec fn spec_description(self) -> Seq<char> {
        match self {
            EffectCondition::PlayerHasCardWithElement(el) => "HAS_ELEMENT ["@
                + el.spec_description() + "]"@,
            EffectCondition::PlayerHasNoCardWithElement(el) => "HAS_NO_ELEMENT ["@
                + el.spec_description() + "]"@,
            EffectCondition::PlayerPlaysCardWithElement(el) => "PLAYS_SPELL_ELEMENT ["@
                + el.spec_description() + "]"@,
        }
    }

    pub fn description(&self) -> (r: String)
        ensures
            r@ == self.spec_description(),
    {
        match self {
            EffectCondition::PlayerHasCardWithElement(el) => "HAS_ELEMENT [".to_owned().concat(
                el.description().as_str(),
            ).concat("]"),
            EffectCondition::PlayerHasNoCardWithElement(el) => "HAS_NO_ELEMENT [".to_owned().concat(
                el.description().as_str(),
            ).concat("]"),
            EffectCondition::PlayerPlaysCardWithElement(el) => "PLAYS_SPELL_ELEMENT ["
                .to_owned()
                .concat(el.description().as_str())
                .concat("]"),
        }
    }

    /// The hand-state reading of the condition, against the player's hand.
    /// Play-event conditions never hold against a hand.
    pub open spec fn spec_check_player(self, cards: Seq<CardView>) -> bool {
        match self {
            EffectCondition::PlayerHasCardWithElement(el) => exists|i: int|
                0 <= i < cards.len() && (#[trigger] cards[i]).element == el,
            EffectCondition::PlayerHasNoCardWithElement(el) => forall|i: int|
                0 <= i < cards.len() ==> (#[trigger] cards[i]).element != el,
            EffectCondition::PlayerPlaysCardWithElement(_) => false,
        }
    }

    /// The play-event reading of the condition, against the one card being
    /// played.  Hand-state conditions never hold against a single card.
    pub open spec fn spec_check_card(self, card: CardView) -> bool {
        match self {
            EffectCondition::PlayerPlaysCardWithElement(el) => card.element == el,
            _ => false,
        }
    }

    /// The enemy-side hook is a deliberate extension point that currently
    /// accepts every condition.
    pub open spec fn spec_check_enemy(self, enemy: EnemyView) -> bool {
        true
    }

    pub fn check_player(&self, player: &Player) -> (r: bool)
        ensures
            r == self.spec_check_player(player@.cards),
    {
        match self {
            EffectCondition::PlayerHasCardWithElement(el) => {
                let mut i: usize = 0;
                let mut found = false;
                while i < player.cards.inner.len()
                    invariant
                        0 <= i <= player.cards.inner.len(),
                        found <==> exists|j: int|
                            0 <= j < i && (#[trigger] player@.cards[j]).element == el,
                    decreases player.cards.inner.len() - i,
                {
                    proof {
                        assert(player@.cards[i as int] == player.cards.inner[i as int]@);
                    }
                    if player.cards.inner[i].element == *el {
                        found = true;
                        proof {
                            assert((#[trigger] player@.cards[i as int]).element == el);
                        }
                    }
                    i = i + 1;
                }
                found
            },
            EffectCondition::PlayerHasNoCardWithElement(el) => {
                let mut i: usize = 0;
                let mut none_found = true;
                while i < player.cards.inner.len()
                    invariant
                        0 <= i <= player.cards.inner.len(),
                        none_found <==> forall|j: int|
                            0 <= j < i ==> (#[trigger] player@.cards[j]).element != el,
                    decreases player.cards.inner.len() - i,
                {
                    proof {
                        assert(player@.cards[i as int] == player.cards.inner[i as int]@);
                    }
                    if player.cards.inner[i].element == *el {
                        none_found = false;
                        proof {
                            assert((#[trigger] player@.cards[i as int]).element == el);
                        }
                    }
                    i = i + 1;
                }
                none_found
            },
            EffectCondition::PlayerPlaysCardWithElement(_) => false,
        }
    }

    pub fn check_player_card(&self, card: &PlayerCard) -> (r: bool)
        ensures
            r == self.spec_check_card(card@),
    {
        match self {
            EffectCondition::PlayerPlaysCardWithElement(el) => card.element == *el,
            _ => false,
        }
    }

    pub fn check_enemy(&self, enemy: &Enemy) -> (r: bool)
        ensures
            r == self.spec_check_enemy(enemy@),
            r == true,
    {
        true
    }
}

/// An effect payload: what happens when a trigger fires.
#[derive(Debug, Clone, Copy, PartialEq, Eq, Structural)]
pub enum EffectType {
    Damage(Damage),
    LifeAdjust(i32),
    PowerAdjust(i32),
    Enchantment(Enchantment),
    /// Damage worth a percentage of the target's current hit points, in whole
    /// points; meaningful values lie between 0 and 100.
    PercentDamage(u32),
    SkipTurn,
}

impl Enchantment {
    /// What `description` returns.
    pub open spec fn spec_description(self) -> Seq<char> {
        match self {
            Enchantment::SpellCostAdjust(el, amt) => "Spell cost adjust "@ + spec_int_dec(
                amt as int,
            ) + " ["@ + el.spec_description() + "]"@,
            Enchantment::SpellDamageAdjust(el, amt) => "Spell damage adjust "@ + spec_int_dec(
                amt as int,
            ) + " ["@ + el.spec_description() + "]"@,
            Enchantment::PowerAddPerTurn(amt) => "Add "@ + spec_int_dec(amt as int)
                + " power per turn"@,
            Enchantment::ShieldDamage(amt) => "Damage adjust "@ + spec_int_dec(amt as int)
                + " on Attack"@,
            Enchantment::LifeAdjPerTurn(amt) => "Each turn, adjust life by "@ + spec_int_dec(
                amt as int,
            ),
            Enchantment::SpellElementForbidden(el) => el.spec_description() + " Spells Forbidden"@,
        }
    }

    pub fn description(&self) -> (r: String)
        ensures
            r@ == self.spec_description(),
    {
        match self {
            Enchantment::SpellCostAdjust(el, amt) => "Spell cost adjust ".to_owned().concat(
                i32_string(*amt).as_str(),
            ).concat(" [").concat(el.description().as_str()).concat("]"),
            Enchantment::SpellDamageAdjust(el, amt) => "Spell damage adjust ".to_owned().concat(
                i32_string(*amt).as_str(),
            ).concat(" [").concat(el.description().as_str()).concat("]"),
            Enchantment::PowerAddPerTurn(amt) => "Add ".to_owned().concat(
                i32_string(*amt).as_str(),
            ).concat(" power per turn"),
            Enchantment::ShieldDamage(amt) => "Damage adjust ".to_owned().concat(
                i32_string(*amt).as_str(),
            ).concat(" on Attack"),
            Enchantment::LifeAdjPerTurn(amt) => "Each turn, adjust life by ".to_owned().concat(
                i32_string(*amt).as_str(),
            ),
            Enchantment::SpellElementForbidden(el) => el.description().concat(" Spells Forbidden"),
        }
    }
}

impl EffectType {
    /// What `description` returns.
    pub open spec fn spec_description(self) -> Seq<char> {
        match self {
            EffectType::Damage(dmg) => "Damage ["@ + dmg.element_type.spec_description() + "/"@
                + spec_int_dec(dmg.amount as int) + "]"@,
            EffectType::LifeAdjust(adj) => "Life "@ + spec_int_dec(adj as int),
            EffectType::PowerAdjust(adj) => "Power "@ + spec_int_dec(adj as int),
            EffectType::Enchantment(ench) => "Enchant ["@ + ench.spec_description() + "]"@,
            EffectType::PercentDamage(pct) => "Damage "@ + spec_nat_dec(pct as nat) + "%"@,
            EffectType::SkipTurn => "Skip Turn"@,
        }
    }

    pub fn description(&self) -> (r: String)
        ensures
            r@ == self.spec_description(),
    {
        match self {
            EffectType::Damage(dmg) => "Damage [".to_owned().concat(
                dmg.element_type.description().as_str(),
            ).concat("/").concat(i32_string(dmg.amount).as_str()).concat("]"),
            EffectType::LifeAdjust(adj) => "Life ".to_owned().concat(i32_string(*adj).as_str()),
            EffectType::PowerAdjust(adj) => "Power ".to_owned().concat(i32_string(*adj).as_str()),
            EffectType::Enchantment(ench) => "Enchant [".to_owned().concat(
                ench.description().as_str(),
            ).concat("]"),
            EffectType::PercentDamage(pct) => "Damage ".to_owned().concat(
                u32_string(*pct).as_str(),
            ).concat("%"),
            EffectType::SkipTurn => "Skip Turn".to_owned(),
        }
    }
}

/// The mathematical shape of an `EffectTrigger`, with the discard id as a
/// sequence of characters.
pub ghost enum TriggerView {
    Always(EffectType),
    Condition(EffectCondition, EffectType),
    Discard(Seq<char>),
}

impl TriggerView {
    /// What `EffectTrigger::description` returns.
    pub open spec fn spec_description(self) -> Seq<char> {
        match self {
            TriggerView::Always(eff) => "[ALWAYS] "@ + eff.spec_description(),
            TriggerView::Condition(cond, eff) => "[COND - "@ + cond.spec_description() + "] "@
                + eff.spec_description(),
            TriggerView::Discard(id) => "Discard card id: "@ + id,
        }
    }
}

/// An effect wrapped with its activation rule.
#[derive(Debug)]
pub enum EffectTrigger {
    /// Fires unconditionally.
    Always(EffectType),
    /// Fires only when the condition holds against both actors.
    Condition(EffectCondition, EffectType),
    /// Removes the hand card with this id, unconditionally.
    Discard(String),
}

impl View for EffectTrigger {
    type V = TriggerView;

    open spec fn view(&self) -> TriggerView {
        match self {
            EffectTrigger::Always(e) => TriggerView::Always(*e),
            EffectTrigger::Condition(c, e) => TriggerView::Condition(*c, *e),
            EffectTrigger::Discard(id) => TriggerView::Discard(id@),
        }
    }
}

impl DeepView for EffectTrigger {
    type V = TriggerView;

    open spec fn deep_view(&self) -> TriggerView {
        self.view()
    }
}

impl EffectTrigger {
    pub fn description(&self) -> (r: String)
        ensures
            r@ == self@.spec_description(),
    {
        match self {
            EffectTrigger::Always(eff) => "[ALWAYS] ".to_owned().concat(
                eff.description().as_str(),
            ),
            EffectTrigger::Condition(cond, eff) => "[COND - ".to_owned().concat(
                cond.description().as_str(),
            ).concat("] ").concat(eff.description().as_str()),
            EffectTrigger::Discard(id) => "Discard card id: ".to_owned().concat(id.as_str()),
        }
    }
}

impl Clone for EffectTrigger {
    fn clone(&self) -> (r: Self)
        ensures
            r == self,
    {
        match self {
            EffectTrigger::Always(e) => EffectTrigger::Always(*e),
            EffectTrigger::Condition(c, e) => EffectTrigger::Condition(*c, *e),
            EffectTrigger::Discard(id) => EffectTrigger::Discard(id.clone()),
        }
    }
}

/// A pairing of an element with a cost shift, kept as part of the effect
/// vocabulary for callers that tabulate cost rules outside an enchantment.
#[derive(Debug, Clone, Copy, PartialEq, Eq, Structural)]
pub struct PowerCostAdjust {
    pub card_type: ElementType,
    pub amount: i32,
}

} // verus!
