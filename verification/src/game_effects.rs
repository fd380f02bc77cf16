use vstd::prelude::*;
use vstd::string::StringExecFns;

use crate::fp_vec::FpVec;
use crate::{
    Damage, EffectCondition, EffectTarget, EffectTrigger, EffectType, ElementType, Enchantment,
    TriggerView,
};

verus! {

/// The mathematical shape of a `GameEffect`.
pub ghost struct GameEffectView {
    pub name: Seq<char>,
    pub target: EffectTarget,
    pub effect: TriggerView,
}

/// One atomic resolvable unit: a named trigger aimed at one actor.
#[derive(Debug)]
pub struct GameEffect {
    pub name: String,
    pub target: EffectTarget,
    pub effect: EffectTrigger,
}

impl View for GameEffect {
    type V = GameEffectView;

    open spec fn view(&self) -> GameEffectView {
        GameEffectView { name: self.name@, target: self.target, effect: self.effect@ }
    }
}

impl DeepView for GameEffect {
    type V = GameEffectView;

    open spec fn deep_view(&self) -> GameEffectView {
        self.view()
    }
}

impl Clone for GameEffect {
    fn clone(&self) -> (r: Self)
        ensures
            r == self,
    {
        GameEffect { name: self.name.clone(), target: self.target, effect: self.effect.clone() }
    }
}

impl Clone for FpVec<GameEffect> {
    fn clone(&self) -> (r: Self)
        ensures
            r@ == self@,
    {
        let mut inner: Vec<GameEffect> = Vec::new();
        let mut i: usize = 0;
        while i < self.inner.len()
            invariant
                0 <= i <= self.inner.len(),
                inner@ == self.inner@.take(i as int),
            decreases self.inner.len() - i,
        {
            inner.push(self.inner[i].clone());
            proof {
                assert(inner@ =~= self.inner@.take(i as int + 1));
            }
            i = i + 1;
        }
        proof {
            assert(self.inner@.take(self.inner@.len() as int) =~= self.inner@);
        }
        FpVec { inner }
    }
}

impl GameEffectView {
    /// What `GameEffect::description` returns.
    pub open spec fn spec_description(self) -> Seq<char> {
        self.name + " - target ["@ + self.target.spec_description() + "] effect ["@
            + self.effect.spec_description() + "]"@
    }
}

/// The descriptions of a list of effects, in order.
pub open spec fn spec_effect_descs(fx: Seq<GameEffectView>) -> Seq<Seq<char>> {
    fx.map_values(|e: GameEffectView| e.spec_description())
}

/// The descriptions of a list of enchantments, in order.
pub open spec fn spec_enchantment_descs(effs: Seq<Enchantment>) -> Seq<Seq<char>> {
    effs.map_values(|e: Enchantment| e.spec_description())
}

/// The description of each effect in the list, for joining into a status
/// line.
pub(crate) fn describe_effects(fx: &FpVec<GameEffect>) -> (r: Vec<String>)
    ensures
        r.deep_view() == spec_effect_descs(fx.deep_view()),
{
    let mut out: Vec<String> = Vec::new();
    let mut i: usize = 0;
    while i < fx.inner.len()
        invariant
            0 <= i <= fx.inner.len(),
            out.deep_view().len() == i,
            forall|m: int| 0 <= m < i ==> out.deep_view()[m] == (#[trigger] fx.deep_view()[m])
                .spec_description(),
        decreases fx.inner.len() - i,
    {
        out.push(fx.inner[i].description());
        i = i + 1;
    }
    proof {
        assert(out.deep_view() =~= spec_effect_descs(fx.deep_view()));
    }
    out
}

/// The description of each enchantment in the list, for joining into a
/// status line.
pub(crate) fn describe_enchantments(effs: &FpVec<Enchantment>) -> (r: Vec<String>)
    ensures
        r.deep_view() == spec_enchantment_descs(effs@),
{
    let mut out: Vec<String> = Vec::new();
    let mut i: usize = 0;
    while i < effs.inner.len()
        invariant
            0 <= i <= effs.inner.len(),
            out.deep_view().len() == i,
            forall|m: int| 0 <= m < i ==> out.deep_view()[m] == (#[trigger] effs@[m])
                .spec_description(),
        decreases effs.inner.len() - i,
    {
        out.push(effs.inner[i].description());
        i = i + 1;
    }
    proof {
        assert(out.deep_view() =~= spec_enchantment_descs(effs@));
    }
    out
}

impl GameEffect {
    pub fn description(&self) -> (r: String)
        ensures
            r@ == self@.spec_description(),
    {
        self.name.clone().concat(" - target [").concat(self.target.description().as_str()).concat(
            "] effect [",
        ).concat(self.effect.description().as_str()).concat("]")
    }

    /// An effect aimed at the player.
    pub fn player(name: &str, effect: EffectTrigger) -> (r: Self)
        ensures
            r@ == (GameEffectView { name: name@, target: EffectTarget::Player, effect: effect@ }),
    {
        Self { name: name.to_owned(), target: EffectTarget::Player, effect }
    }

    /// An effect aimed at the enemy.
    pub fn enemy(name: &str, effect: EffectTrigger) -> (r: Self)
        ensures
            r@ == (GameEffectView { name: name@, target: EffectTarget::Enemy, effect: effect@ }),
    {
        Self { name: name.to_owned(), target: EffectTarget::Enemy, effect }
    }
}

/// The enemy's recurring attack effect.
pub open spec fn attack_effect(amount: i32) -> GameEffectView {
    GameEffectView {
        name: "Enemy Attack"@,
        target: EffectTarget::Player,
        effect: TriggerView::Always(
            EffectType::Damage(Damage { element_type: ElementType::NoElement, amount }),
        ),
    }
}

/// Backlash while a card of the element is in hand.
pub open spec fn backlash_present_effect(element_type: ElementType, amount: i32) -> GameEffectView {
    GameEffectView {
        name: "Elemental Backlash Damage"@,
        target: EffectTarget::Player,
        effect: TriggerView::Condition(
            EffectCondition::PlayerHasCardWithElement(element_type),
            EffectType::Damage(Damage { element_type, amount }),
        ),
    }
}

/// Grant of a spell-damage adjustment.
pub open spec fn spell_damage_adjust_effect(element_type: ElementType, amount: i32) -> GameEffectView {
    GameEffectView {
        name: "Spell Damage Adjust"@,
        target: EffectTarget::Player,
        effect: TriggerView::Always(
            EffectType::Enchantment(Enchantment::SpellDamageAdjust(element_type, amount)),
        ),
    }
}

/// Grant of a spell-cost adjustment.
pub open spec fn spell_cost_adjust_effect(element_type: ElementType, amount: i32) -> GameEffectView {
    GameEffectView {
        name: "Spell Cost Adjust"@,
        target: EffectTarget::Player,
        effect: TriggerView::Always(
            EffectType::Enchantment(Enchantment::SpellCostAdjust(element_type, amount)),
        ),
    }
}

/// Grant of extra power each turn.
pub open spec fn power_add_effect(amount: i32) -> GameEffectView {
    GameEffectView {
        name: "Power Per Turn"@,
        target: EffectTarget::Player,
        effect: TriggerView::Always(EffectType::Enchantment(Enchantment::PowerAddPerTurn(amount))),
    }
}

/// Ban on spells of one element.
pub open spec fn spells_forbidden_effect(element_type: ElementType) -> GameEffectView {
    GameEffectView {
        name: "Element Spells Forbidden"@,
        target: EffectTarget::Player,
        effect: TriggerView::Always(
            EffectType::Enchantment(Enchantment::SpellElementForbidden(element_type)),
        ),
    }
}

/// Grant of a damage shield.
pub open spec fn shield_effect(amount: i32) -> GameEffectView {
    GameEffectView {
        name: "Global Shield"@,
        target: EffectTarget::Player,
        effect: TriggerView::Always(EffectType::Enchantment(Enchantment::ShieldDamage(amount))),
    }
}

/// Grant of a per-turn life adjustment.
pub open spec fn heal_per_turn_effect(amount: i32) -> GameEffectView {
    GameEffectView {
        name: "Heal Per Turn"@,
        target: EffectTarget::Player,
        effect: TriggerView::Always(EffectType::Enchantment(Enchantment::LifeAdjPerTurn(amount))),
    }
}

/// Backlash for playing a spell of the element.
pub open spec fn backlash_on_play_effect(element_type: ElementType, amount: i32) -> GameEffectView {
    GameEffectView {
        name: "Backlash On Play"@,
        target: EffectTarget::Player,
        effect: TriggerView::Condition(
            EffectCondition::PlayerPlaysCardWithElement(element_type),
            EffectType::Damage(Damage { element_type, amount }),
        ),
    }
}

/// Heal for playing a spell of the element.
pub open spec fn heal_on_play_effect(element_type: ElementType, amount: i32) -> GameEffectView {
    GameEffectView {
        name: "Heal On Play"@,
        target: EffectTarget::Player,
        effect: TriggerView::Condition(
            EffectCondition::PlayerPlaysCardWithElement(element_type),
            EffectType::LifeAdjust(amount),
        ),
    }
}

/// Enemy heal when the player plays a spell of the element.
pub open spec fn enemy_heal_on_play_effect(element_type: ElementType, amount: i32) -> GameEffectView {
    GameEffectView {
        name: "Enemy Heal On Play"@,
        target: EffectTarget::Enemy,
        effect: TriggerView::Condition(
            EffectCondition::PlayerPlaysCardWithElement(element_type),
            EffectType::LifeAdjust(amount),
        ),
    }
}

/// The discard marker before resolution binds it to a concrete card.
pub open spec fn discard_marker_effect() -> GameEffectView {
    GameEffectView {
        name: "Discard this card after playing"@,
        target: EffectTarget::Player,
        effect: TriggerView::Discard(Seq::<char>::empty()),
    }
}

/// Elemental damage aimed at the enemy.
pub open spec fn element_damage_effect(element_type: ElementType, amount: i32) -> GameEffectView {
    GameEffectView {
        name: "Element Damage"@,
        target: EffectTarget::Enemy,
        effect: TriggerView::Always(EffectType::Damage(Damage { element_type, amount })),
    }
}

/// Element-less damage aimed at the enemy.
pub open spec fn physical_damage_effect(amount: i32) -> GameEffectView {
    GameEffectView {
        name: "Physical Damage"@,
        target: EffectTarget::Enemy,
        effect: TriggerView::Always(
            EffectType::Damage(Damage { element_type: ElementType::NoElement, amount }),
        ),
    }
}

/// Percentage damage aimed at the enemy.
pub open spec fn percent_damage_effect(pct: u32) -> GameEffectView {
    GameEffectView {
        name: "Percent Damage"@,
        target: EffectTarget::Enemy,
        effect: TriggerView::Always(EffectType::PercentDamage(pct)),
    }
}

/// A life adjustment aimed at the player.
pub open spec fn heal_effect(amount: i32) -> GameEffectView {
    GameEffectView {
        name: "Heal"@,
        target: EffectTarget::Player,
        effect: TriggerView::Always(EffectType::LifeAdjust(amount)),
    }
}

/// An order for the enemy to skip its next turn.
pub open spec fn skip_turn_effect() -> GameEffectView {
    GameEffectView {
        name: "Skip Turn"@,
        target: EffectTarget::Enemy,
        effect: TriggerView::Always(EffectType::SkipTurn),
    }
}

/// Effects an enemy declaration is built from.
pub struct EnemyEffects;

impl EnemyEffects {
    /// The enemy's recurring attack: element-less damage aimed at the player.
    pub fn attack(amount: i32) -> (r: GameEffect)
        ensures
            r@ == attack_effect(amount),
    {
        GameEffect::player(
            "Enemy Attack",
            EffectTrigger::Always(
                EffectType::Damage(Damage { element_type: ElementType::NoElement, amount }),
            ),
        )
    }
}

/// Constructors for game-start enchantment declarations.
pub struct Enchantments;

impl Enchantments {
    /// The player takes elemental damage while a card of that element is in hand.
    pub fn player_take_damage_elem_card_present(element_type: ElementType, amount: i32) -> (r:
        GameEffect)
        ensures
            r@ == backlash_present_effect(element_type, amount),
    {
        GameEffect::player(
            "Elemental Backlash Damage",
            EffectTrigger::Condition(
                EffectCondition::PlayerHasCardWithElement(element_type),
                EffectType::Damage(Damage { element_type, amount }),
            ),
        )
    }

    /// Spells of the given element deal adjusted damage.
    pub fn player_elem_spell_damage_adj(element_type: ElementType, amount: i32) -> (r: GameEffect)
        ensures
            r@ == spell_damage_adjust_effect(element_type, amount),
    {
        GameEffect::player(
            "Spell Damage Adjust",
            EffectTrigger::Always(
                EffectType::Enchantment(Enchantment::SpellDamageAdjust(element_type, amount)),
            ),
        )
    }

    /// Spells of the given element cost adjusted power.
    pub fn player_spell_cost_adjust(element_type: ElementType, amount: i32) -> (r: GameEffect)
        ensures
            r@ == spell_cost_adjust_effect(element_type, amount),
    {
        GameEffect::player(
            "Spell Cost Adjust",
            EffectTrigger::Always(
                EffectType::Enchantment(Enchantment::SpellCostAdjust(element_type, amount)),
            ),
        )
    }

    /// The player gains extra power each turn.
    pub fn player_power_add_per_turn(amount: i32) -> (r: GameEffect)
        ensures
            r@ == power_add_effect(amount),
    {
        GameEffect::player(
            "Power Per Turn",
            EffectTrigger::Always(EffectType::Enchantment(Enchantment::PowerAddPerTurn(amount))),
        )
    }

    /// Spells of the given element cannot be played.
    pub fn player_elem_spells_forbidden(element_type: ElementType) -> (r: GameEffect)
        ensures
            r@ == spells_forbidden_effect(element_type),
    {
        GameEffect::player(
            "Element Spells Forbidden",
            EffectTrigger::Always(
                EffectType::Enchantment(Enchantment::SpellElementForbidden(element_type)),
            ),
        )
    }

    /// Incoming damage on the player is reduced by the given amount.
    pub fn player_shield_from_elem(amount: i32) -> (r: GameEffect)
        ensures
            r@ == shield_effect(amount),
    {
        GameEffect::player(
            "Global Shield",
            EffectTrigger::Always(EffectType::Enchantment(Enchantment::ShieldDamage(amount))),
        )
    }

    /// The player's life is adjusted at the end of every player turn.
    pub fn player_heal_per_turn(amount: i32) -> (r: GameEffect)
        ensures
            r@ == heal_per_turn_effect(amount),
    {
        GameEffect::player(
            "Heal Per Turn",
            EffectTrigger::Always(EffectType::Enchantment(Enchantment::LifeAdjPerTurn(amount))),
        )
    }
}

/// Counter-effects an enemy fires when the player plays a card.
pub struct OnCardPlayEffects;

impl OnCardPlayEffects {
    /// The player takes damage for playing a spell of the given element.
    pub fn take_damage_on_play_elem(element_type: ElementType, amount: i32) -> (r: GameEffect)
        ensures
            r@ == backlash_on_play_effect(element_type, amount),
    {
        GameEffect::player(
            "Backlash On Play",
            EffectTrigger::Condition(
                EffectCondition::PlayerPlaysCardWithElement(element_type),
                EffectType::Damage(Damage { element_type, amount }),
            ),
        )
    }

    /// The player heals for playing a spell of the given element.
    pub fn heal_on_play_elem(element_type: ElementType, amount: i32) -> (r: GameEffect)
        ensures
            r@ == heal_on_play_effect(element_type, amount),
    {
        GameEffect::player(
            "Heal On Play",
            EffectTrigger::Condition(
                EffectCondition::PlayerPlaysCardWithElement(element_type),
                EffectType::LifeAdjust(amount),
            ),
        )
    }

    /// The enemy heals when the player plays a spell of the given element.
    pub fn heal_enemy_on_play_elem(element_type: ElementType, amount: i32) -> (r: GameEffect)
        ensures
            r@ == enemy_heal_on_play_effect(element_type, amount),
    {
        GameEffect::enemy(
            "Enemy Heal On Play",
            EffectTrigger::Condition(
                EffectCondition::PlayerPlaysCardWithElement(element_type),
                EffectType::LifeAdjust(amount),
            ),
        )
    }

    /// A marker effect: the card carrying it is discarded after being played.
    /// Card-play resolution binds the empty id to the concrete card played.
    pub fn discard_this_card() -> (r: GameEffect)
        ensures
            r@ == discard_marker_effect(),
    {
        let r = GameEffect::player(
            "Discard this card after playing",
            EffectTrigger::Discard(String::new()),
        );
        proof {
            assert(r@.effect->Discard_0 =~= Seq::<char>::empty());
        }
        r
    }
}

/// Effects a player card is built from.
pub struct CardEffects;

impl CardEffects {
    /// Elemental damage aimed at the enemy.
    pub fn do_element_damage(element_type: ElementType, amount: i32) -> (r: GameEffect)
        ensures
            r@ == element_damage_effect(element_type, amount),
    {
        GameEffect::enemy(
            "Element Damage",
            EffectTrigger::Always(EffectType::Damage(Damage { element_type, amount })),
        )
    }

    /// Element-less damage aimed at the enemy.
    pub fn do_physical_damage(amount: i32) -> (r: GameEffect)
        ensures
            r@ == physical_damage_effect(amount),
    {
        GameEffect::enemy(
            "Physical Damage",
            EffectTrigger::Always(
                EffectType::Damage(Damage { element_type: ElementType::NoElement, amount }),
            ),
        )
    }

    /// Damage worth a percentage of the enemy's current hit points.  The
    /// percentage is given in whole points and must be a proper fraction.
    pub fn do_percent_damage(pct: u32) -> (r: GameEffect)
        requires
            pct <= 100,
        ensures
            r@ == percent_damage_effect(pct),
    {
        GameEffect::enemy("Percent Damage", EffectTrigger::Always(EffectType::PercentDamage(pct)))
    }

    /// A life adjustment aimed at the player.
    pub fn heal(amount: i32) -> (r: GameEffect)
        ensures
            r@ == heal_effect(amount),
    {
        GameEffect::player("Heal", EffectTrigger::Always(EffectType::LifeAdjust(amount)))
    }

    /// The enemy must skip its next turn.
    pub fn skip_enemy_turn() -> (r: GameEffect)
        ensures
            r@ == skip_turn_effect(),
    {
        GameEffect::enemy("Skip Turn", EffectTrigger::Always(EffectType::SkipTurn))
    }
}

} // verus!
