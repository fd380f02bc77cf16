use card_game_simulator::fp_vec::FpVec;
use card_game_simulator::text::{i32_string, u32_string};
use card_game_simulator::{
    Damage, DamageAdjustment, EffectCondition, EffectTarget, EffectTrigger, EffectType,
    ElementType, Enchantment,
};

#[test]
fn absolute_negative_slot_amplifies_damage() {
    assert_eq!(DamageAdjustment::Absolute(-1).adjust_damage(10), 11);
}

#[test]
fn absolute_positive_slot_shields_damage() {
    assert_eq!(DamageAdjustment::Absolute(3).adjust_damage(10), 7);
}

#[test]
fn percent_zero_voids_damage() {
    assert_eq!(DamageAdjustment::Percent(0).adjust_damage(10), 0);
}

#[test]
fn percent_truncates_toward_zero() {
    assert_eq!(DamageAdjustment::Percent(50).adjust_damage(5), 2);
    assert_eq!(DamageAdjustment::Percent(50).adjust_damage(-5), -2);
}

#[test]
fn normal_slot_is_identity() {
    assert_eq!(DamageAdjustment::Normal.adjust_damage(10), 10);
}

#[test]
fn raw_damage_has_no_element() {
    let d = Damage::raw(4);
    assert_eq!(d.amount, 4);
    assert_eq!(d.element_type, ElementType::NoElement);
}

#[test]
fn effect_target_predicates() {
    assert!(EffectTarget::Player.is_player());
    assert!(!EffectTarget::Player.is_enemy());
    assert!(EffectTarget::Enemy.is_enemy());
    assert!(!EffectTarget::Enemy.is_player());
}

#[test]
fn fp_vec_push_pop_extend() {
    let v: FpVec<i32> = FpVec::new();
    let v = v.push(1).push(2);
    let w = FpVec::from_vec(vec![3, 4]);
    let v = v.extend(w);
    assert_eq!(v.inner, vec![1, 2, 3, 4]);
    let (v, last) = v.pop();
    assert_eq!(last, Some(4));
    assert_eq!(v.inner, vec![1, 2, 3]);
    let (empty, nothing) = FpVec::<i32>::new().pop();
    assert_eq!(nothing, None);
    assert_eq!(empty.inner.len(), 0);
}

#[test]
fn decimal_text() {
    assert_eq!(u32_string(0), "0");
    assert_eq!(u32_string(305), "305");
    assert_eq!(i32_string(-12), "-12");
    assert_eq!(i32_string(7), "7");
    assert_eq!(i32_string(i32::MIN), "-2147483648");
}

#[test]
fn element_descriptions() {
    assert_eq!(ElementType::Wind.description(), "Wind");
    assert_eq!(ElementType::NoElement.description(), "No Elem");
    assert_eq!(EffectTarget::Player.description(), "PLAYER");
}

#[test]
fn condition_description() {
    let c = EffectCondition::PlayerHasCardWithElement(ElementType::Water);
    assert_eq!(c.description(), "HAS_ELEMENT [Water]");
    let c = EffectCondition::PlayerPlaysCardWithElement(ElementType::Land);
    assert_eq!(c.description(), "PLAYS_SPELL_ELEMENT [Land]");
}

#[test]
fn enchantment_descriptions() {
    assert_eq!(Enchantment::ShieldDamage(2).description(), "Damage adjust 2 on Attack");
    assert_eq!(
        Enchantment::LifeAdjPerTurn(-4).description(),
        "Each turn, adjust life by -4"
    );
    assert_eq!(
        Enchantment::SpellDamageAdjust(ElementType::Wind, 3).description(),
        "Spell damage adjust 3 [Wind]"
    );
    assert_eq!(
        Enchantment::SpellElementForbidden(ElementType::Water).description(),
        "Water Spells Forbidden"
    );
    assert_eq!(
        Enchantment::SpellCostAdjust(ElementType::Water, -5).description(),
        "Spell cost adjust -5 [Water]"
    );
    assert_eq!(Enchantment::PowerAddPerTurn(2).description(), "Add 2 power per turn");
}

#[test]
fn effect_type_and_trigger_descriptions() {
    let eff = EffectType::Damage(Damage { element_type: ElementType::Wind, amount: 3 });
    assert_eq!(eff.description(), "Damage [Wind/3]");
    assert_eq!(EffectType::LifeAdjust(-3).description(), "Life -3");
    assert_eq!(EffectType::PowerAdjust(2).description(), "Power 2");
    assert_eq!(EffectType::PercentDamage(50).description(), "Damage 50%");
    assert_eq!(EffectType::SkipTurn.description(), "Skip Turn");
    let trig = EffectTrigger::Always(EffectType::SkipTurn);
    assert_eq!(trig.description(), "[ALWAYS] Skip Turn");
    let trig = EffectTrigger::Discard(String::from("abc"));
    assert_eq!(trig.description(), "Discard card id: abc");
}
