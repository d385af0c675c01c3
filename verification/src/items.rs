use vstd::prelude::*;

use crate::player::PowerUpState;

verus! {

/// The power-up items.
#[derive(Clone, Copy, Debug, PartialEq, Eq, Hash, Structural)]
pub enum ItemType {
    Growth,
    Special,
    Invincible,
}

/// What picking up an item gives the player besides the power-up state.
#[derive(Clone, Copy, Debug, PartialEq, Eq, Structural)]
pub enum ItemGrant {
    /// Nothing more.
    Nothing,
    /// A fresh `DashCooldown`, with a dash available right away.
    DashCooldown,
    /// A fresh `InvincibilityTimer`.
    Invincibility,
}

/// Growth makes a small player big and leaves any other power-up alone;
/// the special item gives the dash; the invincible item gives invincibility.
pub open spec fn spec_apply_item(power: PowerUpState, item: ItemType) -> (PowerUpState, ItemGrant) {
    match item {
        ItemType::Growth => (
            if power == PowerUpState::Small { PowerUpState::Big } else { power },
            ItemGrant::Nothing,
        ),
        ItemType::Special => (PowerUpState::Dash, ItemGrant::DashCooldown),
        ItemType::Invincible => (PowerUpState::Invincible, ItemGrant::Invincibility),
    }
}

/// What each item does, whatever the player had: the special item always
/// gives the dash with a fresh cooldown, the invincible item always gives
/// invincibility with a fresh timer, and growth turns only a small player
/// big, grants nothing more, and leaves every other power-up as it was.
pub proof fn lemma_item_effects(power: PowerUpState)
    ensures
        spec_apply_item(power, ItemType::Special) == (PowerUpState::Dash, ItemGrant::DashCooldown),
        spec_apply_item(power, ItemType::Invincible) == (PowerUpState::Invincible, ItemGrant::Invincibility),
        spec_apply_item(power, ItemType::Growth).1 == ItemGrant::Nothing,
        power == PowerUpState::Small ==> spec_apply_item(power, ItemType::Growth).0 == PowerUpState::Big,
        power != PowerUpState::Small ==> spec_apply_item(power, ItemType::Growth).0 == power,
{
}

/// Applies one picked-up item to the player's power-up.
pub fn apply_item(power: &mut PowerUpState, item: ItemType) -> (grant: ItemGrant)
    ensures
        (*final(power), grant) == spec_apply_item(*old(power), item),
{
    match item {
        ItemType::Growth => {
            if *power == PowerUpState::Small {
                *power = PowerUpState::Big;
            }
            ItemGrant::Nothing
        },
        ItemType::Special => {
            *power = PowerUpState::Dash;
            ItemGrant::DashCooldown
        },
        ItemType::Invincible => {
            *power = PowerUpState::Invincible;
            ItemGrant::Invincibility
        },
    }
}

/// The power-up after picking up `items` in order.
pub open spec fn power_after(power: PowerUpState, items: Seq<ItemType>) -> PowerUpState
    decreases items.len(),
{
    if items.len() == 0 {
        power
    } else {
        spec_apply_item(power_after(power, items.drop_last()), items.last()).0
    }
}

/// Applies the items the player touched this frame, in order, and returns
/// what each of them granted.
pub fn apply_items(power: &mut PowerUpState, items: &Vec<ItemType>) -> (grants: Vec<ItemGrant>)
    ensures
        *final(power) == power_after(*old(power), items@),
        grants.len() == items.len(),
        forall|i: int|
            0 <= i < items.len() ==> #[trigger] grants@[i] == spec_apply_item(
                power_after(*old(power), items@.take(i)),
                items@[i],
            ).1,
{
    let ghost start = *power;
    let mut grants: Vec<ItemGrant> = Vec::new();
    let mut i: usize = 0;
    while i < items.len()
        invariant
            i <= items.len(),
            *power == power_after(start, items@.take(i as int)),
            grants.len() == i,
            forall|j: int|
                0 <= j < i ==> #[trigger] grants@[j] == spec_apply_item(
                    power_after(start, items@.take(j)),
                    items@[j],
                ).1,
        decreases items.len() - i,
    {
        assert(items@.take(i + 1).drop_last() =~= items@.take(i as int));
        let g = apply_item(power, items[i]);
        grants.push(g);
        i = i + 1;
    }
    assert(items@.take(items.len() as int) =~= items@);
    grants
}

/// Growth never takes a power-up away, and a second growth item does
/// nothing more than the first.
pub proof fn lemma_growth_never_downgrades(power: PowerUpState)
    ensures
        power != PowerUpState::Small ==> spec_apply_item(power, ItemType::Growth).0 == power,
        spec_apply_item(spec_apply_item(power, ItemType::Growth).0, ItemType::Growth).0
            == spec_apply_item(power, ItemType::Growth).0,
{
}

/// Whatever came before, the last special or invincible item decides the
/// power-up: what was picked up earlier in the frame does not matter.
pub proof fn lemma_last_strong_item_wins(power: PowerUpState, items: Seq<ItemType>)
    requires
        items.len() > 0,
        items.last() != ItemType::Growth,
    ensures
        power_after(power, items) == (if items.last() == ItemType::Special {
            PowerUpState::Dash
        } else {
            PowerUpState::Invincible
        }),
{
}

} // verus!
