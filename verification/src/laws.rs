//! What holds of every game, proved from the model.
//!
//! The functions of the library state their results over `GameView`,
//! `Funds`, `TicketView` and `Multiplier`. The lemmas here are about those
//! values alone, so each of them holds of every call that the functions make.

use crate::currency::Funds;
use crate::game::{base_cash, base_xp, BuyError, GameView};
use crate::multiplier::{capped, lemma_rounding_outcomes, Multiplier, SCALE};
use crate::ticket::{Category, Difficulty, TicketView};
use crate::upgrade::Effects;
use vstd::prelude::*;

verus! {

/// A withdrawal lowers both balances by exactly the amounts asked for, or it
/// is declined and leaves the wallet as it was. Nothing lies between.
pub proof fn lemma_debit_all_or_nothing(wallet: Funds, cash: nat, xp: nat)
    ensures
        wallet.debit_outcome(cash, xp) is Ok ==> wallet.debited(cash, xp).cash + cash == wallet.cash
            && wallet.debited(cash, xp).xp + xp == wallet.xp,
        wallet.debit_outcome(cash, xp) is Err ==> wallet.debited(cash, xp) == wallet,
        wallet.debit_outcome(cash, xp) is Ok <==> cash <= wallet.cash && xp <= wallet.xp,
{
}

/// The goals are 5, 15 and 30 clicks, and a new ticket is complete after
/// `clicks` clicks if and only if `clicks` exceeds the goal of its
/// difficulty: a ticket that stands at its goal is not complete.
pub proof fn lemma_complete_beyond_goal(ticket: TicketView, clicks: u16)
    requires
        ticket.clicked == 0,
    ensures
        Difficulty::Easy.spec_goal() == 5,
        Difficulty::Med.spec_goal() == 15,
        Difficulty::Hard.spec_goal() == 30,
        ticket.progressed(clicks).is_complete() <==> clicks > ticket.goal(),
{
}

/// Clicks never take progress away from a ticket, and change nothing else
/// about it.
pub proof fn lemma_progress_never_decreases(ticket: TicketView, clicks: u16)
    ensures
        ticket.progressed(clicks).clicked >= ticket.clicked,
        ticket.progressed(clicks).difficulty == ticket.difficulty,
        ticket.progressed(clicks).category == ticket.category,
        ticket.progressed(clicks).name == ticket.name,
{
}

/// Each difficulty and each category has a roll that the spawner can draw.
pub proof fn lemma_every_kind_can_spawn(difficulty: Difficulty, category: Category)
    ensures
        exists|roll: u64| roll < 10 && #[trigger] Difficulty::spec_from_roll(roll) == difficulty,
        exists|roll: u64| roll < 20 && #[trigger] Category::spec_from_roll(roll) == category,
{
    assert(Difficulty::spec_from_roll(0) == Difficulty::Easy);
    assert(Difficulty::spec_from_roll(4) == Difficulty::Med);
    assert(Difficulty::spec_from_roll(7) == Difficulty::Hard);
    assert(Category::spec_from_roll(0) == Category::Misc);
    assert(Category::spec_from_roll(7) == Category::Windows);
    assert(Category::spec_from_roll(11) == Category::Linux);
    assert(Category::spec_from_roll(14) == Category::Network);
    assert(Category::spec_from_roll(17) == Category::Web);
}

/// Whatever the draw, the rounding policy returns the product rounded down
/// or the product rounded up, and the two differ by at most one.
pub proof fn lemma_rounding_is_floor_or_ceil(multiplier: Multiplier, base: u64, outcome: u64)
    requires
        multiplier.may_round_to(base, outcome),
    ensures
        outcome == capped(multiplier.floor(base)) || outcome == capped(multiplier.ceil(base)),
        multiplier.floor(base) <= multiplier.ceil(base) <= multiplier.floor(base) + 1,
        multiplier.floor(base) * SCALE <= multiplier.product(base) <= multiplier.ceil(base) * SCALE,
{
    lemma_rounding_outcomes(multiplier, base, outcome);
}

/// Where the product of base and multiplier is a whole number, the rounding
/// policy returns it, whatever the draw.
pub proof fn lemma_whole_product_is_kept(multiplier: Multiplier, base: u64, outcome: u64)
    requires
        multiplier.may_round_to(base, outcome),
        multiplier.product(base) % SCALE as nat == 0,
    ensures
        outcome == capped(multiplier.product(base) / SCALE as nat),
{
    lemma_rounding_outcomes(multiplier, base, outcome);
}

/// At a multiplier of 1.0 the rounding policy returns the base, whatever
/// the draw.
pub proof fn lemma_unit_rate_keeps_base(multiplier: Multiplier, base: u64, outcome: u64)
    requires
        multiplier.millionths == SCALE,
        multiplier.may_round_to(base, outcome),
    ensures
        outcome == base,
{
    lemma_rounding_outcomes(multiplier, base, outcome);
}

/// With all rates at 1.0, a click on a ticket that has reached its goal
/// completes it: the wallet receives exactly the base cash and base
/// experience of the ticket's difficulty, once, and exactly the ticket that
/// was clicked leaves the working set. For an easy ticket that is 10 cash
/// and 5 experience.
pub proof fn lemma_completion_at_unit_rates(
    game: GameView,
    index: int,
    clicks: u64,
    cash: u64,
    xp: u64,
)
    requires
        game.multiplier.millionths == SCALE,
        game.cash_mult.millionths == SCALE,
        game.xp_mult.millionths == SCALE,
        game.can_roll(index, clicks, cash, xp),
        game.working[index].clicked >= game.working[index].goal(),
    ensures
        clicks == 1,
        cash == base_cash(game.working[index].difficulty),
        xp == base_xp(game.working[index].difficulty),
        game.working[index].difficulty == Difficulty::Easy ==> cash == 10 && xp == 5,
        game.clicked(index, clicks, cash, xp) == (GameView {
            wallet: game.wallet.credited(cash as nat, xp as nat),
            working: game.working.remove(index),
            ..game
        }),
        game.clicked(index, clicks, cash, xp).working.len() == game.working.len() - 1,
{
    lemma_unit_rate_keeps_base(game.multiplier, 1, clicks);
    lemma_unit_rate_keeps_base(game.cash_mult, base_cash(game.working[index].difficulty), cash);
    lemma_unit_rate_keeps_base(game.xp_mult, base_xp(game.working[index].difficulty), xp);
}

/// With the click rate at 1.0, a click on a ticket below its goal adds
/// exactly one click to it and changes nothing else: no reward is paid and
/// no ticket leaves.
pub proof fn lemma_click_below_goal_at_unit_rate(
    game: GameView,
    index: int,
    clicks: u64,
    cash: u64,
    xp: u64,
)
    requires
        game.multiplier.millionths == SCALE,
        game.can_roll(index, clicks, cash, xp),
        game.working[index].clicked < game.working[index].goal(),
    ensures
        game.clicked(index, clicks, cash, xp) == (GameView {
            working: game.working.update(index, game.working[index].progressed(1)),
            ..game
        }),
        game.clicked(index, clicks, cash, xp).working[index].clicked == game.working[index].clicked
            + 1,
{
    lemma_unit_rate_keeps_base(game.multiplier, 1, clicks);
}

/// A click pays at most once: whatever the amounts, the ticket that a click
/// completes is gone from the working set afterwards, and a click that
/// completes nothing leaves the wallet as it was.
pub proof fn lemma_click_pays_on_completion_only(
    game: GameView,
    index: int,
    clicks: u64,
    cash: u64,
    xp: u64,
)
    ensures
        game.clicked(index, clicks, cash, xp).working.len() == game.working.len()
            ==> game.clicked(index, clicks, cash, xp).wallet == game.wallet,
        game.clicked(index, clicks, cash, xp).working.len() != game.working.len()
            ==> game.clicked(index, clicks, cash, xp).working == game.working.remove(index)
            && game.clicked(index, clicks, cash, xp).wallet == game.wallet.credited(
            cash as nat,
            xp as nat,
        ),
{
}

/// Whether no ticket of the working set is complete.
pub open spec fn settled(game: GameView) -> bool {
    forall|i: int| 0 <= i < game.working.len() ==> !(#[trigger] game.working[i]).is_complete()
}

/// A click leaves no complete ticket behind: if none was complete before
/// the click, none is after it.
pub proof fn lemma_click_keeps_settled(game: GameView, index: int, clicks: u64, cash: u64, xp: u64)
    requires
        settled(game),
    ensures
        settled(game.clicked(index, clicks, cash, xp)),
{
}

/// One pass of automation adds exactly one click to each ticket of the
/// working set whose kind solves itself, and none to any other ticket. It
/// changes nothing else: the same tickets stay in the same places, and the
/// wallet, the queue, the rates and the shop are as they were.
pub proof fn lemma_tick_adds_one_click(game: GameView, i: int)
    requires
        0 <= i < game.working.len(),
    ensures
        game.ticked().working.len() == game.working.len(),
        game.automates(game.working[i]) ==> game.ticked().working[i] == game.working[i].progressed(1),
        game.automates(game.working[i]) && game.working[i].clicked < u16::MAX
            ==> game.ticked().working[i].clicked == game.working[i].clicked + 1,
        !game.automates(game.working[i]) ==> game.ticked().working[i] == game.working[i],
        game.ticked() == (GameView { working: game.ticked().working, ..game }),
{
}

/// Effects change the rates and the automation and nothing else, and they
/// never switch automation off.
pub proof fn lemma_effects_keep_the_rest(game: GameView, effects: Seq<Effects>)
    ensures
        game.with_effects(effects).queue == game.queue,
        game.with_effects(effects).working == game.working,
        game.with_effects(effects).wallet == game.wallet,
        game.with_effects(effects).upgrades == game.upgrades,
        game.with_effects(effects).purchased == game.purchased,
        game.autosolve.subset_of(game.with_effects(effects).autosolve),
    decreases effects.len(),
{
    if effects.len() > 0 {
        lemma_effects_keep_the_rest(game, effects.drop_last());
    }
}

/// Only a purchase changes what has been bought, and nothing changes the
/// catalog: queueing, assigning, clicking and automation leave both alone.
pub proof fn lemma_shop_changes_by_purchase_only(
    game: GameView,
    ticket: TicketView,
    index: int,
    clicks: u64,
    cash: u64,
    xp: u64,
    id: Seq<char>,
)
    ensures
        game.enqueued(ticket).purchased == game.purchased,
        game.enqueued(ticket).upgrades == game.upgrades,
        game.assigned().purchased == game.purchased,
        game.assigned().upgrades == game.upgrades,
        game.clicked(index, clicks, cash, xp).purchased == game.purchased,
        game.clicked(index, clicks, cash, xp).upgrades == game.upgrades,
        game.ticked().purchased == game.purchased,
        game.ticked().upgrades == game.upgrades,
        game.after_purchase(id).upgrades == game.upgrades,
{
    if game.purchase_outcome(id) is Ok {
        lemma_affordable_purchase_succeeds(game, id);
    }
}

/// An upgrade with a prerequisite that has not been bought cannot be
/// bought, however much the wallet holds, and the attempt changes nothing.
pub proof fn lemma_unmet_prerequisite_blocks(game: GameView, id: Seq<char>, i: int)
    requires
        game.upgrades.contains_key(id),
        0 <= i < game.upgrades[id].requires.len(),
        !game.purchased.contains(game.upgrades[id].requires[i]),
    ensures
        !game.available(id),
        game.purchase_outcome(id) == Err::<(), BuyError>(BuyError::UpgradeUnavailable),
        game.after_purchase(id) == game,
{
}

/// An upgrade that is not in the catalog cannot be bought.
pub proof fn lemma_unknown_upgrade_unavailable(game: GameView, id: Seq<char>)
    requires
        !game.upgrades.contains_key(id),
    ensures
        game.purchase_outcome(id) == Err::<(), BuyError>(BuyError::UpgradeUnavailable),
        game.after_purchase(id) == game,
{
}

/// An available upgrade that the wallet cannot pay for is declined with the
/// balance that is short, cash before experience, and the attempt changes
/// nothing: not the wallet, not the upgrades bought, not a rate.
pub proof fn lemma_unaffordable_purchase_declined(game: GameView, id: Seq<char>)
    requires
        game.available(id),
        game.upgrades[id].cost.cash > game.wallet.cash || game.upgrades[id].cost.xp > game.wallet.xp,
    ensures
        game.upgrades[id].cost.cash > game.wallet.cash ==> game.purchase_outcome(id) == Err::<
            (),
            BuyError,
        >(BuyError::Wallet(crate::currency::WalletError::InsufficientCash)),
        game.upgrades[id].cost.cash <= game.wallet.cash ==> game.purchase_outcome(id) == Err::<
            (),
            BuyError,
        >(BuyError::Wallet(crate::currency::WalletError::InsufficientXP)),
        game.after_purchase(id) == game,
{
}

/// An available upgrade that the wallet can pay for is bought: the price
/// leaves the wallet, the id joins the upgrades bought, and the game is
/// otherwise changed by the upgrade's effects alone.
pub proof fn lemma_affordable_purchase_succeeds(game: GameView, id: Seq<char>)
    requires
        game.available(id),
        game.upgrades[id].cost.cash <= game.wallet.cash,
        game.upgrades[id].cost.xp <= game.wallet.xp,
    ensures
        game.purchase_outcome(id) == Ok::<(), BuyError>(()),
        game.after_purchase(id).wallet.cash + game.upgrades[id].cost.cash == game.wallet.cash,
        game.after_purchase(id).wallet.xp + game.upgrades[id].cost.xp == game.wallet.xp,
        game.after_purchase(id).purchased == game.purchased.insert(id),
        game.after_purchase(id).queue == game.queue,
        game.after_purchase(id).working == game.working,
        game.after_purchase(id).upgrades == game.upgrades,
{
    let cost = game.upgrades[id].cost;
    let paid = GameView {
        wallet: game.wallet.debited(cost.cash, cost.xp),
        purchased: game.purchased.insert(id),
        ..game
    };
    lemma_effects_keep_the_rest(paid, game.upgrades[id].effects);
}

/// An upgrade that has been bought cannot be bought again: once its id is
/// among the upgrades bought, every attempt is declined as unavailable.
pub proof fn lemma_bought_upgrade_unavailable(game: GameView, id: Seq<char>)
    requires
        game.purchased.contains(id),
    ensures
        game.purchase_outcome(id) == Err::<(), BuyError>(BuyError::UpgradeUnavailable),
        game.after_purchase(id) == game,
{
}

/// Right after a purchase has gone through, a second attempt to buy the
/// same upgrade is declined as unavailable.
pub proof fn lemma_no_second_purchase(game: GameView, id: Seq<char>)
    requires
        game.purchase_outcome(id) is Ok,
    ensures
        game.after_purchase(id).purchase_outcome(id) == Err::<(), BuyError>(
            BuyError::UpgradeUnavailable,
        ),
{
    lemma_affordable_purchase_succeeds(game, id);
    lemma_bought_upgrade_unavailable(game.after_purchase(id), id);
}

/// What has been bought stays bought: no attempt to buy, whether it goes
/// through or not, takes an id away from the upgrades bought.
pub proof fn lemma_purchases_are_kept(game: GameView, id: Seq<char>)
    ensures
        game.purchased.subset_of(game.after_purchase(id).purchased),
{
    if game.purchase_outcome(id) is Ok {
        lemma_affordable_purchase_succeeds(game, id);
    }
}

} // verus!
