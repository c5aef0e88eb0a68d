//! The game: a queue of tickets, the tickets being worked on, the wallet,
//! the rates that upgrades raise, and the shop.

use crate::catalog::{last_definitions, lists, lists_once, load_upgrades, upgrade_views, Catalog};
use crate::currency::{Currency, Funds, WalletError};
use crate::multiplier::{rand_round, Multiplier, SCALE};
use crate::random::draw_in_range;
use crate::rules::{Rule, RuleSet};
use crate::ticket::{Difficulty, Ticket, TicketView};
use crate::upgrade::{Effects, Upgrade, UpgradeView};
use vstd::hash_set::StringHashSet;
use vstd::prelude::*;
use vstd::std_specs::cmp::PartialEqSpecImpl;

verus! {

/// Cash paid for an easy ticket at a cash multiplier of 1.0.
pub const BASE_EASY_CASH: u64 = 10;

/// Experience earned on an easy ticket at an XP multiplier of 1.0.
pub const BASE_EASY_XP: u64 = 5;

/// Cash paid for a medium ticket at a cash multiplier of 1.0.
pub const BASE_MED_CASH: u64 = 25;

/// Experience earned on a medium ticket at an XP multiplier of 1.0.
pub const BASE_MED_XP: u64 = 10;

/// Cash paid for a hard ticket at a cash multiplier of 1.0.
pub const BASE_HARD_CASH: u64 = 60;

/// Experience earned on a hard ticket at an XP multiplier of 1.0.
pub const BASE_HARD_XP: u64 = 20;

/// The cash that a ticket of the given difficulty pays before the cash
/// multiplier is applied.
pub open spec fn base_cash(difficulty: Difficulty) -> u64 {
    match difficulty {
        Difficulty::Easy => BASE_EASY_CASH,
        Difficulty::Med => BASE_MED_CASH,
        Difficulty::Hard => BASE_HARD_CASH,
    }
}

/// The experience that a ticket of the given difficulty earns before the XP
/// multiplier is applied.
pub open spec fn base_xp(difficulty: Difficulty) -> u64 {
    match difficulty {
        Difficulty::Easy => BASE_EASY_XP,
        Difficulty::Med => BASE_MED_XP,
        Difficulty::Hard => BASE_HARD_XP,
    }
}

/// A click amount as the ticket's counter takes it: held at `u16::MAX`.
pub open spec fn click_amount(clicks: u64) -> u16 {
    if clicks <= u16::MAX {
        clicks as u16
    } else {
        u16::MAX
    }
}

/// Whether a ticket is one that the spawner can make: new, of any difficulty
/// and category, with a serial number of four digits below 9999.
pub open spec fn is_spawn(ticket: TicketView) -> bool {
    exists|difficulty_roll: u64, category_roll: u64, serial: u16|
        difficulty_roll < 10 && category_roll < 20 && 1000 <= serial < 9999 && ticket
            == #[trigger] Ticket::spec_from_rolls(difficulty_roll, category_roll, serial)
}

/// Why a purchase was declined.
#[derive(Debug, Clone, Copy, PartialEq, Eq, Structural)]
pub enum BuyError {
    Wallet(WalletError),
    UpgradeUnavailable,
}

impl From<WalletError> for BuyError {
    fn from(err: WalletError) -> (error: Self) {
        BuyError::Wallet(err)
    }
}

impl vstd::std_specs::convert::FromSpecImpl<WalletError> for BuyError {
    open spec fn obeys_from_spec() -> bool {
        true
    }

    open spec fn from_spec(err: WalletError) -> BuyError {
        BuyError::Wallet(err)
    }
}

/// Whether one of the listed upgrades has the id.
pub open spec fn offers(list: Seq<Upgrade>, id: Seq<char>) -> bool {
    exists|i: int| 0 <= i < list.len() && #[trigger] list[i]@.id == id
}

/// The mathematical values of a list of tickets.
pub open spec fn ticket_views(tickets: Seq<Ticket>) -> Seq<TicketView> {
    tickets.map_values(|ticket: Ticket| ticket@)
}

/// A game as a mathematical value.
#[verifier::ext_equal]
pub struct GameView {
    /// Tickets waiting to be assigned; the next one to leave is the last
    pub queue: Seq<TicketView>,
    /// How much of each currency the player has
    pub wallet: Funds,
    /// Tickets that are currently being worked on
    pub working: Seq<TicketView>,
    /// How many clicks a click of the player counts for
    pub multiplier: Multiplier,
    /// How much cash a completed ticket pays, relative to its base
    pub cash_mult: Multiplier,
    /// How much XP a completed ticket earns, relative to its base
    pub xp_mult: Multiplier,
    /// Which kinds of ticket solve themselves
    pub autosolve: Set<Rule>,
    /// All possible upgrades, by id
    pub upgrades: Map<Seq<char>, UpgradeView>,
    /// Ids of the upgrades bought
    pub purchased: Set<Seq<char>>,
}

impl GameView {
    /// A game at its start, with the given catalog: no tickets, an empty
    /// wallet, all rates at 1.0, nothing automated, nothing bought.
    pub open spec fn initial(upgrades: Map<Seq<char>, UpgradeView>) -> GameView {
        GameView {
            queue: Seq::empty(),
            wallet: Funds { cash: 0, xp: 0 },
            working: Seq::empty(),
            multiplier: Multiplier { millionths: SCALE },
            cash_mult: Multiplier { millionths: SCALE },
            xp_mult: Multiplier { millionths: SCALE },
            autosolve: Set::empty(),
            upgrades,
            purchased: Set::empty(),
        }
    }

    /// The game after a ticket has joined the end of the queue.
    pub open spec fn enqueued(self, ticket: TicketView) -> GameView {
        GameView { queue: self.queue.push(ticket), ..self }
    }

    /// The game after the last ticket of the queue has moved to the end of
    /// the working set. With an empty queue nothing changes.
    pub open spec fn assigned(self) -> GameView {
        if self.queue.len() > 0 {
            GameView {
                queue: self.queue.drop_last(),
                working: self.working.push(self.queue.last()),
                ..self
            }
        } else {
            self
        }
    }

    /// The game after a click on the ticket at `index` of the working set
    /// that counts for `clicks` clicks, where `cash` and `xp` are the reward
    /// if the click completes the ticket.
    ///
    /// An index beyond the working set changes nothing. Otherwise the ticket
    /// takes the clicks; if that completes it, the reward is paid into the
    /// wallet and the ticket at `index`, and no other, leaves the working set.
    pub open spec fn clicked(self, index: int, clicks: u64, cash: u64, xp: u64) -> GameView {
        if 0 <= index < self.working.len() {
            let ticket = self.working[index].progressed(click_amount(clicks));
            if ticket.is_complete() {
                GameView {
                    wallet: self.wallet.credited(cash as nat, xp as nat),
                    working: self.working.remove(index),
                    ..self
                }
            } else {
                GameView { working: self.working.update(index, ticket), ..self }
            }
        } else {
            self
        }
    }

    /// Whether the rounding policy can give these three amounts for a click
    /// on the ticket at `index`: `clicks` from one click at the click
    /// multiplier, `cash` and `xp` from the ticket's base rewards at the
    /// reward multipliers.
    pub open spec fn can_roll(self, index: int, clicks: u64, cash: u64, xp: u64) -> bool {
        &&& 0 <= index < self.working.len()
        &&& self.multiplier.may_round_to(1, clicks)
        &&& self.cash_mult.may_round_to(base_cash(self.working[index].difficulty), cash)
        &&& self.xp_mult.may_round_to(base_xp(self.working[index].difficulty), xp)
    }

    /// Whether tickets of the kind of `ticket` solve themselves.
    pub open spec fn automates(self, ticket: TicketView) -> bool {
        self.autosolve.contains((ticket.difficulty, ticket.category))
    }

    /// The game after one pass of automation: each ticket of the working set
    /// whose kind solves itself has one click more, every other ticket is as
    /// it was. No ticket leaves the working set and no reward is paid.
    pub open spec fn ticked(self) -> GameView {
        GameView {
            working: Seq::new(
                self.working.len(),
                |i: int|
                    if self.automates(self.working[i]) {
                        self.working[i].progressed(1)
                    } else {
                        self.working[i]
                    },
            ),
            ..self
        }
    }

    /// Whether every id of the list has been bought.
    pub open spec fn has_all(self, ids: Seq<Seq<char>>) -> bool {
        forall|i: int| 0 <= i < ids.len() ==> self.purchased.contains(#[trigger] ids[i])
    }

    /// Whether the upgrade can be bought, its price aside: it is in the
    /// catalog, it has not been bought, and all that it requires has been.
    pub open spec fn available(self, id: Seq<char>) -> bool {
        &&& !self.purchased.contains(id)
        &&& self.upgrades.contains_key(id)
        &&& self.has_all(self.upgrades[id].requires)
    }

    /// The game after one effect of an upgrade has been applied.
    pub open spec fn with_effect(self, effect: Effects) -> GameView {
        match effect {
            Effects::IncMultiplier(factor) => GameView {
                multiplier: self.multiplier.times(factor),
                ..self
            },
            Effects::IncCashMultiplier(factor) => GameView {
                cash_mult: self.cash_mult.times(factor),
                ..self
            },
            Effects::IncXPMultiplier(factor) => GameView {
                xp_mult: self.xp_mult.times(factor),
                ..self
            },
            Effects::AutoSolve(difficulty, category) => GameView {
                autosolve: self.autosolve.insert((difficulty, category)),
                ..self
            },
        }
    }

    /// The game after the effects of the list have been applied, first to last.
    pub open spec fn with_effects(self, effects: Seq<Effects>) -> GameView
        decreases effects.len(),
    {
        if effects.len() == 0 {
            self
        } else {
            self.with_effects(effects.drop_last()).with_effect(effects.last())
        }
    }

    /// How an attempt to buy the upgrade ends. Availability is looked at
    /// first, then the price: cash before experience.
    pub open spec fn purchase_outcome(self, id: Seq<char>) -> Result<(), BuyError> {
        if !self.available(id) {
            Err(BuyError::UpgradeUnavailable)
        } else {
            let cost = self.upgrades[id].cost;
            match self.wallet.debit_outcome(cost.cash, cost.xp) {
                Ok(_) => Ok(()),
                Err(short) => Err(BuyError::Wallet(short)),
            }
        }
    }

    /// The game after an attempt to buy the upgrade. Where the attempt is
    /// declined nothing changes. Otherwise the price is paid, the id joins
    /// the upgrades bought, and then the effects apply in their order.
    pub open spec fn after_purchase(self, id: Seq<char>) -> GameView {
        if self.purchase_outcome(id) is Ok {
            let cost = self.upgrades[id].cost;
            GameView {
                wallet: self.wallet.debited(cost.cash, cost.xp),
                purchased: self.purchased.insert(id),
                ..self
            }.with_effects(self.upgrades[id].effects)
        } else {
            self
        }
    }
}

/// Struct for returning game stats affected by upgrades
#[derive(Clone, Copy, Debug)]
pub struct Stats {
    pub multiplier: Multiplier,
    pub cash_mult: Multiplier,
    pub xp_mult: Multiplier,
    pub autosolve: RuleSet,
}

impl PartialEq for Stats {
    /// Two snapshots are equal when they show the same rates and the same
    /// automation.
    fn eq(&self, other: &Self) -> (equal: bool) {
        self.multiplier == other.multiplier && self.cash_mult == other.cash_mult && self.xp_mult
            == other.xp_mult && self.autosolve == other.autosolve
    }
}

impl PartialEqSpecImpl for Stats {
    open spec fn obeys_eq_spec() -> bool {
        true
    }

    open spec fn eq_spec(&self, other: &Self) -> bool {
        &&& self.multiplier == other.multiplier
        &&& self.cash_mult == other.cash_mult
        &&& self.xp_mult == other.xp_mult
        &&& self.autosolve@ == other.autosolve@
    }
}

/// Data needed for the main game loop
pub struct GameState {
    /// Queue of unfinished tickets
    queue: Vec<Ticket>,
    /// How much of each currency the player has
    wallet: Currency,
    /// Tickets that are currently being worked on
    working: Vec<Ticket>,
    /// How many "clicks" per user-click
    multiplier: Multiplier,
    /// How much cash per completed ticket multiplier
    cash_mult: Multiplier,
    /// How much XP per completed ticket multiplier
    xp_mult: Multiplier,
    /// What difficulty + category combos have autosolve enabled
    autosolve: RuleSet,
    /// All possible upgrades mapped by ID
    upgrades: Catalog,
    /// ID of any purchased upgrades
    purchased: StringHashSet,
}

impl View for GameState {
    type V = GameView;

    closed spec fn view(&self) -> GameView {
        GameView {
            queue: ticket_views(self.queue@),
            wallet: self.wallet@,
            working: ticket_views(self.working@),
            multiplier: self.multiplier,
            cash_mult: self.cash_mult,
            xp_mult: self.xp_mult,
            autosolve: self.autosolve@,
            upgrades: self.upgrades@,
            purchased: self.purchased@,
        }
    }
}

/// The base rewards of a difficulty: cash, then experience.
pub fn base_rewards(difficulty: Difficulty) -> (rewards: (u64, u64))
    ensures
        rewards.0 == base_cash(difficulty),
        rewards.1 == base_xp(difficulty),
{
    match difficulty {
        Difficulty::Easy => (BASE_EASY_CASH, BASE_EASY_XP),
        Difficulty::Med => (BASE_MED_CASH, BASE_MED_XP),
        Difficulty::Hard => (BASE_HARD_CASH, BASE_HARD_XP),
    }
}

impl GameState {
    /// A new game with the given upgrades on offer. Where two of them carry
    /// the same id, the later one is the one on offer.
    pub fn new(upgrades: Vec<Upgrade>) -> (game: Self)
        ensures
            game@ == GameView::initial(last_definitions(upgrade_views(upgrades@))),
    {
        Self {
            queue: Vec::new(),
            wallet: Currency::new(),
            working: Vec::new(),
            multiplier: Multiplier::one(),
            cash_mult: Multiplier::one(),
            xp_mult: Multiplier::one(),
            autosolve: RuleSet::new(),
            upgrades: load_upgrades(upgrades),
            purchased: StringHashSet::new(),
        }
    }

    /// Returns the wallet
    pub fn wallet(&self) -> (wallet: &Currency)
        ensures
            wallet@ == self@.wallet,
    {
        &self.wallet
    }

    /// Returns the tickets that are being worked on
    pub fn working(&self) -> (working: &Vec<Ticket>)
        ensures
            ticket_views(working@) == self@.working,
    {
        &self.working
    }

    /// Returns the tickets that wait to be assigned
    pub fn queue(&self) -> (queue: &Vec<Ticket>)
        ensures
            ticket_views(queue@) == self@.queue,
    {
        &self.queue
    }

    /// Returns the catalog of upgrades
    pub fn upgrades(&self) -> (upgrades: &Catalog)
        ensures
            upgrades@ == self@.upgrades,
    {
        &self.upgrades
    }

    /// Returns the rates and the automation that upgrades have brought
    pub fn stats(&self) -> (stats: Stats)
        ensures
            stats.multiplier == self@.multiplier,
            stats.cash_mult == self@.cash_mult,
            stats.xp_mult == self@.xp_mult,
            stats.autosolve@ == self@.autosolve,
    {
        Stats {
            multiplier: self.multiplier,
            cash_mult: self.cash_mult,
            xp_mult: self.xp_mult,
            autosolve: self.autosolve,
        }
    }

    /// Fill an empty desk: four times, spawn a ticket and assign it. The
    /// four new tickets end up in the working set, in the order in which
    /// they were spawned, and the queue is as it was.
    pub fn init_queue(&mut self)
        ensures
            final(self)@.working.len() == old(self)@.working.len() + 4,
            final(self)@.working.take(old(self)@.working.len() as int) == old(self)@.working,
            forall|i: int|
                old(self)@.working.len() <= i < final(self)@.working.len() ==> is_spawn(
                    #[trigger] final(self)@.working[i],
                ),
            final(self)@ == (GameView { working: final(self)@.working, ..old(self)@ }),
    {
        let ghost before = self@;
        for round in 0..4
            invariant
                self@.working.len() == before.working.len() + round,
                self@.working.take(before.working.len() as int) == before.working,
                forall|i: int|
                    before.working.len() <= i < self@.working.len() ==> is_spawn(
                        #[trigger] self@.working[i],
                    ),
                self@ == (GameView { working: self@.working, ..before }),
        {
            self.spawn_ticket();
            self.assign_next_ticket();
        }
    }

    /// Add a ticket to the end of the queue
    pub fn enqueue(&mut self, ticket: Ticket)
        ensures
            final(self)@ == old(self)@.enqueued(ticket@),
    {
        self.queue.push(ticket);
    }

    /// Add a random new ticket to the queue
    pub fn spawn_ticket(&mut self)
        ensures
            final(self)@.queue.len() == old(self)@.queue.len() + 1,
            is_spawn(final(self)@.queue.last()),
            final(self)@ == old(self)@.enqueued(final(self)@.queue.last()),
    {
        let difficulty_roll: u64 = draw_in_range(0, 10);
        let category_roll: u64 = draw_in_range(0, 20);
        let serial: u64 = draw_in_range(1000, 9999);
        self.enqueue(Ticket::from_rolls(difficulty_roll, category_roll, serial as u16));
    }

    /// Move one from queue to working
    pub fn assign_next_ticket(&mut self)
        ensures
            final(self)@ == old(self)@.assigned(),
    {
        if let Some(ticket) = self.queue.pop() {
            self.working.push(ticket);
        }
    }

    /// Process a click on a ticket. A click on an index beyond the working
    /// set is ignored. The click counts for as many clicks as the rounding
    /// policy makes of the click multiplier. If that completes the ticket,
    /// its reward is what the policy makes of its base rewards at the
    /// reward multipliers, and the ticket leaves the working set.
    pub fn click_ticket(&mut self, index: usize)
        ensures
            index >= old(self)@.working.len() ==> final(self)@ == old(self)@,
            index < old(self)@.working.len() ==> exists|clicks: u64, cash: u64, xp: u64|
                #[trigger] old(self)@.can_roll(index as int, clicks, cash, xp) && final(self)@
                    == old(self)@.clicked(index as int, clicks, cash, xp),
    {
        if index < self.working.len() {
            let ghost difficulty = self@.working[index as int].difficulty;
            let clicks = rand_round(1, self.multiplier);
            if self.add_clicks(index, clicks) {
                assert(self.working@.len() == self@.working.len());
                assert(self@.working[index as int].difficulty == difficulty);
                let (cash_base, xp_base) = base_rewards(*self.working[index].difficulty());
                let cash = rand_round(cash_base, self.cash_mult);
                let xp = rand_round(xp_base, self.xp_mult);
                assert(old(self)@.can_roll(index as int, clicks, cash, xp));
                self.close_ticket(index, cash, xp);
            } else {
                // no reward is drawn for a ticket that stays open
                let ghost cash = self@.cash_mult.rounded(base_cash(difficulty), 0);
                let ghost xp = self@.xp_mult.rounded(base_xp(difficulty), 0);
                assert(old(self)@.can_roll(index as int, clicks, cash, xp));
            }
        }
    }

    /// Process a click on a ticket that counts for `clicks` clicks and, if
    /// it completes the ticket, pays `cash` and `xp`.
    pub fn click_ticket_with(&mut self, index: usize, clicks: u64, cash: u64, xp: u64)
        ensures
            final(self)@ == old(self)@.clicked(index as int, clicks, cash, xp),
    {
        if index < self.working.len() {
            if self.add_clicks(index, clicks) {
                self.close_ticket(index, cash, xp);
            }
        }
    }

    /// Add the clicks to a ticket of the working set. Returns true if the
    /// ticket is complete afterwards.
    fn add_clicks(&mut self, index: usize, clicks: u64) -> (complete: bool)
        requires
            index < old(self)@.working.len(),
        ensures
            complete == old(self)@.working[index as int].progressed(
                click_amount(clicks),
            ).is_complete(),
            final(self)@ == (GameView {
                working: old(self)@.working.update(
                    index as int,
                    old(self)@.working[index as int].progressed(click_amount(clicks)),
                ),
                ..old(self)@
            }),
    {
        let amount: u16 = if clicks > u16::MAX as u64 {
            u16::MAX
        } else {
            clicks as u16
        };
        self.working[index].click(amount);
        self.working[index].is_complete()
    }

    /// Pay the reward for a ticket of the working set and remove it.
    fn close_ticket(&mut self, index: usize, cash: u64, xp: u64)
        requires
            index < old(self)@.working.len(),
        ensures
            final(self)@ == (GameView {
                wallet: old(self)@.wallet.credited(cash as nat, xp as nat),
                working: old(self)@.working.remove(index as int),
                ..old(self)@
            }),
    {
        self.wallet.add_cash(cash);
        self.wallet.add_xp(xp);
        // Remove finished tickets
        let _ = self.working.remove(index);
    }

    /// Click once on any ticket that is being worked on and matches the
    /// currently bought autosolve upgrades. A ticket that this completes
    /// stays where it is, and pays when it is next clicked.
    pub fn autosolve(&mut self)
        ensures
            final(self)@ == old(self)@.ticked(),
    {
        let ghost before = self@;
        let mut i: usize = 0;
        while i < self.working.len()
            invariant
                i <= self.working.len(),
                self@.working.len() == before.working.len(),
                forall|j: int| 0 <= j < i ==> self@.working[j] == before.ticked().working[j],
                forall|j: int| i <= j < self@.working.len() ==> self@.working[j] == before.working[j],
                self@ == (GameView { working: self@.working, ..before }),
            decreases self.working.len() - i,
        {
            let difficulty = *self.working[i].difficulty();
            let category = *self.working[i].category();
            if self.autosolve.contains(difficulty, category) {
                self.working[i].click(1);
            }
            i += 1;
        }
    }

    /// Check if an upgrade is available to buy
    /// It's available to buy if:
    /// - It exists in the catalog
    /// - It has not already been purchased
    /// - All of its prerequisite purchases have been made
    ///
    /// Note that it does **not** check if the upgrade can be afforded
    pub fn upgrade_available(&self, id: &String) -> (available: bool)
        ensures
            available == self@.available(id@),
    {
        // already bought it, can't buy it again
        if self.purchased.contains(id.as_str()) {
            return false;
        }
        match self.upgrades.get(id.as_str()) {
            // not there, can't buy it
            None => false,
            Some(upgrade) => {
                let mut i: usize = 0;
                while i < upgrade.requires.len()
                    invariant
                        i <= upgrade.requires.len(),
                        upgrade@ == self@.upgrades[id@],
                        forall|j: int|
                            0 <= j < i ==> self@.purchased.contains(
                                #[trigger] self@.upgrades[id@].requires[j],
                            ),
                    decreases upgrade.requires.len() - i,
                {
                    if !self.purchased.contains(upgrade.requires[i].as_str()) {
                        assert(self@.upgrades[id@].requires[i as int] == upgrade.requires[i as int]@);
                        return false;
                    }
                    i += 1;
                }
                true
            },
        }
    }

    /// Get a list of currently available upgrades: each available upgrade
    /// once, as the catalog defines it, and no other.
    pub fn avail_upgrades(&self) -> (avail: Vec<Upgrade>)
        ensures
            forall|i: int|
                0 <= i < avail.len() ==> self@.available(#[trigger] avail[i]@.id) && avail[i]@
                    == self@.upgrades[avail[i]@.id],
            forall|id: Seq<char>| self@.available(id) ==> #[trigger] offers(avail@, id),
            forall|i: int, j: int|
                0 <= i < j < avail.len() ==> #[trigger] avail[i]@.id != #[trigger] avail[j]@.id,
    {
        let ids = self.upgrades.ids();
        let mut avail: Vec<Upgrade> = Vec::new();
        let ghost mut origin: Seq<int> = Seq::empty();
        let mut k: usize = 0;
        while k < ids.len()
            invariant
                k <= ids.len(),
                lists_once(ids@),
                forall|id: Seq<char>| #[trigger] self@.upgrades.contains_key(id) <==> lists(ids@, id),
                origin.len() == avail.len(),
                forall|i: int|
                    0 <= i < avail.len() ==> 0 <= #[trigger] origin[i] < k && ids[origin[i]]@
                        == avail[i]@.id,
                forall|i: int, j: int|
                    0 <= i < j < avail.len() ==> #[trigger] origin[i] < #[trigger] origin[j],
                forall|i: int|
                    0 <= i < avail.len() ==> self@.available(#[trigger] avail[i]@.id) && avail[i]@
                        == self@.upgrades[avail[i]@.id],
                forall|m: int|
                    0 <= m < k && self@.available(#[trigger] ids[m]@) ==> offers(avail@, ids[m]@),
            decreases ids.len() - k,
        {
            let ghost before = avail@;
            if self.upgrade_available(&ids[k]) {
                let upgrade = self.upgrades.get(ids[k].as_str()).unwrap();
                avail.push(upgrade.clone());
                proof {
                    origin = origin.push(k as int);
                }
            }
            proof {
                assert forall|m: int| 0 <= m < k + 1 && self@.available(#[trigger] ids[m]@) implies offers(
                    avail@,
                    ids[m]@,
                ) by {
                    if m < k {
                        let i = choose|i: int| 0 <= i < before.len() && #[trigger] before[i]@.id == ids[m]@;
                        assert(avail@[i]@.id == ids[m]@);
                    } else {
                        assert(avail@[before.len() as int]@.id == ids[m]@);
                    }
                }
            }
            k += 1;
        }
        proof {
            assert forall|id: Seq<char>| self@.available(id) implies #[trigger] offers(avail@, id) by {
                assert(lists(ids@, id));
            }
            assert forall|i: int, j: int| 0 <= i < j < avail.len() implies #[trigger] avail[i]@.id
                != #[trigger] avail[j]@.id by {
                assert(ids@[origin[i]]@ != ids@[origin[j]]@);
            }
        }
        avail
    }

    /// Buy an upgrade and apply its effects
    /// Will return an error if:
    /// - Upgrade isn't available
    /// - Upgrade is too expensive
    ///
    /// A purchase that is declined changes nothing.
    pub fn buy_upgrade(&mut self, id: &String) -> (outcome: Result<(), BuyError>)
        ensures
            outcome == old(self)@.purchase_outcome(id@),
            final(self)@ == old(self)@.after_purchase(id@),
    {
        if !self.upgrade_available(id) {
            return Err(BuyError::UpgradeUnavailable);
        }
        let effects = {
            let upgrade = self.upgrades.get(id.as_str()).unwrap();
            match self.wallet.spend(upgrade.cost.cash(), upgrade.cost.xp()) {
                Ok(_) => {},
                Err(short) => {
                    return Err(BuyError::from(short));
                },
            }
            self.purchased.insert(upgrade.id.clone());
            upgrade.effects.clone()
        };
        proof {
            let cost = old(self)@.upgrades[id@].cost;
            assert(self@ =~= (GameView {
                wallet: old(self)@.wallet.debited(cost.cash, cost.xp),
                purchased: old(self)@.purchased.insert(id@),
                ..old(self)@
            }));
        }
        self.apply_upgrade(&effects);
        Ok(())
    }

    /// Update the game with the provided effects, first to last
    pub fn apply_upgrade(&mut self, effects: &Vec<Effects>)
        ensures
            final(self)@ == old(self)@.with_effects(effects@),
    {
        let ghost before = self@;
        let mut i: usize = 0;
        while i < effects.len()
            invariant
                i <= effects.len(),
                self@ == before.with_effects(effects@.take(i as int)),
            decreases effects.len() - i,
        {
            match effects[i] {
                Effects::IncMultiplier(x) => {
                    self.multiplier = self.multiplier.scaled(x);
                },
                Effects::AutoSolve(diff, cat) => {
                    self.autosolve.insert(diff, cat);
                },
                Effects::IncCashMultiplier(x) => {
                    self.cash_mult = self.cash_mult.scaled(x);
                },
                Effects::IncXPMultiplier(x) => {
                    self.xp_mult = self.xp_mult.scaled(x);
                },
            }
            proof {
                assert(effects@.take(i + 1).drop_last() =~= effects@.take(i as int));
            }
            i += 1;
        }
        assert(effects@.take(effects.len() as int) =~= effects@);
    }
}

} // verus!
