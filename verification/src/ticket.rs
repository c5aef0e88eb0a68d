//! Support tickets: the unit of work a player clicks through.

use vstd::prelude::*;
use vstd::std_specs::cmp::PartialEqSpecImpl;
use vstd::string::StringExecFns;

verus! {

/// How difficult a ticket is to complete
#[derive(Debug, PartialEq, Eq, Clone, Copy, Hash, Structural)]
pub enum Difficulty {
    Easy,
    Med,
    Hard,
}

/// Categories that tickets can fall under
#[derive(Debug, PartialEq, Eq, Clone, Copy, Hash, Structural)]
pub enum Category {
    Network,
    Windows,
    Linux,
    Web,
    Misc,
}

/// Clicks an easy ticket can take without being complete.
pub const EASY_GOAL: u16 = 5;

/// Clicks a medium ticket can take without being complete.
pub const MED_GOAL: u16 = 15;

/// Clicks a hard ticket can take without being complete.
pub const HARD_GOAL: u16 = 30;

impl Difficulty {
    /// The goal of every ticket of this difficulty.
    pub open spec fn spec_goal(self) -> u16 {
        match self {
            Difficulty::Easy => EASY_GOAL,
            Difficulty::Med => MED_GOAL,
            Difficulty::Hard => HARD_GOAL,
        }
    }

    /// The goal of every ticket of this difficulty.
    #[verifier::when_used_as_spec(spec_goal)]
    pub fn goal(self) -> (goal: u16)
        ensures
            goal == self.spec_goal(),
    {
        match self {
            Difficulty::Easy => EASY_GOAL,
            Difficulty::Med => MED_GOAL,
            Difficulty::Hard => HARD_GOAL,
        }
    }

    /// The difficulty that a roll of a ten-sided die stands for: four faces
    /// are easy, three medium, three hard.
    pub open spec fn spec_from_roll(roll: u64) -> Difficulty {
        if roll <= 3 {
            Difficulty::Easy
        } else if roll <= 6 {
            Difficulty::Med
        } else {
            Difficulty::Hard
        }
    }

    /// The difficulty that a roll of a ten-sided die stands for.
    #[verifier::when_used_as_spec(spec_from_roll)]
    pub fn from_roll(roll: u64) -> (difficulty: Difficulty)
        requires
            roll <= 10,
        ensures
            difficulty == Difficulty::spec_from_roll(roll),
    {
        if roll <= 3 {
            Difficulty::Easy
        } else if roll <= 6 {
            Difficulty::Med
        } else {
            Difficulty::Hard
        }
    }
}

impl Category {
    /// The category that a roll of a twenty-sided die stands for: seven
    /// faces are miscellaneous, four Windows, three each Linux, network and web.
    pub open spec fn spec_from_roll(roll: u64) -> Category {
        if roll <= 6 {
            Category::Misc
        } else if roll <= 10 {
            Category::Windows
        } else if roll <= 13 {
            Category::Linux
        } else if roll <= 16 {
            Category::Network
        } else {
            Category::Web
        }
    }

    /// The category that a roll of a twenty-sided die stands for.
    #[verifier::when_used_as_spec(spec_from_roll)]
    pub fn from_roll(roll: u64) -> (category: Category)
        requires
            roll <= 20,
        ensures
            category == Category::spec_from_roll(roll),
    {
        if roll <= 6 {
            Category::Misc
        } else if roll <= 10 {
            Category::Windows
        } else if roll <= 13 {
            Category::Linux
        } else if roll <= 16 {
            Category::Network
        } else {
            Category::Web
        }
    }

    /// The name of the category as it shows in a ticket's name.
    pub open spec fn spec_label(self) -> Seq<char> {
        match self {
            Category::Network => "Network"@,
            Category::Windows => "Windows"@,
            Category::Linux => "Linux"@,
            Category::Web => "Web"@,
            Category::Misc => "Misc"@,
        }
    }

    /// The name of the category as it shows in a ticket's name.
    pub fn label(self) -> (label: &'static str)
        ensures
            label@ == self.spec_label(),
    {
        match self {
            Category::Network => "Network",
            Category::Windows => "Windows",
            Category::Linux => "Linux",
            Category::Web => "Web",
            Category::Misc => "Misc",
        }
    }
}

/// The character that stands for a decimal digit.
pub open spec fn digit_char(digit: int) -> char {
    if digit == 0 {
        '0'
    } else if digit == 1 {
        '1'
    } else if digit == 2 {
        '2'
    } else if digit == 3 {
        '3'
    } else if digit == 4 {
        '4'
    } else if digit == 5 {
        '5'
    } else if digit == 6 {
        '6'
    } else if digit == 7 {
        '7'
    } else if digit == 8 {
        '8'
    } else {
        '9'
    }
}

/// A serial number in decimal, with zeros in front where it has fewer than
/// four digits.
pub open spec fn serial_digits(serial: u16) -> Seq<char> {
    let low = seq![
        digit_char(serial as int / 1000 % 10),
        digit_char(serial as int / 100 % 10),
        digit_char(serial as int / 10 % 10),
        digit_char(serial as int % 10),
    ];
    if serial >= 10000 {
        seq![digit_char(serial as int / 10000)] + low
    } else {
        low
    }
}

/// The name of a generated ticket: its category, then ` issue #`, then its
/// serial number in at least four digits.
pub open spec fn spec_ticket_name(category: Category, serial: u16) -> Seq<char> {
    category.spec_label() + " issue #"@ + serial_digits(serial)
}

fn digit_text(digit: u16) -> (text: &'static str)
    requires
        digit < 10,
    ensures
        text@ == seq![digit_char(digit as int)],
{
    proof {
        reveal_strlit("0");
        reveal_strlit("1");
        reveal_strlit("2");
        reveal_strlit("3");
        reveal_strlit("4");
        reveal_strlit("5");
        reveal_strlit("6");
        reveal_strlit("7");
        reveal_strlit("8");
        reveal_strlit("9");
    }
    if digit == 0 {
        "0"
    } else if digit == 1 {
        "1"
    } else if digit == 2 {
        "2"
    } else if digit == 3 {
        "3"
    } else if digit == 4 {
        "4"
    } else if digit == 5 {
        "5"
    } else if digit == 6 {
        "6"
    } else if digit == 7 {
        "7"
    } else if digit == 8 {
        "8"
    } else {
        "9"
    }
}

/// The name of a generated ticket.
pub fn ticket_name(category: Category, serial: u16) -> (name: String)
    ensures
        name@ == spec_ticket_name(category, serial),
{
    let mut name = String::from_str(category.label());
    name.append(" issue #");
    if serial >= 10000 {
        name.append(digit_text(serial / 10000));
    }
    name.append(digit_text(serial / 1000 % 10));
    name.append(digit_text(serial / 100 % 10));
    name.append(digit_text(serial / 10 % 10));
    name.append(digit_text(serial % 10));
    name
}

/// A ticket as a mathematical value. The goal is not part of it: it follows
/// from the difficulty.
pub struct TicketView {
    pub difficulty: Difficulty,
    pub category: Category,
    pub clicked: u16,
    pub name: Seq<char>,
}

impl TicketView {
    /// How many clicks the ticket can take without being complete.
    pub open spec fn goal(self) -> u16 {
        self.difficulty.spec_goal()
    }

    /// A ticket is complete once its clicks exceed its goal. A ticket that
    /// stands exactly at its goal is not complete.
    pub open spec fn is_complete(self) -> bool {
        self.clicked > self.goal()
    }

    /// The ticket after `n` more clicks. The counter stops at `u16::MAX`.
    pub open spec fn progressed(self, n: u16) -> TicketView {
        TicketView {
            clicked: if self.clicked + n <= u16::MAX {
                (self.clicked + n) as u16
            } else {
                u16::MAX
            },
            ..self
        }
    }
}

/// Ticket object
#[derive(Debug)]
pub struct Ticket {
    /// How hard the ticket is to complete
    difficulty: Difficulty,
    /// What kind of ticket it is
    category: Category,
    /// How many times the ticket has already been clicked
    clicked: u16,
    /// Name of the ticket
    name: String,
    /// How many clicks to complete
    goal: u16,
}

impl View for Ticket {
    type V = TicketView;

    closed spec fn view(&self) -> TicketView {
        TicketView {
            difficulty: self.difficulty,
            category: self.category,
            clicked: self.clicked,
            name: self.name@,
        }
    }
}

impl PartialEq for Ticket {
    /// Two tickets are equal when all that they hold is equal.
    fn eq(&self, other: &Self) -> (equal: bool) {
        self.difficulty == other.difficulty && self.category == other.category && self.clicked
            == other.clicked && self.name == other.name
    }
}

impl PartialEqSpecImpl for Ticket {
    open spec fn obeys_eq_spec() -> bool {
        true
    }

    open spec fn eq_spec(&self, other: &Self) -> bool {
        self@ == other@
    }
}

impl Clone for Ticket {
    fn clone(&self) -> (copy: Self)
        ensures
            copy@ == self@,
    {
        proof {
            use_type_invariant(self);
        }
        Self {
            difficulty: self.difficulty,
            category: self.category,
            clicked: self.clicked,
            name: self.name.clone(),
            goal: self.goal,
        }
    }
}

impl Ticket {
    /// The stored goal is always the one its difficulty prescribes.
    #[verifier::type_invariant]
    spec fn goal_matches_difficulty(self) -> bool {
        self.goal == self.difficulty.spec_goal()
    }

    /// Create a new ticket
    pub fn new(difficulty: Difficulty, category: Category, name: &str) -> (ticket: Self)
        ensures
            ticket@ == (TicketView { difficulty, category, clicked: 0, name: name@ }),
    {
        Self { difficulty, category, clicked: 0, name: name.to_owned(), goal: difficulty.goal() }
    }

    /// The new ticket that three rolls stand for: one for the difficulty,
    /// one for the category, and a serial number for the name.
    pub open spec fn spec_from_rolls(difficulty_roll: u64, category_roll: u64, serial: u16) -> TicketView {
        TicketView {
            difficulty: Difficulty::spec_from_roll(difficulty_roll),
            category: Category::spec_from_roll(category_roll),
            clicked: 0,
            name: spec_ticket_name(Category::spec_from_roll(category_roll), serial),
        }
    }

    /// Create the new ticket that three rolls stand for.
    pub fn from_rolls(difficulty_roll: u64, category_roll: u64, serial: u16) -> (ticket: Self)
        requires
            difficulty_roll <= 10,
            category_roll <= 20,
        ensures
            ticket@ == Ticket::spec_from_rolls(difficulty_roll, category_roll, serial),
    {
        let difficulty = Difficulty::from_roll(difficulty_roll);
        let category = Category::from_roll(category_roll);
        let name = ticket_name(category, serial);
        Ticket::new(difficulty, category, name.as_str())
    }

    /// Returns a reference to the difficulty
    pub fn difficulty(&self) -> (difficulty: &Difficulty)
        ensures
            *difficulty == self@.difficulty,
    {
        &self.difficulty
    }

    /// Returns a reference to the category
    pub fn category(&self) -> (category: &Category)
        ensures
            *category == self@.category,
    {
        &self.category
    }

    /// Returns the name of the ticket
    pub fn name(&self) -> (name: &String)
        ensures
            name@ == self@.name,
    {
        &self.name
    }

    /// Returns how many time the ticket was clicked
    pub fn clicked(&self) -> (clicked: u16)
        ensures
            clicked == self@.clicked,
    {
        self.clicked
    }

    /// Returns how many clicks the ticket can take without being complete
    pub fn goal(&self) -> (goal: u16)
        ensures
            goal == self@.goal(),
    {
        proof {
            use_type_invariant(self);
        }
        self.goal
    }

    /// Click the ticket `i` times
    pub fn click(&mut self, i: u16)
        ensures
            final(self)@ == old(self)@.progressed(i),
    {
        proof {
            use_type_invariant(&*self);
        }
        self.clicked = self.clicked.saturating_add(i);
    }

    /// Check if a ticket has been clicked enough to be completed
    /// The higher the difficulty, the more the ticket needs to be clicked
    pub fn is_complete(&self) -> (complete: bool)
        ensures
            complete == self@.is_complete(),
    {
        proof {
            use_type_invariant(self);
        }
        self.clicked > self.goal
    }
}

} // verus!
