//! The battle menu: a cyclic selection over the options Fight and Run.

use vstd::prelude::*;

verus! {

/// Number of options in the battle menu.
pub const NUM_MENU_OPTIONS: isize = 2;

/// One option of the battle menu, in display order.
#[derive(Clone, Copy, Debug, PartialEq, Eq, Structural)]
pub enum BattleMenuOption {
    Fight,
    Run,
}

/// The option the player currently points at.
#[derive(Clone, Copy, Debug, PartialEq, Eq, Structural)]
pub struct BattleMenuSelection {
    pub selected: BattleMenuOption,
}

/// The option at a position of the menu; positions outside it name nothing.
pub open spec fn option_at(index: int) -> Option<BattleMenuOption> {
    if index == 0 {
        Some(BattleMenuOption::Fight)
    } else if index == 1 {
        Some(BattleMenuOption::Run)
    } else {
        None
    }
}

/// Position reached from `index` by `delta` steps, wrapping around the menu.
pub open spec fn wrapped(index: int, delta: int) -> int {
    (index + delta + NUM_MENU_OPTIONS) % (NUM_MENU_OPTIONS as int)
}

/// Net number of steps of one tick's direction keys: previous is applied
/// first, next second, so both together cancel.
pub open spec fn step_of(left: bool, right: bool) -> int {
    (if right { 1int } else { 0int }) - (if left { 1int } else { 0int })
}

impl BattleMenuOption {
    /// Position of the option in the menu.
    pub open spec fn spec_index(self) -> int {
        match self {
            BattleMenuOption::Fight => 0,
            BattleMenuOption::Run => 1,
        }
    }

    /// The option `delta` steps further on, wrapping around.
    pub open spec fn shifted(self, delta: int) -> BattleMenuOption {
        option_at(wrapped(self.spec_index(), delta)).unwrap()
    }

    /// The option after `presses` presses of next.
    pub open spec fn after_next_presses(self, presses: nat) -> BattleMenuOption
        decreases presses,
    {
        if presses == 0 {
            self
        } else {
            self.after_next_presses((presses - 1) as nat).shifted(1)
        }
    }

    /// Position of the option in the menu.
    pub fn index(self) -> (index: isize)
        ensures
            index == self.spec_index(),
            0 <= index < NUM_MENU_OPTIONS,
    {
        match self {
            BattleMenuOption::Fight => 0,
            BattleMenuOption::Run => 1,
        }
    }

    /// The option at a position, if the menu has one there.
    pub fn from_index(index: isize) -> (option: Option<BattleMenuOption>)
        ensures
            option == option_at(index as int),
            option is Some <==> 0 <= index < NUM_MENU_OPTIONS,
            option matches Some(o) ==> o.spec_index() == index,
    {
        if index == 0 {
            Some(BattleMenuOption::Fight)
        } else if index == 1 {
            Some(BattleMenuOption::Run)
        } else {
            None
        }
    }

    /// The option selected after one tick's direction keys.
    pub fn moved(self, left: bool, right: bool) -> (option: BattleMenuOption)
        ensures
            option == self.shifted(step_of(left, right)),
            option.spec_index() == wrapped(self.spec_index(), step_of(left, right)),
            left == right ==> option == self,
            left != right ==> option != self,
    {
        let mut new_selection: isize = self.index();
        if left {
            new_selection -= 1;
        }
        if right {
            new_selection += 1;
        }
        new_selection = (new_selection + NUM_MENU_OPTIONS) % NUM_MENU_OPTIONS;
        if new_selection == 0 {
            BattleMenuOption::Fight
        } else {
            BattleMenuOption::Run
        }
    }

    /// The option one step to the right, wrapping around.
    pub fn next(self) -> (option: BattleMenuOption)
        ensures
            option == self.shifted(1),
    {
        self.moved(false, true)
    }

    /// The option one step to the left, wrapping around.
    pub fn previous(self) -> (option: BattleMenuOption)
        ensures
            option == self.shifted(-1),
    {
        self.moved(true, false)
    }
}

impl BattleMenuSelection {
    /// The selection a menu starts with.
    pub fn new() -> (selection: BattleMenuSelection)
        ensures
            selection.selected == BattleMenuOption::Fight,
    {
        BattleMenuSelection { selected: BattleMenuOption::Fight }
    }

    /// Whether the button of `option` is drawn highlighted: a function of
    /// the selection alone.
    pub fn is_highlighted(&self, option: BattleMenuOption) -> (lit: bool)
        ensures
            lit == (self.selected == option),
    {
        self.selected == option
    }

    /// Applies one tick's direction keys to the selection.
    pub fn apply(&mut self, left: bool, right: bool)
        ensures
            final(self).selected == old(self).selected.shifted(step_of(left, right)),
    {
        self.selected = self.selected.moved(left, right);
    }
}

/// Every option sits at position 0 or 1, and a step in either direction
/// stays inside the menu.
pub proof fn lemma_index_in_menu(option: BattleMenuOption, delta: int)
    requires
        -1 <= delta <= 1,
    ensures
        option.spec_index() == 0 || option.spec_index() == 1,
        wrapped(option.spec_index(), delta) == 0 || wrapped(option.spec_index(), delta) == 1,
        option_at(wrapped(option.spec_index(), delta)) is Some,
        option.shifted(delta).spec_index() == wrapped(option.spec_index(), delta),
{
}

/// Next cycles Fight, Run, Fight, ...: one press flips the option and two
/// presses restore it.
pub proof fn lemma_next_cycles(option: BattleMenuOption)
    ensures
        BattleMenuOption::Fight.shifted(1) == BattleMenuOption::Run,
        BattleMenuOption::Run.shifted(1) == BattleMenuOption::Fight,
        option.shifted(1) != option,
        option.shifted(1).shifted(1) == option,
        option.shifted(-1) == option.shifted(1),
{
}

/// After any number of presses of next the selection is the starting
/// option when the number is even and the other option when it is odd.
pub proof fn lemma_repeated_next(option: BattleMenuOption, presses: nat)
    ensures
        option.after_next_presses(presses).spec_index() == (option.spec_index() + presses) % 2,
        presses % 2 == 0 ==> option.after_next_presses(presses) == option,
        presses % 2 == 1 ==> option.after_next_presses(presses) == option.shifted(1),
    decreases presses,
{
    if presses > 0 {
        lemma_repeated_next(option, (presses - 1) as nat);
        lemma_next_cycles(option.after_next_presses((presses - 1) as nat));
    }
}

} // verus!
