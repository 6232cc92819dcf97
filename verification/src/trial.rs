//! One round of the Monty Hall puzzle: the prize is hidden behind one of
//! three doors, the player picks a door, the host opens a goat door that
//! the player did not pick, and the player either keeps the pick or
//! switches to the one remaining closed door.

use rand::Rng;
use vstd::pervasive::unreached;
use vstd::prelude::*;

verus! {

/// What a door hides: the prize, or a goat.
#[derive(Clone, Copy, PartialEq, Eq, Structural, Debug)]
pub enum Door {
    Prize,
    Goat,
}

/// One of the three doors, as pointed at by the player or the host.
#[derive(Clone, Copy, PartialEq, Eq, Structural, Debug)]
pub enum Selection {
    Door1,
    Door2,
    Door3,
}

/// The three door slots of one round.
#[derive(Clone, Copy, PartialEq, Eq, Structural, Debug)]
pub struct Doors {
    pub first: Door,
    pub second: Door,
    pub third: Door,
}

impl Doors {
    /// The content of the slot that a selection points at.
    pub open spec fn spec_at(self, s: Selection) -> Door {
        match s {
            Selection::Door1 => self.first,
            Selection::Door2 => self.second,
            Selection::Door3 => self.third,
        }
    }

    /// Exactly one slot hides the prize; the other two hide goats.
    pub open spec fn wf(self) -> bool {
        ||| (self.first == Door::Prize && self.second == Door::Goat && self.third == Door::Goat)
        ||| (self.first == Door::Goat && self.second == Door::Prize && self.third == Door::Goat)
        ||| (self.first == Door::Goat && self.second == Door::Goat && self.third == Door::Prize)
    }

    /// A fresh round with the prize behind door `p` and goats elsewhere.
    pub fn with_prize(p: Selection) -> (d: Doors)
        ensures
            d.wf(),
            d.spec_at(p) == Door::Prize,
            forall|s: Selection| s != p ==> #[trigger] d.spec_at(s) == Door::Goat,
    {
        match p {
            Selection::Door1 => Doors {
                first: Door::Prize,
                second: Door::Goat,
                third: Door::Goat,
            },
            Selection::Door2 => Doors {
                first: Door::Goat,
                second: Door::Prize,
                third: Door::Goat,
            },
            Selection::Door3 => Doors {
                first: Door::Goat,
                second: Door::Goat,
                third: Door::Prize,
            },
        }
    }

    /// Open the slot that `s` points at.
    pub fn at(&self, s: Selection) -> (d: Door)
        ensures
            d == self.spec_at(s),
    {
        match s {
            Selection::Door1 => self.first,
            Selection::Door2 => self.second,
            Selection::Door3 => self.third,
        }
    }
}

/// The door the host opens, as a function of the round and the player's
/// pick. When the player's pick hides a goat this is the unique other goat
/// door; when the pick hides the prize the tie between the two goat doors
/// is broken deterministically by inspecting one fixed reference slot,
/// never by a second random draw.
pub open spec fn spec_host_opening(d: Doors, pick: Selection) -> Selection {
    match pick {
        Selection::Door1 => if d.second == Door::Prize {
            Selection::Door3
        } else {
            Selection::Door2
        },
        Selection::Door2 => if d.first == Door::Prize {
            Selection::Door3
        } else {
            Selection::Door1
        },
        Selection::Door3 => if d.first == Door::Prize {
            Selection::Door2
        } else {
            Selection::Door1
        },
    }
}

/// The host opens a door: never the player's pick, and never the prize door.
pub fn host_opening(d: &Doors, pick: Selection) -> (host: Selection)
    requires
        d.wf(),
    ensures
        host == spec_host_opening(*d, pick),
        host != pick,
        d.spec_at(host) == Door::Goat,
{
    match pick {
        Selection::Door1 => match d.at(Selection::Door2) {
            Door::Goat => Selection::Door2,
            Door::Prize => Selection::Door3,
        },
        Selection::Door2 => match d.at(Selection::Door1) {
            Door::Goat => Selection::Door1,
            Door::Prize => Selection::Door3,
        },
        Selection::Door3 => match d.at(Selection::Door1) {
            Door::Goat => Selection::Door1,
            Door::Prize => Selection::Door2,
        },
    }
}

/// The one door that is neither `pick` nor `host`.
pub open spec fn spec_remaining_door(pick: Selection, host: Selection) -> Selection {
    if pick != Selection::Door1 && host != Selection::Door1 {
        Selection::Door1
    } else if pick != Selection::Door2 && host != Selection::Door2 {
        Selection::Door2
    } else {
        Selection::Door3
    }
}

/// Switch the player's pick to the unique third door: the one that is
/// neither the original pick nor the door the host opened.
pub fn switch_selection(pick: Selection, host: Selection) -> (r: Selection)
    requires
        pick != host,
    ensures
        r == spec_remaining_door(pick, host),
        r != pick,
        r != host,
{
    match pick {
        Selection::Door1 => match host {
            Selection::Door1 => unreached(),
            Selection::Door2 => Selection::Door3,
            Selection::Door3 => Selection::Door2,
        },
        Selection::Door2 => match host {
            Selection::Door1 => Selection::Door3,
            Selection::Door2 => unreached(),
            Selection::Door3 => Selection::Door1,
        },
        Selection::Door3 => match host {
            Selection::Door1 => Selection::Door2,
            Selection::Door2 => Selection::Door1,
            Selection::Door3 => unreached(),
        },
    }
}

/// Whether the player wins a round with prize door `prize`, initial pick
/// `pick`, and the given strategy. Because the host always reveals a goat
/// door distinct from the pick, keeping the pick wins exactly when the
/// first pick was right, and switching wins exactly when it was wrong.
pub open spec fn spec_outcome(prize: Selection, pick: Selection, switch_doors: bool) -> bool {
    if switch_doors {
        pick != prize
    } else {
        pick == prize
    }
}

/// Play one full round from the two draws it depends on: where the prize
/// sits and which door the player first picks. Returns true iff the door
/// the player finally holds hides the prize.
pub fn play_trial(prize: Selection, pick: Selection, switch_doors: bool) -> (won: bool)
    ensures
        won == spec_outcome(prize, pick, switch_doors),
{
    let doors = Doors::with_prize(prize);
    let host = host_opening(&doors, pick);
    let chosen = if switch_doors {
        switch_selection(pick, host)
    } else {
        pick
    };
    doors.at(chosen) == Door::Prize
}

/// The selection that a uniform draw in [0, 3) stands for.
pub open spec fn spec_selection_from_index(i: int) -> Selection {
    if i == 0 {
        Selection::Door1
    } else if i == 1 {
        Selection::Door2
    } else {
        Selection::Door3
    }
}

/// Turn a validated draw in [0, 3) into the door it stands for.
pub fn selection_from_index(i: usize) -> (s: Selection)
    requires
        i < 3,
    ensures
        s == spec_selection_from_index(i as int),
{
    if i == 0 {
        Selection::Door1
    } else if i == 1 {
        Selection::Door2
    } else {
        Selection::Door3
    }
}

#[verifier::external_type_specification]
#[verifier::external_body]
pub struct ExThreadRng(rand::rngs::ThreadRng);

/// Relies on rand::thread_rng: a handle to this thread's own generator,
/// so that concurrent callers never share randomness state.
#[verifier::external_body]
fn fresh_rng() -> rand::rngs::ThreadRng {
    rand::thread_rng()
}

/// Relies on rand::Rng::gen_range over the range 0..3: the draw is always
/// strictly below 3 by construction. Which value comes back is random.
#[verifier::external_body]
fn draw_index(rng: &mut rand::rngs::ThreadRng) -> (r: usize)
    ensures
        r < 3,
{
    rng.gen_range(0..3)
}

/// Simulate one Monty Hall round under the given strategy: hide the prize
/// behind a uniformly drawn door, draw the player's pick uniformly and
/// independently, let the host open a goat door, switch if asked, and
/// report whether the player won. The result depends on the two draws made
/// inside, so no more can be said of it than of them.
pub fn monty_hall(switch_doors: bool) -> bool {
    let mut rng = fresh_rng();
    let prize_index = draw_index(&mut rng);
    let prize = selection_from_index(prize_index);
    let pick_index = draw_index(&mut rng);
    let pick = selection_from_index(pick_index);
    play_trial(prize, pick, switch_doors)
}

} // verus!

