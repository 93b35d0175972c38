use vstd::prelude::*;

verus! {

/// One of the two marks a tic-tac-toe game is played with.
#[derive(Debug, Clone, Copy, PartialEq, Eq, Structural)]
pub enum Player {
    X,
    O,
}

impl Player {
    /// The mark held by the other side.
    pub open spec fn spec_opponent(self) -> Player {
        match self {
            Player::X => Player::O,
            Player::O => Player::X,
        }
    }

    /// Get the opposite player.
    pub fn opponent(self) -> (r: Player)
        ensures
            r == self.spec_opponent(),
    {
        match self {
            Player::X => Player::O,
            Player::O => Player::X,
        }
    }
}

/// Relies on rand::random::<bool>: a fresh draw from the thread-local
/// generator, uniform over true and false. Nothing can be promised of a
/// single outcome.
#[verifier::external_body]
fn coin_flip() -> bool {
    rand::random::<bool>()
}

/// The assignment determined by the two coin flips: which role holds X,
/// and which role moves first. The human's mark and the agent's mark are
/// always opposite.
pub open spec fn assignment_of(human_is_x: bool, human_first: bool) -> (Player, Player, Player) {
    let human = if human_is_x {
        Player::X
    } else {
        Player::O
    };
    let agent = human.spec_opponent();
    let first = if human_first {
        human
    } else {
        agent
    };
    (human, agent, first)
}

/// Randomly assign the two roles to X and O and pick who moves first.
/// Returns (human player, agent player, first to move).
pub fn assign_players() -> (r: (Player, Player, Player))
    ensures
        exists|human_is_x: bool, human_first: bool| r == assignment_of(human_is_x, human_first),
        r.1 == r.0.spec_opponent(),
        r.2 == r.0 || r.2 == r.1,
{
    let human_is_x = coin_flip();
    let human_first = coin_flip();
    let (human_player, ai_player) = if human_is_x {
        (Player::X, Player::O)
    } else {
        (Player::O, Player::X)
    };
    let first_player = if human_first {
        human_player
    } else {
        ai_player
    };
    let r = (human_player, ai_player, first_player);
    proof {
        assert(r == assignment_of(human_is_x, human_first));
    }
    r
}

} // verus!
