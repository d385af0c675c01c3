use vstd::prelude::*;

verus! {

/// Abstracted game input: every gameplay rule reads this instead of raw
/// keyboard state, so bots can inject it directly.
#[derive(Clone, Copy, Debug, PartialEq, Eq, Structural)]
pub struct GameInputMessage {
    pub move_left: bool,
    pub move_right: bool,
    pub jump_pressed: bool,
    pub jump_held: bool,
    pub dash: bool,
    pub pause: bool,
}

/// The keys the game listens to, sampled for one frame: `*_held` is true
/// while the key is down, `*_just` only in the frame it went down.
#[derive(Clone, Copy, Debug, PartialEq, Eq, Structural)]
pub struct KeySnapshot {
    pub a_held: bool,
    pub d_held: bool,
    pub w_held: bool,
    pub space_held: bool,
    pub arrow_left_held: bool,
    pub arrow_right_held: bool,
    pub arrow_up_held: bool,
    pub w_just: bool,
    pub space_just: bool,
    pub arrow_up_just: bool,
    pub shift_left_just: bool,
    pub shift_right_just: bool,
    pub escape_just: bool,
}

impl KeySnapshot {
    /// Left is requested while A or the left arrow is held.
    pub open spec fn spec_left(self) -> bool {
        self.a_held || self.arrow_left_held
    }

    /// Right is requested while D or the right arrow is held.
    pub open spec fn spec_right(self) -> bool {
        self.d_held || self.arrow_right_held
    }

    /// A jump starts in the frame Space, W or the up arrow goes down.
    pub open spec fn spec_jump_pressed(self) -> bool {
        self.space_just || self.w_just || self.arrow_up_just
    }

    pub open spec fn spec_jump_held(self) -> bool {
        self.space_held || self.w_held || self.arrow_up_held
    }

    pub open spec fn spec_dash(self) -> bool {
        self.shift_left_just || self.shift_right_just
    }

    pub fn left(&self) -> (b: bool)
        ensures
            b == self.spec_left(),
    {
        self.a_held || self.arrow_left_held
    }

    pub fn right(&self) -> (b: bool)
        ensures
            b == self.spec_right(),
    {
        self.d_held || self.arrow_right_held
    }

    pub fn jump_pressed(&self) -> (b: bool)
        ensures
            b == self.spec_jump_pressed(),
    {
        self.space_just || self.w_just || self.arrow_up_just
    }
}

impl GameInputMessage {
    /// The message a keyboard produces in one frame.
    pub open spec fn spec_from_keys(keys: KeySnapshot) -> GameInputMessage {
        GameInputMessage {
            move_left: keys.spec_left(),
            move_right: keys.spec_right(),
            jump_pressed: keys.spec_jump_pressed(),
            jump_held: keys.spec_jump_held(),
            dash: keys.spec_dash(),
            pause: keys.escape_just,
        }
    }

    /// Translates one frame of keyboard state into a game input message.
    pub fn from_keys(keys: &KeySnapshot) -> (msg: GameInputMessage)
        ensures
            msg == Self::spec_from_keys(*keys),
            msg.move_left == (keys.a_held || keys.arrow_left_held),
            msg.move_right == (keys.d_held || keys.arrow_right_held),
            msg.jump_pressed == (keys.space_just || keys.w_just || keys.arrow_up_just),
            msg.jump_held == (keys.space_held || keys.w_held || keys.arrow_up_held),
            msg.dash == (keys.shift_left_just || keys.shift_right_just),
            msg.pause == keys.escape_just,
    {
        GameInputMessage {
            move_left: keys.left(),
            move_right: keys.right(),
            jump_pressed: keys.jump_pressed(),
            jump_held: keys.space_held || keys.w_held || keys.arrow_up_held,
            dash: keys.shift_left_just || keys.shift_right_just,
            pause: keys.escape_just,
        }
    }
}

/// The keyboard's message reads the keys themselves: A or the left arrow
/// held moves left, D or the right arrow held moves right, Space, W or the
/// up arrow going down starts a jump and held keeps it, either Shift going
/// down dashes, and Escape going down pauses.
pub proof fn lemma_keys_map_to_message(keys: KeySnapshot)
    ensures
        GameInputMessage::spec_from_keys(keys).move_left == (keys.a_held || keys.arrow_left_held),
        GameInputMessage::spec_from_keys(keys).move_right == (keys.d_held || keys.arrow_right_held),
        GameInputMessage::spec_from_keys(keys).jump_pressed == (keys.space_just || keys.w_just
            || keys.arrow_up_just),
        GameInputMessage::spec_from_keys(keys).jump_held == (keys.space_held || keys.w_held
            || keys.arrow_up_held),
        GameInputMessage::spec_from_keys(keys).dash == (keys.shift_left_just || keys.shift_right_just),
        GameInputMessage::spec_from_keys(keys).pause == keys.escape_just,
{
}

} // verus!
