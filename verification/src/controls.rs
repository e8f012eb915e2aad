//! How the movement keys combine into a walking direction.
use vstd::prelude::*;

verus! {

/// Which of the movement keys are held: the letter keys W, S, A, D and the
/// four arrow keys.
#[derive(Clone, Copy, Debug, PartialEq, Eq, Structural)]
pub struct MovementKeys {
    pub key_w: bool,
    pub key_s: bool,
    pub key_a: bool,
    pub key_d: bool,
    pub arrow_up: bool,
    pub arrow_down: bool,
    pub arrow_left: bool,
    pub arrow_right: bool,
}

/// A walking direction in camera space before normalisation: `x` to the
/// right, `y` forward.
#[derive(Clone, Copy, Debug, PartialEq, Eq, Structural)]
pub struct MoveInput {
    pub x: i8,
    pub y: i8,
}

impl MovementKeys {
    /// Forward is held, by W or by the up arrow.
    pub open spec fn forward(self) -> bool {
        self.key_w || self.arrow_up
    }

    /// Backward is held, by S or by the down arrow.
    pub open spec fn backward(self) -> bool {
        self.key_s || self.arrow_down
    }

    /// Left is held, by A or by the left arrow.
    pub open spec fn leftward(self) -> bool {
        self.key_a || self.arrow_left
    }

    /// Right is held, by D or by the right arrow.
    pub open spec fn rightward(self) -> bool {
        self.key_d || self.arrow_right
    }
}

/// One for a held direction, zero otherwise.
pub open spec fn held(b: bool) -> int {
    if b { 1 } else { 0 }
}

/// The direction the held keys ask for: each axis is the held positive
/// direction minus the held negative one.
pub open spec fn movement_input_spec(keys: MovementKeys) -> MoveInput {
    MoveInput {
        x: (held(keys.rightward()) - held(keys.leftward())) as i8,
        y: (held(keys.forward()) - held(keys.backward())) as i8,
    }
}

impl MoveInput {
    /// No direction is asked for.
    pub open spec fn idle(self) -> bool {
        self.x == 0 && self.y == 0
    }
}

/// The camera-space direction that the held movement keys ask for.
pub fn movement_input(keys: &MovementKeys) -> (input: MoveInput)
    ensures
        input == movement_input_spec(*keys),
        input.x == held(keys.rightward()) - held(keys.leftward()),
        input.y == held(keys.forward()) - held(keys.backward()),
        input.x == held(keys.key_d || keys.arrow_right) - held(keys.key_a || keys.arrow_left),
        input.y == held(keys.key_w || keys.arrow_up) - held(keys.key_s || keys.arrow_down),
{
    let mut x: i8 = 0;
    let mut y: i8 = 0;
    if keys.key_w || keys.arrow_up {
        y = y + 1;
    }
    if keys.key_s || keys.arrow_down {
        y = y - 1;
    }
    if keys.key_a || keys.arrow_left {
        x = x - 1;
    }
    if keys.key_d || keys.arrow_right {
        x = x + 1;
    }
    MoveInput { x, y }
}

impl MoveInput {
    /// Whether no direction is asked for, so that the walker stays put.
    pub fn is_idle(&self) -> (r: bool)
        ensures
            r == self.idle(),
            r == (self.x == 0 && self.y == 0),
    {
        self.x == 0 && self.y == 0
    }
}

/// Each component of the direction is -1, 0 or 1.
pub proof fn lemma_movement_input_bounded(keys: MovementKeys)
    ensures
        -1 <= movement_input_spec(keys).x <= 1,
        -1 <= movement_input_spec(keys).y <= 1,
{
}

/// The walker stays put exactly when opposite directions are either both held
/// or both released: opposite keys cancel.
pub proof fn lemma_idle_iff_opposites_balance(keys: MovementKeys)
    ensures
        movement_input_spec(keys).idle() <==> (keys.forward() == keys.backward() && keys.leftward()
            == keys.rightward()),
{
}

/// An arrow key and its letter key are interchangeable: two key states that
/// hold the same directions ask for the same movement.
pub proof fn lemma_arrows_and_letters_agree(a: MovementKeys, b: MovementKeys)
    requires
        (a.key_w || a.arrow_up) == (b.key_w || b.arrow_up),
        (a.key_s || a.arrow_down) == (b.key_s || b.arrow_down),
        (a.key_a || a.arrow_left) == (b.key_a || b.arrow_left),
        (a.key_d || a.arrow_right) == (b.key_d || b.arrow_right),
    ensures
        movement_input_spec(a) == movement_input_spec(b),
{
}

/// Each direction key names its own direction: D and the right arrow are
/// right, A and the left arrow are left, W and the up arrow are forward, S and
/// the down arrow are backward.
pub proof fn lemma_direction_keys(keys: MovementKeys)
    ensures
        keys.rightward() == (keys.key_d || keys.arrow_right),
        keys.leftward() == (keys.key_a || keys.arrow_left),
        keys.forward() == (keys.key_w || keys.arrow_up),
        keys.backward() == (keys.key_s || keys.arrow_down),
{
}

/// The sideways component depends only on the sideways keys and the forward
/// component only on the forward and backward keys: holding a key of one axis
/// never changes the other.
pub proof fn lemma_axes_independent(a: MovementKeys, b: MovementKeys)
    ensures
        (a.key_a == b.key_a && a.key_d == b.key_d && a.arrow_left == b.arrow_left && a.arrow_right
            == b.arrow_right) ==> movement_input_spec(a).x == movement_input_spec(b).x,
        (a.key_w == b.key_w && a.key_s == b.key_s && a.arrow_up == b.arrow_up && a.arrow_down
            == b.arrow_down) ==> movement_input_spec(a).y == movement_input_spec(b).y,
{
}

/// Holding only one side of an axis moves fully that way, whatever is held on
/// the other axis.
pub proof fn lemma_one_sided_keys_move_fully(keys: MovementKeys)
    ensures
        (keys.key_d || keys.arrow_right) && !(keys.key_a || keys.arrow_left) ==> movement_input_spec(keys).x == 1,
        (keys.key_a || keys.arrow_left) && !(keys.key_d || keys.arrow_right) ==> movement_input_spec(keys).x == -1,
        (keys.key_w || keys.arrow_up) && !(keys.key_s || keys.arrow_down) ==> movement_input_spec(keys).y == 1,
        (keys.key_s || keys.arrow_down) && !(keys.key_w || keys.arrow_up) ==> movement_input_spec(keys).y == -1,
{
}

/// Swapping the left keys with the right keys mirrors the sideways component
/// and keeps the forward one.
pub proof fn lemma_mirror_left_right(keys: MovementKeys)
    ensures
        ({
            let mirrored = MovementKeys {
                key_a: keys.key_d,
                key_d: keys.key_a,
                arrow_left: keys.arrow_right,
                arrow_right: keys.arrow_left,
                ..keys
            };
            &&& movement_input_spec(mirrored).x == -movement_input_spec(keys).x
            &&& movement_input_spec(mirrored).y == movement_input_spec(keys).y
        }),
{
}

} // verus!
