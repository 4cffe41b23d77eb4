use vstd::prelude::*;

verus! {

/// What one poll of a rotary encoder reported.
#[derive(Debug, Copy, Clone, PartialEq, Eq, Structural)]
pub enum Direction {
    Clockwise,
    Anticlockwise,
    Still,
}

/// Applies one encoder step to the counter: clockwise counts up,
/// anticlockwise counts down, and no movement leaves it alone.  The
/// caller keeps the counter inside the representable range.
pub fn update_rotary_encoder(direction: Direction, counter: &mut i32)
    requires
        direction == Direction::Clockwise ==> *old(counter) < i32::MAX,
        direction == Direction::Anticlockwise ==> *old(counter) > i32::MIN,
    ensures
        *final(counter) == *old(counter) + (match direction {
            Direction::Clockwise => 1int,
            Direction::Anticlockwise => -1int,
            Direction::Still => 0int,
        }),
{
    match direction {
        Direction::Clockwise => {
            *counter += 1;
        },
        Direction::Anticlockwise => {
            *counter -= 1;
        },
        Direction::Still => {},
    }
}

/// Flips every bit of an image buffer into the fixed-size frame the
/// display takes; bytes past the input stay dark.
pub fn invert_image(img: &[u8]) -> (output: [u8; 1024])
    requires
        img@.len() <= 1024,
    ensures
        forall|i: int| 0 <= i < img@.len() ==> #[trigger] output@[i] == !img@[i],
        forall|i: int| img@.len() <= i < 1024 ==> #[trigger] output@[i] == 0,
{
    let mut output: [u8; 1024] = [0; 1024];

    let mut i: usize = 0;
    while i < img.len()
        invariant
            0 <= i <= img@.len(),
            img@.len() <= 1024,
            output@.len() == 1024,
            forall|j: int| 0 <= j < i ==> #[trigger] output@[j] == !img@[j],
            forall|j: int| i <= j < 1024 ==> #[trigger] output@[j] == 0,
        decreases img@.len() - i,
    {
        output[i] = !(img[i]);
        i += 1;
    }

    output
}

} // verus!
