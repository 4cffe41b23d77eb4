use vstd::prelude::*;
use crate::digits::{spec_decimal, u64_to_decimal};

verus! {

/// What [`describe_list`] answers: the first two entries, the only entry,
/// or that there is nothing.
pub open spec fn spec_describe_list(list: Seq<u8>) -> Seq<char> {
    if list.len() >= 2 {
        "First: "@ + spec_decimal(list[0] as nat) + ", second: "@ + spec_decimal(list[1] as nat)
    } else if list.len() == 1 {
        "Only first: "@ + spec_decimal(list[0] as nat)
    } else {
        "No items"@
    }
}

/// Describes a list by its head, the way the slice-pattern demo matches
/// it.
pub fn describe_list(list: &[u8]) -> (r: String)
    ensures
        r@ == spec_describe_list(list@),
{
    if list.len() >= 2 {
        let mut r = "First: ".to_owned();
        r.append(u64_to_decimal(list[0] as u64).as_str());
        r.append(", second: ");
        r.append(u64_to_decimal(list[1] as u64).as_str());
        proof {
            assert(r@ =~= spec_describe_list(list@));
        }
        r
    } else if list.len() == 1 {
        let mut r = "Only first: ".to_owned();
        r.append(u64_to_decimal(list[0] as u64).as_str());
        r
    } else {
        "No items".to_owned()
    }
}

/// What popping announces at position `i` of a list of length `len`: every
/// entry but the last is popped off the front, the last is the tail.
pub open spec fn spec_pop_message(list: Seq<u8>, i: int) -> Seq<char> {
    if i < list.len() - 1 {
        "pop: "@ + spec_decimal(list[i] as nat)
    } else {
        "pop tail: "@ + spec_decimal(list[i] as nat)
    }
}

/// The messages the head-and-tail demo produces while it eats the list;
/// an empty list is unreachable there, so it is left out here.
#[verifier::loop_isolation(false)]
pub fn pop_messages(list: &[u8]) -> (msgs: Vec<String>)
    requires
        list@.len() >= 1,
    ensures
        msgs@.len() == list@.len(),
        forall|i: int| 0 <= i < list@.len() ==> #[trigger] msgs@[i]@ == spec_pop_message(
            list@,
            i,
        ),
{
    let mut msgs: Vec<String> = Vec::new();
    let mut i: usize = 0;
    while i < list.len()
        invariant
            0 <= i <= list@.len(),
            msgs@.len() == i,
            forall|j: int| 0 <= j < i ==> #[trigger] msgs@[j]@ == spec_pop_message(list@, j),
        decreases list@.len() - i,
    {
        let mut msg = (if i < list.len() - 1 {
            "pop: "
        } else {
            "pop tail: "
        }).to_owned();
        msg.append(u64_to_decimal(list[i] as u64).as_str());
        proof {
            assert(msg@ =~= spec_pop_message(list@, i as int));
        }
        msgs.push(msg);
        i += 1;
    }
    msgs
}

/// The sum of a list of bytes, as a mathematical integer.
pub open spec fn byte_sum(s: Seq<u8>) -> int
    decreases s,
{
    if s.len() == 0 {
        0
    } else {
        byte_sum(s.drop_last()) + s.last()
    }
}

/// A byte sum can also be taken off the front.
proof fn lemma_byte_sum_front(s: Seq<u8>)
    requires
        s.len() >= 1,
    ensures
        byte_sum(s) == s[0] + byte_sum(s.subrange(1, s.len() as int)),
    decreases s,
{
    if s.len() == 1 {
        assert(s.subrange(1, 1) =~= Seq::<u8>::empty());
        assert(byte_sum(Seq::<u8>::empty()) == 0);
        assert(s.drop_last() =~= Seq::<u8>::empty());
        assert(byte_sum(s) == byte_sum(s.drop_last()) + s.last());
        assert(s.last() == s[0]);
    } else {
        let dl = s.drop_last();
        lemma_byte_sum_front(dl);
        let tail = s.subrange(1, s.len() as int);
        assert(byte_sum(s) == byte_sum(dl) + s.last());
        assert(dl[0] == s[0]);
        assert(byte_sum(dl) == dl[0] + byte_sum(dl.subrange(1, dl.len() as int)));
        assert(tail.drop_last() =~= dl.subrange(1, dl.len() as int));
        assert(tail.last() == s.last());
        assert(byte_sum(tail) == byte_sum(tail.drop_last()) + tail.last());
        assert(byte_sum(s) == s[0] + byte_sum(tail));
    }
}

/// Stripping one entry off each end takes both out of the sum.
proof fn lemma_byte_sum_ends(s: Seq<u8>, a: int, b: int)
    requires
        0 <= a < b < s.len(),
    ensures
        byte_sum(s.subrange(a, b + 1)) == s[a] + s[b] + byte_sum(s.subrange(a + 1, b)),
{
    let outer = s.subrange(a, b + 1);
    assert(outer.drop_last() =~= s.subrange(a, b));
    lemma_byte_sum_front(s.subrange(a, b));
    assert(s.subrange(a, b).subrange(1, b - a) =~= s.subrange(a + 1, b));
}

/// Adds the list up the way the pairing demo does: first and last
/// together, closing inward, with the middle entry on its own when one is
/// left — which totals to the plain sum of the list.
#[verifier::loop_isolation(false)]
pub fn sum_first_last(list: &[u8]) -> (total: u64)
    requires
        255 * list@.len() <= u64::MAX,
    ensures
        total == byte_sum(list@),
{
    let mut total: u64 = 0;
    if list.len() == 0 {
        return total;
    }

    proof {
        lemma_byte_sum_bound(list@);
        assert(list@.subrange(0, list@.len() as int) =~= list@);
    }
    let mut i: usize = 0;
    let mut j: usize = list.len() - 1;
    while i < j
        invariant
            0 <= i <= j + 1 <= list@.len(),
            j < list@.len(),
            total == byte_sum(list@) - byte_sum(list@.subrange(i as int, j + 1)),
            byte_sum(list@.subrange(i as int, j + 1)) >= 0,
        decreases j,
    {
        proof {
            lemma_byte_sum_ends(list@, i as int, j as int);
            lemma_byte_sum_bound(list@.subrange(i as int, j + 1));
            lemma_byte_sum_bound(list@.subrange(i as int + 1, j as int));
        }
        total = total + list[i] as u64 + list[j] as u64;
        i += 1;
        j -= 1;
    }

    if i == j {
        proof {
            lemma_byte_sum_front(list@.subrange(i as int, i + 1));
            assert(list@.subrange(i as int, i + 1).subrange(1, 1) =~= Seq::<u8>::empty());
            lemma_byte_sum_bound(list@);
        }
        total = total + list[i] as u64;
        proof {
            assert(list@.subrange(i as int, i + 1)[0] == list@[i as int]);
        }
    } else {
        proof {
            assert(list@.subrange(i as int, j + 1) =~= Seq::<u8>::empty());
        }
    }
    total
}

/// A byte sum is bounded by the length times the largest byte.
proof fn lemma_byte_sum_bound(s: Seq<u8>)
    ensures
        0 <= byte_sum(s) <= 255 * s.len(),
    decreases s,
{
    if s.len() > 0 {
        lemma_byte_sum_bound(s.drop_last());
    }
}

/// The door of the enum-matching demo.
pub enum State {
    Open,
    Closing,
    Closed,
    Opening,
}

/// The door state, written out.
pub fn stringfy_state(state: State) -> (r: String)
    ensures
        r@ == (match state {
            State::Open => "Open"@,
            State::Closing => "Closing"@,
            State::Closed => "Closed"@,
            State::Opening => "Opening"@,
        }),
{
    match state {
        State::Open => "Open".to_owned(),
        State::Closing => "Closing".to_owned(),
        State::Closed => "Closed".to_owned(),
        State::Opening => "Opening".to_owned(),
    }
}

/// A colour in the notations the matching demo distinguishes.
#[derive(Debug)]
pub enum Color {
    Black,
    White,
    RGB(u8, u8, u8),
    ARGB(u8, u8, u8, u8),
    CMYK(u8, u8, u8, u8),
}

/// What [`stringfy_color`] answers, arm for arm in the demo's order:
/// black and white in any notation first, then the red, green and blue
/// special cases, then the plain renderings.
pub open spec fn spec_color_text(color: Color) -> Seq<char> {
    match color {
        Color::Black => "Black(□)"@,
        Color::White => "White(■)"@,
        Color::RGB(r, g, b) => if r == 0 && g == 0 && b == 0 {
            "Black(□)"@
        } else if r == 255 && g == 255 && b == 255 {
            "White(■)"@
        } else if r == 255 {
            "Red is full! RGB(r=255,g="@ + spec_decimal(g as nat) + ",b="@ + spec_decimal(
                b as nat,
            ) + ")"@
        } else if g == 0 {
            "No green at all! RGB(r="@ + spec_decimal(r as nat) + ",g=0,b="@ + spec_decimal(
                b as nat,
            ) + ")"@
        } else if b > 0 {
            "It has some blue! RGB(r="@ + spec_decimal(r as nat) + ",g="@ + spec_decimal(
                g as nat,
            ) + ",b="@ + spec_decimal(b as nat) + ")"@
        } else {
            "RGB(r="@ + spec_decimal(r as nat) + ",g="@ + spec_decimal(g as nat) + ",b="@
                + spec_decimal(b as nat) + ")"@
        },
        Color::ARGB(a, r, g, b) => if r == 0 && g == 0 && b == 0 {
            "Black(□)"@
        } else if r == 255 && g == 255 && b == 255 {
            "White(■)"@
        } else {
            "ARGB(a="@ + spec_decimal(a as nat) + ",r="@ + spec_decimal(r as nat) + ",g="@
                + spec_decimal(g as nat) + ",b="@ + spec_decimal(b as nat) + ")"@
        },
        Color::CMYK(c, m, y, k) => if c == 0 && m == 0 && y == 0 && k == 100 {
            "Black(□)"@
        } else if c == 0 && m == 0 && y == 0 && k == 0 {
            "White(■)"@
        } else {
            "CYMK(c="@ + spec_decimal(c as nat) + ",y="@ + spec_decimal(m as nat) + ",y="@
                + spec_decimal(y as nat) + ",k="@ + spec_decimal(k as nat) + ")"@
        },
    }
}

/// Classifies a colour; note that the plain CMYK rendering repeats the
/// demo's own quirky field labels.
pub fn stringfy_color(color: Color) -> (r: String)
    ensures
        r@ == spec_color_text(color),
{
    let ghost c0 = color;
    match color {
        Color::Black | Color::RGB(0, 0, 0) | Color::ARGB(_, 0, 0, 0) | Color::CMYK(
            0,
            0,
            0,
            100,
        ) => "Black(□)".to_owned(),
        Color::White | Color::RGB(255, 255, 255) | Color::ARGB(_, 255, 255, 255) | Color::CMYK(
            0,
            0,
            0,
            0,
        ) => "White(■)".to_owned(),
        Color::RGB(255, g, b) => {
            let mut r = "Red is full! RGB(r=255,g=".to_owned();
            r.append(u64_to_decimal(g as u64).as_str());
            r.append(",b=");
            r.append(u64_to_decimal(b as u64).as_str());
            r.append(")");
            proof {
                assert(r@ =~= spec_color_text(c0));
            }
            r
        },
        Color::RGB(red, 0, b) => {
            let mut r = "No green at all! RGB(r=".to_owned();
            r.append(u64_to_decimal(red as u64).as_str());
            r.append(",g=0,b=");
            r.append(u64_to_decimal(b as u64).as_str());
            r.append(")");
            proof {
                assert(r@ =~= spec_color_text(c0));
            }
            r
        },
        Color::RGB(red, g, b) => {
            let mut r = (if b > 0 {
                "It has some blue! RGB(r="
            } else {
                "RGB(r="
            }).to_owned();
            r.append(u64_to_decimal(red as u64).as_str());
            r.append(",g=");
            r.append(u64_to_decimal(g as u64).as_str());
            r.append(",b=");
            r.append(u64_to_decimal(b as u64).as_str());
            r.append(")");
            proof {
                assert(r@ =~= spec_color_text(c0));
            }
            r
        },
        Color::ARGB(a, red, g, b) => {
            let mut r = "ARGB(a=".to_owned();
            r.append(u64_to_decimal(a as u64).as_str());
            r.append(",r=");
            r.append(u64_to_decimal(red as u64).as_str());
            r.append(",g=");
            r.append(u64_to_decimal(g as u64).as_str());
            r.append(",b=");
            r.append(u64_to_decimal(b as u64).as_str());
            r.append(")");
            proof {
                assert(r@ =~= spec_color_text(c0));
            }
            r
        },
        Color::CMYK(c, m, y, k) => {
            let mut r = "CYMK(c=".to_owned();
            r.append(u64_to_decimal(c as u64).as_str());
            r.append(",y=");
            r.append(u64_to_decimal(m as u64).as_str());
            r.append(",y=");
            r.append(u64_to_decimal(y as u64).as_str());
            r.append(",k=");
            r.append(u64_to_decimal(k as u64).as_str());
            r.append(")");
            proof {
                assert(r@ =~= spec_color_text(c0));
            }
            r
        },
    }
}

} // verus!
