use vstd::prelude::*;
use crate::strutil::{push_char, repeat_char, spec_repeat};

verus! {

/// How thick the border strokes of a rectangle are drawn.
pub enum BorderWidth {
    Light,
    Heavy,
    Double,
}

/// The six box-drawing characters a border style uses: the four corners,
/// then the horizontal and the vertical stroke.
pub open spec fn border_chars(border: BorderWidth) -> Seq<char> {
    match border {
        BorderWidth::Light => seq!['┌', '┐', '└', '┘', '─', '│'],
        BorderWidth::Heavy => seq!['┏', '┓', '┗', '┛', '━', '┃'],
        BorderWidth::Double => seq!['╔', '╗', '╚', '╝', '═', '║'],
    }
}

/// A rectangle to draw on a character grid: an offset, a size of at least
/// three in each direction, and the border characters to use.
pub struct Rectangle {
    x: u8,
    y: u8,
    width: u8,
    height: u8,
    lines: [char; 6],
}

enum Position {
    DownRight,
    DownLeft,
    UpRight,
    UpLeft,
    Horizontal,
    Vertical,
}

fn position_index(position: Position) -> (i: usize)
    ensures
        i < 6,
        i == (match position {
            Position::DownRight => 0int,
            Position::DownLeft => 1,
            Position::UpRight => 2,
            Position::UpLeft => 3,
            Position::Horizontal => 4,
            Position::Vertical => 5,
        }),
{
    match position {
        Position::DownRight => 0,
        Position::DownLeft => 1,
        Position::UpRight => 2,
        Position::UpLeft => 3,
        Position::Horizontal => 4,
        Position::Vertical => 5,
    }
}

impl Rectangle {
    /// The column offset.
    pub closed spec fn spec_x(&self) -> u8 {
        self.x
    }

    /// The row offset.
    pub closed spec fn spec_y(&self) -> u8 {
        self.y
    }

    /// The width in columns.
    pub closed spec fn spec_width(&self) -> u8 {
        self.width
    }

    /// The height in rows.
    pub closed spec fn spec_height(&self) -> u8 {
        self.height
    }

    /// The border characters, in the order of [`border_chars`].
    pub closed spec fn spec_lines(&self) -> Seq<char> {
        self.lines@
    }

    /// A builder that starts from the smallest light rectangle at the
    /// origin.
    pub fn builder() -> (b: RectangleBuilder)
        ensures
            b.spec_x() == 0,
            b.spec_y() == 0,
            b.spec_width() == 3,
            b.spec_height() == 3,
            b.spec_border() == BorderWidth::Light,
    {
        RectangleBuilder(0, 0, 3, 3, BorderWidth::Light)
    }

    /// A rectangle smaller than three by three cannot be drawn.
    pub fn new(x: u8, y: u8, width: u8, height: u8, border: BorderWidth) -> (r: Self)
        requires
            width >= 3,
            height >= 3,
        ensures
            r.spec_x() == x,
            r.spec_y() == y,
            r.spec_width() == width,
            r.spec_height() == height,
            r.spec_lines() == border_chars(border),
    {
        let lines: [char; 6] = match border {
            BorderWidth::Light => ['┌', '┐', '└', '┘', '─', '│'],
            BorderWidth::Heavy => ['┏', '┓', '┗', '┛', '━', '┃'],
            BorderWidth::Double => ['╔', '╗', '╚', '╝', '═', '║'],
        };
        proof {
            assert(lines@ =~= border_chars(border));
        }

        Rectangle { x, y, width, height, lines }
    }

    /// A light-bordered rectangle.
    pub fn new_light(x: u8, y: u8, width: u8, height: u8) -> (r: Rectangle)
        requires
            width >= 3,
            height >= 3,
        ensures
            r.spec_x() == x,
            r.spec_y() == y,
            r.spec_width() == width,
            r.spec_height() == height,
            r.spec_lines() == border_chars(BorderWidth::Light),
    {
        Rectangle::new(x, y, width, height, BorderWidth::Light)
    }

    /// A heavy-bordered rectangle.
    pub fn new_heavy(x: u8, y: u8, width: u8, height: u8) -> (r: Rectangle)
        requires
            width >= 3,
            height >= 3,
        ensures
            r.spec_x() == x,
            r.spec_y() == y,
            r.spec_width() == width,
            r.spec_height() == height,
            r.spec_lines() == border_chars(BorderWidth::Heavy),
    {
        Rectangle::new(x, y, width, height, BorderWidth::Heavy)
    }

    /// A double-bordered rectangle.
    pub fn new_double(x: u8, y: u8, width: u8, height: u8) -> (r: Rectangle)
        requires
            width >= 3,
            height >= 3,
        ensures
            r.spec_x() == x,
            r.spec_y() == y,
            r.spec_width() == width,
            r.spec_height() == height,
            r.spec_lines() == border_chars(BorderWidth::Double),
    {
        Rectangle::new(x, y, width, height, BorderWidth::Double)
    }

    fn down_right(&self) -> (c: char)
        requires
            self.spec_lines().len() == 6,
        ensures
            c == self.spec_lines()[0],
    {
        self.lines[position_index(Position::DownRight)]
    }

    fn down_left(&self) -> (c: char)
        requires
            self.spec_lines().len() == 6,
        ensures
            c == self.spec_lines()[1],
    {
        self.lines[position_index(Position::DownLeft)]
    }

    fn up_right(&self) -> (c: char)
        requires
            self.spec_lines().len() == 6,
        ensures
            c == self.spec_lines()[2],
    {
        self.lines[position_index(Position::UpRight)]
    }

    fn up_left(&self) -> (c: char)
        requires
            self.spec_lines().len() == 6,
        ensures
            c == self.spec_lines()[3],
    {
        self.lines[position_index(Position::UpLeft)]
    }

    fn horizontal(&self) -> (c: char)
        requires
            self.spec_lines().len() == 6,
        ensures
            c == self.spec_lines()[4],
    {
        self.lines[position_index(Position::Horizontal)]
    }

    fn vertical(&self) -> (c: char)
        requires
            self.spec_lines().len() == 6,
        ensures
            c == self.spec_lines()[5],
    {
        self.lines[position_index(Position::Vertical)]
    }

    /// Row `line` of the drawing, not counting the blank rows above it.
    pub open spec fn spec_row(&self, line: int) -> Seq<char> {
        let left = spec_repeat(' ', self.spec_x() as nat);
        let inner = (self.spec_width() - 2) as nat;
        if line == 0 {
            left + seq![self.spec_lines()[0]] + spec_repeat(self.spec_lines()[4], inner) + seq![
                self.spec_lines()[1],
            ]
        } else if line == self.spec_height() - 1 {
            left + seq![self.spec_lines()[2]] + spec_repeat(self.spec_lines()[4], inner) + seq![
                self.spec_lines()[3],
            ]
        } else {
            left + seq![self.spec_lines()[5]] + spec_repeat(' ', inner) + seq![
                self.spec_lines()[5],
            ]
        }
    }

    /// The rows the rectangle is drawn as: first the blank rows that move
    /// it down by its row offset, then one row per unit of height, with
    /// corner and stroke characters as [`spec_row`] lays down.
    pub fn rows(&self) -> (out: Vec<String>)
        requires
            self.spec_width() >= 3,
            self.spec_height() >= 3,
            self.spec_lines().len() == 6,
        ensures
            out@.len() == self.spec_y() + self.spec_height(),
            forall|i: int| 0 <= i < self.spec_y() ==> #[trigger] out@[i]@ == Seq::<char>::empty(),
            forall|i: int| self.spec_y() <= i < out@.len() ==> #[trigger] out@[i]@ == self.spec_row(
                i - self.spec_y(),
            ),
    {
        let mut out: Vec<String> = Vec::new();
        let mut blank: usize = 0;
        while blank < self.y as usize
            invariant
                0 <= blank <= self.spec_y(),
                out@.len() == blank,
                forall|i: int| 0 <= i < blank ==> #[trigger] out@[i]@ == Seq::<char>::empty(),
            decreases self.spec_y() - blank,
        {
            out.push(String::new());
            blank += 1;
        }

        let mut line: usize = 0;
        while line < self.height as usize
            invariant
                self.spec_width() >= 3,
                self.spec_height() >= 3,
                self.spec_lines().len() == 6,
                0 <= line <= self.spec_height(),
                out@.len() == self.spec_y() + line,
                forall|i: int| 0 <= i < self.spec_y() ==> #[trigger] out@[i]@
                    == Seq::<char>::empty(),
                forall|i: int| self.spec_y() <= i < out@.len() ==> #[trigger] out@[i]@
                    == self.spec_row(i - self.spec_y()),
            decreases self.spec_height() - line,
        {
            let mut row = repeat_char(' ', self.x as usize);
            let inner = (self.width - 2) as usize;
            if line == 0 {
                push_char(&mut row, self.down_right());
                let middle = repeat_char(self.horizontal(), inner);
                row.append(middle.as_str());
                push_char(&mut row, self.down_left());
            } else if line == self.height as usize - 1 {
                push_char(&mut row, self.up_right());
                let middle = repeat_char(self.horizontal(), inner);
                row.append(middle.as_str());
                push_char(&mut row, self.up_left());
            } else {
                push_char(&mut row, self.vertical());
                let middle = repeat_char(' ', inner);
                row.append(middle.as_str());
                push_char(&mut row, self.vertical());
            }
            proof {
                assert(row@ =~= self.spec_row(line as int));
            }
            out.push(row);
            line += 1;
        }
        out
    }
}

/// Builds a [`Rectangle`] step by step; width and height below four are
/// refused, so what `build` hands out is always drawable.
pub struct RectangleBuilder(u8, u8, u8, u8, BorderWidth);

impl RectangleBuilder {
    /// The column offset so far.
    pub closed spec fn spec_x(&self) -> u8 {
        self.0
    }

    /// The row offset so far.
    pub closed spec fn spec_y(&self) -> u8 {
        self.1
    }

    /// The width so far.
    pub closed spec fn spec_width(&self) -> u8 {
        self.2
    }

    /// The height so far.
    pub closed spec fn spec_height(&self) -> u8 {
        self.3
    }

    /// The border style so far.
    pub closed spec fn spec_border(&self) -> BorderWidth {
        self.4
    }

    /// Sets the column offset.
    pub fn x(self, x: u8) -> (b: Self)
        ensures
            b.spec_x() == x,
            b.spec_y() == self.spec_y(),
            b.spec_width() == self.spec_width(),
            b.spec_height() == self.spec_height(),
            b.spec_border() == self.spec_border(),
    {
        let mut this = self;
        this.0 = x;
        this
    }

    /// Sets the row offset.
    pub fn y(self, y: u8) -> (b: Self)
        ensures
            b.spec_x() == self.spec_x(),
            b.spec_y() == y,
            b.spec_width() == self.spec_width(),
            b.spec_height() == self.spec_height(),
            b.spec_border() == self.spec_border(),
    {
        let mut this = self;
        this.1 = y;
        this
    }

    /// Sets the width; anything not above three is refused.
    pub fn width(self, width: u8) -> (b: Self)
        requires
            width > 3,
        ensures
            b.spec_x() == self.spec_x(),
            b.spec_y() == self.spec_y(),
            b.spec_width() == width,
            b.spec_height() == self.spec_height(),
            b.spec_border() == self.spec_border(),
    {
        let mut this = self;
        this.2 = width;
        this
    }

    /// Sets the height; anything not above three is refused.
    pub fn height(self, height: u8) -> (b: Self)
        requires
            height > 3,
        ensures
            b.spec_x() == self.spec_x(),
            b.spec_y() == self.spec_y(),
            b.spec_width() == self.spec_width(),
            b.spec_height() == height,
            b.spec_border() == self.spec_border(),
    {
        let mut this = self;
        this.3 = height;
        this
    }

    /// Sets the border style.
    pub fn border_width(self, border: BorderWidth) -> (b: Self)
        ensures
            b.spec_x() == self.spec_x(),
            b.spec_y() == self.spec_y(),
            b.spec_width() == self.spec_width(),
            b.spec_height() == self.spec_height(),
            b.spec_border() == border,
    {
        let mut this = self;
        this.4 = border;
        this
    }

    /// Hands out the finished rectangle.
    pub fn build(self) -> (r: Rectangle)
        requires
            self.spec_width() >= 3,
            self.spec_height() >= 3,
        ensures
            r.spec_x() == self.spec_x(),
            r.spec_y() == self.spec_y(),
            r.spec_width() == self.spec_width(),
            r.spec_height() == self.spec_height(),
            r.spec_lines() == border_chars(self.spec_border()),
    {
        Rectangle::new(self.0, self.1, self.2, self.3, self.4)
    }
}

} // verus!
