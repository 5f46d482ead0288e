//! The drawing plan: what an entity asks a 2D surface to do, as data.
//!
//! The library computes the commands; whoever owns the surface carries them
//! out in order.

use vstd::prelude::*;
use vstd::string::*;
use vstd::utf8::encode_utf8;
use crate::arith::{clamp, pixel_of, quotient};
use crate::geometry::Point;
use crate::model::EntityModel;

verus! {

/// Width, in pixels, that the label layout allows for each byte of text.
pub const LABEL_BYTE_WIDTH: i128 = 5;

/// How far above the bounding box the label's baseline lies, in pixels.
pub const LABEL_RISE: i128 = 20;

/// How far below the bounding box the lives row's baseline lies, in pixels.
pub const LIVES_DROP: i128 = 40;

/// More lives than this are shown in the plentiful colour.
pub const LIVES_FEW: u32 = 3;

/// One request to the drawing surface.
#[derive(Clone, Debug, PartialEq, Eq)]
pub enum DrawCommand {
    /// Blit the whole bitmap with its top-left corner at `at`.
    ImageAt { at: Point },
    /// Blit the part of the bitmap that starts at `source` and has the given
    /// size, unscaled, with its top-left corner at `at`.
    Image { source: Point, width: i32, height: i32, at: Point },
    /// Use `color` for the text that follows.
    FillStyle { color: String },
    /// Use `font` for the text that follows.
    Font { font: String },
    /// Write `text` at `at`.
    FillText { text: String, at: Point },
}

/// The mathematical view of a [`DrawCommand`].
pub enum DrawOp {
    ImageAt { x: int, y: int },
    Image { source_x: int, source_y: int, width: int, height: int, x: int, y: int },
    FillStyle { color: Seq<char> },
    Font { font: Seq<char> },
    FillText { text: Seq<char>, x: int, y: int },
}

impl View for DrawCommand {
    type V = DrawOp;

    open spec fn view(&self) -> DrawOp {
        match *self {
            DrawCommand::ImageAt { at } => DrawOp::ImageAt { x: at.x as int, y: at.y as int },
            DrawCommand::Image { source, width, height, at } => DrawOp::Image {
                source_x: source.x as int,
                source_y: source.y as int,
                width: width as int,
                height: height as int,
                x: at.x as int,
                y: at.y as int,
            },
            DrawCommand::FillStyle { color } => DrawOp::FillStyle { color: color@ },
            DrawCommand::Font { font } => DrawOp::Font { font: font@ },
            DrawCommand::FillText { text, at } => DrawOp::FillText {
                text: text@,
                x: at.x as int,
                y: at.y as int,
            },
        }
    }
}

/// Whether the commands are exactly the operations `ops`, in order.
pub open spec fn carries_out(commands: Seq<DrawCommand>, ops: Seq<DrawOp>) -> bool {
    &&& commands.len() == ops.len()
    &&& forall|i: int| 0 <= i < commands.len() ==> (#[trigger] commands[i])@ == ops[i]
}

/// A coordinate as the surface takes it: whole pixels, held to the range of
/// `i32`.
pub open spec fn surface_coord(pixels: int) -> int {
    clamp(pixels, i32::MIN as int, i32::MAX as int)
}

/// The decimal digit `d`, for `0 <= d <= 9`.
pub open spec fn digit(d: int) -> char {
    if d == 0 {
        '0'
    } else if d == 1 {
        '1'
    } else if d == 2 {
        '2'
    } else if d == 3 {
        '3'
    } else if d == 4 {
        '4'
    } else if d == 5 {
        '5'
    } else if d == 6 {
        '6'
    } else if d == 7 {
        '7'
    } else if d == 8 {
        '8'
    } else {
        '9'
    }
}

/// The decimal numeral of `n`, without leading zeros.
pub open spec fn decimal(n: nat) -> Seq<char>
    decreases n,
{
    if n < 10 {
        seq![digit(n as int)]
    } else {
        decimal(n / 10).push(digit((n % 10) as int))
    }
}

/// The score as the label shows it: the numeral in brackets, followed by the
/// unit sign.
pub open spec fn score_text(score: nat) -> Seq<char> {
    seq!['('] + decimal(score) + seq!['分', ')']
}

/// A row of `n` hearts.
pub open spec fn hearts(n: nat) -> Seq<char> {
    Seq::new(n, |i: int| '♡')
}

/// The colour of the label.
pub open spec fn label_color() -> Seq<char> {
    "#ccccff"@
}

/// The font of all text.
pub open spec fn text_font() -> Seq<char> {
    "16px 微软雅黑"@
}

/// The colour of the lives row: one for up to [`LIVES_FEW`] lives, another
/// for more.
pub open spec fn lives_color(lives: nat) -> Seq<char> {
    if lives > LIVES_FEW {
        "#ffff00"@
    } else {
        "#ff0000"@
    }
}

impl EntityModel {
    /// Where the image goes on the surface: the pixel of the top-left corner.
    pub open spec fn anchor_x(self) -> int {
        surface_coord(pixel_of(self.position.left))
    }

    /// See [`EntityModel::anchor_x`].
    pub open spec fn anchor_y(self) -> int {
        surface_coord(pixel_of(self.position.top))
    }

    /// The blit: the whole bitmap for a single frame, else the current frame,
    /// which lies `cur_frame` frame heights down the bitmap.
    pub open spec fn image_op(self) -> DrawOp {
        if self.num_frames == 1 {
            DrawOp::ImageAt { x: self.anchor_x(), y: self.anchor_y() }
        } else {
            DrawOp::Image {
                source_x: 0,
                source_y: surface_coord(self.cur_frame * self.frame_height()),
                width: self.bitmap.width as int,
                height: self.frame_height(),
                x: self.anchor_x(),
                y: self.anchor_y(),
            }
        }
    }

    /// Whether a label is shown: the entity has a name and a score that is
    /// not negative.
    pub open spec fn has_label(self) -> bool {
        self.name.len() > 0 && self.score >= 0
    }

    /// Width in pixels that the layout allows for the label: a fixed width
    /// for each byte of its UTF-8 form.
    pub open spec fn label_width(self) -> int {
        LABEL_BYTE_WIDTH * (encode_utf8(self.name).len() + encode_utf8(
            score_text(self.score as nat),
        ).len())
    }

    /// The label: name and score, centred on the bounding box and
    /// [`LABEL_RISE`] pixels above its top.
    pub open spec fn label_op(self) -> DrawOp {
        DrawOp::FillText {
            text: self.name + score_text(self.score as nat),
            x: surface_coord(
                pixel_of(self.position.left) + quotient(pixel_of(self.position.width()), 2)
                    - self.label_width() / 2,
            ),
            y: surface_coord(pixel_of(self.position.top) - LABEL_RISE),
        }
    }

    /// The lives row: one heart for each life, [`LIVES_DROP`] pixels below
    /// the bounding box, flush with its left edge.
    pub open spec fn lives_op(self) -> DrawOp {
        DrawOp::FillText {
            text: hearts(self.lives),
            x: self.anchor_x(),
            y: surface_coord(pixel_of(self.position.bottom) + LIVES_DROP),
        }
    }

    /// Everything a visible entity draws, in order; a hidden one draws
    /// nothing.
    pub open spec fn draw_plan(self) -> Seq<DrawOp> {
        if self.hidden {
            Seq::empty()
        } else {
            seq![
                self.image_op(),
                DrawOp::FillStyle { color: label_color() },
                DrawOp::Font { font: text_font() },
            ] + (if self.has_label() {
                seq![self.label_op()]
            } else {
                Seq::empty()
            }) + seq![DrawOp::FillStyle { color: lives_color(self.lives) }, self.lives_op()]
        }
    }
}

fn digit_str(d: u32) -> (s: &'static str)
    requires
        d < 10,
    ensures
        s@ == seq![digit(d as int)],
{
    proof {
        reveal_strlit("0");
        reveal_strlit("1");
        reveal_strlit("2");
        reveal_strlit("3");
        reveal_strlit("4");
        reveal_strlit("5");
        reveal_strlit("6");
        reveal_strlit("7");
        reveal_strlit("8");
        reveal_strlit("9");
    }
    let s: &'static str = if d == 0 {
        "0"
    } else if d == 1 {
        "1"
    } else if d == 2 {
        "2"
    } else if d == 3 {
        "3"
    } else if d == 4 {
        "4"
    } else if d == 5 {
        "5"
    } else if d == 6 {
        "6"
    } else if d == 7 {
        "7"
    } else if d == 8 {
        "8"
    } else {
        "9"
    };
    assert(s@ =~= seq![digit(d as int)]);
    s
}

/// The number of bytes in the UTF-8 form of `text`.
pub fn byte_len(text: &str) -> (n: usize)
    ensures
        n == encode_utf8(text@).len(),
{
    text.as_bytes().len()
}

/// Appends the decimal numeral of `n` to `text`.
pub fn push_decimal(text: &mut String, n: u32)
    ensures
        final(text)@ == old(text)@ + decimal(n as nat),
    decreases n,
{
    if n >= 10 {
        push_decimal(text, n / 10);
    }
    text.append(digit_str(n % 10));
    proof {
        if n >= 10 {
            assert(text@ =~= old(text)@ + decimal((n / 10) as nat).push(digit((n % 10) as int)));
        } else {
            assert(text@ =~= old(text)@ + seq![digit(n as int)]);
        }
    }
}

/// The score as the label shows it.
pub fn format_score(score: u32) -> (text: String)
    ensures
        text@ == score_text(score as nat),
{
    proof {
        reveal_strlit("(");
        reveal_strlit("分)");
    }
    let mut text = String::from_str("(");
    push_decimal(&mut text, score);
    text.append("分)");
    assert(text@ =~= score_text(score as nat));
    text
}

/// A row of `lives` hearts.
pub fn format_lives(lives: u32) -> (text: String)
    ensures
        text@ == hearts(lives as nat),
{
    proof {
        reveal_strlit("♡");
    }
    let mut text = String::new();
    let mut shown: u32 = 0;
    while shown < lives
        invariant
            shown <= lives,
            text@ == hearts(shown as nat),
            "♡"@ == seq!['♡'],
        decreases lives - shown,
    {
        text.append("♡");
        shown = shown + 1;
        assert(text@ =~= hearts(shown as nat));
    }
    text
}

} // verus!
