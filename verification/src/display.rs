use vstd::prelude::*;

verus! {

/// Levels of the four digit-enable lines, `true` meaning driven high.
/// The wiring is active-low: the selected digit's enable line is driven
/// low while the other three are held high.
#[derive(Clone, Copy, PartialEq, Eq, Structural, Debug)]
pub struct Digit {
    pub one: bool,
    pub two: bool,
    pub three: bool,
    pub four: bool,
}

impl View for Digit {
    type V = Seq<bool>;

    open spec fn view(&self) -> Seq<bool> {
        seq![self.one, self.two, self.three, self.four]
    }
}

/// The enable-line levels that select digit slot `slot` (0 = units,
/// 1 = tens, 2 = hundreds, 3 = thousands): that slot's line low, the
/// other three high.
pub open spec fn enable_state(slot: int) -> Digit {
    Digit { one: slot != 0, two: slot != 1, three: slot != 2, four: slot != 3 }
}

impl Digit {
    /// Fresh enable lines, all driven low, the level a newly configured
    /// push-pull output starts at.
    pub fn new() -> (d: Digit)
        ensures
            d@ == seq![false, false, false, false],
    {
        Digit { one: false, two: false, three: false, four: false }
    }

    /// Drive exactly one enable line low (active) and the other three high.
    pub fn select(&mut self, slot: u8)
        requires
            slot < 4,
        ensures
            *final(self) == enable_state(slot as int),
    {
        self.one = slot != 0;
        self.two = slot != 1;
        self.three = slot != 2;
        self.four = slot != 3;
    }
}

/// Levels of the eight segment lines, `true` meaning driven high (segment
/// lit): the seven segments `a` through `g` and the decimal point `dp`.
#[derive(Clone, Copy, PartialEq, Eq, Structural, Debug)]
pub struct Segment {
    pub a: bool,
    pub b: bool,
    pub c: bool,
    pub d: bool,
    pub e: bool,
    pub f: bool,
    pub g: bool,
    pub dp: bool,
}

impl View for Segment {
    type V = Seq<bool>;

    open spec fn view(&self) -> Seq<bool> {
        seq![self.a, self.b, self.c, self.d, self.e, self.f, self.g, self.dp]
    }
}

/// The segment truth table: the line levels that show the decimal digit
/// `digit`.  Any value outside 0..=9 maps to all segments off.
pub open spec fn pattern_state(digit: int) -> Segment {
    if digit == 0 {
        Segment { a: true, b: true, c: true, d: true, e: true, f: true, g: false, dp: false }
    } else if digit == 1 {
        Segment { a: false, b: true, c: true, d: false, e: false, f: false, g: false, dp: false }
    } else if digit == 2 {
        Segment { a: true, b: true, c: false, d: true, e: true, f: false, g: true, dp: false }
    } else if digit == 3 {
        Segment { a: true, b: true, c: true, d: true, e: false, f: false, g: true, dp: false }
    } else if digit == 4 {
        Segment { a: false, b: true, c: true, d: false, e: false, f: true, g: true, dp: false }
    } else if digit == 5 {
        Segment { a: true, b: false, c: true, d: true, e: false, f: true, g: true, dp: false }
    } else if digit == 6 {
        Segment { a: true, b: false, c: true, d: true, e: true, f: true, g: true, dp: false }
    } else if digit == 7 {
        Segment { a: true, b: true, c: true, d: false, e: false, f: false, g: false, dp: false }
    } else if digit == 8 {
        Segment { a: true, b: true, c: true, d: true, e: true, f: true, g: true, dp: false }
    } else if digit == 9 {
        Segment { a: true, b: true, c: true, d: true, e: false, f: true, g: true, dp: false }
    } else {
        Segment { a: false, b: false, c: false, d: false, e: false, f: false, g: false, dp: false }
    }
}

impl Segment {
    /// Fresh segment lines, all driven low.
    pub fn new() -> (s: Segment)
        ensures
            s@ == seq![false, false, false, false, false, false, false, false],
    {
        Segment { a: false, b: false, c: false, d: false, e: false, f: false, g: false, dp: false }
    }

    /// Drive the segment lines to show the decimal digit `number`; any
    /// value outside 0..=9 turns every segment off.  Total: it never
    /// fails, and the levels written depend on `number` alone.
    pub fn display_single_number(&mut self, number: u8)
        ensures
            *final(self) == pattern_state(number as int),
    {
        match number {
            0 => {
                self.a = true;
                self.b = true;
                self.c = true;
                self.d = true;
                self.e = true;
                self.f = true;
                self.g = false;
                self.dp = false;
            }
            1 => {
                self.a = false;
                self.b = true;
                self.c = true;
                self.d = false;
                self.e = false;
                self.f = false;
                self.g = false;
                self.dp = false;
            }
            2 => {
                self.a = true;
                self.b = true;
                self.c = false;
                self.d = true;
                self.e = true;
                self.f = false;
                self.g = true;
                self.dp = false;
            }
            3 => {
                self.a = true;
                self.b = true;
                self.c = true;
                self.d = true;
                self.e = false;
                self.f = false;
                self.g = true;
                self.dp = false;
            }
            4 => {
                self.a = false;
                self.b = true;
                self.c = true;
                self.d = false;
                self.e = false;
                self.f = true;
                self.g = true;
                self.dp = false;
            }
            5 => {
                self.a = true;
                self.b = false;
                self.c = true;
                self.d = true;
                self.e = false;
                self.f = true;
                self.g = true;
                self.dp = false;
            }
            6 => {
                self.a = true;
                self.b = false;
                self.c = true;
                self.d = true;
                self.e = true;
                self.f = true;
                self.g = true;
                self.dp = false;
            }
            7 => {
                self.a = true;
                self.b = true;
                self.c = true;
                self.d = false;
                self.e = false;
                self.f = false;
                self.g = false;
                self.dp = false;
            }
            8 => {
                self.a = true;
                self.b = true;
                self.c = true;
                self.d = true;
                self.e = true;
                self.f = true;
                self.g = true;
                self.dp = false;
            }
            9 => {
                self.a = true;
                self.b = true;
                self.c = true;
                self.d = true;
                self.e = false;
                self.f = true;
                self.g = true;
                self.dp = false;
            }
            _ => {
                self.a = false;
                self.b = false;
                self.c = false;
                self.d = false;
                self.e = false;
                self.f = false;
                self.g = false;
                self.dp = false;
            }
        }
    }
}

/// Selecting a slot is one-hot and active-low: line `j` is driven low by
/// `enable_state(i)` if and only if `i == j`.  So over one multiplexing
/// pass (slots 0 through 3) every enable line is active exactly once, and
/// no two lines are ever active at the same time.
pub proof fn lemma_enable_one_hot(i: int, j: int)
    requires
        0 <= i < 4,
        0 <= j < 4,
    ensures
        (enable_state(i)@[j] == false) <==> (i == j),
{
}

/// One step of a multiplexing pass: the enable-line levels, the segment
/// levels, and how many milliseconds to hold them before the next step.
#[derive(Clone, Copy, PartialEq, Eq, Structural, Debug)]
pub struct Frame {
    pub digit: Digit,
    pub segment: Segment,
    pub settle_ms: u32,
}

/// Values outside the four-digit range are clamped to the nearest
/// representable boundary: below 0 to 0, above 9999 to 9999.
pub open spec fn clamp_value(v: int) -> int {
    if v < 0 {
        0
    } else if v > 9999 {
        9999
    } else {
        v
    }
}

/// The base-10 digit of `v` shown in slot `slot`: units in slot 0, tens
/// in slot 1, hundreds in slot 2, thousands in slot 3.
pub open spec fn digit_at(v: int, slot: int) -> int {
    if slot == 0 {
        v % 10
    } else if slot == 1 {
        (v / 10) % 10
    } else if slot == 2 {
        (v / 100) % 10
    } else {
        v / 1000
    }
}

/// The line levels held during slot `slot` of a pass that renders `v`:
/// that slot's enable line active, the slot's digit on the segment lines,
/// and a settle hold of one millisecond.
pub open spec fn frame_spec(v: int, slot: int) -> Frame {
    Frame {
        digit: enable_state(slot),
        segment: pattern_state(digit_at(v, slot)),
        settle_ms: 1,
    }
}

/// One full multiplexing pass for the value `v`: four frames in the fixed
/// slot order units, tens, hundreds, thousands, after clamping `v` into
/// the representable range.
pub open spec fn render_spec(v: int) -> Seq<Frame> {
    Seq::new(4, |slot: int| frame_spec(clamp_value(v), slot))
}

/// The display driver: the current levels of the segment and digit-enable
/// lines.  `num_display` computes one multiplexing pass; the platform
/// layer applies each frame to the pins and holds it for its settle time.
pub struct Display {
    pub segment: Segment,
    pub digit: Digit,
}

impl Display {
    pub fn new(segment: Segment, digit: Digit) -> (dsp: Display)
        ensures
            dsp.segment == segment,
            dsp.digit == digit,
    {
        Display { segment, digit }
    }

    /// One full multiplexing pass for `number`: decompose it into its
    /// four base-10 digits and, slot by slot in the fixed order units,
    /// tens, hundreds, thousands, select the slot's enable line and put
    /// the slot's digit on the segment lines.  The returned frames are
    /// exactly `render_spec(number)`, and the lines are left at the last
    /// frame's levels.  Out-of-range values are clamped first.
    pub fn num_display(&mut self, number: i32) -> (frames: Vec<Frame>)
        ensures
            frames@ == render_spec(number as int),
            final(self).digit == frame_spec(clamp_value(number as int), 3).digit,
            final(self).segment == frame_spec(clamp_value(number as int), 3).segment,
    {
        let value: i32 = if number < 0 {
            0
        } else if number > 9999 {
            9999
        } else {
            number
        };
        let v: u16 = value as u16;
        let digit1: u8 = (v % 10) as u8;
        let digit2: u8 = ((v / 10) % 10) as u8;
        let digit3: u8 = ((v / 100) % 10) as u8;
        let digit4: u8 = (v / 1000) as u8;

        let mut frames: Vec<Frame> = Vec::new();

        self.digit.select(0);
        self.segment.display_single_number(digit1);
        frames.push(Frame { digit: self.digit, segment: self.segment, settle_ms: 1 });

        self.digit.select(1);
        self.segment.display_single_number(digit2);
        frames.push(Frame { digit: self.digit, segment: self.segment, settle_ms: 1 });

        self.digit.select(2);
        self.segment.display_single_number(digit3);
        frames.push(Frame { digit: self.digit, segment: self.segment, settle_ms: 1 });

        self.digit.select(3);
        self.segment.display_single_number(digit4);
        frames.push(Frame { digit: self.digit, segment: self.segment, settle_ms: 1 });

        proof {
            assert(frames@ =~= render_spec(number as int));
        }
        frames
    }
}

/// Over one rendering pass, each digit-enable line is active (low) in
/// exactly one of the four frames, and each frame activates exactly one
/// line: frame `i` drives line `j` low if and only if `i == j`, whatever
/// value is rendered.
pub proof fn lemma_pass_one_hot(v: int, i: int, j: int)
    requires
        0 <= i < 4,
        0 <= j < 4,
    ensures
        (render_spec(v)[i].digit@[j] == false) <==> (i == j),
{
    lemma_enable_one_hot(i, j);
}

/// Digit decomposition is exact: for `0 <= v <= 9999` the slot digits are
/// units, tens, hundreds and thousands of `v`, each lies in 0..=9, and
/// together they reconstruct `v`.
pub proof fn lemma_digit_decomposition(v: int)
    requires
        0 <= v <= 9999,
    ensures
        digit_at(v, 0) == v % 10,
        digit_at(v, 1) == (v / 10) % 10,
        digit_at(v, 2) == (v / 100) % 10,
        digit_at(v, 3) == v / 1000,
        forall|slot: int| 0 <= slot < 4 ==> 0 <= #[trigger] digit_at(v, slot) <= 9,
        v == 1000 * digit_at(v, 3) + 100 * digit_at(v, 2) + 10 * digit_at(v, 1) + digit_at(v, 0),
{
    vstd::arithmetic::div_mod::lemma_fundamental_div_mod(v, 10);
    vstd::arithmetic::div_mod::lemma_fundamental_div_mod(v / 10, 10);
    vstd::arithmetic::div_mod::lemma_fundamental_div_mod(v / 100, 10);
    vstd::arithmetic::div_mod::lemma_div_denominator(v, 10, 10);
    vstd::arithmetic::div_mod::lemma_div_denominator(v, 100, 10);
}

/// Rendering carries no hidden state: the frame sequence of a pass is a
/// function of the rendered value alone, so repeated passes over the same
/// value assert the same line states in the same order every time.
pub proof fn lemma_render_deterministic(a: Seq<Frame>, b: Seq<Frame>, v: int)
    requires
        a == render_spec(v),
        b == render_spec(v),
    ensures
        a == b,
{
}

/// The out-of-range policy is clamping: a value above 9999 renders as
/// 9999 does, and a negative value renders as 0 does.
pub proof fn lemma_clamp_policy(v: int)
    ensures
        v > 9999 ==> render_spec(v) == render_spec(9999),
        v < 0 ==> render_spec(v) == render_spec(0),
{
    if v > 9999 {
        assert(render_spec(v) =~= render_spec(9999));
    }
    if v < 0 {
        assert(render_spec(v) =~= render_spec(0));
    }
}

} // verus!
