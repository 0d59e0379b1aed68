use vstd::prelude::*;

use colored::Colorize;

use crate::colour::{add_rgb, scale_rgb, Colour, Rgb};

verus! {

/// The decoration that a gradient applies to every character.
#[derive(Debug, Clone, Copy, PartialEq, Eq, Structural)]
pub enum StyleOptions {
    Bold,
    Italic,
    BoldItalic,
    Default,
}

/// The style that a pair of bold and italic flags selects.
pub open spec fn style_of(bold: bool, italic: bool) -> StyleOptions {
    match (bold, italic) {
        (true, true) => StyleOptions::BoldItalic,
        (false, true) => StyleOptions::Italic,
        (true, false) => StyleOptions::Bold,
        (false, false) => StyleOptions::Default,
    }
}

impl StyleOptions {
    /// The style for the given bold and italic flags.
    pub fn from_flags(bold: bool, italic: bool) -> (s: StyleOptions)
        ensures
            s == style_of(bold, italic),
    {
        match (bold, italic) {
            (true, true) => StyleOptions::BoldItalic,
            (false, true) => StyleOptions::Italic,
            (true, false) => StyleOptions::Bold,
            (false, false) => StyleOptions::Default,
        }
    }
}

/// The colour of the character at `i` in a text of `n` characters: with
/// `alpha = i / n`, the sum `start * alpha + end * (1 - alpha)`. The first
/// character takes `end` exactly.
pub open spec fn mix_rgb(start: Rgb, end: Rgb, i: nat, n: nat) -> Rgb {
    add_rgb(scale_rgb(start, i, n), scale_rgb(end, (n - i) as nat, n))
}

/// The decimal digits of `n`, most significant first.
pub open spec fn decimal(n: nat) -> Seq<char>
    decreases n,
{
    let digit = seq!['0', '1', '2', '3', '4', '5', '6', '7', '8', '9'][(n % 10) as int];
    if n < 10 {
        seq![digit]
    } else {
        decimal(n / 10).push(digit)
    }
}

/// The SGR parameters that select a style, each followed by `;`.
pub open spec fn style_codes(options: StyleOptions) -> Seq<char> {
    match options {
        StyleOptions::Default => Seq::empty(),
        StyleOptions::Bold => seq!['1', ';'],
        StyleOptions::Italic => seq!['3', ';'],
        StyleOptions::BoldItalic => seq!['1', ';', '3', ';'],
    }
}

/// A character in a 24-bit foreground colour and a style, as an escape
/// sequence `ESC [ <style> 38;2;<r>;<g>;<b> m`, the character, and the reset
/// `ESC [ 0 m`.
pub open spec fn escaped(c: char, colour: Rgb, options: StyleOptions) -> Seq<char> {
    seq!['\x1b', '['] + style_codes(options) + seq!['3', '8', ';', '2', ';'] + decimal(
        colour.0 as nat,
    ) + seq![';'] + decimal(colour.1 as nat) + seq![';'] + decimal(colour.2 as nat) + seq!['m', c]
        + seq!['\x1b', '[', '0', 'm']
}

/// What the styling backend may render for one character: the escaped form
/// when it colours its output, the bare character when colouring is switched
/// off (output that is not a terminal, `NO_COLOR`, a manual override).
pub open spec fn is_segment(piece: Seq<char>, c: char, colour: Rgb, options: StyleOptions) -> bool {
    piece == seq![c] || piece == escaped(c, colour, options)
}

/// The concatenation of a sequence of strings, in order.
pub open spec fn join(pieces: Seq<Seq<char>>) -> Seq<char>
    decreases pieces.len(),
{
    if pieces.len() == 0 {
        Seq::empty()
    } else {
        join(pieces.drop_last()) + pieces.last()
    }
}

/// Relies on colored's `Colorize::truecolor` and the `Display` impl of its
/// `ColoredString`: the character, in the escaped form when colouring is on.
#[verifier::external_body]
fn paint_plain(c: char, r: u8, g: u8, b: u8) -> (s: String)
    ensures
        is_segment(s@, c, (r, g, b), StyleOptions::Default),
{
    String::from(c).truecolor(r, g, b).to_string()
}

/// Relies on colored's `Colorize::truecolor`, `Colorize::bold` and the
/// `Display` impl of its `ColoredString`: style code `1` before the colour.
#[verifier::external_body]
fn paint_bold(c: char, r: u8, g: u8, b: u8) -> (s: String)
    ensures
        is_segment(s@, c, (r, g, b), StyleOptions::Bold),
{
    String::from(c).truecolor(r, g, b).bold().to_string()
}

/// Relies on colored's `Colorize::truecolor`, `Colorize::italic` and the
/// `Display` impl of its `ColoredString`: style code `3` before the colour.
#[verifier::external_body]
fn paint_italic(c: char, r: u8, g: u8, b: u8) -> (s: String)
    ensures
        is_segment(s@, c, (r, g, b), StyleOptions::Italic),
{
    String::from(c).truecolor(r, g, b).italic().to_string()
}

/// Relies on colored's `Colorize::truecolor`, `Colorize::bold`,
/// `Colorize::italic` and the `Display` impl of its `ColoredString`: style
/// codes `1;3` before the colour, in that order whatever the order of calls.
#[verifier::external_body]
fn paint_bold_italic(c: char, r: u8, g: u8, b: u8) -> (s: String)
    ensures
        is_segment(s@, c, (r, g, b), StyleOptions::BoldItalic),
{
    String::from(c).truecolor(r, g, b).bold().italic().to_string()
}

/// One character rendered in a colour and a style by the styling backend.
pub fn paint(c: char, colour: Colour, options: StyleOptions) -> (s: String)
    ensures
        is_segment(s@, c, colour@, options),
{
    match options {
        StyleOptions::Default => paint_plain(c, colour.r(), colour.g(), colour.b()),
        StyleOptions::Bold => paint_bold(c, colour.r(), colour.g(), colour.b()),
        StyleOptions::Italic => paint_italic(c, colour.r(), colour.g(), colour.b()),
        StyleOptions::BoldItalic => paint_bold_italic(c, colour.r(), colour.g(), colour.b()),
    }
}

/// The characters of a string, in order.
fn chars_of(s: &str) -> (v: Vec<char>)
    ensures
        v@ == s@,
{
    let mut v: Vec<char> = Vec::new();
    for c in it: s.chars()
        invariant
            v@ == it.seq().take(it.index()),
    {
        v.push(c);
    }
    v
}

/// What a gradient is: its two colours, its text and its style.
pub struct GradientView {
    pub start: Rgb,
    pub end: Rgb,
    pub text: Seq<char>,
    pub options: StyleOptions,
}

/// Text with a colour gradient and a style applied to it.
#[derive(Debug)]
pub struct Gradient {
    start: Colour,
    end: Colour,
    text: String,
    options: StyleOptions,
}

impl View for Gradient {
    type V = GradientView;

    closed spec fn view(&self) -> GradientView {
        GradientView {
            start: self.start@,
            end: self.end@,
            text: self.text@,
            options: self.options,
        }
    }
}

/// The colour of each character of a gradient, in order.
pub open spec fn gradient_colours(g: GradientView) -> Seq<Rgb> {
    Seq::new(g.text.len(), |i: int| mix_rgb(g.start, g.end, i as nat, g.text.len()))
}

/// `out` is a rendering of `g`: one segment per character, in the order of
/// the text, each the character in its own colour and the gradient's style.
pub open spec fn renders(g: GradientView, out: Seq<char>) -> bool {
    exists|pieces: Seq<Seq<char>>|
        {
            &&& pieces.len() == g.text.len()
            &&& forall|i: int|
                0 <= i < pieces.len() ==> #[trigger] is_segment(
                    pieces[i],
                    g.text[i],
                    gradient_colours(g)[i],
                    g.options,
                )
            &&& out == join(pieces)
        }
}

impl Gradient {
    /// A gradient in the default style, with no check on its colours.
    pub fn new(start: Colour, end: Colour, text: &str) -> (g: Self)
        ensures
            g@ == (GradientView {
                start: start@,
                end: end@,
                text: text@,
                options: StyleOptions::Default,
            }),
    {
        Self { start, end, text: text.to_owned(), options: StyleOptions::Default }
    }

    pub(crate) fn from_parts(start: Colour, end: Colour, text: String, options: StyleOptions) -> (g:
        Self)
        ensures
            g@ == (GradientView { start: start@, end: end@, text: text@, options }),
    {
        Self { start, end, text, options }
    }

    /// The colour of each character: at index `i` of `n` characters,
    /// `start * (i / n) + end * (1 - i / n)`. The ratio is taken over
    /// characters, not bytes.
    pub fn get_gradient(&self) -> (colours: Vec<Colour>)
        ensures
            colours@.len() == self@.text.len(),
            forall|i: int|
                0 <= i < colours@.len() ==> #[trigger] colours@[i]@ == gradient_colours(self@)[i],
    {
        let chars = chars_of(self.text.as_str());
        let n = chars.len();
        let mut colours: Vec<Colour> = Vec::new();
        let mut i: usize = 0;
        while i < n
            invariant
                n == self@.text.len(),
                i <= n,
                colours@.len() == i,
                forall|j: int|
                    0 <= j < i ==> #[trigger] colours@[j]@ == gradient_colours(self@)[j],
            decreases n - i,
        {
            colours.push(self.start.scale(i, n).add(self.end.scale(n - i, n)));
            i = i + 1;
        }
        colours
    }

    /// The text rendered by the styling backend: each character in its colour
    /// and the gradient's style, concatenated in order. Empty text gives an
    /// empty string.
    pub fn format(&self) -> (out: String)
        ensures
            renders(self@, out@),
            self@.text.len() == 0 ==> out@.len() == 0,
    {
        let chars = chars_of(self.text.as_str());
        let colours = self.get_gradient();
        let mut out = String::new();
        let ghost mut pieces: Seq<Seq<char>> = Seq::empty();
        let mut i: usize = 0;
        while i < chars.len()
            invariant
                chars@ == self@.text,
                colours@.len() == chars@.len(),
                forall|j: int|
                    0 <= j < colours@.len() ==> #[trigger] colours@[j]@ == gradient_colours(
                        self@,
                    )[j],
                i <= chars@.len(),
                pieces.len() == i,
                forall|j: int|
                    0 <= j < i ==> #[trigger] is_segment(
                        pieces[j],
                        self@.text[j],
                        gradient_colours(self@)[j],
                        self@.options,
                    ),
                out@ == join(pieces),
            decreases chars@.len() - i,
        {
            let piece = paint(chars[i], colours[i], self.options);
            proof {
                let old_pieces = pieces;
                pieces = pieces.push(piece@);
                assert(pieces.drop_last() =~= old_pieces);
            }
            out.append(piece.as_str());
            i = i + 1;
        }
        assert(renders(self@, out@));
        out
    }

    /// The rendered text, as `format` gives it.
    pub fn to_string(&self) -> (out: String)
        ensures
            renders(self@, out@),
    {
        self.format()
    }
}

/// The first character of a text takes the end colour exactly.
pub proof fn lemma_first_colour_is_end(start: Colour, end: Colour, n: nat)
    requires
        n > 0,
    ensures
        mix_rgb(start@, end@, 0, n) == end@,
{
    crate::colour::lemma_scale_identity_and_zero(start, n);
    crate::colour::lemma_scale_identity_and_zero(end, n);
}

} // verus!
