use vstd::prelude::*;

use crate::colour::{lemma_colour_ext, Colour, Rgb};
use crate::error::GradientError;
use crate::gradient::{style_of, Gradient, GradientView, StyleOptions};

verus! {

/// What a builder holds: its style flags, its colours and its text. A colour
/// that is still black counts as unset.
pub struct BuilderView {
    pub bold: bool,
    pub italic: bool,
    pub start: Rgb,
    pub end: Rgb,
    pub text: Seq<char>,
}

/// Whether a builder holds both of its colours.
pub open spec fn is_configured(b: BuilderView) -> bool {
    b.start != (0u8, 0u8, 0u8) && b.end != (0u8, 0u8, 0u8)
}

/// What a new builder holds: no style, both colours unset, empty text.
pub open spec fn empty_builder() -> BuilderView {
    BuilderView {
        bold: false,
        italic: false,
        start: (0u8, 0u8, 0u8),
        end: (0u8, 0u8, 0u8),
        text: Seq::empty(),
    }
}

/// Builder type for `Gradient`.
pub struct GradientBuilder {
    is_bold: bool,
    is_italic: bool,
    start_colour: Colour,
    end_colour: Colour,
    text: String,
}

impl View for GradientBuilder {
    type V = BuilderView;

    closed spec fn view(&self) -> BuilderView {
        BuilderView {
            bold: self.is_bold,
            italic: self.is_italic,
            start: self.start_colour@,
            end: self.end_colour@,
            text: self.text@,
        }
    }
}

impl GradientBuilder {
    /// A builder with no style, black (unset) colours and empty text.
    pub fn new() -> (b: Self)
        ensures
            b@ == empty_builder(),
    {
        Self {
            is_italic: false,
            is_bold: false,
            start_colour: Colour::default(),
            end_colour: Colour::default(),
            text: String::new(),
        }
    }

    /// Set the text to be displayed as bold.
    pub fn bold(self) -> (b: Self)
        ensures
            b@ == (BuilderView { bold: true, ..self@ }),
    {
        Self { is_bold: true, ..self }
    }

    /// Set the text to be displayed in italics.
    pub fn italic(self) -> (b: Self)
        ensures
            b@ == (BuilderView { italic: true, ..self@ }),
    {
        Self { is_italic: true, ..self }
    }

    /// Remove all style options from the text.
    pub fn plain(self) -> (b: Self)
        ensures
            b@ == (BuilderView { bold: false, italic: false, ..self@ }),
    {
        Self { is_bold: false, is_italic: false, ..self }
    }

    /// Set the text rendered by the gradient.
    pub fn text(self, text: String) -> (b: Self)
        ensures
            b@ == (BuilderView { text: text@, ..self@ }),
    {
        Self { text, ..self }
    }

    /// Set the start colour.
    pub fn start_colour(self, colour: Colour) -> (b: Self)
        ensures
            b@ == (BuilderView { start: colour@, ..self@ }),
    {
        Self { start_colour: colour, ..self }
    }

    /// Set the end colour.
    pub fn end_colour(self, colour: Colour) -> (b: Self)
        ensures
            b@ == (BuilderView { end: colour@, ..self@ }),
    {
        Self { end_colour: colour, ..self }
    }

    /// The finished gradient, with the style that the bold and italic flags
    /// select. Fails while either colour is still unset (black).
    pub fn build(self) -> (res: Result<Gradient, GradientError>)
        ensures
            !is_configured(self@) ==> res is Err && res->Err_0
                == GradientError::UnconfiguredGradient,
            is_configured(self@) ==> res is Ok && res->Ok_0@ == (GradientView {
                start: self@.start,
                end: self@.end,
                text: self@.text,
                options: style_of(self@.bold, self@.italic),
            }),
    {
        let unset = Colour::default();
        proof {
            lemma_colour_ext(self.start_colour, unset);
            lemma_colour_ext(self.end_colour, unset);
        }
        if self.start_colour == unset || self.end_colour == unset {
            return Err(GradientError::UnconfiguredGradient);
        }
        let options = StyleOptions::from_flags(self.is_bold, self.is_italic);
        Ok(Gradient::from_parts(self.start_colour, self.end_colour, self.text, options))
    }
}

impl Default for GradientBuilder {
    fn default() -> (b: Self)
        ensures
            b@ == empty_builder(),
    {
        Self::new()
    }
}

/// A builder that is built before any colour is set fails: a new builder is
/// not configured.
pub proof fn lemma_new_builder_is_unconfigured()
    ensures
        !is_configured(empty_builder()),
{
}

} // verus!
