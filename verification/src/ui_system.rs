//! The elements of the menu screens: texts, buttons and text fields.

use vstd::prelude::*;
use regex::Regex;
use crate::fixed::{difference_of, fx_mul, fx_sub, product_of, ONE};
use crate::shapes::{Color, Rectangle, Vector2};
use crate::utils::SCREEN_WIDTH;

pub mod elements;

verus! {

/// A line of text on a screen.
pub struct Text {
    /// Where the middle of the text stands, as shares of the width and the
    /// height of the screen.
    pub relative_pos: Vector2,
    pub color: Color,
    pub text: String,
    /// The top-left corner of the text.
    pub pos: Vector2,
    /// The size of the font.
    pub size: i32,
}

/// A button: a text with a rectangle round it that the mouse can press.
pub struct Button {
    pub rect: Rectangle,
    pub enabled: bool,
    pub text: String,
    pub pos: Vector2,
}

/// A field in which a text can be typed.
pub struct TextField {
    /// The outline and, inside it, the area that takes the mouse.
    pub rects: Vec<Rectangle>,
    pub pos: Vector2,
    pub colors: Vec<Color>,
    /// The greatest length of the text, in bytes.
    pub max_length: usize,
    /// The pattern that a typed character has to match.
    pub format: String,
    pub text: Text,
    pub value: String,
    /// The text that stands in the field while nothing is typed.
    pub placeholder: String,
}

/// What a screen shows: its texts, its fields, and its buttons, each with
/// the colour in which it is drawn.
pub struct ScreenElements {
    pub texts: Vec<Text>,
    pub fields: Vec<TextField>,
    pub buttons: Vec<(Button, Color)>,
}

/// Where the mouse is and whether its left button was pressed in this
/// frame.
#[derive(Clone, Copy, Debug, PartialEq, Eq, Structural)]
pub struct Mouse {
    pub position: Vector2,
    pub clicked: bool,
}

/// Whether a text matches a pattern, as `regex` finds it: nothing where
/// the pattern is not one that `regex` takes.
pub uninterp spec fn pattern_match(pattern: Seq<char>, text: Seq<char>) -> Option<bool>;

/// Compiles the pattern with `regex::Regex::new` and looks for a match in
/// the text with `Regex::is_match`. Both depend on their arguments alone.
/// The result is that of `is_match`, or nothing where `new` refuses the
/// pattern.
#[verifier::external_body]
pub(crate) fn regex_match(pattern: &str, text: &str) -> (found: Option<bool>)
    ensures
        found == pattern_match(pattern@, text@),
{
    match Regex::new(pattern) {
        Ok(compiled) => Some(compiled.is_match(text)),
        Err(_) => None,
    }
}

/// `String::push` puts a character at the end of the text.
pub assume_specification[ String::push ](text: &mut String, ch: char)
    ensures
        final(text)@ == old(text)@.push(ch),
;

/// `String::pop` takes the last character off the text and returns it,
/// or returns nothing and leaves an empty text as it is.
pub assume_specification[ String::pop ](text: &mut String) -> (last: Option<char>)
    ensures
        old(text)@.len() == 0 ==> last is None && final(text)@ == old(text)@,
        old(text)@.len() > 0 ==> last == Some(old(text)@.last()) && final(text)@ == old(
            text,
        )@.drop_last(),
;

/// Where a text that is `width` pixels wide begins, for its middle to
/// stand at the share `share` of the screen's width.
pub open spec fn centered_left(share: i64, width: i32) -> i64 {
    difference_of(product_of(SCREEN_WIDTH, share), (width * (ONE / 2)) as i64)
}

pub fn center_left(share: i64, width: i32) -> (left: i64)
    ensures
        left == centered_left(share, width),
{
    fx_sub(fx_mul(SCREEN_WIDTH, share), (width as i64) * (ONE / 2))
}

} // verus!
