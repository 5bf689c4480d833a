//! Fitting long paths into a terminal row by clipping them in the middle.

use vstd::prelude::*;

mod implementation;

verus! {

/// The three characters that stand for the clipped middle.
pub open spec fn ellipsis() -> Seq<char> {
    seq!['.', '.', '.']
}

/// `text` made to fit `max_width` characters: unchanged when it fits; else
/// `max_width` dots when the width leaves no room for anything but the
/// ellipsis (one dot at width 0 or 1); else as many leading characters as
/// trailing ones (one more trailing when the room is odd) around `...`.
pub open spec fn clipped(text: Seq<char>, max_width: nat) -> Seq<char> {
    if text.len() <= max_width {
        text
    } else if max_width <= 1 {
        seq!['.']
    } else if max_width <= 3 {
        Seq::new(max_width, |i: int| '.')
    } else {
        let available = (max_width - 3) as nat;
        let left = available / 2;
        let right = (available - left) as nat;
        text.subrange(0, left as int) + ellipsis() + text.subrange(
            text.len() - right,
            text.len() as int,
        )
    }
}

/// The text shown for a path: the whole path when it is expanded, else the
/// path clipped to `max_width`.
pub open spec fn displayed(path: Seq<char>, expanded: bool, max_width: nat) -> Seq<char> {
    if expanded {
        path
    } else {
        clipped(path, max_width)
    }
}

/// A clipped text never takes more than the width it was given, save the
/// single dot that stands for anything at width 0.
pub proof fn clipped_fits(text: Seq<char>, max_width: nat)
    ensures
        clipped(text, max_width).len() <= if max_width == 0 { 1 } else { max_width },
        text.len() > max_width && max_width > 0 ==> clipped(text, max_width).len() == max_width,
{
}

/// Clips `input` in the middle so that it fits `max_width` characters.
pub fn clip_middle(input: &str, max_width: usize) -> (r: String)
    ensures
        r@ == clipped(input@, max_width as nat),
{
    implementation::clip_middle(input, max_width)
}

/// The text of `path` as a row shows it: whole when `expanded`, else clipped.
pub fn display_path(path: &str, expanded: bool, max_width: usize) -> (r: String)
    ensures
        r@ == displayed(path@, expanded, max_width as nat),
{
    implementation::display_path(path, expanded, max_width)
}

} // verus!
