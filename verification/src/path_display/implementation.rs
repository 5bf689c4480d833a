use vstd::prelude::*;
use vstd::string::*;

use super::{clipped, displayed, ellipsis};
use crate::text::{from_chars, slice_chars, to_chars};

verus! {

pub fn clip_middle(input: &str, max_width: usize) -> (r: String)
    ensures
        r@ == clipped(input@, max_width as nat),
{
    let chars = to_chars(input);
    let n = chars.len();
    if n <= max_width {
        return input.to_owned();
    }
    if max_width <= 1 {
        let dot: Vec<char> = vec!['.'];
        let r = from_chars(dot.as_slice());
        assert(r@ =~= seq!['.']);
        return r;
    }
    if max_width <= 3 {
        let mut dots: Vec<char> = Vec::new();
        let mut i: usize = 0;
        while i < max_width
            invariant
                i <= max_width,
                dots@ =~= Seq::new(i as nat, |k: int| '.'),
            decreases max_width - i,
        {
            dots.push('.');
            i += 1;
        }
        return from_chars(dots.as_slice());
    }
    let available = max_width - 3;
    let left = available / 2;
    let right = available - left;
    let mut out = slice_chars(&chars, 0, left);
    out.push('.');
    out.push('.');
    out.push('.');
    let suffix = slice_chars(&chars, n - right, n);
    let mut i: usize = 0;
    let ghost prefix = out@;
    while i < suffix.len()
        invariant
            i <= suffix@.len(),
            out@ == prefix + suffix@.subrange(0, i as int),
        decreases suffix@.len() - i,
    {
        out.push(suffix[i]);
        i += 1;
        assert(out@ =~= prefix + suffix@.subrange(0, i as int));
    }
    assert(suffix@.subrange(0, suffix@.len() as int) =~= suffix@);
    assert(prefix =~= input@.subrange(0, left as int) + ellipsis());
    from_chars(out.as_slice())
}

pub fn display_path(path: &str, expanded: bool, max_width: usize) -> (r: String)
    ensures
        r@ == displayed(path@, expanded, max_width as nat),
{
    if expanded {
        path.to_owned()
    } else {
        clip_middle(path, max_width)
    }
}

} // verus!
