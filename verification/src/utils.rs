//! String repetition, used by renderers to draw separator rules.

use vstd::prelude::*;

use vstd::string::StringExecFns;

verus! {

/// `s` concatenated with itself `times` times.
pub open spec fn spec_repeated(s: Seq<char>, times: nat) -> Seq<char>
    decreases times,
{
    if times == 0 {
        Seq::empty()
    } else {
        spec_repeated(s, (times - 1) as nat) + s
    }
}

/// String-like values that can be repeated into a fresh `String`.
pub trait Repeated: View<V = Seq<char>> {
    /// Returns the value concatenated with itself `times` times.
    fn repeated(&self, times: usize) -> (r: String)
        ensures
            r@ == spec_repeated(self@, times as nat),
    ;
}

impl Repeated for str {
    fn repeated(&self, times: usize) -> (r: String) {
        let mut r = String::new();
        let mut i: usize = 0;
        while i < times
            invariant
                i <= times,
                r@ == spec_repeated(self@, i as nat),
            decreases times - i,
        {
            r.append(self);
            i = i + 1;
        }
        r
    }
}

} // verus!
