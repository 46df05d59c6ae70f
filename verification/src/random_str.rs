//! Join codes for games and teams.
//!
//! Each player uses a join code to enter a game, and each player forming a team
//! distributes a join code to the players on their team to join their team.

use crate::censor::{inappropriate, is_inappropriate};
use crate::rng::random_index;
use crate::text::push_char;
use rand_chacha::ChaCha12Rng;
use vstd::prelude::*;

verus! {

/// Characters that a legible string is drawn from: letters and digits without
/// the easily confused `O`/`0` and `l`/`I`/`1`.
pub const CHARSET: [char; 57] = [
    'A', 'B', 'C', 'D', 'E', 'F', 'G', 'H', 'J', 'K', 'L', 'M', 'N', 'P', 'Q', 'R', 'S', 'T',
    'U', 'V', 'W', 'X', 'Y', 'Z', 'a', 'b', 'c', 'd', 'e', 'f', 'g', 'h', 'i', 'j', 'k', 'm',
    'n', 'o', 'p', 'q', 'r', 's', 't', 'u', 'v', 'w', 'x', 'y', 'z', '2', '3', '4', '5', '6',
    '7', '8', '9',
];

/// `c` is one of the legible characters.
pub open spec fn is_legible_char(c: char) -> bool {
    CHARSET@.contains(c)
}

/// Every character of `s` is legible.
pub open spec fn is_legible(s: Seq<char>) -> bool {
    forall|i: int| 0 <= i < s.len() ==> #[trigger] is_legible_char(s[i])
}

/// Generate a random string of the given length, excluding ambiguous character
/// pairs (O/0, l/I/1).
pub fn generate_legible_string(rng: &mut ChaCha12Rng, len: usize) -> (r: String)
    ensures
        r@.len() == len,
        is_legible(r@),
{
    let mut out = String::new();
    let mut i: usize = 0;
    while i < len
        invariant
            i <= len,
            out@.len() == i,
            is_legible(out@),
        decreases len - i,
    {
        let idx: usize = random_index(rng, CHARSET.len());
        let c = CHARSET[idx];
        assert(is_legible_char(c)) by {
            assert(CHARSET@[idx as int] == c);
        }
        let ghost before = out@;
        push_char(&mut out, c);
        assert forall|k: int| 0 <= k < out@.len() implies #[trigger] is_legible_char(out@[k]) by {
            if k < before.len() {
                assert(out@[k] == before[k]);
            }
        }
        i = i + 1;
    }
    out
}

/// A join code: a string that the profanity filter accepts.
#[derive(Debug)]
pub struct JoinCode(String);

impl Clone for JoinCode {
    fn clone(&self) -> (r: Self)
        ensures
            r@ == self@,
    {
        proof {
            use_type_invariant(self);
        }
        JoinCode(self.0.clone())
    }
}

impl View for JoinCode {
    type V = Seq<char>;

    closed spec fn view(&self) -> Seq<char> {
        self.0@
    }
}

impl PartialEq for JoinCode {
    fn eq(&self, other: &Self) -> (r: bool) {
        self.0 == other.0
    }
}

impl Eq for JoinCode {}

impl vstd::std_specs::cmp::PartialEqSpecImpl for JoinCode {
    open spec fn obeys_eq_spec() -> bool {
        true
    }

    open spec fn eq_spec(&self, other: &Self) -> bool {
        self@ == other@
    }
}

impl JoinCode {
    #[verifier::type_invariant]
    spec fn clean(self) -> bool {
        !inappropriate(self.0@)
    }

    /// Create a [`JoinCode`] from a string. If it contains an inappropriate word
    /// (per the profanity filter), it is rejected and `None` is returned.
    pub fn from_string(inp: &str) -> (r: Option<JoinCode>)
        ensures
            r is Some <==> !inappropriate(inp@),
            r matches Some(code) ==> code@ == inp@,
    {
        if is_inappropriate(inp) {
            None
        } else {
            Some(JoinCode(inp.to_owned()))
        }
    }

    /// One draw of a join code of `len` legible characters; `None` only when
    /// the profanity filter rejected the drawn text.
    pub fn try_from_rng(rng: &mut ChaCha12Rng, len: usize) -> (r: Option<JoinCode>)
        ensures
            r matches Some(code) ==> code@.len() == len && is_legible(code@) && !inappropriate(code@),
            r is None ==> exists|drawn: Seq<char>|
                #![trigger inappropriate(drawn)]
                drawn.len() == len && is_legible(drawn) && inappropriate(drawn),
    {
        let s = generate_legible_string(rng, len);
        JoinCode::from_string(s.as_str())
    }

    /// The code as text; the profanity filter accepts every join code.
    pub fn to_string(&self) -> (r: String)
        ensures
            r@ == self@,
            !inappropriate(self@),
    {
        proof {
            use_type_invariant(self);
        }
        self.0.clone()
    }
}

} // verus!
