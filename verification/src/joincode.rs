//! Fixed-width join codes for games and teams.
//!
//! Each player uses a join code to enter a game, and each player forming a team
//! distributes a join code to the players on their team to join their team.

use crate::censor::{inappropriate, is_inappropriate};
use crate::rng::{is_ascii_alphanumeric, random_alphanumeric};
use crate::utf8::str_from_utf8;
use rand_chacha::ChaCha12Rng;
use vstd::prelude::*;
use vstd::utf8::{
    decode_utf8, encode_utf8, encode_utf8_decode_utf8, encode_utf8_valid_utf8, is_ascii_chars,
    is_ascii_chars_encode_utf8, valid_utf8,
};

verus! {

/// The buffer is text of exactly `n` bytes that the profanity filter accepts.
pub open spec fn acceptable_code(buf: Seq<u8>, n: nat) -> bool {
    &&& valid_utf8(buf)
    &&& !inappropriate(decode_utf8(buf))
    &&& buf.len() == n
}

/// Every byte is an ASCII letter or digit.
pub open spec fn all_alphanumeric(bytes: Seq<u8>) -> bool {
    forall|k: int| 0 <= k < bytes.len() ==> #[trigger] is_ascii_alphanumeric(bytes[k])
}

/// ASCII letters and digits are valid UTF-8.
proof fn lemma_alphanumeric_is_utf8(bytes: Seq<u8>)
    requires
        all_alphanumeric(bytes),
    ensures
        valid_utf8(bytes),
{
    let chars = Seq::new(bytes.len(), |i: int| bytes[i] as char);
    assert(is_ascii_chars(chars)) by {
        assert forall|i: int| 0 <= i < chars.len() implies '\0' <= #[trigger] chars[i] <= '\u{7f}' by {
            assert(is_ascii_alphanumeric(bytes[i]));
        }
    }
    is_ascii_chars_encode_utf8(chars);
    assert(encode_utf8(chars) =~= bytes) by {
        assert forall|i: int| 0 <= i < bytes.len() implies #[trigger] encode_utf8(chars)[i] == bytes[i] by {
            assert(chars[i] as u8 == encode_utf8(chars)[i]);
            assert(is_ascii_alphanumeric(bytes[i]));
        }
    }
    encode_utf8_valid_utf8(chars);
}

/// A join code of `N` bytes.
#[derive(Debug, Clone, Copy)]
pub struct JoinCode<const N: usize>([u8; N]);

impl<const N: usize> View for JoinCode<N> {
    type V = Seq<u8>;

    closed spec fn view(&self) -> Seq<u8> {
        self.0@
    }
}

impl<const N: usize> JoinCode<N> {
    #[verifier::type_invariant]
    spec fn well_formed(self) -> bool {
        acceptable_code(self.0@, N as nat)
    }

    /// The code's bytes; every join code holds acceptable text of `N` bytes.
    pub fn bytes(&self) -> (r: [u8; N])
        ensures
            r@ == self@,
            acceptable_code(self@, N as nat),
    {
        proof {
            use_type_invariant(self);
        }
        self.0
    }

    /// Create a [`JoinCode`] from a u8 buffer. If the buf is the wrong length,
    /// is not UTF-8, or contains an inappropriate word (per the profanity filter),
    /// the buffer is rejected and `None` is returned.
    pub fn from_buf(buf: &[u8]) -> (r: Option<Self>)
        ensures
            r is Some <==> acceptable_code(buf@, N as nat),
            r matches Some(code) ==> code@ == buf@,
    {
        let text = match str_from_utf8(buf) {
            Some(t) => t,
            None => return None,
        };
        proof {
            encode_utf8_decode_utf8(text@);
        }
        if is_inappropriate(text) {
            return None;
        }
        if buf.len() != N {
            return None;
        }
        let mut arr = [0u8; N];
        let mut i: usize = 0;
        while i < N
            invariant
                buf@.len() == N,
                i <= N,
                forall|k: int| 0 <= k < i ==> arr@[k] == buf@[k],
            decreases N - i,
        {
            arr[i] = buf[i];
            i = i + 1;
        }
        assert(arr@ =~= buf@);
        Some(JoinCode(arr))
    }

    /// One draw of `N` random letters and digits, kept when the profanity filter
    /// accepts them: `None` only when the drawn text was judged inappropriate.
    pub fn try_from_rng(rng: &mut ChaCha12Rng) -> (r: Option<Self>)
        ensures
            r matches Some(code) ==> code@.len() == N && all_alphanumeric(code@) && !inappropriate(
                decode_utf8(code@),
            ),
            r is None ==> exists|drawn: Seq<u8>|
                #![trigger decode_utf8(drawn)]
                drawn.len() == N && all_alphanumeric(drawn) && inappropriate(decode_utf8(drawn)),
    {
        let mut buf = [0u8; N];
        let mut i: usize = 0;
        while i < N
            invariant
                i <= N,
                forall|k: int| 0 <= k < i ==> #[trigger] is_ascii_alphanumeric(buf@[k]),
            decreases N - i,
        {
            buf[i] = random_alphanumeric(rng);
            i = i + 1;
        }
        proof {
            lemma_alphanumeric_is_utf8(buf@);
        }
        let r = Self::from_buf(&buf);
        assert(r is None ==> inappropriate(decode_utf8(buf@)));
        r
    }

    /// The code as text.
    pub fn to_string(&self) -> (r: String)
        ensures
            r@ == decode_utf8(self@),
    {
        proof {
            use_type_invariant(self);
        }
        let text = str_from_utf8(&self.0).unwrap();
        proof {
            encode_utf8_decode_utf8(text@);
        }
        text.to_owned()
    }
}

} // verus!
