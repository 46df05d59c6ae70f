//! Top-level application configuration options.

use crate::text::{chars_of, string_from};
use vstd::prelude::*;

verus! {

/// Application configuration
pub struct BackendConfig {
    /// Username and password for an admin user
    pub admin_user_password: Option<(String, String)>,
    /// Path to the production SQLite database
    pub db_path: Option<String>,
    /// RNG seed
    pub rng_seed: Option<u64>,
}

/// The scheme that a database URL may start with.
pub open spec fn sqlite_scheme() -> Seq<char> {
    seq!['s', 'q', 'l', 'i', 't', 'e', ':', '/', '/']
}

/// `s` with every leading repetition of `prefix` removed, as
/// `str::trim_start_matches` does.
pub open spec fn trim_start_matches(s: Seq<char>, prefix: Seq<char>) -> Seq<char>
    decreases s.len(),
{
    if prefix.len() > 0 && prefix.len() <= s.len() && s.take(prefix.len() as int) == prefix {
        trim_start_matches(s.skip(prefix.len() as int), prefix)
    } else {
        s
    }
}

/// `s` begins with `prefix`.
pub open spec fn starts_with(s: Seq<char>, prefix: Seq<char>) -> bool {
    prefix.len() <= s.len() && s.take(prefix.len() as int) == prefix
}

/// `k` copies of `p`, one after another.
pub open spec fn repeat_seq(p: Seq<char>, k: nat) -> Seq<char>
    decreases k,
{
    if k == 0 {
        Seq::empty()
    } else {
        p + repeat_seq(p, (k - 1) as nat)
    }
}

/// Law: trimming a non-empty prefix removes whole copies of it from the front
/// and leaves text that does not begin with it.
pub proof fn lemma_trim_start_matches_shape(s: Seq<char>, prefix: Seq<char>)
    requires
        prefix.len() > 0,
    ensures
        !starts_with(trim_start_matches(s, prefix), prefix),
        exists|k: nat| s == repeat_seq(prefix, k) + trim_start_matches(s, prefix),
    decreases s.len(),
{
    if starts_with(s, prefix) {
        let rest = s.skip(prefix.len() as int);
        lemma_trim_start_matches_shape(rest, prefix);
        let k = choose|k: nat| rest == repeat_seq(prefix, k) + trim_start_matches(rest, prefix);
        assert(s =~= prefix + rest);
        assert(repeat_seq(prefix, k + 1) == prefix + repeat_seq(prefix, k));
        assert(s =~= repeat_seq(prefix, k + 1) + trim_start_matches(s, prefix));
    } else {
        assert(s =~= repeat_seq(prefix, 0) + s);
    }
}

/// Law: after any number of copies of a non-empty prefix, trimming gives
/// exactly the text that follows them, when that text does not begin with the
/// prefix itself.
pub proof fn lemma_trim_start_matches_repetitions(prefix: Seq<char>, k: nat, t: Seq<char>)
    requires
        prefix.len() > 0,
        !starts_with(t, prefix),
    ensures
        trim_start_matches(repeat_seq(prefix, k) + t, prefix) == t,
    decreases k,
{
    if k == 0 {
        assert(repeat_seq(prefix, 0) + t =~= t);
    } else {
        let s = repeat_seq(prefix, k) + t;
        let rest = repeat_seq(prefix, (k - 1) as nat) + t;
        assert(s =~= prefix + rest);
        assert(s.take(prefix.len() as int) =~= prefix);
        assert(s.skip(prefix.len() as int) =~= rest);
        lemma_trim_start_matches_repetitions(prefix, (k - 1) as nat, t);
    }
}

/// Law: the database path of a `sqlite://` URL is exactly what follows the
/// scheme, as long as that does not itself begin with the scheme; in
/// particular an absolute path keeps its leading `/`.
pub proof fn lemma_sqlite_url_path(path: Seq<char>)
    requires
        !starts_with(path, sqlite_scheme()),
    ensures
        trim_start_matches(sqlite_scheme() + path, sqlite_scheme()) == path,
{
    assert(repeat_seq(sqlite_scheme(), 0) =~= Seq::<char>::empty());
    assert(repeat_seq(sqlite_scheme(), 1) =~= sqlite_scheme() + Seq::<char>::empty());
    assert(repeat_seq(sqlite_scheme(), 1) + path =~= sqlite_scheme() + path);
    lemma_trim_start_matches_repetitions(sqlite_scheme(), 1, path);
}

/// An ASCII digit.
pub open spec fn is_digit(c: char) -> bool {
    '0' <= c <= '9'
}

/// The number that a string of decimal digits denotes.
pub open spec fn digits_value(d: Seq<char>) -> int
    decreases d.len(),
{
    if d.len() == 0 {
        0
    } else {
        digits_value(d.drop_last()) * 10 + (d.last() as int - '0' as int)
    }
}

/// The digits of an unsigned number: the text without one leading `+`.
pub open spec fn unsigned_digits(s: Seq<char>) -> Seq<char> {
    if s.len() > 0 && s[0] == '+' {
        s.skip(1)
    } else {
        s
    }
}

/// Every character is an ASCII digit.
pub open spec fn all_digits(d: Seq<char>) -> bool {
    forall|i: int| 0 <= i < d.len() ==> #[trigger] is_digit(d[i])
}

/// What `str::parse::<u64>` gives: an optional `+`, then at least one digit and
/// nothing else, of a value that fits in 64 bits.
pub open spec fn parse_u64(s: Seq<char>) -> Option<u64> {
    let d = unsigned_digits(s);
    if d.len() > 0 && all_digits(d) && digits_value(d) <= u64::MAX {
        Some(digits_value(d) as u64)
    } else {
        None
    }
}

/// The character of a decimal digit.
pub open spec fn digit_char(d: nat) -> char {
    ('0' as int + d) as char
}

/// The decimal rendering of `n`, without sign or leading zeros (as
/// `u64::to_string` writes it).
pub open spec fn decimal(n: nat) -> Seq<char>
    decreases n,
{
    if n < 10 {
        seq![digit_char(n)]
    } else {
        decimal(n / 10).push(digit_char(n % 10))
    }
}

proof fn lemma_decimal_digits(n: nat)
    ensures
        decimal(n).len() > 0,
        all_digits(decimal(n)),
        digits_value(decimal(n)) == n,
        decimal(n)[0] != '+',
    decreases n,
{
    if n < 10 {
        let d = decimal(n);
        assert(d.drop_last() =~= Seq::<char>::empty());
        assert(digit_char(n) as int == '0' as int + n);
        assert(d.last() == digit_char(n));
        assert(digits_value(d) == digits_value(d.drop_last()) * 10 + (d.last() as int - '0' as int));
        assert(is_digit(d[0]));
    } else {
        lemma_decimal_digits(n / 10);
        let d = decimal(n);
        let front = decimal(n / 10);
        assert(d.drop_last() =~= front);
        assert(d.last() == digit_char(n % 10));
        assert(is_digit(digit_char(n % 10)));
        assert forall|i: int| 0 <= i < d.len() implies #[trigger] is_digit(d[i]) by {
            if i < front.len() {
                assert(d[i] == front[i]);
            }
        }
        assert(d[0] == front[0]);
        assert(digit_char(n % 10) as int == '0' as int + n % 10);
        assert(digits_value(d) == digits_value(front) * 10 + (d.last() as int - '0' as int));
        assert(n == (n / 10) * 10 + n % 10);
    }
}

/// Law: the decimal text of every `u64` parses back to it.
pub proof fn lemma_parse_u64_decimal(n: u64)
    ensures
        parse_u64(decimal(n as nat)) == Some(n),
{
    lemma_decimal_digits(n as nat);
    assert(unsigned_digits(decimal(n as nat)) == decimal(n as nat));
}

/// Law: a `+` before the decimal text of a `u64` is accepted.
pub proof fn lemma_parse_u64_plus_decimal(n: u64)
    ensures
        parse_u64(seq!['+'] + decimal(n as nat)) == Some(n),
{
    lemma_decimal_digits(n as nat);
    let s = seq!['+'] + decimal(n as nat);
    assert(s.skip(1) =~= decimal(n as nat));
    assert(unsigned_digits(s) == decimal(n as nat));
}

/// Law: text holding a character other than a digit, beyond one leading `+`,
/// does not parse.
pub proof fn lemma_parse_u64_rejects_non_digits(s: Seq<char>, i: int)
    requires
        0 <= i < unsigned_digits(s).len(),
        !is_digit(unsigned_digits(s)[i]),
    ensures
        parse_u64(s) is None,
{
}

/// Parses a decimal `u64` as `str::parse::<u64>` does, `None` on any error.
pub fn parse_u64_exec(s: &str) -> (r: Option<u64>)
    ensures
        r == parse_u64(s@),
        forall|n: u64| s@ == decimal(n as nat) ==> r == Some(n),
{
    proof {
        assert forall|n: u64| s@ == decimal(n as nat) implies parse_u64(s@) == Some(n) by {
            lemma_parse_u64_decimal(n);
        }
    }
    let chars = chars_of(s);
    let start: usize = if chars.len() > 0 && chars[0] == '+' {
        1
    } else {
        0
    };
    let ghost d = chars@.skip(start as int);
    assert(d == unsigned_digits(s@));
    if start == chars.len() {
        return None;
    }
    let mut value: u64 = 0;
    let mut i: usize = start;
    while i < chars.len()
        invariant
            start <= i <= chars@.len(),
            d == chars@.skip(start as int),
            d == unsigned_digits(s@),
            forall|n: u64| s@ == decimal(n as nat) ==> parse_u64(s@) == Some(n),
            forall|k: int| 0 <= k < i - start ==> #[trigger] is_digit(d[k]),
            value == digits_value(d.take(i - start)),
        decreases chars@.len() - i,
    {
        let c = chars[i];
        assert(d[i - start] == chars@[i as int]);
        if !('0' <= c && c <= '9') {
            assert(d[i - start] == chars@[i as int]);
            assert(!is_digit(d[i - start]));
            assert(!all_digits(d));
            return None;
        }
        let digit: u64 = (c as u32 - '0' as u32) as u64;
        assert(d.take(i + 1 - start).drop_last() =~= d.take(i - start));
        if value > (u64::MAX - digit) / 10 {
            assert(digits_value(d.take(i + 1 - start)) > u64::MAX) by (nonlinear_arith)
                requires
                    digits_value(d.take(i + 1 - start)) == value * 10 + digit,
                    value > (u64::MAX - digit) / 10,
                    digit <= 9;
            proof {
                if all_digits(d) {
                    lemma_digits_value_prefix_monotone(d, i + 1 - start);
                }
            }
            return None;
        }
        value = value * 10 + digit;
        i = i + 1;
    }
    assert(d.take(i - start) =~= d);
    Some(value)
}

/// The value of digits only grows as digits are appended.
proof fn lemma_digits_value_prefix_monotone(d: Seq<char>, n: int)
    requires
        0 <= n <= d.len(),
        all_digits(d),
    ensures
        digits_value(d.take(n)) <= digits_value(d),
    decreases d.len() - n,
{
    if n < d.len() {
        lemma_digits_value_prefix_monotone(d, n + 1);
        assert(d.take(n + 1).drop_last() =~= d.take(n));
        assert(is_digit(d[n]));
        assert(d.take(n + 1).last() == d[n]);
        assert forall|k: int| 0 <= k < d.take(n).len() implies #[trigger] is_digit(d.take(n)[k]) by {
            assert(is_digit(d[k]));
        }
        lemma_digits_value_nonneg(d.take(n));
    } else {
        assert(d.take(n) =~= d);
    }
}

proof fn lemma_digits_value_nonneg(d: Seq<char>)
    requires
        all_digits(d),
    ensures
        digits_value(d) >= 0,
    decreases d.len(),
{
    if d.len() > 0 {
        lemma_digits_value_nonneg(d.drop_last());
        assert(is_digit(d[d.len() - 1]));
    }
}

/// Removes every leading `sqlite://` from a database URL, leaving the path.
pub fn strip_sqlite_scheme(url: &str) -> (r: String)
    ensures
        r@ == trim_start_matches(url@, sqlite_scheme()),
        exists|k: nat| url@ == repeat_seq(sqlite_scheme(), k) + r@,
        !starts_with(r@, sqlite_scheme()),
{
    let chars = chars_of(url);
    let scheme: [char; 9] = ['s', 'q', 'l', 'i', 't', 'e', ':', '/', '/'];
    assert(scheme@ =~= sqlite_scheme());
    let mut i: usize = 0;
    assert(chars@.skip(0) =~= chars@);
    loop
        invariant
            i <= chars@.len(),
            chars@ == url@,
            scheme@ == sqlite_scheme(),
            trim_start_matches(url@, sqlite_scheme()) == trim_start_matches(
                chars@.skip(i as int),
                sqlite_scheme(),
            ),
        ensures
            i <= chars@.len(),
            trim_start_matches(url@, sqlite_scheme()) == chars@.skip(i as int),
        decreases chars@.len() - i,
    {
        let ghost rest = chars@.skip(i as int);
        if chars.len() - i < 9 {
            break;
        }
        let mut j: usize = 0;
        let mut same = true;
        while j < 9
            invariant
                i + 9 <= chars.len(),
                j <= 9,
                scheme@ == sqlite_scheme(),
                same == (forall|k: int| 0 <= k < j ==> chars@[i + k] == scheme@[k]),
            decreases 9 - j,
        {
            if chars[i + j] != scheme[j] {
                same = false;
            }
            j = j + 1;
        }
        if !same {
            assert(rest.take(9) != sqlite_scheme()) by {
                let k = choose|k: int| 0 <= k < 9 && chars@[i + k] != scheme@[k];
                assert(rest.take(9)[k] == chars@[i + k]);
            }
            break;
        }
        assert(rest.take(9) =~= sqlite_scheme());
        assert(rest.skip(9) =~= chars@.skip(i + 9));
        i = i + 9;
    }
    proof {
        lemma_trim_start_matches_shape(url@, sqlite_scheme());
    }
    string_from(&chars, i)
}

impl BackendConfig {
    /// Builds the configuration from the values of `ADMIN_USER`,
    /// `ADMIN_PASSWORD`, `DATABASE_URL` and `RNG_SEED`: the admin credentials
    /// only when both are set, the database path with its `sqlite://` scheme
    /// removed, and the seed when it parses as a `u64`.
    pub fn from_vars(
        admin_user: Option<String>,
        admin_password: Option<String>,
        database_url: Option<String>,
        rng_seed: Option<String>,
    ) -> (r: BackendConfig)
        ensures
            r.admin_user_password is Some <==> (admin_user is Some && admin_password is Some),
            r.admin_user_password matches Some((u, p)) ==> u@ == admin_user->0@ && p@
                == admin_password->0@,
            r.db_path is Some <==> database_url is Some,
            r.db_path matches Some(path) ==> path@ == trim_start_matches(
                database_url->0@,
                sqlite_scheme(),
            ),
            r.rng_seed == (match rng_seed {
                Some(s) => parse_u64(s@),
                None => None,
            }),
    {
        let admin_user_password = match (admin_user, admin_password) {
            (Some(u), Some(p)) => Some((u, p)),
            _ => None,
        };
        let db_path = match database_url {
            Some(url) => Some(strip_sqlite_scheme(url.as_str())),
            None => None,
        };
        let rng_seed = match rng_seed {
            Some(s) => parse_u64_exec(s.as_str()),
            None => None,
        };
        BackendConfig { admin_user_password, db_path, rng_seed }
    }
}

} // verus!
