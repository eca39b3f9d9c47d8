//! The persisted status-message record: a single decimal token in a text
//! file.  The library defines the token codec; reading and writing the file
//! itself happens outside.
//!
//! A record is readable exactly when the file's content, with surrounding
//! ASCII whitespace removed, is a non-empty digit string whose value fits in
//! a `u64`.  Anything else counts as "no record", never as an error.

use vstd::prelude::*;
use vstd::string::StrSliceExecFns;
use crate::decimal::{all_digits, dec_rep, dec_val, digit_char, digit_val, parse_u64, u64_dec};
use vstd::arithmetic::div_mod::lemma_fundamental_div_mod;

verus! {

/// True of the ASCII whitespace characters tolerated around the token.
pub open spec fn is_space(c: char) -> bool {
    c == ' ' || c == '\t' || c == '\n' || c == '\r'
}

/// `s` with leading whitespace removed.
pub open spec fn trim_front(s: Seq<char>) -> Seq<char>
    decreases s.len(),
{
    if s.len() > 0 && is_space(s[0]) {
        trim_front(s.drop_first())
    } else {
        s
    }
}

/// `s` with trailing whitespace removed.
pub open spec fn trim_back(s: Seq<char>) -> Seq<char>
    decreases s.len(),
{
    if s.len() > 0 && is_space(s.last()) {
        trim_back(s.drop_last())
    } else {
        s
    }
}

/// `s` with whitespace removed from both ends.
pub open spec fn trimmed(s: Seq<char>) -> Seq<char> {
    trim_back(trim_front(s))
}

fn is_space_char(c: char) -> (r: bool)
    ensures
        r == is_space(c),
{
    c == ' ' || c == '\t' || c == '\n' || c == '\r'
}

proof fn lemma_trim_front_at(s: Seq<char>, a: int)
    requires
        0 <= a <= s.len(),
        forall|i: int| 0 <= i < a ==> is_space(#[trigger] s[i]),
        a < s.len() ==> !is_space(s[a]),
    ensures
        trim_front(s) == s.subrange(a, s.len() as int),
    decreases a,
{
    if a == 0 {
        assert(s.subrange(0, s.len() as int) =~= s);
    } else {
        lemma_trim_front_at(s.drop_first(), a - 1);
        assert(s.drop_first().subrange(a - 1, s.drop_first().len() as int) =~= s.subrange(
            a,
            s.len() as int,
        ));
    }
}

proof fn lemma_trim_back_at(s: Seq<char>, b: int)
    requires
        0 <= b <= s.len(),
        forall|i: int| b <= i < s.len() ==> is_space(#[trigger] s[i]),
        b > 0 ==> !is_space(s[b - 1]),
    ensures
        trim_back(s) == s.take(b),
    decreases s.len() - b,
{
    if b == s.len() {
        assert(s.take(b) =~= s);
    } else {
        lemma_trim_back_at(s.drop_last(), b);
        assert(s.drop_last().take(b) =~= s.take(b));
    }
}

/// Reads the persisted record token out of a file's content.
///
/// Returns the identifier exactly when the trimmed content is a non-empty
/// digit string whose value fits; otherwise there is no record.
pub fn parse_message_id(content: &str) -> (r: Option<u64>)
    ensures
        r is Some <==> trimmed(content@).len() > 0 && all_digits(trimmed(content@)) && dec_val(
            trimmed(content@),
        ) <= u64::MAX,
        r matches Some(v) ==> v == dec_val(trimmed(content@)),
{
    let len = content.unicode_len();
    let mut a: usize = 0;
    while a < len && is_space_char(content.get_char(a))
        invariant
            a <= len,
            len == content@.len(),
            forall|i: int| 0 <= i < a ==> is_space(#[trigger] content@[i]),
        decreases len - a,
    {
        a = a + 1;
    }
    proof {
        lemma_trim_front_at(content@, a as int);
    }
    if a == len {
        proof {
            assert(trimmed(content@).len() == 0);
        }
        return None;
    }
    let mut b: usize = len;
    while b > a && is_space_char(content.get_char(b - 1))
        invariant
            a <= b <= len,
            len == content@.len(),
            forall|i: int| b <= i < len ==> is_space(#[trigger] content@[i]),
        decreases b,
    {
        b = b - 1;
    }
    proof {
        assert(b > a) by {
            if b == a {
                assert(is_space(content@[a as int]));
            }
        }
        let t = content@.subrange(a as int, len as int);
        lemma_trim_back_at(t, b as int - a as int);
        assert(t.take(b as int - a as int) =~= content@.subrange(a as int, b as int));
    }
    let token = content.substring_char(a, b);
    parse_u64(token)
}

/// Renders the record token for an identifier: its plain decimal digits.
pub fn message_id_text(id: u64) -> (r: String)
    ensures
        r@ == dec_rep(id as nat),
{
    u64_dec(id)
}

proof fn lemma_dec_rep_digits(n: nat)
    ensures
        dec_rep(n).len() > 0,
        all_digits(dec_rep(n)),
    decreases n,
{
    if n >= 10 {
        lemma_dec_rep_digits(n / 10);
    }
}

proof fn lemma_digit_round(d: nat)
    requires
        d < 10,
    ensures
        digit_val(digit_char(d)) == d,
{
}

proof fn lemma_dec_rep_val(n: nat)
    ensures
        dec_val(dec_rep(n)) == n,
    decreases n,
{
    reveal_with_fuel(dec_val, 2);
    if n < 10 {
        lemma_digit_round(n);
        assert(dec_rep(n).drop_last() =~= Seq::<char>::empty());
        assert(dec_rep(n).last() == digit_char(n));
    } else {
        lemma_dec_rep_val(n / 10);
        lemma_digit_round(n % 10);
        assert(dec_rep(n).drop_last() =~= dec_rep(n / 10));
        assert(dec_rep(n).last() == digit_char(n % 10));
        lemma_fundamental_div_mod(n as int, 10);
    }
}

/// Law: the store's codec round-trips.  A file holding the token written for
/// `id` satisfies exactly the conditions under which `parse_message_id`
/// succeeds, and the value read back is `id` itself.
pub proof fn lemma_record_round_trip(id: u64)
    ensures
        trimmed(dec_rep(id as nat)) == dec_rep(id as nat),
        dec_rep(id as nat).len() > 0,
        all_digits(dec_rep(id as nat)),
        dec_val(dec_rep(id as nat)) == id,
{
    lemma_dec_rep_digits(id as nat);
    lemma_dec_rep_val(id as nat);
    let s = dec_rep(id as nat);
    assert(!is_space(s[0]));
    assert(trim_front(s) == s);
    assert(!is_space(s.last()));
    assert(trim_back(s) == s);
}

} // verus!
