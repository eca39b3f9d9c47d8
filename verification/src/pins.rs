//! Recognizing the broadcaster's own status message among a channel's pinned
//! messages.
//!
//! A pinned message is adoptable when the bot authored it and its content
//! carries the status signature, the fixed marker substring that opens every
//! rendered status block.  When several pins qualify, the first in the
//! listing order handed in is adopted; the rest are left to be unpinned on
//! the next resend pass.

use vstd::prelude::*;
use vstd::string::StrSliceExecFns;

verus! {

/// One pinned message, reduced to what the scan reads.
pub struct PinnedMessage {
    /// Remote message identifier.
    pub id: u64,
    /// Whether this process's own bot user authored the message.
    pub from_bot: bool,
    /// The message text.
    pub content: String,
}

/// The marker substring that identifies the broadcaster's status message.
pub open spec fn spec_signature() -> Seq<char> {
    "System Status"@
}

/// The marker substring that identifies the broadcaster's status message.
pub fn status_signature() -> (r: &'static str)
    ensures
        r@ == spec_signature(),
{
    "System Status"
}

/// `needle` occurs in `hay` starting at position `i`.
pub open spec fn matches_at(hay: Seq<char>, needle: Seq<char>, i: int) -> bool {
    0 <= i && i + needle.len() <= hay.len() && hay.subrange(i, i + needle.len()) == needle
}

/// `needle` occurs somewhere in `hay`.
pub open spec fn contains_seq(hay: Seq<char>, needle: Seq<char>) -> bool {
    exists|i: int| matches_at(hay, needle, i)
}

fn match_at(hay: &str, needle: &str, i: usize) -> (r: bool)
    requires
        i + needle@.len() <= hay@.len(),
    ensures
        r == matches_at(hay@, needle@, i as int),
{
    let hl = hay.unicode_len();
    let nl = needle.unicode_len();
    let mut k: usize = 0;
    while k < nl
        invariant
            k <= nl,
            nl == needle@.len(),
            hl == hay@.len(),
            i + nl <= hl,
            forall|t: int| 0 <= t < k ==> hay@[i + t] == #[trigger] needle@[t],
        decreases nl - k,
    {
        if hay.get_char(i + k) != needle.get_char(k) {
            proof {
                assert(hay@.subrange(i as int, i as int + needle@.len() as int)[k as int] == hay@[i
                    + k]);
            }
            return false;
        }
        k = k + 1;
    }
    proof {
        assert(hay@.subrange(i as int, i as int + needle@.len() as int) =~= needle@);
    }
    true
}

/// Whether `hay` contains `needle` as a substring.
pub fn contains_str(hay: &str, needle: &str) -> (r: bool)
    ensures
        r == contains_seq(hay@, needle@),
{
    let hl = hay.unicode_len();
    let nl = needle.unicode_len();
    if nl > hl {
        return false;
    }
    if nl == 0 {
        proof {
            assert(hay@.subrange(0, 0) =~= needle@);
            assert(matches_at(hay@, needle@, 0));
        }
        return true;
    }
    let mut i: usize = 0;
    while i <= hl - nl
        invariant
            hl == hay@.len(),
            nl == needle@.len(),
            0 < nl <= hl,
            i <= hl - nl + 1,
            forall|j: int| 0 <= j < i ==> !matches_at(hay@, needle@, j),
        decreases hl - nl + 1 - i,
    {
        if match_at(hay, needle, i) {
            return true;
        }
        i = i + 1;
    }
    false
}

/// Whether this content carries the status signature.
pub fn content_has_signature(content: &str) -> (r: bool)
    ensures
        r == contains_seq(content@, spec_signature()),
{
    contains_str(content, status_signature())
}

/// An adoptable pin: authored by the bot and carrying the signature.
pub open spec fn is_candidate(m: PinnedMessage) -> bool {
    m.from_bot && contains_seq(m.content@, spec_signature())
}

/// Scans the pin listing for the first adoptable status message.
///
/// Returns the identifier of the first pin, in listing order, that the bot
/// authored and that carries the signature; `None` when no pin qualifies.
pub fn find_status_candidate(pins: &Vec<PinnedMessage>) -> (r: Option<u64>)
    ensures
        r is Some <==> exists|i: int|
            0 <= i < pins@.len() && is_candidate(#[trigger] pins@[i]),
        r matches Some(id) ==> exists|i: int|
            {
                &&& 0 <= i < pins@.len()
                &&& is_candidate(#[trigger] pins@[i])
                &&& pins@[i].id == id
                &&& forall|j: int| 0 <= j < i ==> !is_candidate(#[trigger] pins@[j])
            },
{
    let n = pins.len();
    let mut i: usize = 0;
    while i < n
        invariant
            i <= n,
            n == pins@.len(),
            forall|j: int| 0 <= j < i ==> !is_candidate(#[trigger] pins@[j]),
        decreases n - i,
    {
        let m = &pins[i];
        if m.from_bot && content_has_signature(m.content.as_str()) {
            return Some(m.id);
        }
        i = i + 1;
    }
    None
}

/// The identifiers of the adoptable pins, in listing order.
pub open spec fn unpin_ids(s: Seq<PinnedMessage>) -> Seq<u64>
    decreases s.len(),
{
    if s.len() == 0 {
        Seq::empty()
    } else {
        unpin_ids(s.drop_last()) + (if is_candidate(s.last()) {
            seq![s.last().id]
        } else {
            Seq::empty()
        })
    }
}

/// Lists the stale status pins to remove before a resend: every pin the bot
/// authored that still carries the signature, in listing order.
pub fn pins_to_unpin(pins: &Vec<PinnedMessage>) -> (r: Vec<u64>)
    ensures
        r@ == unpin_ids(pins@),
{
    let n = pins.len();
    let mut out: Vec<u64> = Vec::new();
    let mut i: usize = 0;
    while i < n
        invariant
            i <= n,
            n == pins@.len(),
            out@ == unpin_ids(pins@.take(i as int)),
        decreases n - i,
    {
        let m = &pins[i];
        if m.from_bot && content_has_signature(m.content.as_str()) {
            out.push(m.id);
        }
        proof {
            assert(pins@.take(i as int + 1).drop_last() =~= pins@.take(i as int));
            assert(pins@.take(i as int + 1).last() == pins@[i as int]);
            assert(out@ =~= unpin_ids(pins@.take(i as int + 1)));
        }
        i = i + 1;
    }
    proof {
        assert(pins@.take(n as int) =~= pins@);
    }
    out
}

} // verus!
