//! Chain heights: a revision number and a block height within that revision.

use vstd::prelude::*;
use vstd::string::*;
use crate::text::{
    decimal_text, decimal_u64, format_u64, is_digit, lemma_decimal_round_trip,
    lemma_decimal_text_value, parse_u64,
};

verus! {

/// A height on a chain: `(revision_number, revision_height)`.
///
/// The revision number changes only when the chain is upgraded or forked, so
/// heights are ordered by revision first and by block height second. The
/// all-zero height is a sentinel that stands for "the latest height".
#[derive(Clone, Copy, Debug, PartialEq, Eq, Structural, Hash)]
pub struct Height {
    pub revision_number: u64,
    pub revision_height: u64,
}

/// The position of the first `-` in `s`, or the length of `s` if it has none.
pub open spec fn first_dash(s: Seq<char>) -> int
    decreases s.len(),
{
    if s.len() == 0 {
        0
    } else if s[0] == '-' {
        0
    } else {
        1 + first_dash(s.drop_first())
    }
}

/// The text form of a height: both numbers in decimal, joined by a `-`.
pub open spec fn height_text(h: Height) -> Seq<char> {
    decimal_text(h.revision_number as nat) + seq!['-'] + decimal_text(h.revision_height as nat)
}

/// The height that a text denotes: a decimal revision number, one `-`, and
/// a decimal block height, each within 64 bits. `None` for any other text.
pub open spec fn height_of_text(s: Seq<char>) -> Option<Height> {
    let i = first_dash(s);
    if i < s.len() {
        match (decimal_u64(s.subrange(0, i)), decimal_u64(s.subrange(i + 1, s.len() as int))) {
            (Some(revision_number), Some(revision_height)) => Some(
                Height { revision_number, revision_height },
            ),
            _ => None,
        }
    } else {
        None
    }
}

/// `first_dash` points at a `-` or at the end, and no `-` stands before it.
pub proof fn lemma_first_dash(s: Seq<char>)
    ensures
        0 <= first_dash(s) <= s.len(),
        first_dash(s) < s.len() ==> s[first_dash(s)] == '-',
        forall|j: int| 0 <= j < first_dash(s) ==> s[j] != '-',
    decreases s.len(),
{
    if s.len() > 0 && s[0] != '-' {
        let t = s.drop_first();
        lemma_first_dash(t);
        assert forall|j: int| 0 <= j < first_dash(s) implies s[j] != '-' by {
            if j > 0 {
                assert(s[j] == t[j - 1]);
            }
        }
    }
}

/// Where `s` holds a `-` at `i` and none before, `first_dash(s)` is `i`.
pub proof fn lemma_first_dash_is(s: Seq<char>, i: int)
    requires
        0 <= i < s.len(),
        s[i] == '-',
        forall|j: int| 0 <= j < i ==> s[j] != '-',
    ensures
        first_dash(s) == i,
{
    lemma_first_dash(s);
    let f = first_dash(s);
    if f < i {
        assert(s[f] == '-');
    }
}

impl Height {
    /// Builds a height from its two components.
    pub fn new(revision_number: u64, revision_height: u64) -> (h: Height)
        ensures
            h == (Height { revision_number, revision_height }),
    {
        Height { revision_number, revision_height }
    }

    /// The sentinel height, which stands for "the latest height".
    pub fn zero() -> (h: Height)
        ensures
            h == (Height { revision_number: 0, revision_height: 0 }),
            h.is_zero_spec(),
    {
        Height { revision_number: 0, revision_height: 0 }
    }

    /// Whether this is the sentinel height.
    pub open spec fn is_zero_spec(self) -> bool {
        self.revision_number == 0 && self.revision_height == 0
    }

    /// Whether `self` comes strictly before `other`: by revision first, by
    /// block height within one revision.
    pub open spec fn lt_spec(self, other: Height) -> bool {
        self.revision_number < other.revision_number || (self.revision_number
            == other.revision_number && self.revision_height < other.revision_height)
    }

    /// Whether `self` comes before `other` or equals it.
    pub open spec fn le_spec(self, other: Height) -> bool {
        self.lt_spec(other) || self == other
    }

    /// Whether this is the sentinel height.
    #[verifier::when_used_as_spec(is_zero_spec)]
    pub fn is_zero(self) -> (r: bool)
        ensures
            r == self.is_zero_spec(),
    {
        self.revision_number == 0 && self.revision_height == 0
    }

    /// Whether `self` comes strictly before `other`.
    #[verifier::when_used_as_spec(lt_spec)]
    pub fn lt(self, other: Height) -> (r: bool)
        ensures
            r == self.lt_spec(other),
    {
        self.revision_number < other.revision_number || (self.revision_number
            == other.revision_number && self.revision_height < other.revision_height)
    }

    /// Whether `self` comes before `other` or equals it.
    #[verifier::when_used_as_spec(le_spec)]
    pub fn le(self, other: Height) -> (r: bool)
        ensures
            r == self.le_spec(other),
    {
        self.lt(other) || (self.revision_number == other.revision_number && self.revision_height
            == other.revision_height)
    }

    /// The later of two heights.
    pub fn later(self, other: Height) -> (h: Height)
        ensures
            h == (if self.lt_spec(other) {
                other
            } else {
                self
            }),
    {
        if self.lt(other) {
            other
        } else {
            self
        }
    }

    /// The height `delta` blocks further on in the same revision, or `None`
    /// where the block height would leave 64 bits.
    pub fn checked_add(self, delta: u64) -> (r: Option<Height>)
        ensures
            r == (if self.revision_height + delta <= u64::MAX {
                Some(
                    Height {
                        revision_number: self.revision_number,
                        revision_height: (self.revision_height + delta) as u64,
                    },
                )
            } else {
                None
            }),
    {
        if delta <= u64::MAX - self.revision_height {
            Some(
                Height {
                    revision_number: self.revision_number,
                    revision_height: self.revision_height + delta,
                },
            )
        } else {
            None
        }
    }

    /// Writes the height as text: `revision-height`, both in decimal.
    pub fn encode(self) -> (text: String)
        ensures
            text@ == height_text(self),
    {
        let mut text = format_u64(self.revision_number);
        proof {
            reveal_strlit("-");
        }
        text.append("-");
        let tail = format_u64(self.revision_height);
        text.append(tail.as_str());
        assert(text@ =~= height_text(self));
        text
    }

    /// Reads a height from its text form. Succeeds exactly on the texts that
    /// `height_of_text` accepts.
    pub fn decode(text: &str) -> (r: Option<Height>)
        ensures
            r == height_of_text(text@),
    {
        let len = text.unicode_len();
        let mut i: usize = 0;
        let mut found = false;
        for c in it: text.chars()
            invariant
                it.seq() == text@,
                len == text@.len(),
                !found ==> i == it.index(),
                found ==> i < len && text@[i as int] == '-',
                forall|j: int| 0 <= j < i ==> text@[j] != '-',
        {
            if !found {
                if c == '-' {
                    found = true;
                } else {
                    i = i + 1;
                }
            }
        }
        proof {
            lemma_first_dash(text@);
            if found {
                lemma_first_dash_is(text@, i as int);
            } else {
                assert(i == len);
                if first_dash(text@) < len {
                    assert(text@[first_dash(text@)] == '-');
                }
            }
        }
        if !found {
            return None;
        }
        let head = text.substring_char(0, i);
        let tail = text.substring_char(i + 1, len);
        match (parse_u64(head), parse_u64(tail)) {
            (Some(revision_number), Some(revision_height)) => Some(
                Height { revision_number, revision_height },
            ),
            _ => None,
        }
    }
}

/// The order of heights is strict: no height comes before itself, and of two
/// different heights exactly one comes before the other.
pub proof fn lemma_height_order_total(a: Height, b: Height)
    ensures
        !a.lt_spec(a),
        a.lt_spec(b) || b.lt_spec(a) || a == b,
        !(a.lt_spec(b) && b.lt_spec(a)),
{
}

/// The order of heights is transitive.
pub proof fn lemma_height_order_transitive(a: Height, b: Height, c: Height)
    requires
        a.lt_spec(b),
        b.lt_spec(c),
    ensures
        a.lt_spec(c),
{
}

/// Reading back the text of a height gives the height again: nothing is lost
/// between `encode` and `decode`.
pub proof fn lemma_height_round_trip(h: Height)
    ensures
        height_of_text(height_text(h)) == Some(h),
{
    let a = decimal_text(h.revision_number as nat);
    let b = decimal_text(h.revision_height as nat);
    let s = height_text(h);
    lemma_decimal_text_value(h.revision_number as nat);
    lemma_decimal_text_value(h.revision_height as nat);
    assert forall|j: int| 0 <= j < a.len() implies s[j] != '-' by {
        assert(s[j] == a[j]);
        assert(is_digit(a[j]));
    }
    assert(s[a.len() as int] == '-');
    lemma_first_dash_is(s, a.len() as int);
    assert(s.subrange(0, a.len() as int) =~= a);
    assert(s.subrange(a.len() as int + 1, s.len() as int) =~= b);
    lemma_decimal_round_trip(h.revision_number);
    lemma_decimal_round_trip(h.revision_height);
}

} // verus!
