//! The users allowed to talk to the bot.
use vstd::prelude::*;

use std::collections::HashSet;
use vstd::string::StringSliceAdditionalSpecFns;

verus! {

broadcast use vstd::std_specs::hash::group_hash_axioms;

/// Whether `b` is ASCII white space.
pub open spec fn is_space(b: u8) -> bool {
    b == 32 || (9 <= b && b <= 13)
}

/// `s` without its leading white space.
pub open spec fn trim_start(s: Seq<u8>) -> Seq<u8>
    decreases s.len(),
{
    if s.len() > 0 && is_space(s[0]) {
        trim_start(s.drop_first())
    } else {
        s
    }
}

/// `s` without its trailing white space.
pub open spec fn trim_end(s: Seq<u8>) -> Seq<u8>
    decreases s.len(),
{
    if s.len() > 0 && is_space(s.last()) {
        trim_end(s.drop_last())
    } else {
        s
    }
}

/// The number that the decimal digits `s` write.
pub open spec fn digits_value(s: Seq<u8>) -> int
    decreases s.len(),
{
    if s.len() == 0 {
        0
    } else {
        digits_value(s.drop_last()) * 10 + (s.last() - 48)
    }
}

/// Whether `s` is one or more decimal digits.
pub open spec fn all_digits(s: Seq<u8>) -> bool {
    s.len() > 0 && forall|i: int| 0 <= i < s.len() ==> 48 <= #[trigger] s[i] <= 57
}

/// The user id that a line of a whitelist file holds: decimal digits,
/// maybe after a `+`, with white space around; none when the line holds
/// anything else or a number too large for 64 bits.
pub open spec fn line_id(line: Seq<u8>) -> Option<u64> {
    let t = trim_end(trim_start(line));
    let d = if t.len() > 0 && t[0] == 43 { t.drop_first() } else { t };
    if all_digits(d) && digits_value(d) <= u64::MAX {
        Some(digits_value(d) as u64)
    } else {
        None
    }
}

/// Reads the user id on a line of a whitelist file.
pub fn parse_user_id(line: &str) -> (r: Option<u64>)
    ensures
        r == line_id(line.spec_bytes()),
{
    let bytes = line.as_bytes();
    let ghost s = bytes@;
    let mut start: usize = 0;
    assert(s.subrange(0, s.len() as int) =~= s);
    while start < bytes.len() && (bytes[start] == 32 || (9 <= bytes[start] && bytes[start] <= 13))
        invariant
            bytes@ == s,
            start <= s.len(),
            trim_start(s) == trim_start(s.subrange(start as int, s.len() as int)),
        decreases s.len() - start,
    {
        let ghost rest = s.subrange(start as int, s.len() as int);
        assert(rest[0] == s[start as int]);
        assert(rest.drop_first() =~= s.subrange(start + 1, s.len() as int));
        start = start + 1;
    }
    let ghost ts = s.subrange(start as int, s.len() as int);
    assert(trim_start(s) == ts);
    let mut end: usize = bytes.len();
    while end > start && (bytes[end - 1] == 32 || (9 <= bytes[end - 1] && bytes[end - 1] <= 13))
        invariant
            bytes@ == s,
            start <= end <= s.len(),
            ts == s.subrange(start as int, s.len() as int),
            trim_end(ts) == trim_end(s.subrange(start as int, end as int)),
        decreases end,
    {
        let ghost cur = s.subrange(start as int, end as int);
        assert(cur.last() == s[end - 1]);
        assert(cur.drop_last() =~= s.subrange(start as int, end - 1));
        end = end - 1;
    }
    let ghost t = s.subrange(start as int, end as int);
    assert(trim_end(ts) == t);
    let mut i: usize = start;
    if i < end && bytes[i] == 43 {
        i = i + 1;
    }
    let ghost d = s.subrange(i as int, end as int);
    assert(d =~= (if t.len() > 0 && t[0] == 43 { t.drop_first() } else { t }));
    assert(line_id(s) == (if all_digits(d) && digits_value(d) <= u64::MAX { Some(digits_value(d) as u64) } else { None }));
    if i == end {
        return None;
    }
    let mut value: u64 = 0;
    let mut j: usize = i;
    assert(s.subrange(i as int, i as int) =~= Seq::<u8>::empty());
    while j < end
        invariant
            bytes@ == s,
            i <= j <= end <= s.len(),
            d == s.subrange(i as int, end as int),
            line_id(line.spec_bytes()) == (if all_digits(d) && digits_value(d) <= u64::MAX {
                Some(digits_value(d) as u64)
            } else {
                None
            }),
            forall|k: int| 0 <= k < j - i ==> 48 <= #[trigger] d[k] <= 57,
            value == digits_value(d.subrange(0, j - i)),
        decreases end - j,
    {
        let b = bytes[j];
        assert(d[j - i] == b);
        assert(d.subrange(0, j - i + 1).drop_last() =~= d.subrange(0, j - i));
        if b < 48 || b > 57 {
            assert(!all_digits(d)) by {
                if all_digits(d) {
                    assert(48 <= d[j - i] <= 57);
                }
            }
            return None;
        }
        let digit = (b - 48) as u64;
        if value > (u64::MAX - digit) / 10 {
            proof {
                assert(value * 10 + digit > u64::MAX) by (nonlinear_arith)
                    requires value > (u64::MAX - digit) / 10, digit <= 9;
                assert(d.subrange(0, j - i + 1).last() == b);
                assert(digits_value(d.subrange(0, j - i + 1)) == value * 10 + digit);
                lemma_digits_grow(d, (j - i + 1) as int);
            }
            return None;
        }
        assert(value * 10 + digit <= u64::MAX) by (nonlinear_arith)
            requires value <= (u64::MAX - digit) / 10, digit <= 9;
        value = value * 10 + digit;
        j = j + 1;
    }
    assert(d.subrange(0, d.len() as int) =~= d);
    Some(value)
}

/// The value of a prefix of digits never exceeds that of the whole.
proof fn lemma_digits_grow(d: Seq<u8>, k: int)
    requires
        0 <= k <= d.len(),
        forall|i: int| 0 <= i < k ==> 48 <= #[trigger] d[i] <= 57,
    ensures
        all_digits(d) ==> digits_value(d.subrange(0, k)) <= digits_value(d),
    decreases d.len() - k,
{
    if k < d.len() && all_digits(d) {
        lemma_digits_grow(d, k + 1);
        assert(d.subrange(0, k + 1).drop_last() =~= d.subrange(0, k));
        assert(digits_value(d.subrange(0, k)) >= 0) by {
            lemma_digits_nonneg(d.subrange(0, k));
        }
    } else if k == d.len() {
        assert(d.subrange(0, k) =~= d);
    }
}

proof fn lemma_digits_nonneg(d: Seq<u8>)
    requires
        forall|i: int| 0 <= i < d.len() ==> 48 <= #[trigger] d[i] <= 57,
    ensures
        digits_value(d) >= 0,
    decreases d.len(),
{
    if d.len() > 0 {
        lemma_digits_nonneg(d.drop_last());
    }
}

/// The users allowed to talk to the bot; when none is listed, everyone is.
pub struct Whitelist {
    allowed_ids: HashSet<u64>,
}

impl View for Whitelist {
    type V = Set<u64>;

    closed spec fn view(&self) -> Set<u64> {
        self.allowed_ids@
    }
}

impl Whitelist {
    /// A whitelist that lists nobody, so allows everyone.
    pub fn new() -> (r: Self)
        ensures
            r@ == Set::<u64>::empty(),
    {
        Whitelist { allowed_ids: HashSet::new() }
    }

    /// Lists `user_id`.
    pub fn allow(&mut self, user_id: u64)
        ensures
            final(self)@ == old(self)@.insert(user_id),
    {
        self.allowed_ids.insert(user_id);
    }

    /// The whitelist of the ids on the lines of a whitelist file; lines that
    /// hold no id are skipped.
    pub fn from_lines(lines: &Vec<&str>) -> (r: Self)
        ensures
            forall|id: u64| r@.contains(id) <==> exists|i: int|
                0 <= i < lines@.len() && line_id((#[trigger] lines@[i]).spec_bytes()) == Some(id),
    {
        let mut list = Whitelist::new();
        let mut i: usize = 0;
        while i < lines.len()
            invariant
                i <= lines@.len(),
                forall|id: u64| list@.contains(id) <==> exists|k: int|
                    0 <= k < i && line_id((#[trigger] lines@[k]).spec_bytes()) == Some(id),
            decreases lines@.len() - i,
        {
            match parse_user_id(lines[i]) {
                Some(id) => list.allow(id),
                None => {},
            }
            proof {
                assert forall|id: u64| list@.contains(id) <==> exists|k: int|
                    0 <= k < i + 1 && line_id((#[trigger] lines@[k]).spec_bytes()) == Some(id) by {
                    if line_id(lines@[i as int].spec_bytes()) == Some(id) {
                        assert(0 <= i < i + 1);
                    }
                }
            }
            i = i + 1;
        }
        list
    }

    /// Whether `user_id` may talk to the bot.
    pub fn check_allowed(&self, user_id: &u64) -> (r: bool)
        ensures
            r == (self@.is_empty() || self@.contains(*user_id)),
    {
        if self.allowed_ids.is_empty() {
            true
        } else {
            self.allowed_ids.contains(user_id)
        }
    }
}

} // verus!
