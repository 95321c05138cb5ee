//! Freshness arithmetic: reading `max-age` out of a `Cache-Control` header
//! and turning a fetch time into an absolute expiry.

use vstd::prelude::*;

verus! {

use vstd::string::StringSliceAdditionalSpecFns;
use vstd::string::StrSliceExecFns;

/// The bytes of `max-age=`, the directive this crate honours.
pub open spec fn marker() -> Seq<u8> {
    seq![109u8, 97u8, 120u8, 45u8, 97u8, 103u8, 101u8, 61u8]
}

pub open spec fn is_ascii_digit(b: u8) -> bool {
    48 <= b <= 57
}

/// Whether index `i` starts a directive: the header's start, or right
/// after a comma or blank.
pub open spec fn at_boundary(s: Seq<u8>, i: int) -> bool {
    i == 0 || s[i - 1] == 44 || s[i - 1] == 32 || s[i - 1] == 9
}

/// Whether the directive `marker()` occurs in `s` starting at index `i`.
pub open spec fn marker_at(s: Seq<u8>, i: int) -> bool {
    0 <= i && i + 8 <= s.len() && at_boundary(s, i) && s.subrange(i, i + 8) == marker()
}

/// The first occurrence of `marker()` at or after `i`, if any.
pub open spec fn first_marker_from(s: Seq<u8>, i: int) -> Option<int>
    decreases s.len() - i,
{
    if i < 0 || i + 8 > s.len() {
        None
    } else if marker_at(s, i) {
        Some(i)
    } else {
        first_marker_from(s, i + 1)
    }
}

/// How many ASCII digits follow in a row from index `j`.
pub open spec fn digit_run_len(s: Seq<u8>, j: int) -> int
    decreases s.len() - j,
{
    if j < 0 || j >= s.len() || !is_ascii_digit(s[j]) {
        0
    } else {
        1 + digit_run_len(s, j + 1)
    }
}

/// The number the digit bytes `s` write out, most significant first.
pub open spec fn digits_val(s: Seq<u8>) -> int
    decreases s.len(),
{
    if s.len() == 0 {
        0
    } else {
        digits_val(s.drop_last()) * 10 + (s.last() - 48)
    }
}

/// The `max-age` value the header bytes carry: the digits after the first
/// `max-age=`, clamped to `u64`; `None` when the directive is absent or no
/// digit follows it.
pub open spec fn spec_max_age(s: Seq<u8>) -> Option<u64> {
    match first_marker_from(s, 0) {
        None => None,
        Some(i) => {
            let j = i + 8;
            let n = digit_run_len(s, j);
            if n == 0 {
                None
            } else {
                let v = digits_val(s.subrange(j, j + n));
                Some(if v > u64::MAX { u64::MAX } else { v as u64 })
            }
        },
    }
}

/// The absolute expiry of data fetched at `now` under an optional
/// `Cache-Control` header: `now + max-age`, saturating, or `now` itself
/// when the header is absent or holds no usable `max-age`.
pub open spec fn spec_expiry(now: u64, header: Option<Seq<u8>>) -> u64 {
    match header {
        None => now,
        Some(s) => match spec_max_age(s) {
            None => now,
            Some(age) => if now + age > u64::MAX {
                u64::MAX
            } else {
                (now + age) as u64
            },
        },
    }
}

/// Expiry follows the fetch time: a response fetched at `now` whose
/// header carries a usable `max-age` of `age` seconds expires at
/// `now + age` (saturating at the top of the clock), and one whose
/// header is absent, or holds no usable `max-age`, is already expired
/// at its own fetch time.
pub proof fn lemma_expiry_rule(now: u64, header: Option<Seq<u8>>)
    ensures
        (match header {
            None => spec_expiry(now, header) == now,
            Some(h) => match spec_max_age(h) {
                None => spec_expiry(now, header) == now,
                Some(age) => spec_expiry(now, header) == if now + age > u64::MAX {
                    u64::MAX as int
                } else {
                    now + age
                },
            },
        }),
{
}

proof fn lemma_digits_val_nonneg(s: Seq<u8>)
    requires
        forall|m: int| 0 <= m < s.len() ==> is_ascii_digit(#[trigger] s[m]),
    ensures
        digits_val(s) >= 0,
    decreases s.len(),
{
    if s.len() > 0 {
        lemma_digits_val_nonneg(s.drop_last());
    }
}

/// Finds the first `max-age=` in `bytes`, scanning left to right.
fn find_marker(bytes: &Vec<u8>) -> (r: Option<usize>)
    ensures
        match r {
            Some(i) => first_marker_from(bytes@, 0) == Some(i as int) && i + 8 <= bytes@.len(),
            None => first_marker_from(bytes@, 0) is None,
        },
{
    let len = bytes.len();
    if len < 8 {
        assert(first_marker_from(bytes@, 0) is None);
        return None;
    }
    let mut i: usize = 0;
    while i <= len - 8
        invariant
            len == bytes@.len(),
            8 <= len,
            i <= len,
            first_marker_from(bytes@, 0) == first_marker_from(bytes@, i as int),
        decreases len - i,
    {
        let boundary = i == 0 || bytes[i - 1] == 44 || bytes[i - 1] == 32 || bytes[i - 1] == 9;
        let hit = boundary && bytes[i] == 109 && bytes[i + 1] == 97 && bytes[i + 2] == 120
            && bytes[i + 3] == 45 && bytes[i + 4] == 97 && bytes[i + 5] == 103 && bytes[i + 6]
            == 101 && bytes[i + 7] == 61;
        proof {
            let sub = bytes@.subrange(i as int, i + 8);
            assert(forall|k: int| 0 <= k < 8 ==> #[trigger] sub[k] == bytes@[i + k]);
            if hit {
                assert(sub =~= marker());
            } else if boundary {
                assert(sub != marker()) by {
                    if sub == marker() {
                        assert(bytes@[i as int] == 109 && bytes@[i + 1] == 97 && bytes@[i + 2]
                            == 120 && bytes@[i + 3] == 45 && bytes@[i + 4] == 97 && bytes@[i + 5]
                            == 103 && bytes@[i + 6] == 101 && bytes@[i + 7] == 61);
                    }
                }
            }
        }
        if hit {
            return Some(i);
        }
        i = i + 1;
    }
    assert(first_marker_from(bytes@, i as int) is None);
    None
}

/// Measures the digit run starting at `j`.
fn digit_run(bytes: &Vec<u8>, j: usize) -> (k: usize)
    requires
        j <= bytes@.len(),
    ensures
        j <= k <= bytes@.len(),
        digit_run_len(bytes@, j as int) == k - j,
        forall|m: int| j <= m < k ==> is_ascii_digit(#[trigger] bytes@[m]),
{
    let len = bytes.len();
    let mut k: usize = j;
    while k < len && 48 <= bytes[k] && bytes[k] <= 57
        invariant
            len == bytes@.len(),
            j <= k <= len,
            digit_run_len(bytes@, j as int) == (k - j) + digit_run_len(bytes@, k as int),
            forall|m: int| j <= m < k ==> is_ascii_digit(#[trigger] bytes@[m]),
        decreases len - k,
    {
        k = k + 1;
    }
    assert(digit_run_len(bytes@, k as int) == 0);
    k
}

/// Reads the digits `bytes[j..k]` as a number, clamped to `u64`.
fn digits_to_u64(bytes: &Vec<u8>, j: usize, k: usize) -> (v: u64)
    requires
        j <= k <= bytes@.len(),
        forall|m: int| j <= m < k ==> is_ascii_digit(#[trigger] bytes@[m]),
    ensures
        ({
            let full = digits_val(bytes@.subrange(j as int, k as int));
            v == if full > u64::MAX { u64::MAX as int } else { full }
        }),
{
    let mut acc: u64 = 0;
    let mut m: usize = j;
    proof {
        assert(bytes@.subrange(j as int, j as int) =~= Seq::<u8>::empty());
    }
    while m < k
        invariant
            j <= m <= k <= bytes@.len(),
            forall|q: int| j <= q < k ==> is_ascii_digit(#[trigger] bytes@[q]),
            ({
                let part = digits_val(bytes@.subrange(j as int, m as int));
                acc == if part > u64::MAX { u64::MAX as int } else { part }
            }),
        decreases k - m,
    {
        let d: u64 = (bytes[m] - 48) as u64;
        let ghost part = digits_val(bytes@.subrange(j as int, m as int));
        let ghost next = digits_val(bytes@.subrange(j as int, m + 1));
        proof {
            let sub = bytes@.subrange(j as int, m + 1);
            assert(sub.drop_last() =~= bytes@.subrange(j as int, m as int));
            assert(sub.last() == bytes@[m as int]);
            assert(next == part * 10 + d);
            lemma_digits_val_nonneg(bytes@.subrange(j as int, m as int));
        }
        acc = match acc.checked_mul(10) {
            Some(x) => x.saturating_add(d),
            None => u64::MAX,
        };
        proof {
            if part > u64::MAX {
                assert(next == part * 10 + d);
                assert(next > u64::MAX) by (nonlinear_arith)
                    requires
                        part > u64::MAX,
                        d >= 0,
                        next == part * 10 + d,
                ;
            }
        }
        m = m + 1;
    }
    acc
}

/// Extracts the `max-age` value from a raw `Cache-Control` header.
///
/// The first `max-age=` directive wins; the digits after it, clamped to
/// `u64`, are the age. A header without the directive, or with no digit
/// after it, yields `None`.
pub fn parse_max_age(header: &str) -> (r: Option<u64>)
    ensures
        r == spec_max_age(header.spec_bytes()),
{
    let bytes = header.as_bytes_vec();
    // Pins the byte count as a usize, so the offset past the marker is
    // known to stay in range.
    let _len = bytes.len();
    match find_marker(&bytes) {
        None => None,
        Some(i) => {
            let j = i + 8;
            let k = digit_run(&bytes, j);
            if k == j {
                None
            } else {
                Some(digits_to_u64(&bytes, j, k))
            }
        },
    }
}

/// The absolute expiry for data fetched at `now` under the given header.
///
/// No header, or one without a usable `max-age`, leaves the data already
/// expired at its own fetch time.
pub fn expiry_for(now: u64, header: Option<&str>) -> (r: u64)
    ensures
        r == spec_expiry(
            now,
            match header {
                None => None::<Seq<u8>>,
                Some(h) => Some(h.spec_bytes()),
            },
        ),
{
    match header {
        None => now,
        Some(h) => match parse_max_age(h) {
            None => now,
            Some(age) => now.saturating_add(age),
        },
    }
}

} // verus!
