use vstd::prelude::*;

verus! {

/// Whether a byte is ASCII whitespace; trimming a market name strips these
/// from both ends.
pub open spec fn is_name_space(b: u8) -> bool {
    b == 32 || 9 <= b <= 13
}

/// A byte string with its ASCII whitespace stripped from both ends.
pub open spec fn trimmed(s: Seq<u8>) -> Seq<u8>
    decreases s.len(),
{
    if s.len() == 0 {
        s
    } else if is_name_space(s[0]) {
        trimmed(s.subrange(1, s.len() as int))
    } else if is_name_space(s[s.len() - 1]) {
        trimmed(s.subrange(0, s.len() - 1))
    } else {
        s
    }
}

/// The base part of a market name: everything before the first dash.
pub open spec fn base_of(s: Seq<u8>) -> Seq<u8>
    decreases s.len(),
{
    if s.len() == 0 {
        s
    } else if s[0] == 45 {
        Seq::empty()
    } else {
        seq![s[0]] + base_of(s.subrange(1, s.len() as int))
    }
}

/// Whether a spot market and a perpetual market quote the same underlying:
/// the trimmed spot name must equal the trimmed perpetual name's base part.
pub open spec fn names_match(spot_name: Seq<u8>, perp_name: Seq<u8>) -> bool {
    trimmed(spot_name) == base_of(trimmed(perp_name))
}

/// A string whose first bytes up to `d` hold no dash, and whose byte at
/// `d` (if any) is a dash, has exactly those first bytes as its base part.
proof fn lemma_base_of_prefix(s: Seq<u8>, d: int)
    requires
        0 <= d <= s.len(),
        forall|j: int| 0 <= j < d ==> s[j] != 45,
        d < s.len() ==> s[d] == 45,
    ensures
        base_of(s) == s.subrange(0, d),
    decreases s.len(),
{
    if s.len() == 0 {
        assert(s.subrange(0, 0) =~= s);
    } else if s[0] == 45 {
        assert(s.subrange(0, 0) =~= Seq::<u8>::empty());
    } else {
        let t = s.subrange(1, s.len() as int);
        lemma_base_of_prefix(t, d - 1);
        assert(seq![s[0]] + t.subrange(0, d - 1) =~= s.subrange(0, d));
    }
}

/// The bounds of a byte string's whitespace-trimmed middle: the trimmed
/// string is exactly the subrange between them.
fn trim_bounds(s: &[u8]) -> (r: (usize, usize))
    ensures
        r.0 <= r.1 <= s@.len(),
        trimmed(s@) == s@.subrange(r.0 as int, r.1 as int),
{
    let n: usize = s.len();
    proof {
        assert(s@.subrange(0, n as int) =~= s@);
    }
    let mut start: usize = 0;
    while start < n && (s[start] == 32 || (9 <= s[start] && s[start] <= 13))
        invariant
            start <= n,
            n == s@.len(),
            trimmed(s@) == trimmed(s@.subrange(start as int, n as int)),
        decreases n - start,
    {
        proof {
            let sub = s@.subrange(start as int, n as int);
            assert(sub.subrange(1, sub.len() as int) =~= s@.subrange(start + 1, n as int));
        }
        start = start + 1;
    }
    let mut end: usize = n;
    while end > start && (s[end - 1] == 32 || (9 <= s[end - 1] && s[end - 1] <= 13))
        invariant
            start <= end <= n,
            n == s@.len(),
            start < n ==> !is_name_space(s@[start as int]),
            trimmed(s@) == trimmed(s@.subrange(start as int, end as int)),
        decreases end,
    {
        proof {
            let sub = s@.subrange(start as int, end as int);
            assert(sub.subrange(0, sub.len() - 1) =~= s@.subrange(start as int, end - 1));
        }
        end = end - 1;
    }
    proof {
        let sub = s@.subrange(start as int, end as int);
        if sub.len() > 0 {
            assert(!is_name_space(sub[0]));
            assert(!is_name_space(sub[sub.len() - 1]));
        }
    }
    (start, end)
}

/// Whether two byte ranges hold the same bytes.
fn ranges_equal(a: &[u8], a_start: usize, a_end: usize, b: &[u8], b_start: usize, b_end: usize) -> (r:
    bool)
    requires
        a_start <= a_end <= a@.len(),
        b_start <= b_end <= b@.len(),
    ensures
        r == (a@.subrange(a_start as int, a_end as int) == b@.subrange(
            b_start as int,
            b_end as int,
        )),
{
    let a_len: usize = a_end - a_start;
    let b_len: usize = b_end - b_start;
    if a_len != b_len {
        proof {
            let x = a@.subrange(a_start as int, a_end as int);
            let y = b@.subrange(b_start as int, b_end as int);
            assert(x.len() != y.len());
        }
        return false;
    }
    let mut i: usize = 0;
    while i < a_len
        invariant
            i <= a_len,
            a_len == b_len,
            a_start + a_len <= a@.len(),
            b_start + b_len <= b@.len(),
            a_len == a_end - a_start,
            b_len == b_end - b_start,
            forall|j: int| 0 <= j < i ==> #[trigger] a@[a_start + j] == b@[b_start + j],
        decreases a_len - i,
    {
        if a[a_start + i] != b[b_start + i] {
            proof {
                let x = a@.subrange(a_start as int, a_end as int);
                let y = b@.subrange(b_start as int, b_end as int);
                assert(x[i as int] != y[i as int]);
            }
            return false;
        }
        i = i + 1;
    }
    proof {
        let x = a@.subrange(a_start as int, a_end as int);
        let y = b@.subrange(b_start as int, b_end as int);
        assert forall|j: int| 0 <= j < x.len() implies x[j] == y[j] by {
            assert(a@[a_start + j] == b@[b_start + j]);
        }
        assert(x =~= y);
    }
    true
}

/// Decides whether the two market names quote the same underlying, as
/// `names_match` states: the spot name and the part of the perpetual name
/// before its first dash, both trimmed, must be byte-for-byte equal. A
/// cycle whose names disagree is refused before any order is planned.
#[verifier::rlimit(100)]
pub fn market_names_match(spot_name: &[u8], perp_name: &[u8]) -> (r: bool)
    ensures
        r == names_match(spot_name@, perp_name@),
{
    let (s_start, s_end) = trim_bounds(spot_name);
    let (p_start, p_end) = trim_bounds(perp_name);

    let mut dash: usize = p_start;
    while dash < p_end && perp_name[dash] != 45
        invariant
            p_start <= dash <= p_end <= perp_name@.len(),
            forall|j: int| p_start <= j < dash ==> perp_name@[j] != 45,
        decreases p_end - dash,
    {
        dash = dash + 1;
    }
    proof {
        let p_sub = perp_name@.subrange(p_start as int, p_end as int);
        lemma_base_of_prefix(p_sub, dash - p_start);
        assert(p_sub.subrange(0, dash - p_start) =~= perp_name@.subrange(
            p_start as int,
            dash as int,
        ));
    }
    ranges_equal(spot_name, s_start, s_end, perp_name, p_start, dash)
}

} // verus!
