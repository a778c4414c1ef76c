//! Validation of listing and bid expiry windows.

use vstd::prelude::*;
use vstd::string::StrSliceExecFns;

verus! {

/// Errors raised while validating an expiry range or a concrete expiry.
#[derive(Clone, Copy, Debug, PartialEq, Eq, Structural)]
pub enum ExpiryRangeError {
    /// The concrete expiry delta falls outside the configured range.
    InvalidExpirationRange,
    /// The range itself is inverted (`min > max`).
    InvalidExpiry,
}

/// Allowed window, in seconds from now, for the expiry of an ask or a bid.
#[derive(Clone, Copy, Debug, PartialEq, Eq, Structural)]
pub struct ExpiryRange {
    pub min: u64,
    pub max: u64,
}

impl ExpiryRange {
    pub fn new(min: u64, max: u64) -> (r: Self)
        ensures
            r == (ExpiryRange { min, max }),
    {
        ExpiryRange { min, max }
    }

    /// A delta is admissible when it lies strictly above `min` and at most at `max`.
    pub open spec fn spec_is_valid(self, expires: u64) -> bool {
        self.min < expires && expires <= self.max
    }

    /// Validates that the given expiry delta is within the allowed window.
    pub fn is_valid(&self, expires: u64) -> (r: Result<(), ExpiryRangeError>)
        ensures
            r == (if self.spec_is_valid(expires) {
                Ok::<(), ExpiryRangeError>(())
            } else {
                Err::<(), ExpiryRangeError>(ExpiryRangeError::InvalidExpirationRange)
            }),
    {
        if !(expires > self.min && expires <= self.max) {
            return Err(ExpiryRangeError::InvalidExpirationRange);
        }
        Ok(())
    }

    /// A range is well formed when `min <= max`.
    pub open spec fn spec_valid_range(self) -> bool {
        self.min <= self.max
    }

    /// Validates that the range itself is not inverted.
    pub fn validate(&self) -> (r: Result<(), ExpiryRangeError>)
        ensures
            r == (if self.spec_valid_range() {
                Ok::<(), ExpiryRangeError>(())
            } else {
                Err::<(), ExpiryRangeError>(ExpiryRangeError::InvalidExpiry)
            }),
    {
        if self.min > self.max {
            return Err(ExpiryRangeError::InvalidExpiry);
        }
        Ok(())
    }
}

/// Lexicographic order on addresses, by scalar value of each character.
pub open spec fn str_lt(a: Seq<char>, b: Seq<char>) -> bool
    decreases a.len(),
{
    if b.len() == 0 {
        false
    } else if a.len() == 0 {
        true
    } else if (a[0] as int) < (b[0] as int) {
        true
    } else if (a[0] as int) > (b[0] as int) {
        false
    } else {
        str_lt(a.skip(1), b.skip(1))
    }
}

/// The order is irreflexive.
pub proof fn lemma_str_lt_irrefl(a: Seq<char>)
    ensures
        !str_lt(a, a),
    decreases a.len(),
{
    if a.len() > 0 {
        lemma_str_lt_irrefl(a.skip(1));
    }
}

/// Any two distinct addresses are ordered one way or the other.
pub proof fn lemma_str_lt_connex(a: Seq<char>, b: Seq<char>)
    ensures
        a == b || str_lt(a, b) || str_lt(b, a),
    decreases a.len(),
{
    if a.len() == 0 && b.len() == 0 {
        assert(a =~= b);
    } else if a.len() > 0 && b.len() > 0 {
        if (a[0] as int) == (b[0] as int) {
            lemma_str_lt_connex(a.skip(1), b.skip(1));
            assert(a[0] == b[0]);
            if a.skip(1) == b.skip(1) {
                assert(a =~= b) by {
                    assert(a.skip(1).len() == a.len() - 1);
                    assert(b.skip(1).len() == b.len() - 1);
                    assert(forall|i: int| 1 <= i < a.len() ==> a[i] == a.skip(1)[i - 1]);
                    assert(forall|i: int| 1 <= i < b.len() ==> b[i] == b.skip(1)[i - 1]);
                }
            }
        }
    }
}

/// The order is transitive.
pub proof fn lemma_str_lt_trans(a: Seq<char>, b: Seq<char>, c: Seq<char>)
    requires
        str_lt(a, b),
        str_lt(b, c),
    ensures
        str_lt(a, c),
    decreases a.len(),
{
    if a.len() > 0 && b.len() > 0 && c.len() > 0 {
        if (a[0] as int) == (b[0] as int) && (b[0] as int) == (c[0] as int) {
            lemma_str_lt_trans(a.skip(1), b.skip(1), c.skip(1));
        }
    }
}

/// Strictly ascending list of addresses.
pub open spec fn sorted_strs(s: Seq<Seq<char>>) -> bool {
    forall|i: int, j: int| 0 <= i < j < s.len() ==> str_lt(s[i], s[j])
}

/// A strictly sorted list is pairwise distinct.
pub proof fn lemma_sorted_unique(s: Seq<Seq<char>>)
    requires
        sorted_strs(s),
    ensures
        crate::state::addrs_unique(s),
{
    assert forall|i: int, j: int| 0 <= i < j < s.len() implies s[i] != s[j] by {
        lemma_str_lt_irrefl(s[i]);
    }
}

/// Compares the suffixes of two strings starting at character `i`.
fn str_less_from(a: &str, b: &str, i: usize) -> (r: bool)
    requires
        i <= a@.len(),
        i <= b@.len(),
    ensures
        r == str_lt(a@.skip(i as int), b@.skip(i as int)),
    decreases a@.len() - i,
{
    let alen = a.unicode_len();
    let blen = b.unicode_len();
    if i >= blen {
        false
    } else if i >= alen {
        true
    } else {
        let ca = a.get_char(i);
        let cb = b.get_char(i);
        proof {
            assert(a@.skip(i as int)[0] == a@[i as int]);
            assert(b@.skip(i as int)[0] == b@[i as int]);
        }
        if (ca as u32) < (cb as u32) {
            true
        } else if (ca as u32) > (cb as u32) {
            false
        } else {
            let r = str_less_from(a, b, i + 1);
            proof {
                assert(a@.skip(i as int).skip(1) =~= a@.skip(i as int + 1));
                assert(b@.skip(i as int).skip(1) =~= b@.skip(i as int + 1));
            }
            r
        }
    }
}

/// Whether `a` comes strictly before `b` in address order.
fn str_less(a: &String, b: &String) -> (r: bool)
    ensures
        r == str_lt(a@, b@),
{
    let r = str_less_from(a.as_str(), b.as_str(), 0);
    proof {
        assert(a@.skip(0) =~= a@);
        assert(b@.skip(0) =~= b@);
    }
    r
}

/// Position of the first stored address not below `x`: the slot where `x`
/// belongs in the sorted list.
fn find_insert_pos(out: &Vec<String>, x: &String) -> (r: usize)
    requires
        sorted_strs(crate::state::strs(out@)),
    ensures
        r <= out@.len(),
        forall|i: int| 0 <= i < r ==> str_lt(#[trigger] crate::state::strs(out@)[i], x@),
        r < out@.len() ==> !str_lt(crate::state::strs(out@)[r as int], x@),
{
    let ghost view = crate::state::strs(out@);
    let n = out.len();
    let mut k: usize = 0;
    while k < n
        invariant
            k <= n,
            n == out.len(),
            view == crate::state::strs(out@),
            view.len() == n,
            forall|i: int| 0 <= i < k ==> str_lt(#[trigger] view[i], x@),
        decreases n - k,
    {
        proof {
            assert(view[k as int] == out@[k as int]@);
        }
        if !str_less(&out[k], x) {
            return k;
        }
        k += 1;
    }
    n
}

/// Inserts an address into a strictly sorted list, keeping it sorted and
/// dropping the address if it is already present.
fn insert_sorted(out: &mut Vec<String>, x: String)
    requires
        sorted_strs(crate::state::strs(old(out)@)),
    ensures
        sorted_strs(crate::state::strs(final(out)@)),
        forall|y: Seq<char>|
            #[trigger] crate::state::strs(final(out)@).contains(y) <==> (crate::state::strs(
                old(out)@,
            ).contains(y) || y == x@),
{
    let ghost pre = crate::state::strs(out@);
    let p = find_insert_pos(out, &x);
    let ghost pp = p as int;
    let mut present = false;
    if p < out.len() {
        present = out[p] == x;
        proof {
            assert(pre[pp] == out@[pp]@);
        }
    }
    if present {
        proof {
            assert(pre.contains(x@)) by {
                assert(pre[pp] == x@);
            }
        }
    } else {
        proof {
            if pp < pre.len() {
                lemma_str_lt_connex(pre[pp], x@);
                assert(str_lt(x@, pre[pp]));
            }
        }
        let ghost snap = out@;
        out.insert(p, x);
        proof {
            let post = crate::state::strs(out@);
            assert(post =~= pre.insert(pp, x@)) by {
                assert(forall|i: int| 0 <= i < post.len() ==> post[i] == (#[trigger] out@[i])@);
                assert(forall|i: int| 0 <= i < pp ==> out@[i] == snap[i]);
                assert(forall|i: int| pp < i < out@.len() ==> out@[i] == snap[i - 1]);
                assert(forall|i: int| 0 <= i < pre.len() ==> pre[i] == (#[trigger] snap[i])@);
            }
            assert(forall|i: int| 0 <= i < pp ==> post[i] == pre[i]);
            assert(post[pp] == x@);
            assert(forall|i: int| pp < i < post.len() ==> post[i] == pre[i - 1]);
            assert forall|i: int, j: int| 0 <= i < j < post.len() implies str_lt(
                post[i],
                post[j],
            ) by {
                if j < pp {
                    assert(post[i] == pre[i] && post[j] == pre[j]);
                } else if j == pp {
                    assert(post[i] == pre[i] && str_lt(pre[i], x@));
                } else if i == pp {
                    if j - 1 > pp {
                        lemma_str_lt_trans(x@, pre[pp], pre[j - 1]);
                    }
                } else if i < pp {
                    if j - 1 == pp {
                        assert(post[j] == pre[pp]);
                        lemma_str_lt_trans(pre[i], x@, pre[pp]);
                    } else {
                        lemma_str_lt_trans(x@, pre[pp], pre[j - 1]);
                        lemma_str_lt_trans(pre[i], x@, pre[j - 1]);
                    }
                } else {
                    assert(post[i] == pre[i - 1] && post[j] == pre[j - 1]);
                }
            }
            assert forall|y: Seq<char>| post.contains(y) implies (pre.contains(y) || y == x@) by {
                let i = choose|i: int| 0 <= i < post.len() && post[i] == y;
                if i < pp {
                    assert(pre[i] == y);
                } else if i > pp {
                    assert(pre[i - 1] == y);
                }
            }
            assert forall|y: Seq<char>| (pre.contains(y) || y == x@) implies post.contains(y) by {
                if pre.contains(y) {
                    let i = choose|i: int| 0 <= i < pre.len() && pre[i] == y;
                    if i < pp {
                        assert(post[i] == y);
                    } else {
                        assert(post[i + 1] == y);
                    }
                } else {
                    assert(post[pp] == y);
                }
            }
        }
    }
}

/// Whether an address already occurs in the list.
pub(crate) fn contains_address(v: &Vec<String>, x: &String) -> (r: bool)
    ensures
        r == v@.map_values(|s: String| s@).contains(x@),
{
    let n = v.len();
    let mut j: usize = 0;
    while j < n
        invariant
            j <= n,
            n == v.len(),
            forall|i: int| 0 <= i < j ==> (#[trigger] v@[i])@ != x@,
        decreases n - j,
    {
        if v[j] == *x {
            assert(v@.map_values(|s: String| s@)[j as int] == x@);
            return true;
        }
        j += 1;
    }
    proof {
        let mapped = v@.map_values(|s: String| s@);
        assert(!mapped.contains(x@)) by {
            assert(forall|i: int| 0 <= i < mapped.len() ==> mapped[i] == (#[trigger] v@[i])@);
        }
    }
    false
}

/// Sorts and de-duplicates a list of (already validated) addresses: the
/// result is the strictly ascending list of exactly the addresses given.
pub fn map_validate(addresses: &Vec<String>) -> (r: Vec<String>)
    ensures
        sorted_strs(crate::state::strs(r@)),
        crate::state::addrs_unique(crate::state::strs(r@)),
        forall|x: Seq<char>|
            #[trigger] crate::state::strs(r@).contains(x) <==> crate::state::strs(
                addresses@,
            ).contains(x),
{
    let ghost input = crate::state::strs(addresses@);
    let mut out: Vec<String> = Vec::new();
    let n = addresses.len();
    let mut j: usize = 0;
    proof {
        assert(crate::state::strs(out@) =~= Seq::<Seq<char>>::empty());
    }
    while j < n
        invariant
            j <= n,
            n == addresses.len(),
            input == crate::state::strs(addresses@),
            input.len() == n,
            sorted_strs(crate::state::strs(out@)),
            forall|x: Seq<char>|
                #[trigger] crate::state::strs(out@).contains(x) <==> input.subrange(
                    0,
                    j as int,
                ).contains(x),
        decreases n - j,
    {
        let ghost pre = crate::state::strs(out@);
        let addr = addresses[j].clone();
        proof {
            assert(addr@ == input[j as int]);
        }
        insert_sorted(&mut out, addr);
        proof {
            let post = crate::state::strs(out@);
            let sub = input.subrange(0, j as int);
            let sub2 = input.subrange(0, j + 1);
            assert(forall|i: int| 0 <= i < j ==> sub2[i] == sub[i]);
            assert(sub2[j as int] == input[j as int]);
            assert forall|x: Seq<char>| #[trigger] post.contains(x) implies sub2.contains(x) by {
                if sub.contains(x) {
                    let i = choose|i: int| 0 <= i < sub.len() && sub[i] == x;
                    assert(sub2[i] == x);
                } else {
                    assert(x == input[j as int]);
                    assert(sub2[j as int] == x);
                }
            }
            assert forall|x: Seq<char>| sub2.contains(x) implies #[trigger] post.contains(x) by {
                let i = choose|i: int| 0 <= i < sub2.len() && sub2[i] == x;
                if i < j {
                    assert(sub[i] == x);
                }
            }
        }
        j += 1;
    }
    proof {
        assert(input.subrange(0, n as int) =~= input);
        lemma_sorted_unique(crate::state::strs(out@));
    }
    out
}

} // verus!
