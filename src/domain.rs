use crate::field::{modulus, pow_mod, FieldElement};
use vstd::prelude::*;

verus! {

/// Why a root of unity does not span a domain of the requested width.
#[derive(Clone, Copy, Debug, PartialEq, Eq)]
pub enum DomainError {
    /// The powers of the root do not return to the identity within the width.
    CycleTooLong,
    /// The powers return to the identity, but not after exactly the width.
    InvalidScale,
}

/// An evaluation domain: a root of unity and the tables of its powers.
#[derive(Clone, Debug)]
pub struct FFTSettings {
    pub max_width: usize,
    pub root_of_unity: FieldElement,
    pub expanded_roots_of_unity: Vec<FieldElement>,
    pub reverse_roots_of_unity: Vec<FieldElement>,
    pub roots_of_unity: Vec<FieldElement>,
}

impl FFTSettings {
    /// The domain of `max_width` points spanned by `root`: its powers in order
    /// (closing with the identity), the same in reverse, and the powers below
    /// `max_width` as the evaluation points.
    pub fn new(root: &FieldElement, max_width: usize) -> (res: Result<FFTSettings, DomainError>)
        requires
            root.wf(),
        ensures
            res is Ok <==> has_order(root.value(), max_width as nat),
            (res matches Err(DomainError::CycleTooLong)) <==> !closes_within(root.value(), max_width as nat),
            res matches Ok(fs) ==> {
                &&& fs.max_width == max_width
                &&& fs.root_of_unity == *root
                &&& fs.expanded_roots_of_unity@.len() == max_width + 1
                &&& forall|i: int| 0 <= i <= max_width ==> (#[trigger] fs.expanded_roots_of_unity@[i]).wf()
                    && fs.expanded_roots_of_unity@[i].value() == pow_mod(root.value(), i as nat)
                &&& fs.reverse_roots_of_unity@ == fs.expanded_roots_of_unity@.reverse()
                &&& fs.roots_of_unity@ == fs.expanded_roots_of_unity@.take(max_width as int)
            },
    {
        let expanded = match expand_root_of_unity(root, max_width) {
            Ok(v) => v,
            Err(e) => {
                return Err(e);
            },
        };
        let n = expanded.len();
        let mut reverse: Vec<FieldElement> = Vec::with_capacity(n);
        let mut i: usize = n;
        while i > 0
            invariant
                n == expanded@.len(),
                i <= n,
                reverse@ == expanded@.reverse().take((n - i) as int),
            decreases i,
        {
            i = i - 1;
            reverse.push(expanded[i]);
            assert(reverse@ =~= expanded@.reverse().take((n - i) as int));
        }
        assert(reverse@ =~= expanded@.reverse());
        let mut roots: Vec<FieldElement> = Vec::with_capacity(max_width);
        let mut j: usize = 0;
        while j < max_width
            invariant
                n == expanded@.len(),
                n == max_width + 1,
                j <= max_width,
                roots@ == expanded@.take(j as int),
            decreases max_width - j,
        {
            roots.push(expanded[j]);
            j = j + 1;
            assert(roots@ =~= expanded@.take(j as int));
        }
        Ok(FFTSettings {
            max_width,
            root_of_unity: *root,
            expanded_roots_of_unity: expanded,
            reverse_roots_of_unity: reverse,
            roots_of_unity: roots,
        })
    }
}

/// `r` has multiplicative order exactly `w`.
pub open spec fn has_order(r: nat, w: nat) -> bool {
    &&& 1 <= w
    &&& pow_mod(r, w) == 1
    &&& forall|j: nat| 1 <= j < w ==> pow_mod(r, j) != 1
}

/// The widest power that the expansion looks at before giving up.
pub open spec fn search_bound(w: nat) -> nat {
    if w == 0 { 1 } else { w }
}

/// Some power of `r` between the first and the search bound is the identity.
pub open spec fn closes_within(r: nat, w: nat) -> bool {
    exists|j: nat| 1 <= j <= search_bound(w) && pow_mod(r, j) == 1
}

/// The powers `root^0, root^1, ...` up to and including the first positive
/// power that is the identity, which must be `root^width`.
pub fn expand_root_of_unity(root: &FieldElement, width: usize) -> (res: Result<
    Vec<FieldElement>,
    DomainError,
>)
    requires
        root.wf(),
    ensures
        res is Ok <==> has_order(root.value(), width as nat),
        (res matches Err(DomainError::CycleTooLong)) <==> !closes_within(root.value(), width as nat),
        res matches Ok(v) ==> {
            &&& v@.len() == width + 1
            &&& forall|i: int| 0 <= i < v@.len() ==> (#[trigger] v@[i]).wf() && v@[i].value() == pow_mod(root.value(), i as nat)
        },
{
    let ghost r = root.value();
    let mut generated_powers: Vec<FieldElement> = vec![FieldElement::one(), *root];
    assert(pow_mod(r, 1) == r) by {
        assert(pow_mod(r, 1) == (pow_mod(r, 0) * r) % modulus());
        assert(pow_mod(r, 0) == 1);
        assert(1 * r == r);
        vstd::arithmetic::div_mod::lemma_small_mod(r, modulus());
        assert(r % modulus() == r);
    }
    loop
        invariant
            root.wf(),
            r == root.value(),
            2 <= generated_powers@.len() <= search_bound(width as nat) + 1,
            forall|i: int| 0 <= i < generated_powers@.len() ==> (#[trigger] generated_powers@[i]).wf()
                && generated_powers@[i].value() == pow_mod(r, i as nat),
            forall|j: nat| 1 <= j < generated_powers@.len() - 1 ==> pow_mod(r, j) != 1,
        ensures
            2 <= generated_powers@.len() <= search_bound(width as nat) + 1,
            pow_mod(r, (generated_powers@.len() - 1) as nat) == 1,
        decreases width + 2 - generated_powers@.len(),
    {
        let n = generated_powers.len();
        let last = generated_powers[n - 1];
        assert(last.value() == pow_mod(r, (n - 1) as nat));
        if last.is_one() {
            break;
        }
        if n > width {
            proof {
                assert forall|j: nat| 1 <= j <= search_bound(width as nat) implies pow_mod(r, j) != 1 by {
                    assert(j <= n - 1);
                }
            }
            return Err(DomainError::CycleTooLong);
        }
        let next = last.mul(root);
        assert(pow_mod(r, n as nat) == (pow_mod(r, (n - 1) as nat) * r) % modulus());
        generated_powers.push(next);
    }
    let n = generated_powers.len();
    let ghost k = (n - 1) as nat;
    assert(pow_mod(r, k) == 1);
    assert(closes_within(r, width as nat));
    if n - 1 != width {
        proof {
            if has_order(r, width as nat) {
                if (width as nat) < k {
                    assert(pow_mod(r, width as nat) == 1);
                } else {
                    assert(pow_mod(r, k) != 1);
                }
            }
        }
        return Err(DomainError::InvalidScale);
    }
    Ok(generated_powers)
}

/// For a root of order `width`, the table of powers starts and ends with the
/// identity and each entry is the previous one times the root.
pub proof fn lemma_expanded_powers(r: nat, width: nat)
    requires
        has_order(r, width),
    ensures
        pow_mod(r, 0) == 1,
        pow_mod(r, width) == 1,
        forall|i: nat| i < width ==> #[trigger] pow_mod(r, i + 1) == (pow_mod(r, i) * r) % modulus(),
{
    assert forall|i: nat| i < width implies #[trigger] pow_mod(r, i + 1) == (pow_mod(r, i) * r) % modulus() by {
        assert((i + 1 - 1) as nat == i);
    }
}

/// The identity closes at its first power, so it spans no domain of width two
/// or more: the expansion ends in `InvalidScale`.
pub proof fn lemma_identity_root_invalid_scale(width: nat)
    requires
        width >= 2,
    ensures
        closes_within(1, width),
        !has_order(1, width),
{
    assert(pow_mod(1, 1) == (pow_mod(1, 0) * 1) % modulus());
    assert(pow_mod(1, 1) == 1);
    assert(1 <= 1nat <= search_bound(width));
}

} // verus!
