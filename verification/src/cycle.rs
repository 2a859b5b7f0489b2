//! Stepping through a list that wraps around at both ends.

use vstd::prelude::*;
use vstd::std_specs::cmp::PartialEqSpec;

verus! {

/// The index `offset` steps from `current`, wrapping around a list of
/// `num_items` items.
pub fn cycle_index(current_index: usize, num_items: usize, offset: isize) -> (r: usize)
    requires
        num_items > 0,
        current_index <= isize::MAX,
        num_items <= isize::MAX,
        isize::MIN <= current_index + offset <= isize::MAX,
    ensures
        r == (current_index + offset) % (num_items as int),
        r < num_items,
{
    let x: i128 = current_index as i128 + offset as i128;
    let n: u128 = num_items as u128;
    if x >= 0 {
        let r = (x as u128) % n;
        r as usize
    } else {
        let m = ((-x) as u128) % n;
        let r = if m == 0 {
            0
        } else {
            n - m
        };
        proof {
            let xi = x as int;
            let ni = n as int;
            let q = (-xi) / ni;
            assert(-xi == q * ni + m) by (nonlinear_arith)
                requires
                    ni > 0,
                    q == (-xi) / ni,
                    m == (-xi) % ni,
            ;
            if m == 0 {
                assert(xi == (-q) * ni) by (nonlinear_arith)
                    requires
                        -xi == q * ni,
                ;
                assert(xi % ni == 0) by (nonlinear_arith)
                    requires
                        xi == (-q) * ni,
                        ni > 0,
                ;
            } else {
                assert(xi == (-q - 1) * ni + (ni - m)) by (nonlinear_arith)
                    requires
                        -xi == q * ni + m,
                ;
                assert(xi % ni == ni - m) by (nonlinear_arith)
                    requires
                        xi == (-q - 1) * ni + (ni - m),
                        0 < ni - m < ni,
                ;
            }
        }
        r as usize
    }
}

/// The position of the first item equal to `x`, if any.
pub open spec fn find_index<T: PartialEq>(items: Seq<T>, x: T) -> Option<int>
    decreases items.len(),
{
    if items.len() == 0 {
        None
    } else if items[0].eq_spec(&x) {
        Some(0)
    } else {
        match find_index(items.drop_first(), x) {
            Some(i) => Some(i + 1),
            None => None,
        }
    }
}

/// The position of the first item of `items` equal to `x`.
fn position<T: PartialEq>(items: &[T], x: &T) -> (r: Option<usize>)
    ensures
        T::obeys_eq_spec() ==> find_index(items@, *x) == match r {
            Some(k) => Some(k as int),
            None => None,
        },
        r matches Some(k) ==> k < items@.len(),
{
    let len = items.len();
    let mut i: usize = 0;
    proof {
        assert(items@.skip(0) =~= items@);
    }
    while i < len
        invariant
            len == items@.len(),
            i <= len,
            T::obeys_eq_spec() ==> find_index(items@, *x) == match find_index(
                items@.skip(i as int),
                *x,
            ) {
                Some(k) => Some(k + i),
                None => None,
            },
        decreases len - i,
    {
        proof {
            assert(items@.skip(i as int).drop_first() =~= items@.skip(i as int + 1));
        }
        if items[i] == *x {
            return Some(i);
        }
        i = i + 1;
    }
    None
}

/// The position of `x` in `items`, or the first position when it is not
/// there.
pub open spec fn index_or_first<T: PartialEq>(items: Seq<T>, x: T) -> int {
    match find_index(items, x) {
        Some(i) => i,
        None => 0,
    }
}

/// The item `offset` steps from `current_item` in `all_items`, wrapping
/// around; an item not in the list counts as the first.
pub fn cycle_item<T: PartialEq + Copy>(current_item: T, all_items: &[T], offset: isize) -> (r: T)
    requires
        all_items@.len() > 0,
        all_items@.len() <= isize::MAX,
        T::obeys_eq_spec() ==> isize::MIN <= index_or_first(all_items@, current_item) + offset
            <= isize::MAX,
        !T::obeys_eq_spec() ==> isize::MIN <= offset && offset + all_items@.len() - 1
            <= isize::MAX,
    ensures
        T::obeys_eq_spec() ==> r == all_items@[(index_or_first(all_items@, current_item) + offset)
            % (all_items@.len() as int)],
{
    let len = all_items.len();
    let index = match position(all_items, &current_item) {
        Some(i) => i,
        None => 0,
    };
    let next_index = cycle_index(index, len, offset);
    all_items[next_index]
}

/// Stepping forward and then back by the same offset returns to the
/// starting index.
pub proof fn lemma_cycle_back_and_forth(current: int, n: int, offset: int)
    requires
        n > 0,
        0 <= current < n,
    ensures
        ((current + offset) % n - offset) % n == current,
{
    let a = current + offset;
    let q = a / n;
    vstd::arithmetic::div_mod::lemma_fundamental_div_mod(a, n);
    assert(a % n - offset == (-q) * n + current) by (nonlinear_arith)
        requires
            a == n * q + a % n,
            a == current + offset,
    ;
    vstd::arithmetic::div_mod::lemma_fundamental_div_mod_converse(a % n - offset, n, -q, current);
}

/// Stepping a whole round, `n` steps, returns to the starting index.
pub proof fn lemma_cycle_full_round(current: int, n: int)
    requires
        n > 0,
        0 <= current < n,
    ensures
        (current + n) % n == current,
{
    vstd::arithmetic::div_mod::lemma_fundamental_div_mod_converse(current + n, n, 1, current);
}

} // verus!
