//! Method descriptors: the encoded string form of a method's parameter and
//! return types, read here over its raw bytes to compute the argument count
//! and whether the method returns a value. Each declared argument occupies
//! one slot; 64-bit category-2 values are outside this execution scope.

use vstd::prelude::*;

verus! {

/// The offset just past the one parameter type starting at `i`: array
/// prefixes, then a base type letter or an `L...;` class reference. `None`
/// when no well-formed type starts there.
pub open spec fn spec_skip_type(d: Seq<u8>, i: int) -> Option<int>
    decreases d.len() - i,
{
    if i < 0 || i >= d.len() {
        None
    } else if d[i] == 91 {  // '['
        spec_skip_type(d, i + 1)
    } else if d[i] == 66 || d[i] == 67 || d[i] == 68 || d[i] == 70 || d[i] == 73 || d[i] == 74
        || d[i] == 83 || d[i] == 90 {  // B C D F I J S Z
        Some(i + 1)
    } else if d[i] == 76 {  // 'L'
        spec_skip_reference(d, i + 1)
    } else {
        None
    }
}

/// The offset just past the `;` that closes a class reference whose name
/// starts at `i`.
pub open spec fn spec_skip_reference(d: Seq<u8>, i: int) -> Option<int>
    decreases d.len() - i,
{
    if i < 0 || i >= d.len() {
        None
    } else if d[i] == 59 {  // ';'
        Some(i + 1)
    } else {
        spec_skip_reference(d, i + 1)
    }
}

/// How many parameter types stand between offset `i` and the closing `)`.
pub open spec fn spec_param_count_from(d: Seq<u8>, i: int) -> Option<nat>
    decreases d.len() - i,
{
    if i < 0 || i >= d.len() {
        None
    } else if d[i] == 41 {  // ')'
        Some(0)
    } else {
        match spec_skip_type(d, i) {
            None => None,
            Some(j) => if j <= i || j > d.len() {
                None
            } else {
                match spec_param_count_from(d, j) {
                    None => None,
                    Some(n) => Some(n + 1),
                }
            },
        }
    }
}

/// The number of declared arguments of a method descriptor: the count of
/// parameter types between `(` and `)`. `None` when the descriptor is not
/// well-formed.
pub open spec fn spec_descriptor_arg_count(d: Seq<u8>) -> Option<nat> {
    if d.len() >= 1 && d[0] == 40 {  // '('
        spec_param_count_from(d, 1)
    } else {
        None
    }
}

/// Whether the descriptor declares a non-void return: a well-formed
/// descriptor ends with `V` exactly when its return type is void.
pub open spec fn spec_descriptor_returns_value(d: Seq<u8>) -> bool {
    !(d.len() >= 1 && d[d.len() - 1] == 86)  // 'V'
}

/// A well-formed skip lands strictly past where it started, within bounds.
pub proof fn lemma_skip_type_bounds(d: Seq<u8>, i: int)
    ensures
        spec_skip_type(d, i) matches Some(j) ==> i < j <= d.len(),
    decreases d.len() - i,
{
    if 0 <= i < d.len() {
        if d[i] == 91 {
            lemma_skip_type_bounds(d, i + 1);
        } else if d[i] == 76 {
            lemma_skip_reference_bounds(d, i + 1);
        }
    }
}

pub proof fn lemma_skip_reference_bounds(d: Seq<u8>, i: int)
    ensures
        spec_skip_reference(d, i) matches Some(j) ==> i < j <= d.len(),
    decreases d.len() - i,
{
    if 0 <= i < d.len() && d[i] != 59 {
        lemma_skip_reference_bounds(d, i + 1);
    }
}

/// A parameter count never exceeds the bytes that hold it.
pub proof fn lemma_param_count_bound(d: Seq<u8>, i: int)
    requires
        0 <= i,
    ensures
        spec_param_count_from(d, i) matches Some(n) ==> n <= d.len() - i,
    decreases d.len() - i,
{
    if 0 <= i < d.len() && d[i] != 41 {
        match spec_skip_type(d, i) {
            None => {},
            Some(j) => {
                lemma_skip_type_bounds(d, i);
                if j > i {
                    lemma_param_count_bound(d, j);
                }
            },
        }
    }
}

fn skip_reference(d: &Vec<u8>, i: usize) -> (r: Option<usize>)
    ensures
        match spec_skip_reference(d@, i as int) {
            Some(j) => r matches Some(v) && v == j,
            None => r is None,
        },
    decreases d@.len() - i,
{
    if i >= d.len() {
        None
    } else if d[i] == 59 {
        Some(i + 1)
    } else {
        skip_reference(d, i + 1)
    }
}

fn skip_type(d: &Vec<u8>, i: usize) -> (r: Option<usize>)
    ensures
        match spec_skip_type(d@, i as int) {
            Some(j) => r matches Some(v) && v == j,
            None => r is None,
        },
    decreases d@.len() - i,
{
    if i >= d.len() {
        None
    } else if d[i] == 91 {
        skip_type(d, i + 1)
    } else if d[i] == 66 || d[i] == 67 || d[i] == 68 || d[i] == 70 || d[i] == 73 || d[i] == 74
        || d[i] == 83 || d[i] == 90 {
        Some(i + 1)
    } else if d[i] == 76 {
        skip_reference(d, i + 1)
    } else {
        None
    }
}

fn param_count_from(d: &Vec<u8>, i: usize) -> (r: Option<usize>)
    ensures
        match spec_param_count_from(d@, i as int) {
            Some(n) => r matches Some(v) && v == n,
            None => r is None,
        },
    decreases d@.len() - i,
{
    if i >= d.len() {
        None
    } else if d[i] == 41 {
        Some(0)
    } else {
        match skip_type(d, i) {
            None => None,
            Some(j) => {
                proof {
                    lemma_skip_type_bounds(d@, i as int);
                }
                if j <= i || j > d.len() {
                    None
                } else {
                    match param_count_from(d, j) {
                        None => None,
                        Some(n) => {
                            proof {
                                lemma_param_count_bound(d@, j as int);
                            }
                            Some(n + 1)
                        },
                    }
                }
            },
        }
    }
}

/// The number of declared arguments of the descriptor, `None` when it is not
/// well-formed.
pub fn descriptor_arg_count(d: &Vec<u8>) -> (r: Option<usize>)
    ensures
        match spec_descriptor_arg_count(d@) {
            Some(n) => r matches Some(v) && v == n,
            None => r is None,
        },
{
    if d.len() >= 1 && d[0] == 40 {
        param_count_from(d, 1)
    } else {
        None
    }
}

/// Whether the descriptor declares a non-void return.
pub fn descriptor_returns_value(d: &Vec<u8>) -> (r: bool)
    ensures
        r == spec_descriptor_returns_value(d@),
{
    !(d.len() >= 1 && d[d.len() - 1] == 86)
}

} // verus!
