//! The position of a plane in the linear sequence of planes of a single file,
//! as the declared dimension order lays the planes out.

use vstd::prelude::*;
use vstd::string::*;
use vstd::arithmetic::div_mod::{
    lemma_fundamental_div_mod_converse_div,
    lemma_fundamental_div_mod_converse_mod,
};
use crate::error::CompanionError;
use crate::model::{Pixels, PixelsView};

verus! {

/// The six orders in which depth (Z), channel (C) and time (T) may vary after
/// the two pixel axes, named from the fastest axis to the slowest.
#[derive(Clone, Copy, Debug, PartialEq, Eq, Structural)]
pub enum DimensionOrder {
    XYZCT,
    XYZTC,
    XYCTZ,
    XYCZT,
    XYTCZ,
    XYTZC,
}

/// The plane that is asked for: its time, depth and channel positions, each
/// counted from zero.
#[derive(Clone, Copy, Debug, PartialEq, Eq, Structural)]
pub struct Selection {
    pub t: usize,
    pub z: usize,
    pub c: usize,
}

/// The order that a text names, if it names one.
pub open spec fn dimension_order_of(text: Seq<char>) -> Option<DimensionOrder> {
    if text == seq!['X', 'Y', 'Z', 'C', 'T'] {
        Some(DimensionOrder::XYZCT)
    } else if text == seq!['X', 'Y', 'Z', 'T', 'C'] {
        Some(DimensionOrder::XYZTC)
    } else if text == seq!['X', 'Y', 'C', 'T', 'Z'] {
        Some(DimensionOrder::XYCTZ)
    } else if text == seq!['X', 'Y', 'C', 'Z', 'T'] {
        Some(DimensionOrder::XYCZT)
    } else if text == seq!['X', 'Y', 'T', 'C', 'Z'] {
        Some(DimensionOrder::XYTCZ)
    } else if text == seq!['X', 'Y', 'T', 'Z', 'C'] {
        Some(DimensionOrder::XYTZC)
    } else {
        None
    }
}

/// The position of the element `(i1, i2, i3)` where the first axis, of size
/// `n1`, varies fastest and the second, of size `n2`, next.
pub open spec fn linear_index(i1: nat, n1: nat, i2: nat, n2: nat, i3: nat) -> nat {
    i1 + n1 * i2 + n1 * n2 * i3
}

/// The position of the plane `(z, c, t)` in a volume of the given axis sizes
/// laid out in the given order.
pub open spec fn plane_index(
    order: DimensionOrder,
    z: nat,
    c: nat,
    t: nat,
    size_z: nat,
    size_c: nat,
    size_t: nat,
) -> nat {
    match order {
        DimensionOrder::XYZCT => linear_index(z, size_z, c, size_c, t),
        DimensionOrder::XYZTC => linear_index(z, size_z, t, size_t, c),
        DimensionOrder::XYCTZ => linear_index(c, size_c, t, size_t, z),
        DimensionOrder::XYCZT => linear_index(c, size_c, z, size_z, t),
        DimensionOrder::XYTCZ => linear_index(t, size_t, c, size_c, z),
        DimensionOrder::XYTZC => linear_index(t, size_t, z, size_z, c),
    }
}

/// What the calculator answers for a selection and a pixel set: the plane's
/// index, or the reason for which there is none.
pub open spec fn relative_ifd_index(selection: Selection, pixels: PixelsView) -> Result<
    usize,
    CompanionError,
> {
    match dimension_order_of(pixels.dimension_order) {
        None => Err(CompanionError::InvalidDimensionOrder),
        Some(order) => {
            let index = plane_index(
                order,
                selection.z as nat,
                selection.c as nat,
                selection.t as nat,
                pixels.size_z,
                pixels.size_c,
                pixels.size_t,
            );
            if index <= usize::MAX {
                Ok(index as usize)
            } else {
                Err(CompanionError::IndexOverflow)
            }
        },
    }
}

/// A plane within the axis sizes has an index below the number of planes of
/// the volume, whatever the order.
pub proof fn lemma_plane_index_in_range(
    order: DimensionOrder,
    z: nat,
    c: nat,
    t: nat,
    size_z: nat,
    size_c: nat,
    size_t: nat,
)
    requires
        z < size_z,
        c < size_c,
        t < size_t,
    ensures
        plane_index(order, z, c, t, size_z, size_c, size_t) < size_z * size_c * size_t,
{
    match order {
        DimensionOrder::XYZCT => lemma_linear_index_in_range(z, size_z, c, size_c, t, size_t),
        DimensionOrder::XYZTC => lemma_linear_index_in_range(z, size_z, t, size_t, c, size_c),
        DimensionOrder::XYCTZ => lemma_linear_index_in_range(c, size_c, t, size_t, z, size_z),
        DimensionOrder::XYCZT => lemma_linear_index_in_range(c, size_c, z, size_z, t, size_t),
        DimensionOrder::XYTCZ => lemma_linear_index_in_range(t, size_t, c, size_c, z, size_z),
        DimensionOrder::XYTZC => lemma_linear_index_in_range(t, size_t, z, size_z, c, size_c),
    }
    assert(size_z * size_c * size_t == size_z * size_t * size_c) by (nonlinear_arith);
    assert(size_z * size_c * size_t == size_c * size_t * size_z) by (nonlinear_arith);
    assert(size_z * size_c * size_t == size_c * size_z * size_t) by (nonlinear_arith);
    assert(size_z * size_c * size_t == size_t * size_c * size_z) by (nonlinear_arith);
    assert(size_z * size_c * size_t == size_t * size_z * size_c) by (nonlinear_arith);
}

/// An element within the sizes of three axes has a position below the
/// product of the sizes.
pub proof fn lemma_linear_index_in_range(i1: nat, n1: nat, i2: nat, n2: nat, i3: nat, n3: nat)
    requires
        i1 < n1,
        i2 < n2,
        i3 < n3,
    ensures
        linear_index(i1, n1, i2, n2, i3) < n1 * n2 * n3,
{
    assert(n1 * i2 + n1 <= n1 * n2) by (nonlinear_arith)
        requires
            i2 + 1 <= n2,
    ;
    assert(n1 * n2 * i3 + n1 * n2 <= n1 * n2 * n3) by (nonlinear_arith)
        requires
            i3 + 1 <= n3,
    ;
}

/// Two elements within the sizes of the two fast axes that have the same
/// position are the same element.
pub proof fn lemma_linear_index_injective(
    i1: nat,
    i2: nat,
    i3: nat,
    j1: nat,
    j2: nat,
    j3: nat,
    n1: nat,
    n2: nat,
)
    requires
        i1 < n1,
        j1 < n1,
        i2 < n2,
        j2 < n2,
        linear_index(i1, n1, i2, n2, i3) == linear_index(j1, n1, j2, n2, j3),
    ensures
        i1 == j1,
        i2 == j2,
        i3 == j3,
{
    let a = (i3 * n2 + i2) as int;
    let b = (j3 * n2 + j2) as int;
    let x = linear_index(i1, n1, i2, n2, i3) as int;
    assert(x == a * n1 + i1) by (nonlinear_arith)
        requires
            x == i1 + n1 * i2 + n1 * n2 * i3,
            a == i3 * n2 + i2,
    ;
    assert(x == b * n1 + j1) by (nonlinear_arith)
        requires
            x == j1 + n1 * j2 + n1 * n2 * j3,
            b == j3 * n2 + j2,
    ;
    lemma_fundamental_div_mod_converse_div(x, n1 as int, a, i1 as int);
    lemma_fundamental_div_mod_converse_mod(x, n1 as int, a, i1 as int);
    lemma_fundamental_div_mod_converse_div(x, n1 as int, b, j1 as int);
    lemma_fundamental_div_mod_converse_mod(x, n1 as int, b, j1 as int);
    assert(a == b);
    lemma_fundamental_div_mod_converse_div(a, n2 as int, i3 as int, i2 as int);
    lemma_fundamental_div_mod_converse_mod(a, n2 as int, i3 as int, i2 as int);
    lemma_fundamental_div_mod_converse_div(a, n2 as int, j3 as int, j2 as int);
    lemma_fundamental_div_mod_converse_mod(a, n2 as int, j3 as int, j2 as int);
}

/// Two planes within the axis sizes that have the same index are the same
/// plane, whatever the order.
pub proof fn lemma_plane_index_injective(
    order: DimensionOrder,
    first: (nat, nat, nat),
    second: (nat, nat, nat),
    size_z: nat,
    size_c: nat,
    size_t: nat,
)
    requires
        first.0 < size_z && second.0 < size_z,
        first.1 < size_c && second.1 < size_c,
        first.2 < size_t && second.2 < size_t,
        plane_index(order, first.0, first.1, first.2, size_z, size_c, size_t) == plane_index(
            order,
            second.0,
            second.1,
            second.2,
            size_z,
            size_c,
            size_t,
        ),
    ensures
        first == second,
{
    let (z, c, t) = first;
    let (y, b, s) = second;
    match order {
        DimensionOrder::XYZCT => lemma_linear_index_injective(z, c, t, y, b, s, size_z, size_c),
        DimensionOrder::XYZTC => lemma_linear_index_injective(z, t, c, y, s, b, size_z, size_t),
        DimensionOrder::XYCTZ => lemma_linear_index_injective(c, t, z, b, s, y, size_c, size_t),
        DimensionOrder::XYCZT => lemma_linear_index_injective(c, z, t, b, y, s, size_c, size_z),
        DimensionOrder::XYTCZ => lemma_linear_index_injective(t, c, z, s, b, y, size_t, size_c),
        DimensionOrder::XYTZC => lemma_linear_index_injective(t, z, c, s, y, b, size_t, size_z),
    }
}

/// Reads a dimension order. Only the six known five-letter names are taken;
/// any other text gives `None`.
pub fn parse_dimension_order(text: &str) -> (order: Option<DimensionOrder>)
    ensures
        order == dimension_order_of(text@),
{
    if text.unicode_len() != 5 {
        return None;
    }
    let c0 = text.get_char(0);
    let c1 = text.get_char(1);
    let c2 = text.get_char(2);
    let c3 = text.get_char(3);
    let c4 = text.get_char(4);
    assert(text@ =~= seq![c0, c1, c2, c3, c4]);
    if c0 != 'X' || c1 != 'Y' {
        return None;
    }
    if c2 == 'Z' && c3 == 'C' && c4 == 'T' {
        Some(DimensionOrder::XYZCT)
    } else if c2 == 'Z' && c3 == 'T' && c4 == 'C' {
        Some(DimensionOrder::XYZTC)
    } else if c2 == 'C' && c3 == 'T' && c4 == 'Z' {
        Some(DimensionOrder::XYCTZ)
    } else if c2 == 'C' && c3 == 'Z' && c4 == 'T' {
        Some(DimensionOrder::XYCZT)
    } else if c2 == 'T' && c3 == 'C' && c4 == 'Z' {
        Some(DimensionOrder::XYTCZ)
    } else if c2 == 'T' && c3 == 'Z' && c4 == 'C' {
        Some(DimensionOrder::XYTZC)
    } else {
        None
    }
}

/// Computes `linear_index` in machine words: the index where it fits in one,
/// `None` where it does not. A product is formed only where its factor of
/// the selection is not zero, so that an intermediate value too large for a
/// word shows that the index itself is too large.
pub fn checked_linear_index(i1: usize, n1: usize, i2: usize, n2: usize, i3: usize) -> (index:
    Option<usize>)
    ensures
        linear_index(i1 as nat, n1 as nat, i2 as nat, n2 as nat, i3 as nat) <= usize::MAX
            ==> index == Some(
            linear_index(i1 as nat, n1 as nat, i2 as nat, n2 as nat, i3 as nat) as usize,
        ),
        linear_index(i1 as nat, n1 as nat, i2 as nat, n2 as nat, i3 as nat) > usize::MAX
            ==> index.is_none(),
{
    let second: usize = if i2 == 0 {
        assert(n1 * i2 == 0) by (nonlinear_arith)
            requires
                i2 == 0,
        ;
        0
    } else {
        match n1.checked_mul(i2) {
            Some(v) => v,
            None => {
                return None;
            },
        }
    };
    assert(second == n1 * i2);
    let third: usize = if i3 == 0 {
        assert(n1 * n2 * i3 == 0) by (nonlinear_arith)
            requires
                i3 == 0,
        ;
        0
    } else {
        assert(n1 * n2 * i3 >= n1 * n2) by (nonlinear_arith)
            requires
                i3 >= 1,
        ;
        match n1.checked_mul(n2) {
            Some(p) => match p.checked_mul(i3) {
                Some(v) => v,
                None => {
                    return None;
                },
            },
            None => {
                return None;
            },
        }
    };
    assert(third == n1 * n2 * i3);
    match i1.checked_add(second) {
        Some(s) => s.checked_add(third),
        None => None,
    }
}

/// The plane-index calculator: the position that the selected plane has in
/// the single file's linear sequence of planes, by the pixel set's axis sizes
/// and dimension order.
///
/// A dimension order that is none of the six known ones is an error, and so
/// is an index too large for a machine word. The selection is not held to
/// the axis sizes: one beyond them gives the index that the formula gives.
pub fn get_relative_ifd_index(selection: Selection, pixels: &Pixels) -> (index: Result<
    usize,
    CompanionError,
>)
    ensures
        index == relative_ifd_index(selection, pixels@),
        dimension_order_of(pixels@.dimension_order).is_none() <==> index == Err::<
            usize,
            CompanionError,
        >(CompanionError::InvalidDimensionOrder),
{
    let order = match parse_dimension_order(pixels.dimension_order.as_str()) {
        Some(order) => order,
        None => {
            return Err(CompanionError::InvalidDimensionOrder);
        },
    };
    let Selection { t, z, c } = selection;
    let size_z: usize = pixels.size_z;
    let size_c: usize = pixels.size_c;
    let size_t: usize = pixels.size_t;
    let found = match order {
        DimensionOrder::XYZCT => checked_linear_index(z, size_z, c, size_c, t),
        DimensionOrder::XYZTC => checked_linear_index(z, size_z, t, size_t, c),
        DimensionOrder::XYCTZ => checked_linear_index(c, size_c, t, size_t, z),
        DimensionOrder::XYCZT => checked_linear_index(c, size_c, z, size_z, t),
        DimensionOrder::XYTCZ => checked_linear_index(t, size_t, c, size_c, z),
        DimensionOrder::XYTZC => checked_linear_index(t, size_t, z, size_z, c),
    };
    match found {
        Some(index) => Ok(index),
        None => Err(CompanionError::IndexOverflow),
    }
}

} // verus!
