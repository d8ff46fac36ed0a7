//! The table laws checked chunk by chunk for the decimal exponents below
//! zero.

use vstd::prelude::*;

use crate::exponents::{table_boundary_powers, table_chunk_down, walk_down};

verus! {

pub(crate) proof fn table_chunk_down_0()
    by (nonlinear_arith)
    ensures
        table_chunk_down(0, -45),
{
    reveal(table_chunk_down);
    reveal_with_fuel(walk_down, 46);
}

pub(crate) proof fn table_chunk_down_1()
    by (nonlinear_arith)
    ensures
        table_chunk_down(-45, -90),
{
    reveal(table_chunk_down);
    reveal_with_fuel(walk_down, 46);
}

pub(crate) proof fn table_chunk_down_2()
    by (nonlinear_arith)
    ensures
        table_chunk_down(-90, -135),
{
    reveal(table_chunk_down);
    reveal_with_fuel(walk_down, 46);
}

pub(crate) proof fn table_chunk_down_3()
    by (nonlinear_arith)
    ensures
        table_chunk_down(-135, -180),
{
    reveal(table_chunk_down);
    reveal_with_fuel(walk_down, 46);
}

pub(crate) proof fn table_chunk_down_4()
    by (nonlinear_arith)
    ensures
        table_chunk_down(-180, -225),
{
    reveal(table_chunk_down);
    reveal_with_fuel(walk_down, 46);
}

pub(crate) proof fn table_chunk_down_5()
    by (nonlinear_arith)
    ensures
        table_chunk_down(-225, -270),
{
    reveal(table_chunk_down);
    reveal_with_fuel(walk_down, 46);
}

pub(crate) proof fn table_chunk_down_6()
    by (nonlinear_arith)
    ensures
        table_chunk_down(-270, -315),
{
    reveal(table_chunk_down);
    reveal_with_fuel(walk_down, 46);
}

pub(crate) proof fn table_chunk_down_7()
    by (nonlinear_arith)
    ensures
        table_chunk_down(-315, -325),
{
    reveal(table_chunk_down);
    reveal_with_fuel(walk_down, 11);
}

} // verus!
