//! The decimal exponent laws checked chunk by chunk for the binary
//! exponents below zero.

use vstd::prelude::*;

use crate::decimal_exponents::{log_boundary_powers, log_chunk_down, log_walk_down};

verus! {

pub(crate) proof fn log_chunk_down_0()
    by (nonlinear_arith)
    ensures
        log_chunk_down(0, -45),
{
    reveal(log_chunk_down);
    reveal_with_fuel(log_walk_down, 46);
}

pub(crate) proof fn log_chunk_down_1()
    by (nonlinear_arith)
    ensures
        log_chunk_down(-45, -90),
{
    reveal(log_chunk_down);
    reveal_with_fuel(log_walk_down, 46);
}

pub(crate) proof fn log_chunk_down_2()
    by (nonlinear_arith)
    ensures
        log_chunk_down(-90, -135),
{
    reveal(log_chunk_down);
    reveal_with_fuel(log_walk_down, 46);
}

pub(crate) proof fn log_chunk_down_3()
    by (nonlinear_arith)
    ensures
        log_chunk_down(-135, -180),
{
    reveal(log_chunk_down);
    reveal_with_fuel(log_walk_down, 46);
}

pub(crate) proof fn log_chunk_down_4()
    by (nonlinear_arith)
    ensures
        log_chunk_down(-180, -225),
{
    reveal(log_chunk_down);
    reveal_with_fuel(log_walk_down, 46);
}

pub(crate) proof fn log_chunk_down_5()
    by (nonlinear_arith)
    ensures
        log_chunk_down(-225, -270),
{
    reveal(log_chunk_down);
    reveal_with_fuel(log_walk_down, 46);
}

pub(crate) proof fn log_chunk_down_6()
    by (nonlinear_arith)
    ensures
        log_chunk_down(-270, -315),
{
    reveal(log_chunk_down);
    reveal_with_fuel(log_walk_down, 46);
}

pub(crate) proof fn log_chunk_down_7()
    by (nonlinear_arith)
    ensures
        log_chunk_down(-315, -360),
{
    reveal(log_chunk_down);
    reveal_with_fuel(log_walk_down, 46);
}

pub(crate) proof fn log_chunk_down_8()
    by (nonlinear_arith)
    ensures
        log_chunk_down(-360, -405),
{
    reveal(log_chunk_down);
    reveal_with_fuel(log_walk_down, 46);
}

pub(crate) proof fn log_chunk_down_9()
    by (nonlinear_arith)
    ensures
        log_chunk_down(-405, -450),
{
    reveal(log_chunk_down);
    reveal_with_fuel(log_walk_down, 46);
}

pub(crate) proof fn log_chunk_down_10()
    by (nonlinear_arith)
    ensures
        log_chunk_down(-450, -495),
{
    reveal(log_chunk_down);
    reveal_with_fuel(log_walk_down, 46);
}

pub(crate) proof fn log_chunk_down_11()
    by (nonlinear_arith)
    ensures
        log_chunk_down(-495, -540),
{
    reveal(log_chunk_down);
    reveal_with_fuel(log_walk_down, 46);
}

pub(crate) proof fn log_chunk_down_12()
    by (nonlinear_arith)
    ensures
        log_chunk_down(-540, -585),
{
    reveal(log_chunk_down);
    reveal_with_fuel(log_walk_down, 46);
}

pub(crate) proof fn log_chunk_down_13()
    by (nonlinear_arith)
    ensures
        log_chunk_down(-585, -630),
{
    reveal(log_chunk_down);
    reveal_with_fuel(log_walk_down, 46);
}

pub(crate) proof fn log_chunk_down_14()
    by (nonlinear_arith)
    ensures
        log_chunk_down(-630, -675),
{
    reveal(log_chunk_down);
    reveal_with_fuel(log_walk_down, 46);
}

pub(crate) proof fn log_chunk_down_15()
    by (nonlinear_arith)
    ensures
        log_chunk_down(-675, -720),
{
    reveal(log_chunk_down);
    reveal_with_fuel(log_walk_down, 46);
}

pub(crate) proof fn log_chunk_down_16()
    by (nonlinear_arith)
    ensures
        log_chunk_down(-720, -765),
{
    reveal(log_chunk_down);
    reveal_with_fuel(log_walk_down, 46);
}

pub(crate) proof fn log_chunk_down_17()
    by (nonlinear_arith)
    ensures
        log_chunk_down(-765, -810),
{
    reveal(log_chunk_down);
    reveal_with_fuel(log_walk_down, 46);
}

pub(crate) proof fn log_chunk_down_18()
    by (nonlinear_arith)
    ensures
        log_chunk_down(-810, -855),
{
    reveal(log_chunk_down);
    reveal_with_fuel(log_walk_down, 46);
}

pub(crate) proof fn log_chunk_down_19()
    by (nonlinear_arith)
    ensures
        log_chunk_down(-855, -900),
{
    reveal(log_chunk_down);
    reveal_with_fuel(log_walk_down, 46);
}

pub(crate) proof fn log_chunk_down_20()
    by (nonlinear_arith)
    ensures
        log_chunk_down(-900, -945),
{
    reveal(log_chunk_down);
    reveal_with_fuel(log_walk_down, 46);
}

pub(crate) proof fn log_chunk_down_21()
    by (nonlinear_arith)
    ensures
        log_chunk_down(-945, -990),
{
    reveal(log_chunk_down);
    reveal_with_fuel(log_walk_down, 46);
}

pub(crate) proof fn log_chunk_down_22()
    by (nonlinear_arith)
    ensures
        log_chunk_down(-990, -1035),
{
    reveal(log_chunk_down);
    reveal_with_fuel(log_walk_down, 46);
}

pub(crate) proof fn log_chunk_down_23()
    by (nonlinear_arith)
    ensures
        log_chunk_down(-1035, -1075),
{
    reveal(log_chunk_down);
    reveal_with_fuel(log_walk_down, 41);
}

} // verus!
