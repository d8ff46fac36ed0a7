//! The decimal exponent formula computes floors of logarithms.

use vstd::prelude::*;

use crate::decimal_exponents_below::{
    log_chunk_down_0, log_chunk_down_1, log_chunk_down_2, log_chunk_down_3, log_chunk_down_4,
    log_chunk_down_5, log_chunk_down_6, log_chunk_down_7, log_chunk_down_8, log_chunk_down_9,
    log_chunk_down_10, log_chunk_down_11, log_chunk_down_12, log_chunk_down_13, log_chunk_down_14,
    log_chunk_down_15, log_chunk_down_16, log_chunk_down_17, log_chunk_down_18, log_chunk_down_19,
    log_chunk_down_20, log_chunk_down_21, log_chunk_down_22, log_chunk_down_23,
};

use crate::digits::pow10;
use crate::exponents::{lemma_pow_bases, lemma_scaled, magnitude, pos, pow2_of, scaled_le, scaled_lt};
use crate::table::decimal_exponent;

verus! {

/// `decimal_exponent(bin_exp, true)` is `floor(log10(2^bin_exp))`:
/// `10^d <= 2^bin_exp < 10^(d + 1)`.
pub open spec fn is_floor_log10_pow2(bin_exp: int) -> bool {
    let d = decimal_exponent(bin_exp, true);
    scaled_le(1, 0, d, 1, bin_exp, 0) && scaled_lt(1, bin_exp, 0, 1, 0, d + 1)
}

/// `decimal_exponent(bin_exp, false)` is `floor(log10(3/4 * 2^bin_exp))`:
/// `4 * 10^d <= 3 * 2^bin_exp < 40 * 10^d`.
pub open spec fn is_floor_log10_three_quarters_pow2(bin_exp: int) -> bool {
    let d = decimal_exponent(bin_exp, false);
    scaled_le(4, 0, d, 3, bin_exp, 0) && scaled_lt(3, bin_exp, 0, 40, 0, d)
}

/// `p2`, `r` and `q` are `2^|e|`, `10^|dr|` and `10^|di|` for the decimal
/// exponents `dr` and `di` of `e`.
pub open spec fn log_powers_at(e: int, p2: int, r: int, q: int) -> bool {
    &&& p2 == pow2_of(magnitude(e) as nat)
    &&& r == pow10(magnitude(decimal_exponent(e, true)) as nat)
    &&& q == pow10(magnitude(decimal_exponent(e, false)) as nat)
}

/// Both laws at `e`, on `p2 == 2^|e|`, `r == 10^|dr|` and `q == 10^|di|`.
pub open spec fn log_check(e: int, p2: int, r: int, q: int) -> bool {
    let dr = decimal_exponent(e, true);
    let di = decimal_exponent(e, false);
    &&& (e >= 0 ==> dr >= 0 && r <= p2 && p2 < 10 * r)
    &&& (e < 0 ==> dr < 0 && p2 <= r && r < 10 * p2)
    &&& (e >= 0 && di >= 0 ==> 4 * q <= 3 * p2 && 3 * p2 < 40 * q)
    &&& (e >= 0 && di < 0 ==> e == 0 && di == -1)
    &&& (e < 0 ==> di < 0 && 4 * p2 <= 3 * q && 3 * q < 40 * p2)
}

/// `10^|a1|` from `x == 10^|a|`, for `a` and `a1` at most one apart.
pub open spec fn step10(a: int, a1: int, x: int) -> int {
    if magnitude(a1) == magnitude(a) {
        x
    } else if magnitude(a1) > magnitude(a) {
        x * 10
    } else {
        x / 10
    }
}

/// The decimal exponents of `e` and `e1` differ by at most one.
pub open spec fn unit_step(e: int, e1: int) -> bool {
    &&& magnitude(decimal_exponent(e1, true) - decimal_exponent(e, true)) <= 1
    &&& magnitude(decimal_exponent(e1, false) - decimal_exponent(e, false)) <= 1
}

/// The powers at `e1`, one step from `e`.
pub open spec fn next_p2(e: int, e1: int, p2: int) -> int {
    if magnitude(e1) > magnitude(e) {
        p2 * 2
    } else {
        p2 / 2
    }
}

/// `log_check` at every `e` in `e..hi`, carrying the powers upward; the
/// powers reached at `hi` are `(f2, fr, fq)`.
pub open spec fn log_walk_up(e: int, hi: int, p2: int, r: int, q: int, f2: int, fr: int, fq: int) -> bool
    decreases hi - e,
{
    if e >= hi {
        p2 == f2 && r == fr && q == fq
    } else {
        &&& log_check(e, p2, r, q)
        &&& unit_step(e, e + 1)
        &&& log_walk_up(
            e + 1,
            hi,
            next_p2(e, e + 1, p2),
            step10(decimal_exponent(e, true), decimal_exponent(e + 1, true), r),
            step10(decimal_exponent(e, false), decimal_exponent(e + 1, false), q),
            f2,
            fr,
            fq,
        )
    }
}

/// `log_check` at every `e` in `lo + 1..=e`, carrying the powers downward;
/// the powers reached at `lo` are `(f2, fr, fq)`.
pub open spec fn log_walk_down(e: int, lo: int, p2: int, r: int, q: int, f2: int, fr: int, fq: int) -> bool
    decreases e - lo,
{
    if e <= lo {
        p2 == f2 && r == fr && q == fq
    } else {
        &&& log_check(e, p2, r, q)
        &&& unit_step(e, e - 1)
        &&& log_walk_down(
            e - 1,
            lo,
            next_p2(e, e - 1, p2),
            step10(decimal_exponent(e, true), decimal_exponent(e - 1, true), r),
            step10(decimal_exponent(e, false), decimal_exponent(e - 1, false), q),
            f2,
            fr,
            fq,
        )
    }
}

/// The powers of ten one step apart.
proof fn lemma_step10(a: int, a1: int)
    requires
        magnitude(a1 - a) <= 1,
    ensures
        step10(a, a1, pow10(magnitude(a) as nat) as int) == pow10(magnitude(a1) as nat),
{
    let m = magnitude(a) as nat;
    let m1 = magnitude(a1) as nat;
    if m1 > m {
        assert(pow10(m1) == 10 * pow10(m));
    } else if m1 < m {
        assert(pow10(m) == 10 * pow10(m1));
    }
}

/// The powers at the neighbour `e1` of `e` from those at `e`.
proof fn lemma_log_powers_step(e: int, e1: int, p2: int, r: int, q: int)
    requires
        log_powers_at(e, p2, r, q),
        unit_step(e, e1),
        e1 == e + 1 || e1 == e - 1,
    ensures
        log_powers_at(
            e1,
            next_p2(e, e1, p2),
            step10(decimal_exponent(e, true), decimal_exponent(e1, true), r),
            step10(decimal_exponent(e, false), decimal_exponent(e1, false), q),
        ),
{
    lemma_step10(decimal_exponent(e, true), decimal_exponent(e1, true));
    lemma_step10(decimal_exponent(e, false), decimal_exponent(e1, false));
    if magnitude(e1) > magnitude(e) {
        assert(pow2_of(magnitude(e1) as nat) == 2 * pow2_of(magnitude(e) as nat));
    } else {
        assert(pow2_of(magnitude(e) as nat) == 2 * pow2_of(magnitude(e1) as nat));
    }
}

/// Both laws at `e` from `log_check` on the powers.
proof fn lemma_log_law_at(e: int, p2: int, r: int, q: int)
    requires
        log_check(e, p2, r, q),
        log_powers_at(e, p2, r, q),
    ensures
        is_floor_log10_pow2(e),
        is_floor_log10_three_quarters_pow2(e),
{
    lemma_pow_bases();
    let dr = decimal_exponent(e, true);
    let di = decimal_exponent(e, false);
    if e >= 0 {
        assert(pow10((dr + 1) as nat) == 10 * pow10(dr as nat));
        lemma_scaled(1, 0, dr, 1, e, 0, 1, r, p2, 1);
        lemma_scaled(1, e, 0, 1, 0, dr + 1, p2, 1, 1, 10 * r);
        assert(1 * 1 * r <= 1 * p2 * 1 && 1 * p2 * 1 < 1 * 1 * (10 * r)) by (nonlinear_arith)
            requires
                r <= p2,
                p2 < 10 * r,
        ;
        if di >= 0 {
            lemma_scaled(4, 0, di, 3, e, 0, 1, q, p2, 1);
            lemma_scaled(3, e, 0, 40, 0, di, p2, 1, 1, q);
            assert(4 * 1 * q <= 3 * p2 * 1 && 3 * p2 * 1 < 40 * 1 * q) by (nonlinear_arith)
                requires
                    4 * q <= 3 * p2,
                    3 * p2 < 40 * q,
            ;
        } else {
            assert(pow10(1) == 10);
            lemma_scaled(4, 0, di, 3, e, 0, 1, 1, 1, 10);
            lemma_scaled(3, e, 0, 40, 0, di, 1, 10, 1, 1);
        }
    } else {
        let m = (magnitude(dr) - 1) as nat;
        assert(pow10(magnitude(dr) as nat) == 10 * pow10(m));
        lemma_scaled(1, 0, dr, 1, e, 0, p2, 1, 1, r);
        lemma_scaled(1, e, 0, 1, 0, dr + 1, 1, pow10(m) as int, p2, 1);
        assert(1 * p2 * 1 <= 1 * 1 * r) by (nonlinear_arith)
            requires
                p2 <= r,
        ;
        assert(1 * 1 * (pow10(m) as int) < 1 * p2 * 1) by (nonlinear_arith)
            requires
                r < 10 * p2,
                r == 10 * pow10(m),
        ;
        lemma_scaled(4, 0, di, 3, e, 0, p2, 1, 1, q);
        lemma_scaled(3, e, 0, 40, 0, di, 1, q, p2, 1);
        assert(4 * p2 * 1 <= 3 * 1 * q && 3 * 1 * q < 40 * p2 * 1) by (nonlinear_arith)
            requires
                4 * p2 <= 3 * q,
                3 * q < 40 * p2,
        ;
    }
}

/// `log_walk_up` gives both laws at every step and the powers at its end.
proof fn lemma_log_walk_up(e: int, hi: int, p2: int, r: int, q: int, f2: int, fr: int, fq: int)
    requires
        log_walk_up(e, hi, p2, r, q, f2, fr, fq),
        log_powers_at(e, p2, r, q),
    ensures
        forall|e2: int|
            e <= e2 < hi ==> is_floor_log10_pow2(e2) && is_floor_log10_three_quarters_pow2(e2),
        log_powers_at(hi, f2, fr, fq) || hi < e,
    decreases hi - e,
{
    if e < hi {
        lemma_log_law_at(e, p2, r, q);
        lemma_log_powers_step(e, e + 1, p2, r, q);
        lemma_log_walk_up(
            e + 1,
            hi,
            next_p2(e, e + 1, p2),
            step10(decimal_exponent(e, true), decimal_exponent(e + 1, true), r),
            step10(decimal_exponent(e, false), decimal_exponent(e + 1, false), q),
            f2,
            fr,
            fq,
        );
    }
}

/// `log_walk_down` gives both laws at every step and the powers at its end.
proof fn lemma_log_walk_down(e: int, lo: int, p2: int, r: int, q: int, f2: int, fr: int, fq: int)
    requires
        log_walk_down(e, lo, p2, r, q, f2, fr, fq),
        log_powers_at(e, p2, r, q),
    ensures
        forall|e2: int|
            lo < e2 <= e ==> is_floor_log10_pow2(e2) && is_floor_log10_three_quarters_pow2(e2),
        log_powers_at(lo, f2, fr, fq) || lo > e,
    decreases e - lo,
{
    if e > lo {
        lemma_log_law_at(e, p2, r, q);
        lemma_log_powers_step(e, e - 1, p2, r, q);
        lemma_log_walk_down(
            e - 1,
            lo,
            next_p2(e, e - 1, p2),
            step10(decimal_exponent(e, true), decimal_exponent(e - 1, true), r),
            step10(decimal_exponent(e, false), decimal_exponent(e - 1, false), q),
            f2,
            fr,
            fq,
        );
    }
}

/// `(2^|e|, 10^|dr|, 10^|di|)` at the ends of the chunks that the laws are
/// checked in, written out; zeros elsewhere.
pub open spec fn log_boundary_powers(e: int) -> (int, int, int) {
    if e == -1075 {
        (
            404804506614621236704990693437834614099113299528284236713802716054860679135990693783920767402874248990374155728633623822779617474771586953734026799881477019843034848553132722728933815484186432682479535356945490137124014966849385397236206711298319112681620113024717539104666829230461005064372655017292012526615415482186989568int,
            1000000000000000000000000000000000000000000000000000000000000000000000000000000000000000000000000000000000000000000000000000000000000000000000000000000000000000000000000000000000000000000000000000000000000000000000000000000000000000000000000000000000000000000000000000000000000000000000000000000000000000000000000000000000000int,
            1000000000000000000000000000000000000000000000000000000000000000000000000000000000000000000000000000000000000000000000000000000000000000000000000000000000000000000000000000000000000000000000000000000000000000000000000000000000000000000000000000000000000000000000000000000000000000000000000000000000000000000000000000000000000int,
        )
    }     else if e == -1035 {
        (
            368167554019802297902961703073592265444961685287384386095984806211036520049665972495786961556290633771253993225976613596485201446531925242865351537949643006725668645734124513845866945743352000756639913885870091814580532597437363981258574050387614181710541845882032738795411959682006458992302809763070411033018368int,
            1000000000000000000000000000000000000000000000000000000000000000000000000000000000000000000000000000000000000000000000000000000000000000000000000000000000000000000000000000000000000000000000000000000000000000000000000000000000000000000000000000000000000000000000000000000000000000000000000000000000000000000000000int,
            1000000000000000000000000000000000000000000000000000000000000000000000000000000000000000000000000000000000000000000000000000000000000000000000000000000000000000000000000000000000000000000000000000000000000000000000000000000000000000000000000000000000000000000000000000000000000000000000000000000000000000000000000int,
        )
    }     else if e == -990 {
        (
            10463951242053391806136963369726580181263718864311851635192874886429209483641954321222640418122029864527291727710479949464718215680589004332016189037791576956967351342601788071700268169006221818240189631008834448226154239518944108944497601509840881752510934060240763835605888507473266002770708660224int,
            100000000000000000000000000000000000000000000000000000000000000000000000000000000000000000000000000000000000000000000000000000000000000000000000000000000000000000000000000000000000000000000000000000000000000000000000000000000000000000000000000000000000000000000000000000000000000000000000000000000000int,
            100000000000000000000000000000000000000000000000000000000000000000000000000000000000000000000000000000000000000000000000000000000000000000000000000000000000000000000000000000000000000000000000000000000000000000000000000000000000000000000000000000000000000000000000000000000000000000000000000000000000int,
        )
    }     else if e == -945 {
        (
            297403381695556612559612499629980112026252040331878891811154371863188131432080874709033662899231270117959744758038594610090917049108981141558166116220478925156594168089491974788537281966859547374047839156470287441213549741375576017631419788069731616602409021090828782564753069762936832int,
            1000000000000000000000000000000000000000000000000000000000000000000000000000000000000000000000000000000000000000000000000000000000000000000000000000000000000000000000000000000000000000000000000000000000000000000000000000000000000000000000000000000000000000000000000000000000000000000000int,
            1000000000000000000000000000000000000000000000000000000000000000000000000000000000000000000000000000000000000000000000000000000000000000000000000000000000000000000000000000000000000000000000000000000000000000000000000000000000000000000000000000000000000000000000000000000000000000000000int,
        )
    }     else if e == -900 {
        (
            8452712498170643941637436558664265704301557216577944354047371344426782440907597751590676094202515006314790319892114058862117560952042968596008623655407033230534186943984081346699704282822823056848387726531379014466368452684024987821414350380272583623832617294363807973376int,
            10000000000000000000000000000000000000000000000000000000000000000000000000000000000000000000000000000000000000000000000000000000000000000000000000000000000000000000000000000000000000000000000000000000000000000000000000000000000000000000000000000000000000000000000000000000int,
            100000000000000000000000000000000000000000000000000000000000000000000000000000000000000000000000000000000000000000000000000000000000000000000000000000000000000000000000000000000000000000000000000000000000000000000000000000000000000000000000000000000000000000000000000000000int,
        )
    }     else if e == -855 {
        (
            240240538521750407359077046256296219561976306993584113173692780504404210003815414654317126354570604187153728613910574803813846101321671784376366749012476965121271261522908882474772107196452653194239352573372884036938570849429907747816467644391667125314387968int,
            1000000000000000000000000000000000000000000000000000000000000000000000000000000000000000000000000000000000000000000000000000000000000000000000000000000000000000000000000000000000000000000000000000000000000000000000000000000000000000000000000000000000000000000int,
            1000000000000000000000000000000000000000000000000000000000000000000000000000000000000000000000000000000000000000000000000000000000000000000000000000000000000000000000000000000000000000000000000000000000000000000000000000000000000000000000000000000000000000000int,
        )
    }     else if e == -810 {
        (
            6828046779268970776657768233698567984276232522051489956245767999246374131525255241237946573692471593720760228447675638216590132893818229842292076597586769967201441361422350907866192164773697561322460176523147880429251325990375896362151810433024int,
            10000000000000000000000000000000000000000000000000000000000000000000000000000000000000000000000000000000000000000000000000000000000000000000000000000000000000000000000000000000000000000000000000000000000000000000000000000000000000000000000000000int,
            10000000000000000000000000000000000000000000000000000000000000000000000000000000000000000000000000000000000000000000000000000000000000000000000000000000000000000000000000000000000000000000000000000000000000000000000000000000000000000000000000000int,
        )
    }     else if e == -765 {
        (
            194064761537588616893622436057812819407110752139587076392381504753256369085797110791359801103580809743810966337141384150771447505514351798930535909380147642400556872002606238193783160703949805603157874899214558593861605856727007232int,
            1000000000000000000000000000000000000000000000000000000000000000000000000000000000000000000000000000000000000000000000000000000000000000000000000000000000000000000000000000000000000000000000000000000000000000000000000000000000000000int,
            1000000000000000000000000000000000000000000000000000000000000000000000000000000000000000000000000000000000000000000000000000000000000000000000000000000000000000000000000000000000000000000000000000000000000000000000000000000000000000int,
        )
    }     else if e == -720 {
        (
            5515652263101987298728728207430913795608113109085112352897269396216198887424215820128660001943808587833784893551335930816647064191168732319583111500951066614122648616177179922993422016587311577585463592732098692120576int,
            10000000000000000000000000000000000000000000000000000000000000000000000000000000000000000000000000000000000000000000000000000000000000000000000000000000000000000000000000000000000000000000000000000000000000000000000000int,
            10000000000000000000000000000000000000000000000000000000000000000000000000000000000000000000000000000000000000000000000000000000000000000000000000000000000000000000000000000000000000000000000000000000000000000000000000int,
        )
    }     else if e == -675 {
        (
            156764265941034957982331212844852467344711417043899710759469297619722251722129607859661177881884230709880082871203965476543290384119266386721367084105368877945996036265148061460008137163052639879920877568int,
            1000000000000000000000000000000000000000000000000000000000000000000000000000000000000000000000000000000000000000000000000000000000000000000000000000000000000000000000000000000000000000000000000000000000000int,
            1000000000000000000000000000000000000000000000000000000000000000000000000000000000000000000000000000000000000000000000000000000000000000000000000000000000000000000000000000000000000000000000000000000000000int,
        )
    }     else if e == -630 {
        (
            4455508415646675018204269146191690746966043464109921807206242693261010905477224010259680479802120507596330380442963288389344438204468201170168614570041224793214838549179946240315306828365824int,
            10000000000000000000000000000000000000000000000000000000000000000000000000000000000000000000000000000000000000000000000000000000000000000000000000000000000000000000000000000000000000000000000int,
            10000000000000000000000000000000000000000000000000000000000000000000000000000000000000000000000000000000000000000000000000000000000000000000000000000000000000000000000000000000000000000000000int,
        )
    }     else if e == -585 {
        (
            126633165554229521438977290762059361297987250739820462036000284719563379254544315991201997343356439034674007770120263341747898897565056619503383631412169301973302667340133957632int,
            1000000000000000000000000000000000000000000000000000000000000000000000000000000000000000000000000000000000000000000000000000000000000000000000000000000000000000000000000000000000int,
            1000000000000000000000000000000000000000000000000000000000000000000000000000000000000000000000000000000000000000000000000000000000000000000000000000000000000000000000000000000000int,
        )
    }     else if e == -540 {
        (
            3599131035634557106248430806148785487095757694641533306480604458089470064537190296255232548883112685719936728506816716098566612844395439751206812144692131084107776int,
            10000000000000000000000000000000000000000000000000000000000000000000000000000000000000000000000000000000000000000000000000000000000000000000000000000000000000000000int,
            10000000000000000000000000000000000000000000000000000000000000000000000000000000000000000000000000000000000000000000000000000000000000000000000000000000000000000000int,
        )
    }     else if e == -495 {
        (
            102293456496754433437912178025862473506770063938845774671352855253004181137646079840102190385184504910965208878986252219038039267058918532916516487168int,
            1000000000000000000000000000000000000000000000000000000000000000000000000000000000000000000000000000000000000000000000000000000000000000000000000000000int,
            1000000000000000000000000000000000000000000000000000000000000000000000000000000000000000000000000000000000000000000000000000000000000000000000000000000int,
        )
    }     else if e == -450 {
        (
            2907354897182427562197295231552018137414565442749272241125960796722557152453591693304764202855054262243050086425064711734138406514458624int,
            10000000000000000000000000000000000000000000000000000000000000000000000000000000000000000000000000000000000000000000000000000000000000000int,
            10000000000000000000000000000000000000000000000000000000000000000000000000000000000000000000000000000000000000000000000000000000000000000int,
        )
    }     else if e == -405 {
        (
            82631996098781074868989413504096379978550585370535152410581099409300723904538918228148651304964410605948901503127919788032int,
            100000000000000000000000000000000000000000000000000000000000000000000000000000000000000000000000000000000000000000000000000int,
            1000000000000000000000000000000000000000000000000000000000000000000000000000000000000000000000000000000000000000000000000000int,
        )
    }     else if e == -360 {
        (
            2348542582773833227889480596789337027375682548908319870707290971532209025114608443463698998384768703031934976int,
            10000000000000000000000000000000000000000000000000000000000000000000000000000000000000000000000000000000000000int,
            10000000000000000000000000000000000000000000000000000000000000000000000000000000000000000000000000000000000000int,
        )
    }     else if e == -315 {
        (
            66749594872528440074844428317798503581334516323645399060845050244444366430645017188217565216768int,
            100000000000000000000000000000000000000000000000000000000000000000000000000000000000000000000000int,
            100000000000000000000000000000000000000000000000000000000000000000000000000000000000000000000000int,
        )
    }     else if e == -270 {
        (
            1897137590064188545819787018382342682267975428761855001222473056385648716020711424int,
            10000000000000000000000000000000000000000000000000000000000000000000000000000000000int,
            10000000000000000000000000000000000000000000000000000000000000000000000000000000000int,
        )
    }     else if e == -225 {
        (
            53919893334301279589334030174039261347274288845081144962207220498432int,
            100000000000000000000000000000000000000000000000000000000000000000000int,
            100000000000000000000000000000000000000000000000000000000000000000000int,
        )
    }     else if e == -180 {
        (
            1532495540865888858358347027150309183618739122183602176int,
            10000000000000000000000000000000000000000000000000000000int,
            10000000000000000000000000000000000000000000000000000000int,
        )
    }     else if e == -135 {
        (
            43556142965880123323311949751266331066368int,
            100000000000000000000000000000000000000000int,
            100000000000000000000000000000000000000000int,
        )
    }     else if e == -90 {
        (
            1237940039285380274899124224int,
            10000000000000000000000000000int,
            10000000000000000000000000000int,
        )
    }     else if e == -45 {
        (
            35184372088832int,
            100000000000000int,
            100000000000000int,
        )
    }     else if e == 0 {
        (
            1int,
            1int,
            10int,
        )
    }     else if e == 45 {
        (
            35184372088832int,
            10000000000000int,
            10000000000000int,
        )
    }     else if e == 90 {
        (
            1237940039285380274899124224int,
            1000000000000000000000000000int,
            100000000000000000000000000int,
        )
    }     else if e == 135 {
        (
            43556142965880123323311949751266331066368int,
            10000000000000000000000000000000000000000int,
            10000000000000000000000000000000000000000int,
        )
    }     else if e == 180 {
        (
            1532495540865888858358347027150309183618739122183602176int,
            1000000000000000000000000000000000000000000000000000000int,
            1000000000000000000000000000000000000000000000000000000int,
        )
    }     else if e == 225 {
        (
            53919893334301279589334030174039261347274288845081144962207220498432int,
            10000000000000000000000000000000000000000000000000000000000000000000int,
            10000000000000000000000000000000000000000000000000000000000000000000int,
        )
    }     else if e == 270 {
        (
            1897137590064188545819787018382342682267975428761855001222473056385648716020711424int,
            1000000000000000000000000000000000000000000000000000000000000000000000000000000000int,
            1000000000000000000000000000000000000000000000000000000000000000000000000000000000int,
        )
    }     else if e == 315 {
        (
            66749594872528440074844428317798503581334516323645399060845050244444366430645017188217565216768int,
            10000000000000000000000000000000000000000000000000000000000000000000000000000000000000000000000int,
            10000000000000000000000000000000000000000000000000000000000000000000000000000000000000000000000int,
        )
    }     else if e == 360 {
        (
            2348542582773833227889480596789337027375682548908319870707290971532209025114608443463698998384768703031934976int,
            1000000000000000000000000000000000000000000000000000000000000000000000000000000000000000000000000000000000000int,
            1000000000000000000000000000000000000000000000000000000000000000000000000000000000000000000000000000000000000int,
        )
    }     else if e == 405 {
        (
            82631996098781074868989413504096379978550585370535152410581099409300723904538918228148651304964410605948901503127919788032int,
            10000000000000000000000000000000000000000000000000000000000000000000000000000000000000000000000000000000000000000000000000int,
            10000000000000000000000000000000000000000000000000000000000000000000000000000000000000000000000000000000000000000000000000int,
        )
    }     else if e == 450 {
        (
            2907354897182427562197295231552018137414565442749272241125960796722557152453591693304764202855054262243050086425064711734138406514458624int,
            1000000000000000000000000000000000000000000000000000000000000000000000000000000000000000000000000000000000000000000000000000000000000000int,
            1000000000000000000000000000000000000000000000000000000000000000000000000000000000000000000000000000000000000000000000000000000000000000int,
        )
    }     else if e == 495 {
        (
            102293456496754433437912178025862473506770063938845774671352855253004181137646079840102190385184504910965208878986252219038039267058918532916516487168int,
            100000000000000000000000000000000000000000000000000000000000000000000000000000000000000000000000000000000000000000000000000000000000000000000000000000int,
            10000000000000000000000000000000000000000000000000000000000000000000000000000000000000000000000000000000000000000000000000000000000000000000000000000int,
        )
    }     else if e == 540 {
        (
            3599131035634557106248430806148785487095757694641533306480604458089470064537190296255232548883112685719936728506816716098566612844395439751206812144692131084107776int,
            1000000000000000000000000000000000000000000000000000000000000000000000000000000000000000000000000000000000000000000000000000000000000000000000000000000000000000000int,
            1000000000000000000000000000000000000000000000000000000000000000000000000000000000000000000000000000000000000000000000000000000000000000000000000000000000000000000int,
        )
    }     else if e == 585 {
        (
            126633165554229521438977290762059361297987250739820462036000284719563379254544315991201997343356439034674007770120263341747898897565056619503383631412169301973302667340133957632int,
            100000000000000000000000000000000000000000000000000000000000000000000000000000000000000000000000000000000000000000000000000000000000000000000000000000000000000000000000000000000int,
            10000000000000000000000000000000000000000000000000000000000000000000000000000000000000000000000000000000000000000000000000000000000000000000000000000000000000000000000000000000int,
        )
    }     else if e == 630 {
        (
            4455508415646675018204269146191690746966043464109921807206242693261010905477224010259680479802120507596330380442963288389344438204468201170168614570041224793214838549179946240315306828365824int,
            1000000000000000000000000000000000000000000000000000000000000000000000000000000000000000000000000000000000000000000000000000000000000000000000000000000000000000000000000000000000000000000000int,
            1000000000000000000000000000000000000000000000000000000000000000000000000000000000000000000000000000000000000000000000000000000000000000000000000000000000000000000000000000000000000000000000int,
        )
    }     else if e == 675 {
        (
            156764265941034957982331212844852467344711417043899710759469297619722251722129607859661177881884230709880082871203965476543290384119266386721367084105368877945996036265148061460008137163052639879920877568int,
            100000000000000000000000000000000000000000000000000000000000000000000000000000000000000000000000000000000000000000000000000000000000000000000000000000000000000000000000000000000000000000000000000000000000int,
            100000000000000000000000000000000000000000000000000000000000000000000000000000000000000000000000000000000000000000000000000000000000000000000000000000000000000000000000000000000000000000000000000000000000int,
        )
    }     else if e == 720 {
        (
            5515652263101987298728728207430913795608113109085112352897269396216198887424215820128660001943808587833784893551335930816647064191168732319583111500951066614122648616177179922993422016587311577585463592732098692120576int,
            1000000000000000000000000000000000000000000000000000000000000000000000000000000000000000000000000000000000000000000000000000000000000000000000000000000000000000000000000000000000000000000000000000000000000000000000000int,
            1000000000000000000000000000000000000000000000000000000000000000000000000000000000000000000000000000000000000000000000000000000000000000000000000000000000000000000000000000000000000000000000000000000000000000000000000int,
        )
    }     else if e == 765 {
        (
            194064761537588616893622436057812819407110752139587076392381504753256369085797110791359801103580809743810966337141384150771447505514351798930535909380147642400556872002606238193783160703949805603157874899214558593861605856727007232int,
            100000000000000000000000000000000000000000000000000000000000000000000000000000000000000000000000000000000000000000000000000000000000000000000000000000000000000000000000000000000000000000000000000000000000000000000000000000000000000int,
            100000000000000000000000000000000000000000000000000000000000000000000000000000000000000000000000000000000000000000000000000000000000000000000000000000000000000000000000000000000000000000000000000000000000000000000000000000000000000int,
        )
    }     else if e == 810 {
        (
            6828046779268970776657768233698567984276232522051489956245767999246374131525255241237946573692471593720760228447675638216590132893818229842292076597586769967201441361422350907866192164773697561322460176523147880429251325990375896362151810433024int,
            1000000000000000000000000000000000000000000000000000000000000000000000000000000000000000000000000000000000000000000000000000000000000000000000000000000000000000000000000000000000000000000000000000000000000000000000000000000000000000000000000000int,
            1000000000000000000000000000000000000000000000000000000000000000000000000000000000000000000000000000000000000000000000000000000000000000000000000000000000000000000000000000000000000000000000000000000000000000000000000000000000000000000000000000int,
        )
    }     else if e == 855 {
        (
            240240538521750407359077046256296219561976306993584113173692780504404210003815414654317126354570604187153728613910574803813846101321671784376366749012476965121271261522908882474772107196452653194239352573372884036938570849429907747816467644391667125314387968int,
            100000000000000000000000000000000000000000000000000000000000000000000000000000000000000000000000000000000000000000000000000000000000000000000000000000000000000000000000000000000000000000000000000000000000000000000000000000000000000000000000000000000000000000int,
            100000000000000000000000000000000000000000000000000000000000000000000000000000000000000000000000000000000000000000000000000000000000000000000000000000000000000000000000000000000000000000000000000000000000000000000000000000000000000000000000000000000000000000int,
        )
    }     else if e == 900 {
        (
            8452712498170643941637436558664265704301557216577944354047371344426782440907597751590676094202515006314790319892114058862117560952042968596008623655407033230534186943984081346699704282822823056848387726531379014466368452684024987821414350380272583623832617294363807973376int,
            1000000000000000000000000000000000000000000000000000000000000000000000000000000000000000000000000000000000000000000000000000000000000000000000000000000000000000000000000000000000000000000000000000000000000000000000000000000000000000000000000000000000000000000000000000000int,
            1000000000000000000000000000000000000000000000000000000000000000000000000000000000000000000000000000000000000000000000000000000000000000000000000000000000000000000000000000000000000000000000000000000000000000000000000000000000000000000000000000000000000000000000000000000int,
        )
    }     else if e == 945 {
        (
            297403381695556612559612499629980112026252040331878891811154371863188131432080874709033662899231270117959744758038594610090917049108981141558166116220478925156594168089491974788537281966859547374047839156470287441213549741375576017631419788069731616602409021090828782564753069762936832int,
            100000000000000000000000000000000000000000000000000000000000000000000000000000000000000000000000000000000000000000000000000000000000000000000000000000000000000000000000000000000000000000000000000000000000000000000000000000000000000000000000000000000000000000000000000000000000000000000int,
            100000000000000000000000000000000000000000000000000000000000000000000000000000000000000000000000000000000000000000000000000000000000000000000000000000000000000000000000000000000000000000000000000000000000000000000000000000000000000000000000000000000000000000000000000000000000000000000int,
        )
    }     else if e == 972 {
        (
            39916806190694396233127454260736771321349025208709150830050944848744237837379281315699159309852714021786848936883849904879448759767871873214783435965696628406400113459021713530350754428887259743653067134890878479866616209102417407777777105368960883150142418137515120832847169904606880198557696int,
            10000000000000000000000000000000000000000000000000000000000000000000000000000000000000000000000000000000000000000000000000000000000000000000000000000000000000000000000000000000000000000000000000000000000000000000000000000000000000000000000000000000000000000000000000000000000000000000000000000int,
            10000000000000000000000000000000000000000000000000000000000000000000000000000000000000000000000000000000000000000000000000000000000000000000000000000000000000000000000000000000000000000000000000000000000000000000000000000000000000000000000000000000000000000000000000000000000000000000000000000int,
        )
    } else {
        (0, 0, 0)
    }
}

/// `log_walk_up` from `lo` to `hi` between the powers written out for
/// them.
#[verifier::opaque]
pub open spec fn log_chunk_up(lo: int, hi: int) -> bool {
    log_walk_up(lo, hi, log_boundary_powers(lo).0, log_boundary_powers(lo).1, log_boundary_powers(lo).2, log_boundary_powers(hi).0, log_boundary_powers(hi).1, log_boundary_powers(hi).2)
}

/// `log_walk_down` from `hi` down to `lo` between the powers written out
/// for them.
#[verifier::opaque]
pub open spec fn log_chunk_down(hi: int, lo: int) -> bool {
    log_walk_down(hi, lo, log_boundary_powers(hi).0, log_boundary_powers(hi).1, log_boundary_powers(hi).2, log_boundary_powers(lo).0, log_boundary_powers(lo).1, log_boundary_powers(lo).2)
}

/// The laws on `lo..hi` from a chunk whose first powers are right, and the
/// powers at `hi`.
proof fn lemma_log_range_up(lo: int, hi: int)
    requires
        log_chunk_up(lo, hi),
        log_powers_at(lo, log_boundary_powers(lo).0, log_boundary_powers(lo).1, log_boundary_powers(lo).2),
        lo <= hi,
    ensures
        forall|e2: int| lo <= e2 < hi ==> is_floor_log10_pow2(e2) && is_floor_log10_three_quarters_pow2(e2),
        log_powers_at(hi, log_boundary_powers(hi).0, log_boundary_powers(hi).1, log_boundary_powers(hi).2),
{
    reveal(log_chunk_up);
    lemma_log_walk_up(lo, hi, log_boundary_powers(lo).0, log_boundary_powers(lo).1, log_boundary_powers(lo).2, log_boundary_powers(hi).0, log_boundary_powers(hi).1, log_boundary_powers(hi).2);
}

/// The laws on `lo + 1..=hi` from a chunk whose first powers are right, and
/// the powers at `lo`.
proof fn lemma_log_range_down(hi: int, lo: int)
    requires
        log_chunk_down(hi, lo),
        log_powers_at(hi, log_boundary_powers(hi).0, log_boundary_powers(hi).1, log_boundary_powers(hi).2),
        lo <= hi,
    ensures
        forall|e2: int| lo < e2 <= hi ==> is_floor_log10_pow2(e2) && is_floor_log10_three_quarters_pow2(e2),
        log_powers_at(lo, log_boundary_powers(lo).0, log_boundary_powers(lo).1, log_boundary_powers(lo).2),
{
    reveal(log_chunk_down);
    lemma_log_walk_down(hi, lo, log_boundary_powers(hi).0, log_boundary_powers(hi).1, log_boundary_powers(hi).2, log_boundary_powers(lo).0, log_boundary_powers(lo).1, log_boundary_powers(lo).2);
}

proof fn log_chunk_up_0()
    by (nonlinear_arith)
    ensures
        log_chunk_up(0, 45),
{
    reveal(log_chunk_up);
    reveal_with_fuel(log_walk_up, 46);
}

proof fn log_chunk_up_1()
    by (nonlinear_arith)
    ensures
        log_chunk_up(45, 90),
{
    reveal(log_chunk_up);
    reveal_with_fuel(log_walk_up, 46);
}

proof fn log_chunk_up_2()
    by (nonlinear_arith)
    ensures
        log_chunk_up(90, 135),
{
    reveal(log_chunk_up);
    reveal_with_fuel(log_walk_up, 46);
}

proof fn log_chunk_up_3()
    by (nonlinear_arith)
    ensures
        log_chunk_up(135, 180),
{
    reveal(log_chunk_up);
    reveal_with_fuel(log_walk_up, 46);
}

proof fn log_chunk_up_4()
    by (nonlinear_arith)
    ensures
        log_chunk_up(180, 225),
{
    reveal(log_chunk_up);
    reveal_with_fuel(log_walk_up, 46);
}

proof fn log_chunk_up_5()
    by (nonlinear_arith)
    ensures
        log_chunk_up(225, 270),
{
    reveal(log_chunk_up);
    reveal_with_fuel(log_walk_up, 46);
}

proof fn log_chunk_up_6()
    by (nonlinear_arith)
    ensures
        log_chunk_up(270, 315),
{
    reveal(log_chunk_up);
    reveal_with_fuel(log_walk_up, 46);
}

proof fn log_chunk_up_7()
    by (nonlinear_arith)
    ensures
        log_chunk_up(315, 360),
{
    reveal(log_chunk_up);
    reveal_with_fuel(log_walk_up, 46);
}

proof fn log_chunk_up_8()
    by (nonlinear_arith)
    ensures
        log_chunk_up(360, 405),
{
    reveal(log_chunk_up);
    reveal_with_fuel(log_walk_up, 46);
}

proof fn log_chunk_up_9()
    by (nonlinear_arith)
    ensures
        log_chunk_up(405, 450),
{
    reveal(log_chunk_up);
    reveal_with_fuel(log_walk_up, 46);
}

proof fn log_chunk_up_10()
    by (nonlinear_arith)
    ensures
        log_chunk_up(450, 495),
{
    reveal(log_chunk_up);
    reveal_with_fuel(log_walk_up, 46);
}

proof fn log_chunk_up_11()
    by (nonlinear_arith)
    ensures
        log_chunk_up(495, 540),
{
    reveal(log_chunk_up);
    reveal_with_fuel(log_walk_up, 46);
}

proof fn log_chunk_up_12()
    by (nonlinear_arith)
    ensures
        log_chunk_up(540, 585),
{
    reveal(log_chunk_up);
    reveal_with_fuel(log_walk_up, 46);
}

proof fn log_chunk_up_13()
    by (nonlinear_arith)
    ensures
        log_chunk_up(585, 630),
{
    reveal(log_chunk_up);
    reveal_with_fuel(log_walk_up, 46);
}

proof fn log_chunk_up_14()
    by (nonlinear_arith)
    ensures
        log_chunk_up(630, 675),
{
    reveal(log_chunk_up);
    reveal_with_fuel(log_walk_up, 46);
}

proof fn log_chunk_up_15()
    by (nonlinear_arith)
    ensures
        log_chunk_up(675, 720),
{
    reveal(log_chunk_up);
    reveal_with_fuel(log_walk_up, 46);
}

proof fn log_chunk_up_16()
    by (nonlinear_arith)
    ensures
        log_chunk_up(720, 765),
{
    reveal(log_chunk_up);
    reveal_with_fuel(log_walk_up, 46);
}

proof fn log_chunk_up_17()
    by (nonlinear_arith)
    ensures
        log_chunk_up(765, 810),
{
    reveal(log_chunk_up);
    reveal_with_fuel(log_walk_up, 46);
}

proof fn log_chunk_up_18()
    by (nonlinear_arith)
    ensures
        log_chunk_up(810, 855),
{
    reveal(log_chunk_up);
    reveal_with_fuel(log_walk_up, 46);
}

proof fn log_chunk_up_19()
    by (nonlinear_arith)
    ensures
        log_chunk_up(855, 900),
{
    reveal(log_chunk_up);
    reveal_with_fuel(log_walk_up, 46);
}

proof fn log_chunk_up_20()
    by (nonlinear_arith)
    ensures
        log_chunk_up(900, 945),
{
    reveal(log_chunk_up);
    reveal_with_fuel(log_walk_up, 46);
}

proof fn log_chunk_up_21()
    by (nonlinear_arith)
    ensures
        log_chunk_up(945, 972),
{
    reveal(log_chunk_up);
    reveal_with_fuel(log_walk_up, 28);
}

/// The powers at `e == 0`.
proof fn lemma_log_powers_at_zero()
    ensures
        log_powers_at(0, log_boundary_powers(0).0, log_boundary_powers(0).1, log_boundary_powers(0).2),
{
    lemma_pow_bases();
    assert(decimal_exponent(0, true) == 0);
    assert(decimal_exponent(0, false) == -1);
}

/// The decimal exponent formula, for every binary exponent of a finite
/// nonzero binary64 value: it gives `floor(log10(2^bin_exp))` for a regular
/// significand and `floor(log10(3/4 * 2^bin_exp))` for the irregular one.
pub proof fn lemma_decimal_exponent_laws(bin_exp: int)
    requires
        -1074 <= bin_exp <= 971,
    ensures
        is_floor_log10_pow2(bin_exp),
        is_floor_log10_three_quarters_pow2(bin_exp),
{
    lemma_log_powers_at_zero();
    if bin_exp >= 0 {
        log_chunk_up_0();
        lemma_log_range_up(0, 45);
        log_chunk_up_1();
        lemma_log_range_up(45, 90);
        log_chunk_up_2();
        lemma_log_range_up(90, 135);
        log_chunk_up_3();
        lemma_log_range_up(135, 180);
        log_chunk_up_4();
        lemma_log_range_up(180, 225);
        log_chunk_up_5();
        lemma_log_range_up(225, 270);
        log_chunk_up_6();
        lemma_log_range_up(270, 315);
        log_chunk_up_7();
        lemma_log_range_up(315, 360);
        log_chunk_up_8();
        lemma_log_range_up(360, 405);
        log_chunk_up_9();
        lemma_log_range_up(405, 450);
        log_chunk_up_10();
        lemma_log_range_up(450, 495);
        log_chunk_up_11();
        lemma_log_range_up(495, 540);
        log_chunk_up_12();
        lemma_log_range_up(540, 585);
        log_chunk_up_13();
        lemma_log_range_up(585, 630);
        log_chunk_up_14();
        lemma_log_range_up(630, 675);
        log_chunk_up_15();
        lemma_log_range_up(675, 720);
        log_chunk_up_16();
        lemma_log_range_up(720, 765);
        log_chunk_up_17();
        lemma_log_range_up(765, 810);
        log_chunk_up_18();
        lemma_log_range_up(810, 855);
        log_chunk_up_19();
        lemma_log_range_up(855, 900);
        log_chunk_up_20();
        lemma_log_range_up(900, 945);
        log_chunk_up_21();
        lemma_log_range_up(945, 972);
    } else {
        log_chunk_down_0();
        lemma_log_range_down(0, -45);
        log_chunk_down_1();
        lemma_log_range_down(-45, -90);
        log_chunk_down_2();
        lemma_log_range_down(-90, -135);
        log_chunk_down_3();
        lemma_log_range_down(-135, -180);
        log_chunk_down_4();
        lemma_log_range_down(-180, -225);
        log_chunk_down_5();
        lemma_log_range_down(-225, -270);
        log_chunk_down_6();
        lemma_log_range_down(-270, -315);
        log_chunk_down_7();
        lemma_log_range_down(-315, -360);
        log_chunk_down_8();
        lemma_log_range_down(-360, -405);
        log_chunk_down_9();
        lemma_log_range_down(-405, -450);
        log_chunk_down_10();
        lemma_log_range_down(-450, -495);
        log_chunk_down_11();
        lemma_log_range_down(-495, -540);
        log_chunk_down_12();
        lemma_log_range_down(-540, -585);
        log_chunk_down_13();
        lemma_log_range_down(-585, -630);
        log_chunk_down_14();
        lemma_log_range_down(-630, -675);
        log_chunk_down_15();
        lemma_log_range_down(-675, -720);
        log_chunk_down_16();
        lemma_log_range_down(-720, -765);
        log_chunk_down_17();
        lemma_log_range_down(-765, -810);
        log_chunk_down_18();
        lemma_log_range_down(-810, -855);
        log_chunk_down_19();
        lemma_log_range_down(-855, -900);
        log_chunk_down_20();
        lemma_log_range_down(-900, -945);
        log_chunk_down_21();
        lemma_log_range_down(-945, -990);
        log_chunk_down_22();
        lemma_log_range_down(-990, -1035);
        log_chunk_down_23();
        lemma_log_range_down(-1035, -1075);
    }
}

} // verus!

