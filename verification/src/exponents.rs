//! The table of powers of ten: the binary exponent of each entry is a floor
//! of a logarithm, and the entry overestimates its power by less than a unit.

use vstd::prelude::*;

use crate::exponents_below::{
    table_chunk_down_0, table_chunk_down_1, table_chunk_down_2, table_chunk_down_3,
    table_chunk_down_4, table_chunk_down_5, table_chunk_down_6, table_chunk_down_7,
};

use crate::digits::pow10;
use crate::table::{pow10_bin_exp, pow10_significand};

verus! {

/// 2^n.
pub open spec fn pow2_of(n: nat) -> nat
    decreases n,
{
    if n == 0 {
        1
    } else {
        2 * pow2_of((n - 1) as nat)
    }
}

/// `2^(a + b) == 2^a * 2^b`.
pub proof fn lemma_pow2_of_add(a: nat, b: nat)
    ensures
        pow2_of(a + b) == pow2_of(a) * pow2_of(b),
    decreases b,
{
    if b > 0 {
        let c = (b - 1) as nat;
        lemma_pow2_of_add(a, c);
        assert(pow2_of(a + b) == 2 * pow2_of(a + c));
        assert(pow2_of(b) == 2 * pow2_of(c));
        assert(pow2_of(a + b) == pow2_of(a) * pow2_of(b)) by (nonlinear_arith)
            requires
                pow2_of(a + b) == 2 * pow2_of(a + c),
                pow2_of(a + c) == pow2_of(a) * pow2_of(c),
                pow2_of(b) == 2 * pow2_of(c);
    } else {
        assert(pow2_of(b) == 1);
        assert(pow2_of(a) * pow2_of(b) == pow2_of(a)) by (nonlinear_arith)
            requires pow2_of(b) == 1;
        assert(a + b == a);
    }
}

/// `x` when it is positive, else zero.
pub open spec fn pos(x: int) -> nat {
    if x > 0 {
        x as nat
    } else {
        0
    }
}

/// `a * 2^e2 * 10^e10 <= b * 2^f2 * 10^f10`, for exponents of any sign: both
/// sides are multiplied by the powers that make every exponent nonnegative.
pub open spec fn scaled_le(a: int, e2: int, e10: int, b: int, f2: int, f10: int) -> bool {
    a * pow2_of(pos(e2) + pos(-f2)) * pow10(pos(e10) + pos(-f10)) <= b * pow2_of(pos(f2) + pos(-e2))
        * pow10(pos(f10) + pos(-e10))
}

/// `a * 2^e2 * 10^e10 < b * 2^f2 * 10^f10`, for exponents of any sign.
pub open spec fn scaled_lt(a: int, e2: int, e10: int, b: int, f2: int, f10: int) -> bool {
    a * pow2_of(pos(e2) + pos(-f2)) * pow10(pos(e10) + pos(-f10)) < b * pow2_of(pos(f2) + pos(-e2))
        * pow10(pos(f10) + pos(-e10))
}

/// `pow10_bin_exp(d)` is `floor(log2(10^-d))`: `2^b <= 10^-d < 2^(b + 1)`.
pub open spec fn is_floor_log2_pow10(d: int) -> bool {
    let b = pow10_bin_exp(d);
    scaled_le(1, b, 0, 1, 0, -d) && scaled_lt(1, 0, -d, 1, b + 1, 0)
}

/// The table entry for `d` is a strict overestimate of `10^-d` scaled to
/// 128 bits, by less than one unit: with `E = 10^-d * 2^(127 - b)`,
/// `E < P <= E + 1`.
pub open spec fn is_pow10_overestimate(d: int) -> bool {
    let b = pow10_bin_exp(d);
    let p = pow10_significand(d);
    scaled_lt(1, 127 - b, -d, p, 0, 0) && scaled_le(p - 1, 0, 0, 1, 127 - b, -d)
}

/// `2^n` for a step `n` in `0..=4`.
pub open spec fn step_pow2(n: int) -> int {
    if n == 0 {
        1
    } else if n == 1 {
        2
    } else if n == 2 {
        4
    } else if n == 3 {
        8
    } else {
        16
    }
}

/// `2^m1` from `p == 2^m`, for `m` and `m1` at most four apart.
pub open spec fn step2(m: int, m1: int, p: int) -> int {
    if m1 >= m {
        p * step_pow2(m1 - m)
    } else {
        p / step_pow2(m - m1)
    }
}

/// `|x|`.
pub open spec fn magnitude(x: int) -> int {
    if x >= 0 {
        x
    } else {
        -x
    }
}

/// The two table laws at `d`, on `p10 == 10^|d|`, `p2 == 2^|b|` and
/// `pe == 2^|127 - b|`.
pub open spec fn table_check(d: int, p10: int, p2: int, pe: int) -> bool {
    let k = -d;
    let b = pow10_bin_exp(d);
    let e = 127 - b;
    let p = pow10_significand(d);
    &&& (k >= 0 ==> b >= 0 && p2 <= p10 && p10 < 2 * p2)
    &&& (k < 0 ==> b < 0 && p10 <= p2 && p2 < 2 * p10)
    &&& (k >= 0 && e >= 0 ==> p10 * pe < p && p - 1 <= p10 * pe)
    &&& (k >= 0 && e < 0 ==> p10 < p * pe && (p - 1) * pe <= p10)
    &&& (k < 0 ==> e > 0 && pe < p * p10 && (p - 1) * p10 <= pe)
}


/// `p10`, `p2` and `pe` are `10^|d|`, `2^|b|` and `2^|127 - b|` for the
/// binary exponent `b` of the entry for `d`.
pub open spec fn powers_at(d: int, p10: int, p2: int, pe: int) -> bool {
    &&& p10 == pow10(magnitude(-d) as nat)
    &&& p2 == pow2_of(magnitude(pow10_bin_exp(d)) as nat)
    &&& pe == pow2_of(magnitude(127 - pow10_bin_exp(d)) as nat)
}

/// The binary exponents of the entries for `d` and `d1` differ by at most
/// four, and so do their distances from 127.
pub open spec fn small_step(d: int, d1: int) -> bool {
    let b = pow10_bin_exp(d);
    let b1 = pow10_bin_exp(d1);
    &&& magnitude(magnitude(b1) - magnitude(b)) <= 4
    &&& magnitude(magnitude(127 - b1) - magnitude(127 - b)) <= 4
}

/// `table_check` at every `d` in `d..hi`, carrying the powers upward; the
/// powers reached at `hi` are `(e10, e2, ee)`.
pub open spec fn walk_up(d: int, hi: int, p10: int, p2: int, pe: int, e10: int, e2: int, ee: int) -> bool
    decreases hi - d,
{
    if d >= hi {
        p10 == e10 && p2 == e2 && pe == ee
    } else {
        let b = pow10_bin_exp(d);
        let b1 = pow10_bin_exp(d + 1);
        &&& table_check(d, p10, p2, pe)
        &&& small_step(d, d + 1)
        &&& walk_up(
            d + 1,
            hi,
            if d <= -1 { p10 / 10 } else { p10 * 10 },
            step2(magnitude(b), magnitude(b1), p2),
            step2(magnitude(127 - b), magnitude(127 - b1), pe),
            e10,
            e2,
            ee,
        )
    }
}

/// `table_check` at every `d` in `lo + 1..=d`, carrying the powers
/// downward; the powers reached at `lo` are `(e10, e2, ee)`.
pub open spec fn walk_down(d: int, lo: int, p10: int, p2: int, pe: int, e10: int, e2: int, ee: int) -> bool
    decreases d - lo,
{
    if d <= lo {
        p10 == e10 && p2 == e2 && pe == ee
    } else {
        let b = pow10_bin_exp(d);
        let b1 = pow10_bin_exp(d - 1);
        &&& table_check(d, p10, p2, pe)
        &&& small_step(d, d - 1)
        &&& walk_down(
            d - 1,
            lo,
            if d <= 0 { p10 * 10 } else { p10 / 10 },
            step2(magnitude(b), magnitude(b1), p2),
            step2(magnitude(127 - b), magnitude(127 - b1), pe),
            e10,
            e2,
            ee,
        )
    }
}

/// The first powers of two and of ten.
pub(crate) proof fn lemma_pow_bases()
    ensures
        pow2_of(0) == 1,
        pow2_of(1) == 2,
        pow10(0) == 1,
        pow10(1) == 10,
{
    reveal_with_fuel(pow2_of, 2);
    reveal_with_fuel(pow10, 2);
}

/// The next power of two from a step of at most four.
proof fn lemma_step2(m: nat, m1: nat)
    requires
        magnitude(m1 - m) <= 4,
    ensures
        step2(m as int, m1 as int, pow2_of(m) as int) == pow2_of(m1),
{
    reveal_with_fuel(pow2_of, 5);
    if m1 >= m {
        lemma_pow2_of_add(m, (m1 - m) as nat);
        assert(pow2_of(m) * pow2_of((m1 - m) as nat) == pow2_of(m) * step_pow2(m1 - m));
    } else {
        lemma_pow2_of_add(m1, (m - m1) as nat);
        let q = step_pow2(m - m1);
        assert(pow2_of((m - m1) as nat) == q);
        vstd::arithmetic::div_mod::lemma_div_multiples_vanish(pow2_of(m1) as int, q);
        assert(pow2_of(m1) * q == q * pow2_of(m1)) by (nonlinear_arith);
    }
}


/// The scaled comparisons once each power in them is known.
pub(crate) proof fn lemma_scaled(
    a: int,
    e2: int,
    e10: int,
    b: int,
    f2: int,
    f10: int,
    l2: int,
    l10: int,
    r2: int,
    r10: int,
)
    requires
        pow2_of(pos(e2) + pos(-f2)) == l2,
        pow10(pos(e10) + pos(-f10)) == l10,
        pow2_of(pos(f2) + pos(-e2)) == r2,
        pow10(pos(f10) + pos(-e10)) == r10,
    ensures
        scaled_le(a, e2, e10, b, f2, f10) == (a * l2 * l10 <= b * r2 * r10),
        scaled_lt(a, e2, e10, b, f2, f10) == (a * l2 * l10 < b * r2 * r10),
{
}

/// The table laws at `d` from `table_check` on the powers.
proof fn lemma_table_law_at(d: int, p10: int, p2: int, pe: int)
    requires
        table_check(d, p10, p2, pe),
        powers_at(d, p10, p2, pe),
    ensures
        is_floor_log2_pow10(d),
        is_pow10_overestimate(d),
{
    lemma_pow_bases();
    let k = -d;
    let b = pow10_bin_exp(d);
    let e = 127 - b;
    let p = pow10_significand(d);
    if k >= 0 {
        assert(pow2_of((b + 1) as nat) == 2 * pow2_of(b as nat));
        lemma_scaled(1, b, 0, 1, 0, -d, p2, 1, 1, p10);
        lemma_scaled(1, 0, -d, 1, b + 1, 0, 1, p10, 2 * p2, 1);
        assert(1 * p2 * 1 <= 1 * 1 * p10) by (nonlinear_arith)
            requires
                p2 <= p10,
        ;
        assert(1 * 1 * p10 < 1 * (2 * p2) * 1) by (nonlinear_arith)
            requires
                p10 < 2 * p2,
        ;
        if e >= 0 {
            lemma_scaled(1, e, -d, p, 0, 0, pe, p10, 1, 1);
            lemma_scaled(p - 1, 0, 0, 1, e, -d, 1, 1, pe, p10);
            assert(1 * pe * p10 < p * 1 * 1 && (p - 1) * 1 * 1 <= 1 * pe * p10) by (nonlinear_arith)
                requires
                    p10 * pe < p,
                    p - 1 <= p10 * pe,
            ;
        } else {
            lemma_scaled(1, e, -d, p, 0, 0, 1, p10, pe, 1);
            lemma_scaled(p - 1, 0, 0, 1, e, -d, pe, 1, 1, p10);
            assert(1 * 1 * p10 < p * pe * 1 && (p - 1) * pe * 1 <= 1 * 1 * p10) by (nonlinear_arith)
                requires
                    p10 < p * pe,
                    (p - 1) * pe <= p10,
            ;
        }
    } else {
        let m = (magnitude(b) - 1) as nat;
        assert(pow2_of(magnitude(b) as nat) == 2 * pow2_of(m));
        lemma_scaled(1, b, 0, 1, 0, -d, 1, p10, p2, 1);
        lemma_scaled(1, 0, -d, 1, b + 1, 0, pow2_of(m) as int, 1, 1, p10);
        assert(1 * 1 * p10 <= 1 * p2 * 1) by (nonlinear_arith)
            requires
                p10 <= p2,
        ;
        assert(1 * (pow2_of(m) as int) * 1 < 1 * 1 * p10) by (nonlinear_arith)
            requires
                p2 < 2 * p10,
                p2 == 2 * pow2_of(m),
        ;
        lemma_scaled(1, e, -d, p, 0, 0, pe, 1, 1, p10);
        lemma_scaled(p - 1, 0, 0, 1, e, -d, 1, p10, pe, 1);
        assert(1 * pe * 1 < p * 1 * p10 && (p - 1) * 1 * p10 <= 1 * pe * 1) by (nonlinear_arith)
            requires
                pe < p * p10,
                (p - 1) * p10 <= pe,
        ;
    }
}

/// The powers at the neighbour `d1` of `d` from those at `d`.
proof fn lemma_powers_step(d: int, d1: int, p10: int, p2: int, pe: int)
    requires
        powers_at(d, p10, p2, pe),
        small_step(d, d1),
        d1 == d + 1 || d1 == d - 1,
    ensures
        powers_at(
            d1,
            if magnitude(d1) > magnitude(d) { p10 * 10 } else { p10 / 10 },
            step2(magnitude(pow10_bin_exp(d)), magnitude(pow10_bin_exp(d1)), p2),
            step2(magnitude(127 - pow10_bin_exp(d)), magnitude(127 - pow10_bin_exp(d1)), pe),
        ),
{
    let b = pow10_bin_exp(d);
    let b1 = pow10_bin_exp(d1);
    lemma_step2(magnitude(b) as nat, magnitude(b1) as nat);
    lemma_step2(magnitude(127 - b) as nat, magnitude(127 - b1) as nat);
    if magnitude(d1) > magnitude(d) {
        assert(pow10(magnitude(-d1) as nat) == 10 * pow10(magnitude(-d) as nat));
    } else {
        assert(pow10(magnitude(-d) as nat) == 10 * pow10(magnitude(-d1) as nat));
    }
}

/// `walk_up` gives the table laws at every step and the powers at its end.
proof fn lemma_walk_up(d: int, hi: int, p10: int, p2: int, pe: int, e10: int, e2: int, ee: int)
    requires
        walk_up(d, hi, p10, p2, pe, e10, e2, ee),
        powers_at(d, p10, p2, pe),
    ensures
        forall|d2: int| d <= d2 < hi ==> is_floor_log2_pow10(d2) && is_pow10_overestimate(d2),
        powers_at(hi, e10, e2, ee) || hi < d,
    decreases hi - d,
{
    if d < hi {
        lemma_table_law_at(d, p10, p2, pe);
        let b = pow10_bin_exp(d);
        let b1 = pow10_bin_exp(d + 1);
        lemma_powers_step(d, d + 1, p10, p2, pe);
        lemma_walk_up(
            d + 1,
            hi,
            if d <= -1 { p10 / 10 } else { p10 * 10 },
            step2(magnitude(b), magnitude(b1), p2),
            step2(magnitude(127 - b), magnitude(127 - b1), pe),
            e10,
            e2,
            ee,
        );
    }
}

/// `walk_down` gives the table laws at every step and the powers at its end.
proof fn lemma_walk_down(d: int, lo: int, p10: int, p2: int, pe: int, e10: int, e2: int, ee: int)
    requires
        walk_down(d, lo, p10, p2, pe, e10, e2, ee),
        powers_at(d, p10, p2, pe),
    ensures
        forall|d2: int| lo < d2 <= d ==> is_floor_log2_pow10(d2) && is_pow10_overestimate(d2),
        powers_at(lo, e10, e2, ee) || lo > d,
    decreases d - lo,
{
    if d > lo {
        lemma_table_law_at(d, p10, p2, pe);
        let b = pow10_bin_exp(d);
        let b1 = pow10_bin_exp(d - 1);
        lemma_powers_step(d, d - 1, p10, p2, pe);
        lemma_walk_down(
            d - 1,
            lo,
            if d <= 0 { p10 * 10 } else { p10 / 10 },
            step2(magnitude(b), magnitude(b1), p2),
            step2(magnitude(127 - b), magnitude(127 - b1), pe),
            e10,
            e2,
            ee,
        );
    }
}

/// `(10^|d|, 2^|b|, 2^|127 - b|)` at the ends of the chunks that the laws
/// are checked in, written out; zeros elsewhere.
pub open spec fn table_boundary_powers(d: int) -> (int, int, int) {
    if d == -325 {
        (
            10000000000000000000000000000000000000000000000000000000000000000000000000000000000000000000000000000000000000000000000000000000000000000000000000000000000000000000000000000000000000000000000000000000000000000000000000000000000000000000000000000000000000000000000000000000000000000000000000000000000000000000000000000000000000int,
            6476872105833939787279851095005353825585812792452547787420843456877770866175851100542732278445987983845986491658137981164473879596345391259744428798103632317488557576850123563662941047746982922919672565711127842193984239469590166355779307380773105802905921808395480625674669267687376081029962480276672200425846647714991833088int,
            38067632857031246407630399952637454339360261162480498151827759598488080823306351962756308851101602575098847329028940110091637382285949586119445262876221302420044053515454972772932772091758022063878123412028196792475334366896073730256821732872925646925108354699626084168288392929655914496int,
        )
    }     else if d == -315 {
        (
            1000000000000000000000000000000000000000000000000000000000000000000000000000000000000000000000000000000000000000000000000000000000000000000000000000000000000000000000000000000000000000000000000000000000000000000000000000000000000000000000000000000000000000000000000000000000000000000000000000000000000000000000000000int,
            754007150632555106105265567894716959631281531468563222724576883120202793061715911671371697267283217963528178126800104645601692562497382897388239949720868877774169386463487004356335504882384897549598543638261948036260930759551721433617559655193833844143189700366403049053003693428749228016236154394768201795621617664int,
            4431655730240890570873208338468970537576854829965217289494788227426828912378562609985972388077248187630768787235596695692701891796424703919264169279046042638370307804487526041098494559032612254828927504367683640736543383320802092814913686932172352322971955256027412154745356288int,
        )
    }     else if d == -270 {
        (
            1000000000000000000000000000000000000000000000000000000000000000000000000000000000000000000000000000000000000000000000000000000000000000000000000000000000000000000000000000000000000000000000000000000000000000000000000000000000000000000000000000000000000000000000000000000int,
            528294531135665246352339784916516606518847326036121522127960709026673902556724859474417255887657187894674394993257128678882347559502685537250538978462939576908386683999005084168731517676426441053024232908211188404148028292751561738838396898767036476489538580897737998336int,
            3105036184601417870297958976925005110513772034233393222278104076052101905372753772661756817657292955900975461394262146412343160088229628782888574550082362278408909952041699811100530571263196889650525998387432937501785693707632115712int,
        )
    }     else if d == -225 {
        (
            1000000000000000000000000000000000000000000000000000000000000000000000000000000000000000000000000000000000000000000000000000000000000000000000000000000000000000000000000000000000000000000000000000000000000000000000000000000000int,
            740298315191606967520227188330889966610377319868419938630605715764070011466206019559325413145373572325939050053182159998975553533608824916574615132828322000124194610605645134711392062011527273571616649243219599128195212771328int,
            4351082437154956072465106588077822995084026820419845514849846380137705962380101572519219218556758308199541387151331336317719177934050977705242787666055883587123865770683541250307916824576int,
        )
    }     else if d == -180 {
        (
            1000000000000000000000000000000000000000000000000000000000000000000000000000000000000000000000000000000000000000000000000000000000000000000000000000000000000000000000000000000000000int,
            518689446110124119814050982961395143876555779030304612499457166211331601426613518299963381118387974286024735826412598647799393884426471913485859354264245460882647725425188690460672int,
            3048582568667961163458591044719888970457615373696260889510895468384152088691177363398736428772941378085768487423248655171335913749304966119424int,
        )
    }     else if d == -135 {
        (
            1000000000000000000000000000000000000000000000000000000000000000000000000000000000000000000000000000000000000000000000000000000000000000int,
            726838724295606890549323807888004534353641360687318060281490199180639288113397923326191050713763565560762521606266177933534601628614656int,
            4271974071841820164790043412339104229205409044713305539894083215644439451561281100045924173873152int,
        )
    }     else if d == -90 {
        (
            1000000000000000000000000000000000000000000000000000000000000000000000000000000000000000000int,
            509258994083621521567111422102344540262867098416484062659035112338595324940834176545849344int,
            2993155353253689176481146537402947624255349848014848int,
        )
    }     else if d == -45 {
        (
            1000000000000000000000000000000000000000000000int,
            713623846352979940529142984724747568191373312int,
            4194304int,
        )
    }     else if d == 0 {
        (
            1int,
            1int,
            170141183460469231731687303715884105728int,
        )
    }     else if d == 45 {
        (
            1000000000000000000000000000000000000000000000int,
            1427247692705959881058285969449495136382746624int,
            242833611528216133864932738352939863330300854881517440156476551217363035650651062272int,
        )
    }     else if d == 90 {
        (
            1000000000000000000000000000000000000000000000000000000000000000000000000000000000000000000int,
            1018517988167243043134222844204689080525734196832968125318070224677190649881668353091698688int,
            173291855882550928723650886508942731464777317210988535948154973788413831737851601439998400381508723631086950685087723239310884864int,
        )
    }     else if d == 135 {
        (
            1000000000000000000000000000000000000000000000000000000000000000000000000000000000000000000000000000000000000000000000000000000000000000int,
            1453677448591213781098647615776009068707282721374636120562980398361278576226795846652382101427527131121525043212532355867069203257229312int,
            247330401473104534060502521019647190035131349101211839914063056092897225106531867170316401061243044989597671426016139339351365034306751209967546155101893167916606772148699136int,
        )
    }     else if d == 180 {
        (
            1000000000000000000000000000000000000000000000000000000000000000000000000000000000000000000000000000000000000000000000000000000000000000000000000000000000000000000000000000000000000int,
            1037378892220248239628101965922790287753111558060609224998914332422663202853227036599926762236775948572049471652825197295598787768852943826971718708528490921765295450850377380921344int,
            176500872419263593559319302637789241459459619490723595292712620678918364397574906244117120062201874810681116593642749786132706054117399434226659568030434131651924755717669757535789504530793970482734834967427158147858432int,
        )
    }     else if d == 225 {
        (
            1000000000000000000000000000000000000000000000000000000000000000000000000000000000000000000000000000000000000000000000000000000000000000000000000000000000000000000000000000000000000000000000000000000000000000000000000000000000int,
            1480596630383213935040454376661779933220754639736839877261211431528140022932412039118650826290747144651878100106364319997951107067217649833149230265656644000248389221211290269422784124023054547143233298486439198256390425542656int,
            251910462920982955146951572855242064723418868082104455055218081010186148908960752236565235084370225856148908135059894885483907489539473312974233140212507046179002134322645704349866637075627537275802723363977045251916898867011814946574400376685636747593659677933568int,
        )
    }     else if d == 270 {
        (
            1000000000000000000000000000000000000000000000000000000000000000000000000000000000000000000000000000000000000000000000000000000000000000000000000000000000000000000000000000000000000000000000000000000000000000000000000000000000000000000000000000000000000000000000000000000int,
            1056589062271330492704679569833033213037694652072243044255921418053347805113449718948834511775314375789348789986514257357764695119005371074501077956925879153816773367998010168337463035352852882106048465816422376808296056585503123477676793797534072952979077161795475996672int,
            179769313486231590772930519078902473361797697894230657273430081157732675805500963132708477322407536021120113879871393357658789768814416622492847430639474124377767893424865485276302219601246094119453082952085005768838150682342462881473913110540827237163350510684586298239947245938479716304835356329624224137216int,
        )
    }     else if d == 293 {
        (
            100000000000000000000000000000000000000000000000000000000000000000000000000000000000000000000000000000000000000000000000000000000000000000000000000000000000000000000000000000000000000000000000000000000000000000000000000000000000000000000000000000000000000000000000000000000000000000000000000000int,
            159667224762777584932509817042947085285396100834836603320203779394976951349517125262796637239410856087147395747535399619517795039071487492859133743862786513625600453836086854121403017715549038974612268539563513919466464836409669631111108421475843532600569672550060483331388679618427520794230784int,
            27165970580987716985547028567185335572069876938634890994970393394556261855084836974410784166415121184597156525907694766950077451086469859942311096685601257443771526998812780663565728288329361461533674321052446353025596871544259913106710572064406160761551519464640397970189768008138232246168295750874367316934930297897581105488330752int,
        )
    } else {
        (0, 0, 0)
    }
}

/// `walk_up` from `lo` to `hi` between the powers written out for
/// them.
#[verifier::opaque]
pub open spec fn table_chunk_up(lo: int, hi: int) -> bool {
    walk_up(lo, hi, table_boundary_powers(lo).0, table_boundary_powers(lo).1, table_boundary_powers(lo).2, table_boundary_powers(hi).0, table_boundary_powers(hi).1, table_boundary_powers(hi).2)
}

/// `walk_down` from `hi` down to `lo` between the powers written out
/// for them.
#[verifier::opaque]
pub open spec fn table_chunk_down(hi: int, lo: int) -> bool {
    walk_down(hi, lo, table_boundary_powers(hi).0, table_boundary_powers(hi).1, table_boundary_powers(hi).2, table_boundary_powers(lo).0, table_boundary_powers(lo).1, table_boundary_powers(lo).2)
}

/// The laws on `lo..hi` from a chunk whose first powers are right, and the
/// powers at `hi`.
proof fn lemma_table_range_up(lo: int, hi: int)
    requires
        table_chunk_up(lo, hi),
        powers_at(lo, table_boundary_powers(lo).0, table_boundary_powers(lo).1, table_boundary_powers(lo).2),
        lo <= hi,
    ensures
        forall|d2: int| lo <= d2 < hi ==> is_floor_log2_pow10(d2) && is_pow10_overestimate(d2),
        powers_at(hi, table_boundary_powers(hi).0, table_boundary_powers(hi).1, table_boundary_powers(hi).2),
{
    reveal(table_chunk_up);
    lemma_walk_up(lo, hi, table_boundary_powers(lo).0, table_boundary_powers(lo).1, table_boundary_powers(lo).2, table_boundary_powers(hi).0, table_boundary_powers(hi).1, table_boundary_powers(hi).2);
}

/// The laws on `lo + 1..=hi` from a chunk whose first powers are right, and
/// the powers at `lo`.
proof fn lemma_table_range_down(hi: int, lo: int)
    requires
        table_chunk_down(hi, lo),
        powers_at(hi, table_boundary_powers(hi).0, table_boundary_powers(hi).1, table_boundary_powers(hi).2),
        lo <= hi,
    ensures
        forall|d2: int| lo < d2 <= hi ==> is_floor_log2_pow10(d2) && is_pow10_overestimate(d2),
        powers_at(lo, table_boundary_powers(lo).0, table_boundary_powers(lo).1, table_boundary_powers(lo).2),
{
    reveal(table_chunk_down);
    lemma_walk_down(hi, lo, table_boundary_powers(hi).0, table_boundary_powers(hi).1, table_boundary_powers(hi).2, table_boundary_powers(lo).0, table_boundary_powers(lo).1, table_boundary_powers(lo).2);
}

proof fn table_chunk_up_0()
    by (nonlinear_arith)
    ensures
        table_chunk_up(0, 45),
{
    reveal(table_chunk_up);
    reveal_with_fuel(walk_up, 46);
}

proof fn table_chunk_up_1()
    by (nonlinear_arith)
    ensures
        table_chunk_up(45, 90),
{
    reveal(table_chunk_up);
    reveal_with_fuel(walk_up, 46);
}

proof fn table_chunk_up_2()
    by (nonlinear_arith)
    ensures
        table_chunk_up(90, 135),
{
    reveal(table_chunk_up);
    reveal_with_fuel(walk_up, 46);
}

proof fn table_chunk_up_3()
    by (nonlinear_arith)
    ensures
        table_chunk_up(135, 180),
{
    reveal(table_chunk_up);
    reveal_with_fuel(walk_up, 46);
}

proof fn table_chunk_up_4()
    by (nonlinear_arith)
    ensures
        table_chunk_up(180, 225),
{
    reveal(table_chunk_up);
    reveal_with_fuel(walk_up, 46);
}

proof fn table_chunk_up_5()
    by (nonlinear_arith)
    ensures
        table_chunk_up(225, 270),
{
    reveal(table_chunk_up);
    reveal_with_fuel(walk_up, 46);
}

proof fn table_chunk_up_6()
    by (nonlinear_arith)
    ensures
        table_chunk_up(270, 293),
{
    reveal(table_chunk_up);
    reveal_with_fuel(walk_up, 24);
}

/// The powers at `d == 0`.
proof fn lemma_powers_at_zero()
    ensures
        powers_at(0, table_boundary_powers(0).0, table_boundary_powers(0).1, table_boundary_powers(0).2),
{
    lemma_pow_bases();
    assert(pow10_bin_exp(0) == 0);
    assert(pow2_of(8) == 256int) by {
        reveal_with_fuel(pow2_of, 9);
    }
    assert(pow2_of(16) == 65536int) by {
        reveal_with_fuel(pow2_of, 9);
    }
    assert(pow2_of(24) == 16777216int) by {
        reveal_with_fuel(pow2_of, 9);
    }
    assert(pow2_of(32) == 4294967296int) by {
        reveal_with_fuel(pow2_of, 9);
    }
    assert(pow2_of(40) == 1099511627776int) by {
        reveal_with_fuel(pow2_of, 9);
    }
    assert(pow2_of(48) == 281474976710656int) by {
        reveal_with_fuel(pow2_of, 9);
    }
    assert(pow2_of(56) == 72057594037927936int) by {
        reveal_with_fuel(pow2_of, 9);
    }
    assert(pow2_of(64) == 18446744073709551616int) by {
        reveal_with_fuel(pow2_of, 9);
    }
    assert(pow2_of(72) == 4722366482869645213696int) by {
        reveal_with_fuel(pow2_of, 9);
    }
    assert(pow2_of(80) == 1208925819614629174706176int) by {
        reveal_with_fuel(pow2_of, 9);
    }
    assert(pow2_of(88) == 309485009821345068724781056int) by {
        reveal_with_fuel(pow2_of, 9);
    }
    assert(pow2_of(96) == 79228162514264337593543950336int) by {
        reveal_with_fuel(pow2_of, 9);
    }
    assert(pow2_of(104) == 20282409603651670423947251286016int) by {
        reveal_with_fuel(pow2_of, 9);
    }
    assert(pow2_of(112) == 5192296858534827628530496329220096int) by {
        reveal_with_fuel(pow2_of, 9);
    }
    assert(pow2_of(120) == 1329227995784915872903807060280344576int) by {
        reveal_with_fuel(pow2_of, 9);
    }
    assert(pow2_of(127) == 170141183460469231731687303715884105728int) by {
        reveal_with_fuel(pow2_of, 8);
    }
}

/// Two facts about the table of powers of ten, for every decimal exponent
/// `d` that it covers: the binary exponent of its entry is
/// `floor(log2(10^-d))`, and the entry is a strict overestimate of `10^-d`
/// scaled to 128 bits, by at most one unit.
pub proof fn lemma_table_laws(d: int)
    requires
        -324 <= d <= 292,
    ensures
        is_floor_log2_pow10(d),
        is_pow10_overestimate(d),
{
    lemma_powers_at_zero();
    if d >= 0 {
        table_chunk_up_0();
        lemma_table_range_up(0, 45);
        table_chunk_up_1();
        lemma_table_range_up(45, 90);
        table_chunk_up_2();
        lemma_table_range_up(90, 135);
        table_chunk_up_3();
        lemma_table_range_up(135, 180);
        table_chunk_up_4();
        lemma_table_range_up(180, 225);
        table_chunk_up_5();
        lemma_table_range_up(225, 270);
        table_chunk_up_6();
        lemma_table_range_up(270, 293);
    } else {
        table_chunk_down_0();
        lemma_table_range_down(0, -45);
        table_chunk_down_1();
        lemma_table_range_down(-45, -90);
        table_chunk_down_2();
        lemma_table_range_down(-90, -135);
        table_chunk_down_3();
        lemma_table_range_down(-135, -180);
        table_chunk_down_4();
        lemma_table_range_down(-180, -225);
        table_chunk_down_5();
        lemma_table_range_down(-225, -270);
        table_chunk_down_6();
        lemma_table_range_down(-270, -315);
        table_chunk_down_7();
        lemma_table_range_down(-315, -325);
    }
}

} // verus!

