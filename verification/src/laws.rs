//! System-level laws of the cascade, each proved against the controllers'
//! own specification functions.

use vstd::prelude::*;

use crate::controllers::alt_degenerate;
use crate::controllers::alt_thrust;
use crate::controllers::att_cmd;
use crate::controllers::integral_next;
use crate::controllers::pos_cmd;
use crate::fx::FX_MAX;
use crate::fx::SCALE;
use crate::fx::fdiv;
use crate::fx::fmul;
use crate::fx::tdiv;
use crate::params::INTEGRAL_LIMIT;
use crate::params::ParamsM;
use crate::state::DesiredM;
use crate::state::StateM;
use crate::trig::cos_poly;
use crate::trig::cos_spec;
use crate::trig::reduce_angle;
use crate::trig::sin_poly;
use crate::trig::sin_spec;
use crate::vehicle::QuadrotorM;

verus! {

/// The library's cosine is exactly one at a level attitude.
pub proof fn lemma_cos_zero()
    ensures
        cos_spec(0) == SCALE as int,
{
    reveal(cos_spec);
    reveal(cos_poly);
    reveal(reduce_angle);
}

/// The library's sine is exactly zero at a level attitude.
pub proof fn lemma_sin_zero()
    ensures
        sin_spec(0) == 0,
{
    reveal(sin_spec);
    reveal(sin_poly);
    reveal(reduce_angle);
}

/// Rescaling a representable value by the unit divisor returns it unchanged.
proof fn lemma_fdiv_by_scale(a: int)
    requires
        -(FX_MAX as int) <= a <= FX_MAX as int,
    ensures
        fdiv(a, SCALE as int) == a,
{
    let s = SCALE as int;
    if a >= 0 {
        vstd::arithmetic::div_mod::lemma_div_multiples_vanish(a, s);
    } else {
        vstd::arithmetic::div_mod::lemma_div_multiples_vanish(-a, s);
    }
}

/// **Hover invariant.** When the state matches the trajectory target exactly
/// — zero position error, zero relative velocity, zero desired acceleration,
/// level attitude, zero body rates — and every integral accumulator is zero,
/// the altitude controller commands exactly the hover thrust `m * g` under
/// either thrust law, the position controller commands a level setpoint, and
/// the attitude controller at that setpoint commands zero moments.
pub proof fn lemma_hover_invariant(s: StateM, des: DesiredM, pm: ParamsM, mass: int)
    requires
        des.z == s.z,
        des.z_dot == s.z_dot,
        des.z_ddot == 0,
        des.x == s.x,
        des.x_dot == s.x_dot,
        des.x_ddot == 0,
        des.y == s.y,
        des.y_dot == s.y_dot,
        des.y_ddot == 0,
        des.psi == 0,
        des.psi_dot == 0,
        s.phi == 0,
        s.theta == 0,
        s.psi == 0,
        s.p == 0,
        s.q == 0,
        s.r == 0,
        pm.integral_error_z == 0,
        pm.integral_error_x == 0,
        pm.integral_error_y == 0,
        0 < pm.gravity <= FX_MAX as int,
    ensures
        alt_thrust(s, des, pm, mass) == fmul(mass, pm.gravity),
        !alt_degenerate(s, pm),
        pos_cmd(s, des, pm) == (0int, 0int, 0int),
        att_cmd(s, des, pm, 0, 0, 0) == (0int, 0int, 0int),
{
    lemma_cos_zero();
    lemma_sin_zero();
    reveal(att_cmd);
    let base = fmul(mass, pm.gravity);
    lemma_fdiv_by_scale(base);
    assert(tdiv(0, pm.gravity) == 0) by {
        vstd::arithmetic::div_mod::lemma_div_of0(pm.gravity);
    };
    assert(crate::controllers::alt_err(s, des) == 0);
    assert(crate::controllers::alt_integral(s, des, pm) == 0);
    assert(crate::controllers::alt_acc_cmd(s, des, pm) == 0);
    assert(crate::fx::fadd(pm.gravity, 0) == pm.gravity);
    assert(alt_thrust(s, des, pm, mass) == fmul(mass, pm.gravity));
    assert(crate::controllers::pos_acc_x(s, des, pm) == 0);
    assert(crate::controllers::pos_acc_y(s, des, pm) == 0);
    assert(pos_cmd(s, des, pm).0 == 0);
    assert(pos_cmd(s, des, pm).1 == 0);
    assert(pos_cmd(s, des, pm).2 == 0);
}

/// The accumulator after `k` evaluations with a constant error.
pub open spec fn iterate_integral(acc0: int, err: int, dt: int, k: nat) -> int
    decreases k,
{
    if k == 0 {
        acc0
    } else {
        integral_next(iterate_integral(acc0, err, dt, (k - 1) as nat), err, dt)
    }
}

/// **Integral accumulation law.** A constant error `err` held for `k` outer
/// ticks of step size `dt` leaves exactly `k * fmul(err, dt)` in an integral
/// accumulator that started at zero — as long as that total stays inside the
/// anti-windup bound `INTEGRAL_LIMIT`, past which the accumulator clamps
/// instead of growing.
pub proof fn lemma_integral_accumulation(err: int, dt: int, k: nat)
    requires
        -(INTEGRAL_LIMIT as int) <= k * fmul(err, dt) <= INTEGRAL_LIMIT as int,
    ensures
        iterate_integral(0, err, dt, k) == k * fmul(err, dt),
    decreases k,
{
    let inc = fmul(err, dt);
    if k == 0 {
        assert(0 * inc == 0) by (nonlinear_arith);
    } else {
        let k1 = (k - 1) as nat;
        assert(-(INTEGRAL_LIMIT as int) <= k1 * inc <= INTEGRAL_LIMIT as int
            && k1 * inc + inc == k * inc) by (nonlinear_arith)
            requires
                k >= 1,
                k1 == k - 1,
                -(INTEGRAL_LIMIT as int) <= k * inc <= INTEGRAL_LIMIT as int,
        ;
        lemma_integral_accumulation(err, dt, k1);
    }
}

/// **Clamp law.** Whatever thrust the altitude law produced — however
/// extreme the tracking error that drove it — the outer tick's clamp step
/// leaves a command inside the vehicle's thrust envelope
/// `[u_min, u_max]`.
pub proof fn lemma_thrust_clamp(s: StateM, des: DesiredM, pm: ParamsM, quad: QuadrotorM)
    requires
        quad.u_min <= quad.u_max,
    ensures
        quad.u_min <= crate::scheduler::outer_cmd(s, des, pm, quad).u1 <= quad.u_max,
{
}

} // verus!
