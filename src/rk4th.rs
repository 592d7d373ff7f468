//! The classical fourth-order Runge-Kutta step for the coupled system
//! `dp/dt = velocity(t, p, v)`, `dv/dt = acceleration(t, p, v)`.
use vstd::prelude::*;
use crate::scalar::Scalar;
use crate::vector::Vector3;

verus! {

/// A stage point projected from `x0` along slope `k` over a step `dt`:
/// `x0 + k * dt`.
pub open spec fn next_value_spec<T: Scalar>(x0: Vector3<T>, k: Vector3<T>, dt: T) -> Vector3<T> {
    x0.plus(k.scaled(dt))
}

/// The weighted average of the four stage slopes over a step `dt`:
/// `(k1 + 2 k2 + 2 k3 + k4) * dt / 6`.
pub open spec fn average_slope_spec<T: Scalar>(
    dt: T,
    k1: Vector3<T>,
    k2: Vector3<T>,
    k3: Vector3<T>,
    k4: Vector3<T>,
) -> Vector3<T> {
    let two = T::lit_spec(2);
    k1.plus(k2.scaled(two)).plus(k3.scaled(two)).plus(k4).scaled(dt).divided(T::lit_spec(6))
}

/// Half of a step.
pub open spec fn half<T: Scalar>(dt: T) -> T {
    dt.over_spec(T::lit_spec(2))
}

pub fn next_value<T: Scalar>(x0: &Vector3<T>, k: &Vector3<T>, dt: T) -> (r: Vector3<T>)
    ensures
        r == next_value_spec(*x0, *k, dt),
{
    *x0 + *k * dt
}

pub fn average_slope<T: Scalar>(
    dt: T,
    k1: &Vector3<T>,
    k2: &Vector3<T>,
    k3: &Vector3<T>,
    k4: &Vector3<T>,
) -> (r: Vector3<T>)
    ensures
        r == average_slope_spec(dt, *k1, *k2, *k3, *k4),
{
    let two = T::lit(2);
    let six = T::lit(6);
    proof {
        T::lemma_lit_nonzero(6);
    }
    (*k1 + *k2 * two + *k3 * two + *k4) * dt / six
}

/// What a derivative function may return at a stage point: `slope(t, p, v, k)`
/// holds when `k` is a possible result at time `t`, position `p`, velocity `v`.
pub type SlopeRelation<T> = spec_fn(T, Vector3<T>, Vector3<T>, Vector3<T>) -> bool;

/// `(dp, dv)` is one fourth-order Runge-Kutta step of size `dt` from `(p, v)`
/// at time `t`, with `k1v .. k4v` the four velocity slopes and `k1a .. k4a`
/// the four acceleration slopes, each taken at its stage point.
pub open spec fn is_rk4_step<T: Scalar>(
    velocity: SlopeRelation<T>,
    acceleration: SlopeRelation<T>,
    t: T,
    dt: T,
    p: Vector3<T>,
    v: Vector3<T>,
    k1v: Vector3<T>,
    k1a: Vector3<T>,
    k2v: Vector3<T>,
    k2a: Vector3<T>,
    k3v: Vector3<T>,
    k3a: Vector3<T>,
    k4v: Vector3<T>,
    k4a: Vector3<T>,
    dp: Vector3<T>,
    dv: Vector3<T>,
) -> bool {
    let h = half(dt);
    let t_mid = t.plus_spec(h);
    let t_end = t.plus_spec(dt);
    let p1 = next_value_spec(p, k1v, h);
    let v1 = next_value_spec(v, k1a, h);
    let p2 = next_value_spec(p, k2v, h);
    let v2 = next_value_spec(v, k2a, h);
    let p3 = next_value_spec(p, k3v, dt);
    let v3 = next_value_spec(v, k3a, dt);
    &&& velocity(t, p, v, k1v)
    &&& acceleration(t, p, v, k1a)
    &&& velocity(t_mid, p1, v1, k2v)
    &&& acceleration(t_mid, p1, v1, k2a)
    &&& velocity(t_mid, p2, v2, k3v)
    &&& acceleration(t_mid, p2, v2, k3a)
    &&& velocity(t_end, p3, v3, k4v)
    &&& acceleration(t_end, p3, v3, k4a)
    &&& dp == average_slope_spec(dt, k1v, k2v, k3v, k4v)
    &&& dv == average_slope_spec(dt, k1a, k2a, k3a, k4a)
}

/// `(dp, dv)` is a step that some choice of slopes allowed by the two
/// derivative functions produces.
pub open spec fn is_step_delta<T: Scalar>(
    velocity: SlopeRelation<T>,
    acceleration: SlopeRelation<T>,
    t: T,
    dt: T,
    p: Vector3<T>,
    v: Vector3<T>,
    dp: Vector3<T>,
    dv: Vector3<T>,
) -> bool {
    exists|
        k1v: Vector3<T>,
        k1a: Vector3<T>,
        k2v: Vector3<T>,
        k2a: Vector3<T>,
        k3v: Vector3<T>,
        k3a: Vector3<T>,
        k4v: Vector3<T>,
        k4a: Vector3<T>,
    |
        #[trigger] is_rk4_step(
            velocity,
            acceleration,
            t,
            dt,
            p,
            v,
            k1v,
            k1a,
            k2v,
            k2a,
            k3v,
            k3a,
            k4v,
            k4a,
            dp,
            dv,
        )
}

/// The results that an executable derivative function may give.
pub open spec fn slope_of<T: Scalar, F: Fn(T, Vector3<T>, Vector3<T>) -> Vector3<T>>(
    f: F,
) -> SlopeRelation<T> {
    |t: T, p: Vector3<T>, v: Vector3<T>, k: Vector3<T>| f.ensures((t, p, v), k)
}

/// A derivative function that accepts every time, position and velocity.
pub open spec fn is_total<T: Scalar, F: Fn(T, Vector3<T>, Vector3<T>) -> Vector3<T>>(
    f: F,
) -> bool {
    forall|t: T, p: Vector3<T>, v: Vector3<T>| #[trigger] f.requires((t, p, v))
}

/// The increments of position and velocity over one step of size `dt` from
/// `(p, v)` at time `t`. Each derivative function is evaluated four times,
/// once at each stage point.
pub fn advance<T, FV, FA>(
    t: T,
    dt: T,
    p: &Vector3<T>,
    v: &Vector3<T>,
    to_velocity: &FV,
    to_accel: &FA,
) -> (r: (Vector3<T>, Vector3<T>)) where
    T: Scalar,
    FV: Fn(T, Vector3<T>, Vector3<T>) -> Vector3<T>,
    FA: Fn(T, Vector3<T>, Vector3<T>) -> Vector3<T>,

    requires
        is_total(*to_velocity),
        is_total(*to_accel),
    ensures
        is_step_delta(slope_of(*to_velocity), slope_of(*to_accel), t, dt, *p, *v, r.0, r.1),
{
    proof {
        T::lemma_lit_nonzero(2);
    }
    let h = dt.over(T::lit(2));
    let t_mid = t.plus(h);
    let t_end = t.plus(dt);

    let k1v = to_velocity(t, *p, *v);
    let k1a = to_accel(t, *p, *v);

    let p1 = next_value(p, &k1v, h);
    let v1 = next_value(v, &k1a, h);
    let k2v = to_velocity(t_mid, p1, v1);
    let k2a = to_accel(t_mid, p1, v1);

    let p2 = next_value(p, &k2v, h);
    let v2 = next_value(v, &k2a, h);
    let k3v = to_velocity(t_mid, p2, v2);
    let k3a = to_accel(t_mid, p2, v2);

    let p3 = next_value(p, &k3v, dt);
    let v3 = next_value(v, &k3a, dt);
    let k4v = to_velocity(t_end, p3, v3);
    let k4a = to_accel(t_end, p3, v3);

    let dp = average_slope(dt, &k1v, &k2v, &k3v, &k4v);
    let dv = average_slope(dt, &k1a, &k2a, &k3a, &k4a);
    proof {
        assert(is_rk4_step(
            slope_of(*to_velocity),
            slope_of(*to_accel),
            t,
            dt,
            *p,
            *v,
            k1v,
            k1a,
            k2v,
            k2a,
            k3v,
            k3a,
            k4v,
            k4a,
            dp,
            dv,
        ));
    }
    (dp, dv)
}

/// The state of a second-order system advanced by fourth-order Runge-Kutta
/// steps of a fixed size.
#[derive(Clone, Copy, Debug)]
pub struct RungeKutta4thOrder2nd<T> {
    pub position: Vector3<T>,
    pub velocity: Vector3<T>,
    pub delta_time: T,
}

impl<T: Scalar> RungeKutta4thOrder2nd<T> {
    pub fn new(position: Vector3<T>, velocity: Vector3<T>, delta_time: T) -> (r: Self)
        ensures
            r.position == position,
            r.velocity == velocity,
            r.delta_time == delta_time,
    {
        RungeKutta4thOrder2nd { position, velocity, delta_time }
    }

    pub fn delta_time(&self) -> (r: T)
        ensures
            r == self.delta_time,
    {
        self.delta_time
    }

    pub fn position(&self) -> (r: &Vector3<T>)
        ensures
            *r == self.position,
    {
        &self.position
    }

    pub fn velocity(&self) -> (r: &Vector3<T>)
        ensures
            *r == self.velocity,
    {
        &self.velocity
    }

    pub fn add_position(&mut self, dp: Vector3<T>)
        ensures
            final(self).position == old(self).position.plus(dp),
            final(self).velocity == old(self).velocity,
            final(self).delta_time == old(self).delta_time,
    {
        self.position = self.position + dp;
    }

    pub fn add_velocity(&mut self, dv: Vector3<T>)
        ensures
            final(self).position == old(self).position,
            final(self).velocity == old(self).velocity.plus(dv),
            final(self).delta_time == old(self).delta_time,
    {
        self.velocity = self.velocity + dv;
    }

    /// The increments of position and velocity over one step from time `t`,
    /// leaving the state as it is.
    pub fn step_delta<FV, FA>(&self, t: T, to_velocity: &FV, to_accel: &FA) -> (r: (
        Vector3<T>,
        Vector3<T>,
    )) where
        FV: Fn(T, Vector3<T>, Vector3<T>) -> Vector3<T>,
        FA: Fn(T, Vector3<T>, Vector3<T>) -> Vector3<T>,

        requires
            is_total(*to_velocity),
            is_total(*to_accel),
        ensures
            is_step_delta(
                slope_of(*to_velocity),
                slope_of(*to_accel),
                t,
                self.delta_time,
                self.position,
                self.velocity,
                r.0,
                r.1,
            ),
    {
        advance(t, self.delta_time, &self.position, &self.velocity, to_velocity, to_accel)
    }

    /// Advances the state by one step from time `t`.
    pub fn solve<FV, FA>(&mut self, t: T, to_velocity: &FV, to_accel: &FA) where
        FV: Fn(T, Vector3<T>, Vector3<T>) -> Vector3<T>,
        FA: Fn(T, Vector3<T>, Vector3<T>) -> Vector3<T>,

        requires
            is_total(*to_velocity),
            is_total(*to_accel),
        ensures
            final(self).delta_time == old(self).delta_time,
            exists|dp: Vector3<T>, dv: Vector3<T>|
                {
                    &&& #[trigger] is_step_delta(
                        slope_of(*to_velocity),
                        slope_of(*to_accel),
                        t,
                        old(self).delta_time,
                        old(self).position,
                        old(self).velocity,
                        dp,
                        dv,
                    )
                    &&& final(self).position == old(self).position.plus(dp)
                    &&& final(self).velocity == old(self).velocity.plus(dv)
                },
    {
        let (dp, dv) = self.step_delta(t, to_velocity, to_accel);
        self.add_position(dp);
        self.add_velocity(dv);
    }
}

/// At each time, position and velocity the relation allows at most one slope.
pub open spec fn is_deterministic<T: Scalar>(slope: SlopeRelation<T>) -> bool {
    forall|t: T, p: Vector3<T>, v: Vector3<T>, k1: Vector3<T>, k2: Vector3<T>|
        #![trigger slope(t, p, v, k1), slope(t, p, v, k2)]
        slope(t, p, v, k1) && slope(t, p, v, k2) ==> k1 == k2
}

/// When both derivative functions are deterministic, one step from a given
/// state has exactly one outcome.
pub proof fn lemma_step_delta_unique<T: Scalar>(
    velocity: SlopeRelation<T>,
    acceleration: SlopeRelation<T>,
    t: T,
    dt: T,
    p: Vector3<T>,
    v: Vector3<T>,
    dp1: Vector3<T>,
    dv1: Vector3<T>,
    dp2: Vector3<T>,
    dv2: Vector3<T>,
)
    requires
        is_deterministic(velocity),
        is_deterministic(acceleration),
        is_step_delta(velocity, acceleration, t, dt, p, v, dp1, dv1),
        is_step_delta(velocity, acceleration, t, dt, p, v, dp2, dv2),
    ensures
        dp1 == dp2,
        dv1 == dv2,
{
    let (k1v, k1a, k2v, k2a, k3v, k3a, k4v, k4a) = choose|
        k1v: Vector3<T>,
        k1a: Vector3<T>,
        k2v: Vector3<T>,
        k2a: Vector3<T>,
        k3v: Vector3<T>,
        k3a: Vector3<T>,
        k4v: Vector3<T>,
        k4a: Vector3<T>,
    |
        is_rk4_step(
            velocity,
            acceleration,
            t,
            dt,
            p,
            v,
            k1v,
            k1a,
            k2v,
            k2a,
            k3v,
            k3a,
            k4v,
            k4a,
            dp1,
            dv1,
        );
    let (j1v, j1a, j2v, j2a, j3v, j3a, j4v, j4a) = choose|
        j1v: Vector3<T>,
        j1a: Vector3<T>,
        j2v: Vector3<T>,
        j2a: Vector3<T>,
        j3v: Vector3<T>,
        j3a: Vector3<T>,
        j4v: Vector3<T>,
        j4a: Vector3<T>,
    |
        is_rk4_step(
            velocity,
            acceleration,
            t,
            dt,
            p,
            v,
            j1v,
            j1a,
            j2v,
            j2a,
            j3v,
            j3a,
            j4v,
            j4a,
            dp2,
            dv2,
        );
    assert(k1v == j1v && k1a == j1a);
    assert(k2v == j2v && k2a == j2a);
    assert(k3v == j3v && k3a == j3a);
    assert(k4v == j4v && k4a == j4a);
}

/// With a step of size zero the weighted average of any four slopes is the
/// zero vector.
pub proof fn lemma_average_slope_zero_step<T: Scalar>(
    k1: Vector3<T>,
    k2: Vector3<T>,
    k3: Vector3<T>,
    k4: Vector3<T>,
)
    ensures
        average_slope_spec(T::lit_spec(0), k1, k2, k3, k4) == Vector3::<T>::zero(),
{
    let two = T::lit_spec(2);
    let sum = k1.plus(k2.scaled(two)).plus(k3.scaled(two)).plus(k4);
    T::lemma_times_zero(sum.x);
    T::lemma_times_zero(sum.y);
    T::lemma_times_zero(sum.z);
    T::lemma_lit_nonzero(6);
    T::lemma_zero_over(T::lit_spec(6));
}

/// A step of size zero leaves position and velocity unchanged, whatever the
/// derivative functions return.
pub proof fn lemma_zero_step_keeps_state<T: Scalar>(
    velocity: SlopeRelation<T>,
    acceleration: SlopeRelation<T>,
    t: T,
    p: Vector3<T>,
    v: Vector3<T>,
    dp: Vector3<T>,
    dv: Vector3<T>,
)
    requires
        is_step_delta(velocity, acceleration, t, T::lit_spec(0), p, v, dp, dv),
    ensures
        dp == Vector3::<T>::zero(),
        dv == Vector3::<T>::zero(),
        p.plus(dp) == p,
        v.plus(dv) == v,
{
    let (k1v, k1a, k2v, k2a, k3v, k3a, k4v, k4a) = choose|
        k1v: Vector3<T>,
        k1a: Vector3<T>,
        k2v: Vector3<T>,
        k2a: Vector3<T>,
        k3v: Vector3<T>,
        k3a: Vector3<T>,
        k4v: Vector3<T>,
        k4a: Vector3<T>,
    |
        is_rk4_step(
            velocity,
            acceleration,
            t,
            T::lit_spec(0),
            p,
            v,
            k1v,
            k1a,
            k2v,
            k2a,
            k3v,
            k3a,
            k4v,
            k4a,
            dp,
            dv,
        );
    lemma_average_slope_zero_step(k1v, k2v, k3v, k4v);
    lemma_average_slope_zero_step(k1a, k2a, k3a, k4a);
    T::lemma_plus_zero(p.x);
    T::lemma_plus_zero(p.y);
    T::lemma_plus_zero(p.z);
    T::lemma_plus_zero(v.x);
    T::lemma_plus_zero(v.y);
    T::lemma_plus_zero(v.z);
}

} // verus!
