//! The power record of a device: one reading and one cap for each of its
//! sensors, and three readings for the device as a whole.

use vstd::prelude::*;
use crate::bindings::{made_since, asked, Call, Exchange, Foreign};
use crate::error::{check_res, status_kind, RocmErr};
use crate::record::Recorded;

verus! {

/// A power in watts, held exactly: the interface counts in milliwatts, and
/// the value is that count divided by 1000.
#[derive(Debug, Clone, Copy, PartialEq, Eq, Structural)]
pub struct Watts {
    pub milliwatts: u64,
}

impl Watts {
    /// The power that a raw count of milliwatts stands for.
    pub fn from_milliwatts(raw: u64) -> (w: Watts)
        ensures
            w.milliwatts == raw,
    {
        Watts { milliwatts: raw }
    }

    /// The whole watts of the value.
    pub fn whole(&self) -> (w: u64)
        ensures
            w == self.milliwatts / 1000,
            w * 1000 <= self.milliwatts < (w + 1) * 1000,
    {
        self.milliwatts / 1000
    }

    /// The thousandths of a watt that the value holds beyond the whole
    /// watts.
    pub fn thousandths(&self) -> (t: u16)
        ensures
            t == self.milliwatts % 1000,
            t < 1000,
            (self.milliwatts / 1000) * 1000 + t == self.milliwatts,
    {
        (self.milliwatts % 1000) as u16
    }
}

/// The least and the greatest power cap that a device accepts.
#[derive(Debug, Clone, Copy, PartialEq, Eq, Structural)]
pub struct PowerCapRange {
    pub min: Watts,
    pub max: Watts,
}

/// The power record of a device. It is made whole or not at all.
#[derive(Debug, Clone)]
pub struct Power {
    pub sensor_count: u16,
    pub power_avg: Watts,
    /// The reading of each sensor, at the sensor's index.
    pub power_per_sensor: Vec<Watts>,
    /// The cap of each sensor, at the sensor's index.
    pub current_sensor_power_cap: Vec<Watts>,
    pub default_power_cap: Watts,
    pub power_cap_range: PowerCapRange,
}

/// A power record with sequences in place of its vectors.
pub struct PowerView {
    pub sensor_count: u16,
    pub power_avg: Watts,
    pub power_per_sensor: Seq<Watts>,
    pub current_sensor_power_cap: Seq<Watts>,
    pub default_power_cap: Watts,
    pub power_cap_range: PowerCapRange,
}

impl View for Power {
    type V = PowerView;

    open spec fn view(&self) -> PowerView {
        PowerView {
            sensor_count: self.sensor_count,
            power_avg: self.power_avg,
            power_per_sensor: self.power_per_sensor@,
            current_sensor_power_cap: self.current_sensor_power_cap@,
            default_power_cap: self.default_power_cap,
            power_cap_range: self.power_cap_range,
        }
    }
}

impl PowerView {
    /// There is one reading and one cap for each sensor.
    pub open spec fn wf(self) -> bool {
        &&& self.power_per_sensor.len() == self.sensor_count
        &&& self.current_sensor_power_cap.len() == self.sensor_count
    }
}

/// A result of the power query with the record's view in the record's
/// place.
pub open spec fn power_view(r: Result<Power, RocmErr>) -> Result<PowerView, RocmErr> {
    match r {
        Ok(p) => Ok(p@),
        Err(e) => Err(e),
    }
}

/// The number of sensors that the first exchange of `t` tells, and zero
/// where that exchange failed.
pub open spec fn sensors(t: Seq<Exchange>) -> int {
    if t.len() > 0 && t[0].reply.status == 0 {
        t[0].reply.payload->U16_0 as int
    } else {
        0
    }
}

/// The call that stands at place `k` of a power query on a device with `n`
/// sensors: the sensor count; the reading of each sensor in order; the
/// average; the cap of each sensor in order; the default cap; the range.
pub open spec fn planned_call(dev_id: u32, n: int, k: int) -> Call {
    if k == 0 {
        Call::PowerSensorCount(dev_id)
    } else if k <= n {
        Call::PowerSensor(dev_id, (k - 1) as u16)
    } else if k == n + 1 {
        Call::PowerAvgAll(dev_id)
    } else if k <= 2 * n + 1 {
        Call::PowerCap(dev_id, (k - n - 2) as u16)
    } else if k == 2 * n + 2 {
        Call::DefaultPowerCap(dev_id)
    } else {
        Call::PowerCapRange(dev_id)
    }
}

/// How many calls a power query makes when none fails.
pub open spec fn plan_len(n: int) -> int {
    2 * n + 4
}

/// `t` is what a power query on `dev_id` exchanges: the planned calls in
/// their order, from the first up to the first that fails, and all of them
/// where none fails.
pub open spec fn is_power_run(dev_id: u32, t: Seq<Exchange>) -> bool {
    &&& 1 <= t.len() <= plan_len(sensors(t))
    &&& forall|k: int|
        0 <= k < t.len() ==> (#[trigger] t[k]).call == planned_call(dev_id, sensors(t), k)
            && t[k].well_shaped()
    &&& forall|k: int| 0 <= k < t.len() - 1 ==> (#[trigger] t[k]).reply.status == 0
    &&& t.last().reply.status == 0 ==> t.len() == plan_len(sensors(t))
}

/// The power that the exchange at place `k` of `t` reports.
pub open spec fn watts_at(t: Seq<Exchange>, k: int) -> Watts {
    Watts { milliwatts: t[k].reply.payload->U64_0 }
}

/// What a power query returns after the exchanges `t`: the error of the
/// last exchange where that one failed, else the record made of all the
/// replies, each value at the place of its call.
pub open spec fn power_outcome(t: Seq<Exchange>) -> Result<PowerView, RocmErr> {
    let n = sensors(t);
    if t.last().reply.status != 0 {
        Err(status_kind(t.last().reply.status))
    } else {
        Ok(
            PowerView {
                sensor_count: n as u16,
                power_avg: watts_at(t, n + 1),
                power_per_sensor: Seq::new(n as nat, |s: int| watts_at(t, 1 + s)),
                current_sensor_power_cap: Seq::new(n as nat, |s: int| watts_at(t, n + 2 + s)),
                default_power_cap: watts_at(t, 2 * n + 2),
                power_cap_range: PowerCapRange {
                    min: Watts { milliwatts: t[2 * n + 3].reply.payload->Dual_0 },
                    max: Watts { milliwatts: t[2 * n + 3].reply.payload->Dual_1 },
                },
            },
        )
    }
}

/// A record that a power query returns has one reading and one cap for
/// each sensor that the device told of, and is returned only after every
/// planned call.
pub proof fn lemma_power_record_is_whole(dev_id: u32, t: Seq<Exchange>)
    requires
        is_power_run(dev_id, t),
        power_outcome(t) is Ok,
    ensures
        power_outcome(t)->Ok_0.wf(),
        power_outcome(t)->Ok_0.sensor_count == sensors(t),
        t.len() == plan_len(sensors(t)),
        forall|k: int| 0 <= k < t.len() ==> (#[trigger] t[k]).reply.status == 0,
{
    assert forall|k: int| 0 <= k < t.len() implies (#[trigger] t[k]).reply.status == 0 by {
        if k == t.len() - 1 {
            assert(t[k] == t.last());
        }
    }
}

/// A power query stops at the first call that fails: that call is the last
/// of the run, and its error is what the query returns.
pub proof fn lemma_power_fails_fast(dev_id: u32, t: Seq<Exchange>, k: int)
    requires
        is_power_run(dev_id, t),
        0 <= k < t.len(),
        t[k].reply.status != 0,
    ensures
        k == t.len() - 1,
        power_outcome(t) == Err::<PowerView, RocmErr>(status_kind(t[k].reply.status)),
{
}

/// What a power query exchanges is decided by the replies alone: two runs
/// on one device that were given the same replies, place by place, are the
/// same run, and so return the same.
pub proof fn lemma_power_run_is_determined(dev_id: u32, t: Seq<Exchange>, u: Seq<Exchange>)
    requires
        is_power_run(dev_id, t),
        is_power_run(dev_id, u),
        forall|k: int| 0 <= k < t.len() && k < u.len() ==> t[k].reply == u[k].reply,
    ensures
        t == u,
        power_outcome(t) == power_outcome(u),
{
    assert(t[0].reply == u[0].reply);
    assert(sensors(t) == sensors(u));
    if t.len() < u.len() {
        assert(t[t.len() - 1].reply == u[t.len() - 1].reply);
        assert(u[t.len() - 1].reply.status == 0);
    }
    if u.len() < t.len() {
        assert(t[u.len() - 1].reply == u[u.len() - 1].reply);
        assert(t[u.len() - 1].reply.status == 0);
    }
    assert(t.len() == u.len());
    assert forall|k: int| 0 <= k < t.len() implies t[k] == u[k] by {
        assert(t[k].call == u[k].call);
        assert(t[k].reply == u[k].reply);
    }
    assert(t =~= u);
}

/// The first `t.len()` calls of a power query on a device with `n`
/// sensors, all answered with success.
pub open spec fn good_so_far(dev_id: u32, n: int, t: Seq<Exchange>) -> bool {
    &&& 1 <= t.len() <= plan_len(n)
    &&& sensors(t) == n
    &&& forall|k: int|
        0 <= k < t.len() ==> (#[trigger] t[k]).call == planned_call(dev_id, n, k)
            && t[k].well_shaped() && t[k].reply.status == 0
}

/// A run that was good so far and then met a failure is a whole run, and
/// its outcome is the error of that failure.
proof fn lemma_run_fails(dev_id: u32, n: int, t: Seq<Exchange>, x: Exchange)
    requires
        0 <= n,
        t.len() == 0 || good_so_far(dev_id, n, t),
        t.len() < plan_len(n),
        t.len() == 0 ==> n == 0,
        x.call == planned_call(dev_id, n, t.len() as int),
        x.well_shaped(),
        x.reply.status != 0,
    ensures
        is_power_run(dev_id, t.push(x)),
        power_outcome(t.push(x)) == Err::<PowerView, RocmErr>(status_kind(x.reply.status)),
{
    let u = t.push(x);
    assert(u.last() == x);
    if t.len() > 0 {
        assert(u[0] == t[0]);
    }
    assert(sensors(u) == n);
    assert forall|k: int| 0 <= k < u.len() implies (#[trigger] u[k]).call == planned_call(
        dev_id,
        sensors(u),
        k,
    ) && u[k].well_shaped() by {
        if k < t.len() {
            assert(u[k] == t[k]);
        }
    }
    assert forall|k: int| 0 <= k < u.len() - 1 implies (#[trigger] u[k]).reply.status == 0 by {
        assert(u[k] == t[k]);
    }
}

/// A run that was good so far stays so with one more planned call that
/// succeeded.
proof fn lemma_run_goes_on(dev_id: u32, n: int, t: Seq<Exchange>, x: Exchange)
    requires
        good_so_far(dev_id, n, t),
        t.len() < plan_len(n),
        x.call == planned_call(dev_id, n, t.len() as int),
        x.well_shaped(),
        x.reply.status == 0,
    ensures
        good_so_far(dev_id, n, t.push(x)),
        forall|k: int| 0 <= k < t.len() ==> t.push(x)[k] == t[k],
        t.push(x)[t.len() as int] == x,
{
    let u = t.push(x);
    assert(u[0] == t[0]);
    assert forall|k: int| 0 <= k < u.len() implies (#[trigger] u[k]).call == planned_call(
        dev_id,
        n,
        k,
    ) && u[k].well_shaped() && u[k].reply.status == 0 by {
        if k < t.len() {
            assert(u[k] == t[k]);
        }
    }
}

/// A run that is good and complete is a whole run.
proof fn lemma_run_complete(dev_id: u32, n: int, t: Seq<Exchange>)
    requires
        good_so_far(dev_id, n, t),
        t.len() == plan_len(n),
    ensures
        is_power_run(dev_id, t),
        t.last().reply.status == 0,
{
}

/// How many power sensors the device at `dev_id` has.
pub fn get_sensors<F: Foreign>(foreign: &mut Recorded<F>, dev_id: u32) -> (r: Result<u16, RocmErr>)
    ensures
        asked(old(foreign).history(), final(foreign).history(), Call::PowerSensorCount(dev_id)),
        r == final(foreign).history().last().reply.u16_outcome(),
{
    let sensors = foreign.power_sensor_count(dev_id);
    match check_res(sensors.status) {
        Ok(()) => Ok(sensors.data),
        Err(e) => Err(e),
    }
}

impl Power {
    /// There is one reading and one cap for each sensor.
    pub open spec fn wf(&self) -> bool {
        self@.wf()
    }

    /// Reads the power record of the device at `dev_id`.
    ///
    /// The calls are made in the planned order and stop at the first that
    /// fails, whose error is returned. A record is returned only when every
    /// call succeeded, and then holds the value of every reply.
    pub fn get_power<F: Foreign>(foreign: &mut Recorded<F>, dev_id: u32) -> (r: Result<Power, RocmErr>)
        ensures
            old(foreign).history().is_prefix_of(final(foreign).history()),
            is_power_run(dev_id, made_since(old(foreign).history(), final(foreign).history())),
            power_view(r) == power_outcome(
                made_since(old(foreign).history(), final(foreign).history()),
            ),
            r matches Ok(p) ==> p.wf(),
    {
        let ghost h0 = foreign.history();
        let ghost mut t: Seq<Exchange> = Seq::empty();
        assert(foreign.history() =~= h0 + t);

        let sensors = foreign.power_sensor_count(dev_id);
        let ghost x = foreign.history().last();
        match check_res(sensors.status) {
            Ok(()) => {},
            Err(e) => {
                proof {
                    lemma_run_fails(dev_id, 0, t, x);
                    assert(foreign.history() =~= h0 + t.push(x));
                    assert(made_since(h0, foreign.history()) =~= t.push(x));
                }
                return Err(e);
            },
        }
        let n: u16 = sensors.data;
        proof {
            assert(foreign.history() =~= h0 + t.push(x));
            t = t.push(x);
            assert(t[0] == x);
        }

        let mut power_per_sensor: Vec<Watts> = Vec::new();
        let mut s: u16 = 0;
        while s < n
            invariant
                s <= n,
                h0 == old(foreign).history(),
                foreign.history() == h0 + t,
                good_so_far(dev_id, n as int, t),
                t.len() == 1 + s,
                power_per_sensor@.len() == s,
                forall|j: int| 0 <= j < s ==> power_per_sensor@[j] == watts_at(t, 1 + j),
            decreases n - s,
        {
            let temp = foreign.power_sensor(dev_id, s);
            let ghost x = foreign.history().last();
            proof {
                assert(foreign.history() =~= h0 + t.push(x));
            }
            match check_res(temp.status) {
                Ok(()) => {},
                Err(e) => {
                    proof {
                        lemma_run_fails(dev_id, n as int, t, x);
                        assert(made_since(h0, foreign.history()) =~= t.push(x));
                    }
                    return Err(e);
                },
            }
            proof {
                lemma_run_goes_on(dev_id, n as int, t, x);
                t = t.push(x);
            }
            power_per_sensor.push(Watts::from_milliwatts(temp.data));
            s += 1;
        }

        let avg_power = foreign.power_avg_all(dev_id);
        let ghost x = foreign.history().last();
        proof {
            assert(foreign.history() =~= h0 + t.push(x));
        }
        match check_res(avg_power.status) {
            Ok(()) => {},
            Err(e) => {
                proof {
                    lemma_run_fails(dev_id, n as int, t, x);
                    assert(made_since(h0, foreign.history()) =~= t.push(x));
                }
                return Err(e);
            },
        }
        proof {
            lemma_run_goes_on(dev_id, n as int, t, x);
            t = t.push(x);
        }

        let mut current_sensor_power_cap: Vec<Watts> = Vec::new();
        let mut s: u16 = 0;
        while s < n
            invariant
                s <= n,
                h0 == old(foreign).history(),
                foreign.history() == h0 + t,
                good_so_far(dev_id, n as int, t),
                t.len() == n + 2 + s,
                power_per_sensor@.len() == n,
                forall|j: int| 0 <= j < n ==> power_per_sensor@[j] == watts_at(t, 1 + j),
                t[n + 1].reply == avg_power@,
                current_sensor_power_cap@.len() == s,
                forall|j: int|
                    0 <= j < s ==> current_sensor_power_cap@[j] == watts_at(t, n + 2 + j),
            decreases n - s,
        {
            let temp = foreign.power_cap(dev_id, s);
            let ghost x = foreign.history().last();
            proof {
                assert(foreign.history() =~= h0 + t.push(x));
            }
            match check_res(temp.status) {
                Ok(()) => {},
                Err(e) => {
                    proof {
                        lemma_run_fails(dev_id, n as int, t, x);
                        assert(made_since(h0, foreign.history()) =~= t.push(x));
                    }
                    return Err(e);
                },
            }
            proof {
                lemma_run_goes_on(dev_id, n as int, t, x);
                t = t.push(x);
            }
            current_sensor_power_cap.push(Watts::from_milliwatts(temp.data));
            s += 1;
        }

        let default_power_cap = foreign.default_power_cap(dev_id);
        let ghost x = foreign.history().last();
        proof {
            assert(foreign.history() =~= h0 + t.push(x));
        }
        match check_res(default_power_cap.status) {
            Ok(()) => {},
            Err(e) => {
                proof {
                    lemma_run_fails(dev_id, n as int, t, x);
                    assert(made_since(h0, foreign.history()) =~= t.push(x));
                }
                return Err(e);
            },
        }
        proof {
            lemma_run_goes_on(dev_id, n as int, t, x);
            t = t.push(x);
        }

        let power_cap_range = foreign.power_cap_range(dev_id);
        let ghost x = foreign.history().last();
        proof {
            assert(foreign.history() =~= h0 + t.push(x));
        }
        match check_res(power_cap_range.status) {
            Ok(()) => {},
            Err(e) => {
                proof {
                    lemma_run_fails(dev_id, n as int, t, x);
                    assert(made_since(h0, foreign.history()) =~= t.push(x));
                }
                return Err(e);
            },
        }
        proof {
            lemma_run_goes_on(dev_id, n as int, t, x);
            t = t.push(x);
            lemma_run_complete(dev_id, n as int, t);
            assert(made_since(h0, foreign.history()) =~= t);
        }

        let power = Power {
            sensor_count: n,
            power_avg: Watts::from_milliwatts(avg_power.data),
            power_per_sensor,
            current_sensor_power_cap,
            default_power_cap: Watts::from_milliwatts(default_power_cap.data),
            power_cap_range: PowerCapRange {
                min: Watts::from_milliwatts(power_cap_range.data1),
                max: Watts::from_milliwatts(power_cap_range.data2),
            },
        };
        proof {
            let v = power_outcome(t)->Ok_0;
            assert(power@.power_per_sensor =~= v.power_per_sensor);
            assert(power@.current_sensor_power_cap =~= v.current_sensor_power_cap);
        }
        Ok(power)
    }
}

} // verus!
