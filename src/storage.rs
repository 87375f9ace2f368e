//! A bounded energy reservoir with charge and discharge efficiency,
//! self-discharge and a power limit.
use vstd::prelude::*;
use crate::units::{MAX_QUANTITY, PER_MILLE};
use crate::random::draw_between;

verus! {

/// Largest self-discharge rate, in parts per million per hour: four per hour,
/// i.e. the whole content within one step.
pub const MAX_SELF_DISCHARGE: i64 = 4_000_000;

/// Denominator of the trapezoidal self-discharge term: parts per million,
/// steps per hour and the average of two values.
pub const SELF_DISCHARGE_DENOMINATOR: i64 = 8_000_000;

/// What a storage is: all values are the parameters and state as integers.
pub ghost struct StorageModel {
    /// Capacity in watt-steps.
    pub capacity: int,
    /// Current content in watt-steps.
    pub charge: int,
    /// Charging efficiency, per mille.
    pub charging_efficiency: int,
    /// Discharging efficiency, per mille.
    pub discharging_efficiency: int,
    /// Self-discharge rate, parts per million of the content per hour.
    pub self_discharge: int,
    /// Largest power flowing in or out, W.
    pub pow_max: int,
}

/// Why a storage cannot be built.
#[derive(Debug, Clone, Copy, PartialEq, Eq, Structural)]
pub enum StorageError {
    /// Capacity is not positive or too large.
    Capacity,
    /// An efficiency lies outside `[0, 1000]` per mille.
    Efficiency,
    /// The self-discharge rate is negative or too large.
    SelfDischarge,
    /// The power limit is negative or too large.
    PowerLimit,
    /// The initial charge lies outside `[0, capacity]`.
    Charge,
}

/// A generic energy storage, thermal or electrical.
#[derive(Debug, Clone, Copy)]
pub struct GenericStorage {
    cap: i64,
    charge: i64,
    charging_efficiency: i64,
    discharging_efficiency: i64,
    self_discharge: i64,
    pow_max: i64,
}

/// The parameters are acceptable for a storage.
pub open spec fn valid_parameters(
    cap: int,
    charging_efficiency: int,
    discharging_efficiency: int,
    self_discharge: int,
    pow_max: int,
) -> bool {
    &&& 0 < cap <= MAX_QUANTITY
    &&& 0 <= charging_efficiency <= PER_MILLE
    &&& 0 <= discharging_efficiency <= PER_MILLE
    &&& 0 <= self_discharge <= MAX_SELF_DISCHARGE
    &&& 0 <= pow_max <= MAX_QUANTITY
}

/// The error, if any, that parameters give, checked in the order above.
pub open spec fn parameter_error(
    cap: int,
    charging_efficiency: int,
    discharging_efficiency: int,
    self_discharge: int,
    pow_max: int,
) -> Option<StorageError> {
    if !(0 < cap <= MAX_QUANTITY) {
        Some(StorageError::Capacity)
    } else if !(0 <= charging_efficiency <= PER_MILLE) || !(0 <= discharging_efficiency
        <= PER_MILLE) {
        Some(StorageError::Efficiency)
    } else if !(0 <= self_discharge <= MAX_SELF_DISCHARGE) {
        Some(StorageError::SelfDischarge)
    } else if !(0 <= pow_max <= MAX_QUANTITY) {
        Some(StorageError::PowerLimit)
    } else {
        None
    }
}

impl StorageModel {
    /// Parameters in range and `0 <= charge <= capacity`.
    pub open spec fn wf(self) -> bool {
        &&& valid_parameters(
            self.capacity,
            self.charging_efficiency,
            self.discharging_efficiency,
            self.self_discharge,
            self.pow_max,
        )
        &&& 0 <= self.charge <= self.capacity
    }

    /// Relative charge in per mille, rounded down.
    pub open spec fn relative_charge(self) -> int {
        self.charge * PER_MILLE as int / self.capacity
    }

    /// Charge, unmet power and conversion losses after charging with `p > 0`.
    pub open spec fn charged(self, p: int) -> (int, int, int) {
        let accepted = if p > self.pow_max { self.pow_max } else { p };
        let stored = accepted * self.charging_efficiency / PER_MILLE as int;
        let headroom = self.capacity - self.charge;
        if stored <= headroom {
            (self.charge + stored, p - accepted, accepted - stored)
        } else {
            let full = headroom + headroom * (PER_MILLE as int - self.charging_efficiency) / PER_MILLE as int;
            let taken = if full < accepted { full } else { accepted };
            (self.capacity, p - taken, taken - headroom)
        }
    }

    /// Charge, unmet power and conversion losses after discharging with `p < 0`.
    pub open spec fn discharged(self, p: int) -> (int, int, int) {
        let delivered = if p < -self.pow_max { self.pow_max } else { -p };
        let loss = delivered * (PER_MILLE as int - self.discharging_efficiency) / PER_MILLE as int;
        if delivered + loss <= self.charge {
            (self.charge - delivered - loss, p + delivered, loss)
        } else {
            let possible = self.charge - self.charge * (PER_MILLE as int - self.discharging_efficiency)
                / PER_MILLE as int;
            let given = if possible < delivered { possible } else { delivered };
            (0, p + given, self.charge - given)
        }
    }

    /// Charge, unmet power and conversion losses of the power transfer alone.
    pub open spec fn transfer(self, p: int) -> (int, int, int) {
        if p > 0 {
            self.charged(p)
        } else if p < 0 {
            self.discharged(p)
        } else {
            (self.charge, 0, 0)
        }
    }

    /// Self-discharge over one step: the trapezoidal average of the losses at
    /// the contents `before` and `after`, at most what is left.
    pub open spec fn self_loss(self, before: int, after: int) -> int {
        let trapezoid = (before + after) * self.self_discharge / SELF_DISCHARGE_DENOMINATOR as int;
        if trapezoid < after {
            trapezoid
        } else {
            after
        }
    }

    /// The storage after one step with power `p`: the transfer, then self-discharge.
    pub open spec fn after_step(self, p: int) -> StorageModel {
        let mid = self.transfer(p).0;
        StorageModel { charge: mid - self.self_loss(self.charge, mid), ..self }
    }

    /// `(unmet power, total losses)` of one step with power `p`.
    pub open spec fn step_result(self, p: int) -> (int, int) {
        let (mid, unmet, loss) = self.transfer(p);
        (unmet, loss + self.self_loss(self.charge, mid))
    }
}

impl View for GenericStorage {
    type V = StorageModel;

    closed spec fn view(&self) -> StorageModel {
        StorageModel {
            capacity: self.cap as int,
            charge: self.charge as int,
            charging_efficiency: self.charging_efficiency as int,
            discharging_efficiency: self.discharging_efficiency as int,
            self_discharge: self.self_discharge as int,
            pow_max: self.pow_max as int,
        }
    }
}

impl GenericStorage {
    /// Creates a storage with the given content.
    ///
    /// Capacity and charge in watt-steps, efficiencies in per mille,
    /// self-discharge in parts per million per hour, power limit in W.
    pub fn with_charge(
        cap: i64,
        charging_efficiency: i64,
        discharging_efficiency: i64,
        self_discharge: i64,
        pow_max: i64,
        charge: i64,
    ) -> (r: Result<GenericStorage, StorageError>)
        ensures
            parameter_error(
                cap as int,
                charging_efficiency as int,
                discharging_efficiency as int,
                self_discharge as int,
                pow_max as int,
            ) is Some ==> r == Err::<GenericStorage, StorageError>(
                parameter_error(
                    cap as int,
                    charging_efficiency as int,
                    discharging_efficiency as int,
                    self_discharge as int,
                    pow_max as int,
                )->Some_0,
            ),
            parameter_error(
                cap as int,
                charging_efficiency as int,
                discharging_efficiency as int,
                self_discharge as int,
                pow_max as int,
            ) is None ==> (r is Err <==> !(0 <= charge <= cap)),
            r is Err && parameter_error(
                cap as int,
                charging_efficiency as int,
                discharging_efficiency as int,
                self_discharge as int,
                pow_max as int,
            ) is None ==> r == Err::<GenericStorage, StorageError>(StorageError::Charge),
            r matches Ok(s) ==> s@.wf() && s@ == (StorageModel {
                capacity: cap as int,
                charge: charge as int,
                charging_efficiency: charging_efficiency as int,
                discharging_efficiency: discharging_efficiency as int,
                self_discharge: self_discharge as int,
                pow_max: pow_max as int,
            }),
    {
        if !(0 < cap && cap <= MAX_QUANTITY) {
            return Err(StorageError::Capacity);
        }
        if !(0 <= charging_efficiency && charging_efficiency <= PER_MILLE) || !(0
            <= discharging_efficiency && discharging_efficiency <= PER_MILLE) {
            return Err(StorageError::Efficiency);
        }
        if !(0 <= self_discharge && self_discharge <= MAX_SELF_DISCHARGE) {
            return Err(StorageError::SelfDischarge);
        }
        if !(0 <= pow_max && pow_max <= MAX_QUANTITY) {
            return Err(StorageError::PowerLimit);
        }
        if !(0 <= charge && charge <= cap) {
            return Err(StorageError::Charge);
        }
        Ok(GenericStorage {
            cap,
            charge,
            charging_efficiency,
            discharging_efficiency,
            self_discharge,
            pow_max,
        })
    }

    /// Creates a storage whose content is drawn at random in `[0, capacity]`.
    pub fn new(
        cap: i64,
        charging_efficiency: i64,
        discharging_efficiency: i64,
        self_discharge: i64,
        pow_max: i64,
    ) -> (r: Result<GenericStorage, StorageError>)
        ensures
            r is Err <==> parameter_error(
                cap as int,
                charging_efficiency as int,
                discharging_efficiency as int,
                self_discharge as int,
                pow_max as int,
            ) is Some,
            r matches Err(e) ==> Some(e) == parameter_error(
                cap as int,
                charging_efficiency as int,
                discharging_efficiency as int,
                self_discharge as int,
                pow_max as int,
            ),
            r matches Ok(s) ==> s@.wf() && s@.capacity == cap && s@.charging_efficiency
                == charging_efficiency && s@.discharging_efficiency == discharging_efficiency
                && s@.self_discharge == self_discharge && s@.pow_max == pow_max,
    {
        if !(0 < cap && cap <= MAX_QUANTITY) {
            return Err(StorageError::Capacity);
        }
        let charge = draw_between(0, cap as u64);
        GenericStorage::with_charge(
            cap,
            charging_efficiency,
            discharging_efficiency,
            self_discharge,
            pow_max,
            charge as i64,
        )
    }

    /// Capacity in watt-steps.
    pub fn get_capacity(&self) -> (r: i64)
        ensures
            r == self@.capacity,
    {
        self.cap
    }

    /// Content in watt-steps.
    pub fn get_charge(&self) -> (r: i64)
        ensures
            r == self@.charge,
    {
        self.charge
    }

    /// Relative charge `charge / capacity` in per mille, rounded down.
    pub fn get_relative_charge(&self) -> (r: i64)
        requires
            self@.wf(),
        ensures
            r == self@.relative_charge(),
            0 <= r <= PER_MILLE,
    {
        proof {
            lemma_relative_charge_bounds(self@);
        }
        self.charge * PER_MILLE / self.cap
    }

    /// Charges with power `charge_power > 0`; returns unmet power and losses.
    fn charge_storage(&mut self, charge_power: i64) -> (r: (i64, i64))
        requires
            old(self)@.wf(),
            charge_power > 0,
        ensures
            final(self)@ == (StorageModel { charge: old(self)@.charged(charge_power as int).0, ..old(self)@ }),
            r.0 == old(self)@.charged(charge_power as int).1,
            r.1 == old(self)@.charged(charge_power as int).2,
    {
        let accepted = if charge_power > self.pow_max {
            self.pow_max
        } else {
            charge_power
        };
        assert(0 <= accepted * self.charging_efficiency <= MAX_QUANTITY * PER_MILLE)
            by (nonlinear_arith)
            requires
                0 <= accepted <= MAX_QUANTITY,
                0 <= self.charging_efficiency <= PER_MILLE,
        ;
        let stored = accepted * self.charging_efficiency / PER_MILLE;
        let headroom = self.cap - self.charge;
        if stored <= headroom {
            self.charge = self.charge + stored;
            (charge_power - accepted, accepted - stored)
        } else {
            assert(0 <= headroom * (PER_MILLE - self.charging_efficiency) <= MAX_QUANTITY * PER_MILLE)
                by (nonlinear_arith)
                requires
                    0 <= headroom <= MAX_QUANTITY,
                    0 <= self.charging_efficiency <= PER_MILLE,
            ;
            let full = headroom + headroom * (PER_MILLE - self.charging_efficiency) / PER_MILLE;
            let taken = if full < accepted {
                full
            } else {
                accepted
            };
            self.charge = self.cap;
            (charge_power - taken, taken - headroom)
        }
    }

    /// Discharges with power `discharge_power < 0`; returns unmet power and losses.
    fn discharge_storage(&mut self, discharge_power: i64) -> (r: (i64, i64))
        requires
            old(self)@.wf(),
            discharge_power < 0,
        ensures
            final(self)@ == (StorageModel { charge: old(self)@.discharged(discharge_power as int).0, ..old(self)@ }),
            r.0 == old(self)@.discharged(discharge_power as int).1,
            r.1 == old(self)@.discharged(discharge_power as int).2,
    {
        let delivered = if discharge_power < -self.pow_max {
            self.pow_max
        } else {
            -discharge_power
        };
        assert(0 <= delivered * (PER_MILLE - self.discharging_efficiency) <= MAX_QUANTITY * PER_MILLE)
            by (nonlinear_arith)
            requires
                0 <= delivered <= MAX_QUANTITY,
                0 <= self.discharging_efficiency <= PER_MILLE,
        ;
        let loss = delivered * (PER_MILLE - self.discharging_efficiency) / PER_MILLE;
        if delivered + loss <= self.charge {
            self.charge = self.charge - delivered - loss;
            (discharge_power + delivered, loss)
        } else {
            assert(0 <= self.charge * (PER_MILLE - self.discharging_efficiency) <= self.charge * PER_MILLE)
                by (nonlinear_arith)
                requires
                    0 <= self.charge <= MAX_QUANTITY,
                    0 <= self.discharging_efficiency <= PER_MILLE,
            ;
            let possible = self.charge - self.charge * (PER_MILLE - self.discharging_efficiency)
                / PER_MILLE;
            let given = if possible < delivered {
                possible
            } else {
                delivered
            };
            let content = self.charge;
            self.charge = 0;
            (discharge_power + given, content - given)
        }
    }

    /// One step with power `pow` (positive charges, negative discharges).
    ///
    /// Returns `(unmet, losses)`: the power that could not be taken (positive)
    /// or given (negative), and the conversion and self-discharge losses.
    pub fn step(&mut self, pow: i64) -> (r: (i64, i64))
        requires
            old(self)@.wf(),
        ensures
            final(self)@ == old(self)@.after_step(pow as int),
            r.0 == old(self)@.step_result(pow as int).0,
            r.1 == old(self)@.step_result(pow as int).1,
            final(self)@.wf(),
            final(self)@.charge - old(self)@.charge == pow - r.0 - r.1,
            pow >= 0 ==> 0 <= r.0 <= pow,
            pow <= 0 ==> pow <= r.0 <= 0,
            0 <= r.1 <= 2 * MAX_QUANTITY,
    {
        let before = self.charge;
        proof {
            lemma_transfer_bounds(self@, pow as int);
        }
        let (unmet, loss) = if pow > 0 {
            self.charge_storage(pow)
        } else if pow < 0 {
            self.discharge_storage(pow)
        } else {
            (0, 0)
        };
        let after = self.charge;
        assert(0 <= (before + after) * self.self_discharge <= 2 * MAX_QUANTITY * MAX_SELF_DISCHARGE)
            by (nonlinear_arith)
            requires
                0 <= before <= MAX_QUANTITY,
                0 <= after <= MAX_QUANTITY,
                0 <= self.self_discharge <= MAX_SELF_DISCHARGE,
        ;
        let trapezoid = (before + after) * self.self_discharge / SELF_DISCHARGE_DENOMINATOR;
        let self_loss = if trapezoid < after {
            trapezoid
        } else {
            after
        };
        self.charge = after - self_loss;
        proof {
            lemma_step_conserves(old(self)@, pow as int);
        }
        (unmet, loss + self_loss)
    }
}

/// One step of `storage` with power `pow`, as a free function for drivers
/// that check the energy balance; see [`GenericStorage::step`].
pub fn test_generic_storage(storage: &mut GenericStorage, pow: i64) -> (r: (i64, i64))
    requires
        old(storage)@.wf(),
    ensures
        final(storage)@ == old(storage)@.after_step(pow as int),
        r.0 == old(storage)@.step_result(pow as int).0,
        r.1 == old(storage)@.step_result(pow as int).1,
        final(storage)@.charge - old(storage)@.charge == pow - r.0 - r.1,
{
    storage.step(pow)
}

/// The relative charge of a well-formed storage lies in `[0, 1000]` per mille.
pub proof fn lemma_relative_charge_bounds(s: StorageModel)
    requires
        s.wf(),
    ensures
        0 <= s.relative_charge() <= PER_MILLE,
{
    assert(0 <= s.charge * PER_MILLE <= s.capacity * PER_MILLE) by (nonlinear_arith)
        requires
            0 <= s.charge <= s.capacity,
    ;
    vstd::arithmetic::div_mod::lemma_div_is_ordered(0, s.charge * PER_MILLE, s.capacity);
    vstd::arithmetic::div_mod::lemma_div_is_ordered(s.charge * PER_MILLE, s.capacity * PER_MILLE, s.capacity);
    vstd::arithmetic::div_mod::lemma_div_by_multiple(PER_MILLE as int, s.capacity);
}

/// The transfer keeps the content within `[0, capacity]`, and the unmet power
/// has the sign of the request: positive when charging, negative when discharging.
pub proof fn lemma_transfer_bounds(s: StorageModel, p: int)
    requires
        s.wf(),
    ensures
        0 <= s.transfer(p).0 <= s.capacity,
        0 <= s.transfer(p).2 <= MAX_QUANTITY,
        p >= 0 ==> 0 <= s.transfer(p).1 <= p,
        p <= 0 ==> p <= s.transfer(p).1 <= 0,
        s.transfer(p).0 - s.charge == p - s.transfer(p).1 - s.transfer(p).2,
{
    if p > 0 {
        let accepted = if p > s.pow_max { s.pow_max } else { p };
        assert(0 <= accepted * s.charging_efficiency <= accepted * PER_MILLE) by (nonlinear_arith)
            requires
                0 <= accepted,
                0 <= s.charging_efficiency <= PER_MILLE,
        ;
        let headroom = s.capacity - s.charge;
        assert(0 <= headroom * (PER_MILLE - s.charging_efficiency)) by (nonlinear_arith)
            requires
                0 <= headroom,
                0 <= s.charging_efficiency <= PER_MILLE,
        ;
    } else if p < 0 {
        let delivered = if p < -s.pow_max { s.pow_max } else { -p };
        assert(0 <= delivered * (PER_MILLE - s.discharging_efficiency) <= delivered * PER_MILLE)
            by (nonlinear_arith)
            requires
                0 <= delivered,
                0 <= s.discharging_efficiency <= PER_MILLE,
        ;
        assert(0 <= s.charge * (PER_MILLE - s.discharging_efficiency) <= s.charge * PER_MILLE)
            by (nonlinear_arith)
            requires
                0 <= s.charge,
                0 <= s.discharging_efficiency <= PER_MILLE,
        ;
    }
}

/// Energy balance of one step: the change of content equals the requested
/// power minus the unmet power minus all losses (in watt-steps, one step).
pub proof fn lemma_step_conserves(s: StorageModel, p: int)
    requires
        s.wf(),
    ensures
        s.after_step(p).charge - s.charge == p - s.step_result(p).0 - s.step_result(p).1,
        s.after_step(p).wf(),
        0 <= s.step_result(p).1 <= 2 * MAX_QUANTITY,
        p >= 0 ==> 0 <= s.step_result(p).0 <= p,
        p <= 0 ==> p <= s.step_result(p).0 <= 0,
{
    lemma_transfer_bounds(s, p);
    let mid = s.transfer(p).0;
    assert(0 <= (s.charge + mid) * s.self_discharge) by (nonlinear_arith)
        requires
            0 <= s.charge,
            0 <= mid,
            0 <= s.self_discharge,
    ;
}

/// Idle step: with zero power nothing is unmet, the only loss is
/// self-discharge and it is the only change of content.
pub proof fn lemma_zero_step(s: StorageModel)
    requires
        s.wf(),
    ensures
        s.step_result(0).0 == 0,
        s.step_result(0).1 == s.self_loss(s.charge, s.charge),
        s.after_step(0) == (StorageModel { charge: s.charge - s.self_loss(s.charge, s.charge), ..s }),
{
}

/// The storage after the steps with powers `ps`, in order.
pub open spec fn after_steps(s: StorageModel, ps: Seq<int>) -> StorageModel
    decreases ps.len(),
{
    if ps.len() == 0 {
        s
    } else {
        after_steps(s.after_step(ps[0]), ps.drop_first())
    }
}

/// Bounds: after any sequence of steps the content stays within
/// `[0, capacity]` and the relative charge within `[0, 1000]` per mille.
pub proof fn lemma_steps_keep_bounds(s: StorageModel, ps: Seq<int>)
    requires
        s.wf(),
    ensures
        after_steps(s, ps).wf(),
        0 <= after_steps(s, ps).charge <= after_steps(s, ps).capacity,
        0 <= after_steps(s, ps).relative_charge() <= PER_MILLE,
    decreases ps.len(),
{
    if ps.len() > 0 {
        lemma_step_conserves(s, ps[0]);
        lemma_steps_keep_bounds(s.after_step(ps[0]), ps.drop_first());
    }
    lemma_relative_charge_bounds(after_steps(s, ps));
}

} // verus!
