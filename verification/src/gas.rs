//! Gas bookkeeping around a call.
//!
//! The executor counts gas in a signed register; the dispatcher counts it in an
//! unsigned amount of its own. Before a call the register is read and taken over,
//! which fails if it holds a negative number; after the call what is left is
//! written back.

use vstd::prelude::*;
use crate::abi::Trap;

verus! {

/// The gas that is left for a call.
#[derive(Clone, Copy, Debug)]
pub struct GasMeter {
    gas_left: u64,
}

impl GasMeter {
    #[verifier::type_invariant]
    spec fn fits_register(self) -> bool {
        self.gas_left <= i64::MAX
    }

    /// The gas that is left.
    pub closed spec fn spec_gas_left(self) -> nat {
        self.gas_left as nat
    }

    /// The gas that is left.
    pub fn gas_left(&self) -> (gas: u64)
        ensures
            gas == self.spec_gas_left(),
            gas <= i64::MAX,
    {
        proof {
            use_type_invariant(self);
        }
        self.gas_left
    }

    /// A meter with no gas.
    pub fn empty() -> (meter: GasMeter)
        ensures
            meter.spec_gas_left() == 0,
    {
        GasMeter { gas_left: 0 }
    }

    /// Takes over the gas that the executor's register holds. A negative
    /// register is no amount of gas: the call is out of gas.
    pub fn sync_from_executor(register: i64) -> (result: Result<GasMeter, Trap>)
        ensures
            match result {
                Ok(meter) => register >= 0 && meter.spec_gas_left() == register,
                Err(trap) => register < 0 && trap == Trap::OutOfGas,
            },
    {
        if register < 0 {
            Err(Trap::OutOfGas)
        } else {
            Ok(GasMeter { gas_left: register as u64 })
        }
    }

    /// Takes `amount` from the gas that is left. Where less is left, the call
    /// is out of gas and the meter stays as it is.
    pub fn charge(&mut self, amount: u64) -> (result: Result<(), Trap>)
        ensures
            match result {
                Ok(()) => {
                    &&& amount <= old(self).spec_gas_left()
                    &&& final(self).spec_gas_left() == old(self).spec_gas_left() - amount
                },
                Err(trap) => {
                    &&& amount > old(self).spec_gas_left()
                    &&& trap == Trap::OutOfGas
                    &&& *final(self) == *old(self)
                },
            },
    {
        proof {
            use_type_invariant(&*self);
        }
        if amount > self.gas_left {
            Err(Trap::OutOfGas)
        } else {
            self.gas_left = self.gas_left - amount;
            Ok(())
        }
    }

    /// The gas that is left, as the executor's register holds it.
    pub fn sync_to_executor(&self) -> (register: i64)
        ensures
            register == self.spec_gas_left(),
    {
        proof {
            use_type_invariant(self);
        }
        self.gas_left as i64
    }
}

} // verus!
