//! Driver selection: which drivers the library tries to initialize, in
//! which order, and when it stops.
use vstd::prelude::*;

use crate::api::params::DriverInitParams;
use crate::api::DriverType;
use crate::errors::MicrovmiError;

verus! {

/// Every driver type, in declaration order.
pub open spec fn spec_all_driver_types() -> Seq<DriverType> {
    seq![
        DriverType::Dummy,
        DriverType::HyperV,
        DriverType::KVM,
        DriverType::Memflow,
        DriverType::VirtualBox,
        DriverType::Xen,
    ]
}

/// Every driver type, in declaration order.
pub fn all_driver_types() -> (r: Vec<DriverType>)
    ensures
        r@ == spec_all_driver_types(),
{
    let mut v: Vec<DriverType> = Vec::new();
    v.push(DriverType::Dummy);
    v.push(DriverType::HyperV);
    v.push(DriverType::KVM);
    v.push(DriverType::Memflow);
    v.push(DriverType::VirtualBox);
    v.push(DriverType::Xen);
    proof {
        assert(v@ =~= spec_all_driver_types());
    }
    v
}

/// The driver types that initialization tries, in order: the requested
/// one, or every driver type when none is requested.
pub open spec fn spec_init_candidates(requested: Option<DriverType>) -> Seq<DriverType> {
    match requested {
        Some(t) => seq![t],
        None => spec_all_driver_types(),
    }
}

/// The parameters a driver is initialized with: the given ones, or the
/// default (all absent) parameters.
pub fn init_params_or_default(init_params: Option<DriverInitParams>) -> (r: DriverInitParams)
    ensures
        r == match init_params {
            Some(p) => p,
            None => DriverInitParams::none(),
        },
{
    match init_params {
        Some(p) => p,
        None => DriverInitParams::default(),
    }
}

/// The probing of the drivers during initialization: candidates are tried
/// in order until one initializes.
pub struct DriverProbe {
    requested: Option<DriverType>,
    candidates: Vec<DriverType>,
    next: usize,
}

impl DriverProbe {
    /// The driver type that was asked for, if any.
    pub closed spec fn requested(&self) -> Option<DriverType> {
        self.requested
    }

    /// The number of candidates handed out so far.
    pub closed spec fn tried(&self) -> nat {
        self.next as nat
    }

    #[verifier::type_invariant]
    closed spec fn inv(self) -> bool {
        &&& self.candidates@ == spec_init_candidates(self.requested)
        &&& self.next <= self.candidates@.len()
    }

    /// A probe that has tried nothing yet.
    pub fn new(requested: Option<DriverType>) -> (r: DriverProbe)
        ensures
            r.requested() == requested,
            r.tried() == 0,
    {
        let candidates = match requested {
            Some(t) => {
                let mut v: Vec<DriverType> = Vec::new();
                v.push(t);
                proof {
                    assert(v@ =~= seq![t]);
                }
                v
            },
            None => all_driver_types(),
        };
        DriverProbe { requested, candidates, next: 0 }
    }

    /// The next driver type to try, or `None` when every candidate was tried.
    pub fn next_candidate(&mut self) -> (r: Option<DriverType>)
        ensures
            final(self).requested() == old(self).requested(),
            old(self).tried() < spec_init_candidates(old(self).requested()).len() ==> r == Some(
                spec_init_candidates(old(self).requested())[old(self).tried() as int],
            ) && final(self).tried() == old(self).tried() + 1,
            old(self).tried() >= spec_init_candidates(old(self).requested()).len() ==> r is None
                && final(self).tried() == old(self).tried(),
    {
        proof {
            use_type_invariant(&*self);
        }
        if self.next < self.candidates.len() {
            let t = self.candidates[self.next];
            self.next = self.next + 1;
            Some(t)
        } else {
            None
        }
    }

    /// What a failed initialization of a candidate ends with: the failure
    /// itself when a driver type was requested, nothing when the probe goes
    /// on with the next candidate.
    pub fn on_failure(&self, err: MicrovmiError) -> (r: Option<MicrovmiError>)
        ensures
            self.requested() is Some ==> r == Some(err),
            self.requested() is None ==> r is None,
    {
        match self.requested {
            Some(_) => Some(err),
            None => None,
        }
    }

    /// The error when every candidate failed.
    pub fn exhausted(&self) -> (r: MicrovmiError)
        ensures
            r == MicrovmiError::NoDriverAvailable,
    {
        MicrovmiError::NoDriverAvailable
    }
}

} // verus!
