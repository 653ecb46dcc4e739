//! The whole check of a simulation request, in the order the service
//! applies it: model parameters, optional fields, road profile.

use vstd::prelude::*;
use crate::bike::{
    bike_model_error, bike_summary, equivalent_error, resolve_bike_to_quarter, BikeModelInput,
    BikeResolvedSummary,
};
use crate::error::{verdict, InputError};
use crate::params::{quarter_params_error, resolve_quarter_params, ResolvedQuarterParams};
use crate::request::{options_error, SimulationOptions};
use crate::road::{road_profile_error, RoadProfileInput};

verus! {

/// The vehicle model of a request: explicit quarter-car parameters, or a
/// two-axle bike with the values the caller evaluated for it in floating
/// point (see `resolve_bike_to_quarter`).
#[derive(Clone, Copy, Debug)]
pub enum ModelInput {
    Quarter { ms: Option<u64>, mu: Option<u64>, k: Option<u64>, c: Option<u64>, kt: Option<u64> },
    Bike {
        model: BikeModelInput,
        fallback_kt: Option<u64>,
        fn_front: u64,
        fn_rear: u64,
        mass_share_pct: u64,
        equivalent: ResolvedQuarterParams,
    },
}

/// The refusal for the vehicle model, if any.
pub open spec fn model_error(m: ModelInput) -> Option<InputError> {
    match m {
        ModelInput::Quarter { ms, mu, k, c, kt } => quarter_params_error(ms, mu, k, c, kt),
        ModelInput::Bike { model, fn_front, fn_rear, equivalent, .. } => match bike_model_error(
            model,
            fn_front,
            fn_rear,
        ) {
            Some(e) => Some(e),
            None => equivalent_error(equivalent),
        },
    }
}

/// The quarter-car a model resolves to, with the bike summary for a bike;
/// meaningful when `model_error` is `None`.
pub open spec fn resolved_model(m: ModelInput) -> (ResolvedQuarterParams, Option<BikeResolvedSummary>) {
    match m {
        ModelInput::Quarter { ms, mu, k, c, kt } => (
            ResolvedQuarterParams { ms: ms->0, mu: mu->0, k: k->0, c: c->0, kt: kt->0 },
            None,
        ),
        ModelInput::Bike { model, fallback_kt, mass_share_pct, equivalent, .. } => (
            equivalent,
            Some(bike_summary(model, fallback_kt, mass_share_pct, equivalent)),
        ),
    }
}

/// Check the vehicle model and resolve it to one quarter-car.
pub fn resolve_model(m: &ModelInput) -> (r: Result<
    (ResolvedQuarterParams, Option<BikeResolvedSummary>),
    InputError,
>)
    ensures
        match model_error(*m) {
            Some(e) => r == Err::<(ResolvedQuarterParams, Option<BikeResolvedSummary>), InputError>(e),
            None => r matches Ok(v) && v == resolved_model(*m),
        },
{
    match m {
        ModelInput::Quarter { ms, mu, k, c, kt } => {
            let p = resolve_quarter_params(*ms, *mu, *k, *c, *kt)?;
            Ok((p, None))
        },
        ModelInput::Bike { model, fallback_kt, fn_front, fn_rear, mass_share_pct, equivalent } => {
            let s = resolve_bike_to_quarter(
                model,
                *fallback_kt,
                *fn_front,
                *fn_rear,
                *mass_share_pct,
                *equivalent,
            )?;
            Ok((s.equivalent, Some(s)))
        },
    }
}

/// A simulation request as far as its checks read it.
#[derive(Clone, Copy, Debug)]
pub struct SimulationRequest {
    pub model: ModelInput,
    pub options: SimulationOptions,
    pub road_profile: RoadProfileInput,
}

/// The refusal for a simulation request: the model's, else the optional
/// fields', else the road profile's.
pub open spec fn simulation_error(q: SimulationRequest) -> Option<InputError> {
    match model_error(q.model) {
        Some(e) => Some(e),
        None => match options_error(q.options) {
            Some(e) => Some(e),
            None => road_profile_error(q.road_profile),
        },
    }
}

impl SimulationRequest {
    /// Check a simulation request.
    pub fn validate(&self) -> (r: Result<(), InputError>)
        ensures
            r == verdict(simulation_error(*self)),
    {
        resolve_model(&self.model)?;
        self.options.validate()?;
        self.road_profile.validate()
    }
}

/// A simulation request passes exactly when its model, its optional fields
/// and its road each pass; a refused model is reported before the optional
/// fields, and refused optional fields before the road.
pub proof fn lemma_simulation_check(q: SimulationRequest)
    ensures
        simulation_error(q) is None <==> model_error(q.model) is None && options_error(q.options) is None
            && road_profile_error(q.road_profile) is None,
        model_error(q.model) is Some ==> simulation_error(q) == model_error(q.model),
        model_error(q.model) is None && options_error(q.options) is Some ==> simulation_error(q)
            == options_error(q.options),
        model_error(q.model) is None && options_error(q.options) is None ==> simulation_error(q)
            == road_profile_error(q.road_profile),
{
}

/// A quarter-car model is checked as explicit parameters and resolves to
/// exactly them; a bike is checked as a bike, then its equivalent, and
/// resolves to the equivalent together with the bike's summary.
pub proof fn lemma_model_resolution(m: ModelInput)
    ensures
        m matches ModelInput::Quarter { ms, mu, k, c, kt } ==> model_error(m) == quarter_params_error(
            ms,
            mu,
            k,
            c,
            kt,
        ) && resolved_model(m).1 is None && resolved_model(m).0 == (ResolvedQuarterParams {
            ms: ms->0,
            mu: mu->0,
            k: k->0,
            c: c->0,
            kt: kt->0,
        }),
        m matches ModelInput::Bike { model, fallback_kt, fn_front, fn_rear, mass_share_pct, equivalent }
            ==> (bike_model_error(model, fn_front, fn_rear) is Some ==> model_error(m) == bike_model_error(
            model,
            fn_front,
            fn_rear,
        )) && (bike_model_error(model, fn_front, fn_rear) is None ==> model_error(m) == equivalent_error(
            equivalent,
        )) && resolved_model(m).0 == equivalent && resolved_model(m).1 == Some(
            bike_summary(model, fallback_kt, mass_share_pct, equivalent),
        ),
{
}

} // verus!
