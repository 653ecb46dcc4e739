//! Quarter-car parameters of a request: presence, sign and stability checks.

use vstd::prelude::*;
use crate::error::{InputError, QuarterParam};
use crate::ieee::{float_le, float_lt, is_nan, le, lt, ZERO};

verus! {

/// The five parameters of the two-mass quarter-car model, as binary64 bit
/// patterns: sprung mass `ms` and unsprung mass `mu` [kg], spring rate `k`
/// [N/m], damping `c` [N·s/m], tyre stiffness `kt` [N/m].
#[derive(Clone, Copy, Debug)]
pub struct ResolvedQuarterParams {
    pub ms: u64,
    pub mu: u64,
    pub k: u64,
    pub c: u64,
    pub kt: u64,
}

/// Unless the masses are NaN (which no comparison refuses), an accepted
/// quarter-car has `0 < mu < ms`.
pub open spec fn stable(p: ResolvedQuarterParams) -> bool {
    !is_nan(p.ms) && !is_nan(p.mu) ==> float_lt(ZERO, p.mu) && float_lt(p.mu, p.ms)
}

/// The refusal for explicitly given quarter-car parameters, if any: each
/// must be present, `ms`, `mu`, `k`, `kt` positive, `c` non-negative, and
/// the unsprung mass lighter than the sprung mass.
pub open spec fn quarter_params_error(
    ms: Option<u64>,
    mu: Option<u64>,
    k: Option<u64>,
    c: Option<u64>,
    kt: Option<u64>,
) -> Option<InputError> {
    if ms is None {
        Some(InputError::MissingParameter(QuarterParam::Ms))
    } else if mu is None {
        Some(InputError::MissingParameter(QuarterParam::Mu))
    } else if k is None {
        Some(InputError::MissingParameter(QuarterParam::K))
    } else if c is None {
        Some(InputError::MissingParameter(QuarterParam::C))
    } else if kt is None {
        Some(InputError::MissingParameter(QuarterParam::Kt))
    } else if float_le(ms->0, ZERO) {
        Some(InputError::ParameterNotPositive(QuarterParam::Ms))
    } else if float_le(mu->0, ZERO) {
        Some(InputError::ParameterNotPositive(QuarterParam::Mu))
    } else if float_le(k->0, ZERO) {
        Some(InputError::ParameterNotPositive(QuarterParam::K))
    } else if float_lt(c->0, ZERO) {
        Some(InputError::DampingNegative)
    } else if float_le(kt->0, ZERO) {
        Some(InputError::ParameterNotPositive(QuarterParam::Kt))
    } else if float_le(ms->0, mu->0) {
        Some(InputError::UnsprungNotLighter)
    } else {
        None
    }
}

/// Check explicitly given quarter-car parameters and collect them.
pub fn resolve_quarter_params(
    ms: Option<u64>,
    mu: Option<u64>,
    k: Option<u64>,
    c: Option<u64>,
    kt: Option<u64>,
) -> (r: Result<ResolvedQuarterParams, InputError>)
    ensures
        match quarter_params_error(ms, mu, k, c, kt) {
            Some(e) => r == Err::<ResolvedQuarterParams, InputError>(e),
            None => r matches Ok(p) && p == (ResolvedQuarterParams {
                ms: ms->0,
                mu: mu->0,
                k: k->0,
                c: c->0,
                kt: kt->0,
            }),
        },
        r matches Ok(p) ==> stable(p),
{
    let ms = match ms {
        Some(v) => v,
        None => return Err(InputError::MissingParameter(QuarterParam::Ms)),
    };
    let mu = match mu {
        Some(v) => v,
        None => return Err(InputError::MissingParameter(QuarterParam::Mu)),
    };
    let k = match k {
        Some(v) => v,
        None => return Err(InputError::MissingParameter(QuarterParam::K)),
    };
    let c = match c {
        Some(v) => v,
        None => return Err(InputError::MissingParameter(QuarterParam::C)),
    };
    let kt = match kt {
        Some(v) => v,
        None => return Err(InputError::MissingParameter(QuarterParam::Kt)),
    };
    if le(ms, ZERO) {
        return Err(InputError::ParameterNotPositive(QuarterParam::Ms));
    }
    if le(mu, ZERO) {
        return Err(InputError::ParameterNotPositive(QuarterParam::Mu));
    }
    if le(k, ZERO) {
        return Err(InputError::ParameterNotPositive(QuarterParam::K));
    }
    if lt(c, ZERO) {
        return Err(InputError::DampingNegative);
    }
    if le(kt, ZERO) {
        return Err(InputError::ParameterNotPositive(QuarterParam::Kt));
    }
    if le(ms, mu) {
        return Err(InputError::UnsprungNotLighter);
    }
    Ok(ResolvedQuarterParams { ms, mu, k, c, kt })
}

/// The refusal for the fixed masses and tyre stiffness of a sweep, if any.
pub open spec fn sweep_params_error(ms: Option<u64>, mu: Option<u64>, kt: Option<u64>) -> Option<
    InputError,
> {
    if ms is None {
        Some(InputError::MissingParameter(QuarterParam::Ms))
    } else if mu is None {
        Some(InputError::MissingParameter(QuarterParam::Mu))
    } else if kt is None {
        Some(InputError::MissingParameter(QuarterParam::Kt))
    } else if float_le(ms->0, ZERO) {
        Some(InputError::ParameterNotPositive(QuarterParam::Ms))
    } else if float_le(mu->0, ZERO) {
        Some(InputError::ParameterNotPositive(QuarterParam::Mu))
    } else if float_le(kt->0, ZERO) {
        Some(InputError::ParameterNotPositive(QuarterParam::Kt))
    } else if float_le(ms->0, mu->0) {
        Some(InputError::UnsprungNotLighter)
    } else {
        None
    }
}

/// Check the fixed parameters of a spring/damper sweep; the spring rate and
/// damping of the result are `0.0`, the sweep supplies them.
pub fn resolve_sweep_params(ms: Option<u64>, mu: Option<u64>, kt: Option<u64>) -> (r: Result<
    ResolvedQuarterParams,
    InputError,
>)
    ensures
        match sweep_params_error(ms, mu, kt) {
            Some(e) => r == Err::<ResolvedQuarterParams, InputError>(e),
            None => r matches Ok(p) && p == (ResolvedQuarterParams {
                ms: ms->0,
                mu: mu->0,
                k: ZERO,
                c: ZERO,
                kt: kt->0,
            }),
        },
        r matches Ok(p) ==> stable(p),
{
    let ms = match ms {
        Some(v) => v,
        None => return Err(InputError::MissingParameter(QuarterParam::Ms)),
    };
    let mu = match mu {
        Some(v) => v,
        None => return Err(InputError::MissingParameter(QuarterParam::Mu)),
    };
    let kt = match kt {
        Some(v) => v,
        None => return Err(InputError::MissingParameter(QuarterParam::Kt)),
    };
    if le(ms, ZERO) {
        return Err(InputError::ParameterNotPositive(QuarterParam::Ms));
    }
    if le(mu, ZERO) {
        return Err(InputError::ParameterNotPositive(QuarterParam::Mu));
    }
    if le(kt, ZERO) {
        return Err(InputError::ParameterNotPositive(QuarterParam::Kt));
    }
    if le(ms, mu) {
        return Err(InputError::UnsprungNotLighter);
    }
    Ok(ResolvedQuarterParams { ms, mu, k: ZERO, c: ZERO, kt })
}

// ---------------------------------------------------------------------------
// Laws
// ---------------------------------------------------------------------------

/// Explicit quarter-car parameters pass exactly when all five are present,
/// `ms`, `mu`, `k` and `kt` are not `<= 0`, `c` is not `< 0`, and `mu` is
/// not `>= ms`; the first absent parameter, in the order ms, mu, k, c, kt,
/// is the one reported missing, before any value is looked at.
pub proof fn lemma_quarter_params_check(
    ms: Option<u64>,
    mu: Option<u64>,
    k: Option<u64>,
    c: Option<u64>,
    kt: Option<u64>,
)
    ensures
        quarter_params_error(ms, mu, k, c, kt) is None <==> {
            &&& ms is Some && mu is Some && k is Some && c is Some && kt is Some
            &&& !float_le(ms->0, 0) && !float_le(mu->0, 0) && !float_le(k->0, 0)
            &&& !float_lt(c->0, 0) && !float_le(kt->0, 0) && !float_le(ms->0, mu->0)
        },
        ms is None ==> quarter_params_error(ms, mu, k, c, kt) == Some(
            InputError::MissingParameter(QuarterParam::Ms),
        ),
        ms is Some && mu is None ==> quarter_params_error(ms, mu, k, c, kt) == Some(
            InputError::MissingParameter(QuarterParam::Mu),
        ),
        ms is Some && mu is Some && k is None ==> quarter_params_error(ms, mu, k, c, kt) == Some(
            InputError::MissingParameter(QuarterParam::K),
        ),
        ms is Some && mu is Some && k is Some && c is None ==> quarter_params_error(ms, mu, k, c, kt)
            == Some(InputError::MissingParameter(QuarterParam::C)),
        ms is Some && mu is Some && k is Some && c is Some && kt is None ==> quarter_params_error(
            ms,
            mu,
            k,
            c,
            kt,
        ) == Some(InputError::MissingParameter(QuarterParam::Kt)),
{
}

/// The fixed sweep parameters pass exactly when `ms`, `mu` and `kt` are
/// present, not `<= 0`, and `mu` is not `>= ms`.
pub proof fn lemma_sweep_params_check(ms: Option<u64>, mu: Option<u64>, kt: Option<u64>)
    ensures
        sweep_params_error(ms, mu, kt) is None <==> {
            &&& ms is Some && mu is Some && kt is Some
            &&& !float_le(ms->0, 0) && !float_le(mu->0, 0) && !float_le(kt->0, 0)
            &&& !float_le(ms->0, mu->0)
        },
        ms is None ==> sweep_params_error(ms, mu, kt) == Some(
            InputError::MissingParameter(QuarterParam::Ms),
        ),
        ms is Some && mu is None ==> sweep_params_error(ms, mu, kt) == Some(
            InputError::MissingParameter(QuarterParam::Mu),
        ),
        ms is Some && mu is Some && kt is None ==> sweep_params_error(ms, mu, kt) == Some(
            InputError::MissingParameter(QuarterParam::Kt),
        ),
{
}

} // verus!
