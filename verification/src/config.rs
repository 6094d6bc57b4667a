//! Engine configuration validation: which parameter is reported when several are invalid.
//!
//! Real-valued parameters (half-lives, bucket volume) are judged by the caller, which
//! hands in whether each one is acceptable; sizes are judged here.

use vstd::prelude::*;

verus! {

/// The first invalid parameter found in an engine configuration.
#[derive(Debug, Clone, Copy, PartialEq, Eq, Structural)]
pub enum ConfigFault {
    /// `normalisation_half_life` is not finite and positive.
    NormalisationHalfLife,
    /// `ofi_window` is zero.
    OfiWindowZero,
    /// `depth_levels` is zero.
    DepthLevelsZero,
    /// `vsi_n_buckets` is zero.
    VsiBucketsZero,
    /// VSI is selected but `vsi_bucket_volume` is not finite and positive.
    VsiBucketVolume,
    /// `ofi_smoothing_half_life` is present but not finite and positive.
    OfiSmoothingHalfLife,
    /// `depth_imbalance_smoothing_half_life` is present but not finite and positive.
    DepthImbalanceSmoothingHalfLife,
    /// `composite_smoothing_half_life` is present but not finite and positive.
    CompositeSmoothingHalfLife,
    /// The regime normaliser's fast half-life is not finite and positive.
    RegimeFastHalfLife,
    /// The regime normaliser's detection threshold is not finite and positive.
    RegimeThreshold,
    /// The regime normaliser's cooldown period is zero.
    RegimeCooldownZero,
    /// The regime normaliser's exit hysteresis is not finite and positive.
    RegimeExitHysteresis,
    /// The regime normaliser's fast half-life is not below `normalisation_half_life`.
    RegimeFastHalfLifeNotLessThanBase,
}

/// What validation needs to know of an engine configuration.
#[derive(Debug, Clone, Copy, PartialEq, Eq, Structural)]
pub struct ConfigChecks {
    /// `normalisation_half_life` is finite and positive.
    pub normalisation_half_life_ok: bool,
    /// Rolling window size for OFI.
    pub ofi_window: usize,
    /// Book levels used by Depth Imbalance.
    pub depth_levels: usize,
    /// Completed VSI buckets in the rolling window.
    pub vsi_n_buckets: usize,
    /// VSI is selected.
    pub vsi_selected: bool,
    /// `vsi_bucket_volume` is finite and positive.
    pub vsi_bucket_volume_ok: bool,
    /// `ofi_smoothing_half_life` is absent, or finite and positive.
    pub ofi_smoothing_ok: bool,
    /// `depth_imbalance_smoothing_half_life` is absent, or finite and positive.
    pub depth_imbalance_smoothing_ok: bool,
    /// `composite_smoothing_half_life` is absent, or finite and positive.
    pub composite_smoothing_ok: bool,
    /// A regime normaliser is configured; the `regime_` checks below apply only then.
    pub regime_configured: bool,
    /// The regime normaliser's fast half-life is finite and positive.
    pub regime_fast_half_life_ok: bool,
    /// The regime normaliser's detection threshold is finite and positive.
    pub regime_threshold_ok: bool,
    /// The regime normaliser's cooldown period.
    pub regime_cooldown_period: usize,
    /// The regime normaliser's exit hysteresis is finite and positive.
    pub regime_exit_hysteresis_ok: bool,
    /// The regime normaliser's fast half-life is below `normalisation_half_life`.
    pub regime_fast_below_base: bool,
}

/// The outcome of validating a configuration: the first failing check in the order the fields of
/// [`ConfigChecks`] are listed, or success. The regime normaliser's parameters, when one is
/// configured, are checked last: first each on its own (fast half-life, threshold, cooldown,
/// exit hysteresis, the order in which the parameter constructor checks them), then the fast
/// half-life against the base half-life.
pub open spec fn config_outcome(c: ConfigChecks) -> Result<(), ConfigFault> {
    if !c.normalisation_half_life_ok {
        Err(ConfigFault::NormalisationHalfLife)
    } else if c.ofi_window == 0 {
        Err(ConfigFault::OfiWindowZero)
    } else if c.depth_levels == 0 {
        Err(ConfigFault::DepthLevelsZero)
    } else if c.vsi_n_buckets == 0 {
        Err(ConfigFault::VsiBucketsZero)
    } else if c.vsi_selected && !c.vsi_bucket_volume_ok {
        Err(ConfigFault::VsiBucketVolume)
    } else if !c.ofi_smoothing_ok {
        Err(ConfigFault::OfiSmoothingHalfLife)
    } else if !c.depth_imbalance_smoothing_ok {
        Err(ConfigFault::DepthImbalanceSmoothingHalfLife)
    } else if !c.composite_smoothing_ok {
        Err(ConfigFault::CompositeSmoothingHalfLife)
    } else if c.regime_configured && !c.regime_fast_half_life_ok {
        Err(ConfigFault::RegimeFastHalfLife)
    } else if c.regime_configured && !c.regime_threshold_ok {
        Err(ConfigFault::RegimeThreshold)
    } else if c.regime_configured && c.regime_cooldown_period == 0 {
        Err(ConfigFault::RegimeCooldownZero)
    } else if c.regime_configured && !c.regime_exit_hysteresis_ok {
        Err(ConfigFault::RegimeExitHysteresis)
    } else if c.regime_configured && !c.regime_fast_below_base {
        Err(ConfigFault::RegimeFastHalfLifeNotLessThanBase)
    } else {
        Ok(())
    }
}

impl ConfigChecks {
    /// Validate: `Ok` exactly when every check passes, otherwise the first failing one.
    pub fn validate(&self) -> (r: Result<(), ConfigFault>)
        ensures
            r == config_outcome(*self),
    {
        if !self.normalisation_half_life_ok {
            return Err(ConfigFault::NormalisationHalfLife);
        }
        if self.ofi_window == 0 {
            return Err(ConfigFault::OfiWindowZero);
        }
        if self.depth_levels == 0 {
            return Err(ConfigFault::DepthLevelsZero);
        }
        if self.vsi_n_buckets == 0 {
            return Err(ConfigFault::VsiBucketsZero);
        }
        if self.vsi_selected && !self.vsi_bucket_volume_ok {
            return Err(ConfigFault::VsiBucketVolume);
        }
        if !self.ofi_smoothing_ok {
            return Err(ConfigFault::OfiSmoothingHalfLife);
        }
        if !self.depth_imbalance_smoothing_ok {
            return Err(ConfigFault::DepthImbalanceSmoothingHalfLife);
        }
        if !self.composite_smoothing_ok {
            return Err(ConfigFault::CompositeSmoothingHalfLife);
        }
        if self.regime_configured {
            if !self.regime_fast_half_life_ok {
                return Err(ConfigFault::RegimeFastHalfLife);
            }
            if !self.regime_threshold_ok {
                return Err(ConfigFault::RegimeThreshold);
            }
            if self.regime_cooldown_period == 0 {
                return Err(ConfigFault::RegimeCooldownZero);
            }
            if !self.regime_exit_hysteresis_ok {
                return Err(ConfigFault::RegimeExitHysteresis);
            }
            if !self.regime_fast_below_base {
                return Err(ConfigFault::RegimeFastHalfLifeNotLessThanBase);
            }
        }
        Ok(())
    }
}

impl ConfigFault {
    /// The name of the size parameter a zero-size fault is about, `None` for other faults.
    pub fn zero_size_parameter(self) -> (name: Option<&'static str>)
        ensures
            name == (match self {
                ConfigFault::OfiWindowZero => Some("ofi_window"),
                ConfigFault::DepthLevelsZero => Some("depth_levels"),
                ConfigFault::VsiBucketsZero => Some("vsi_n_buckets"),
                _ => None,
            }),
    {
        match self {
            ConfigFault::OfiWindowZero => Some("ofi_window"),
            ConfigFault::DepthLevelsZero => Some("depth_levels"),
            ConfigFault::VsiBucketsZero => Some("vsi_n_buckets"),
            _ => None,
        }
    }
}

/// A validated configuration builds a sound engine: when validation succeeds, every size the
/// engine's components are built with is non-zero, a selected VSI has a usable bucket volume,
/// every present smoothing half-life is usable, and a configured regime normaliser has usable
/// parameters throughout, so its regime detector can be built (its cooldown period is non-zero).
pub proof fn lemma_valid_config_sizes(c: ConfigChecks)
    requires
        config_outcome(c) is Ok,
    ensures
        c.normalisation_half_life_ok,
        c.ofi_window > 0,
        c.depth_levels > 0,
        c.vsi_n_buckets > 0,
        c.vsi_selected ==> c.vsi_bucket_volume_ok,
        c.ofi_smoothing_ok && c.depth_imbalance_smoothing_ok && c.composite_smoothing_ok,
        c.regime_configured ==> {
            &&& c.regime_fast_half_life_ok
            &&& c.regime_threshold_ok
            &&& c.regime_cooldown_period > 0
            &&& c.regime_exit_hysteresis_ok
            &&& c.regime_fast_below_base
        },
{
}

/// Every invalid parameter is reported: validation succeeds exactly when every check that
/// applies passes.
pub proof fn lemma_validation_complete(c: ConfigChecks)
    ensures
        config_outcome(c) is Ok <==> {
            &&& c.normalisation_half_life_ok
            &&& c.ofi_window > 0
            &&& c.depth_levels > 0
            &&& c.vsi_n_buckets > 0
            &&& (c.vsi_selected ==> c.vsi_bucket_volume_ok)
            &&& c.ofi_smoothing_ok
            &&& c.depth_imbalance_smoothing_ok
            &&& c.composite_smoothing_ok
            &&& (c.regime_configured ==> {
                &&& c.regime_fast_half_life_ok
                &&& c.regime_threshold_ok
                &&& c.regime_cooldown_period > 0
                &&& c.regime_exit_hysteresis_ok
                &&& c.regime_fast_below_base
            })
        },
{
}

} // verus!
