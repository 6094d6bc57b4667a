//! Which signals an engine computes, and which components it builds for them.

use vstd::prelude::*;

verus! {

/// Controls which signals the engine computes.
///
/// Disabling a signal skips its computation entirely. Use [`SignalSelection::none`] as a
/// starting point and enable only what you need, or [`SignalSelection::raw_only`] to enable all
/// raw signals without z-scores or composites.
#[non_exhaustive]
#[derive(Debug, Clone, Copy, PartialEq, Eq, Structural)]
pub struct SignalSelection {
    /// Enable raw OFI (rolling window sum). Required for `ofi_z`.
    pub ofi: bool,
    /// Enable Depth Imbalance. Required for `depth_imbalance_z`.
    pub depth_imbalance: bool,
    /// Enable Microprice and Microprice Deviation. Required for `microprice_deviation_z`.
    pub microprice: bool,
    /// Enable VSI. Required for `vsi_z`.
    pub vsi: bool,
    /// Enable OFI z-score normalisation. Requires `ofi = true`.
    pub ofi_z: bool,
    /// Enable Depth Imbalance z-score normalisation. Requires `depth_imbalance = true`.
    pub depth_imbalance_z: bool,
    /// Enable Microprice Deviation z-score normalisation. Requires `microprice = true`.
    pub microprice_deviation_z: bool,
    /// Enable VSI z-score normalisation. Requires `vsi = true`.
    pub vsi_z: bool,
    /// Enable Composite Toxicity. Requires at least one z-score to be enabled.
    pub composite_toxicity: bool,
    /// Enable Adverse Selection signal. Requires at least one z-score to be enabled.
    pub adverse_selection: bool,
    /// Enable Effective Spread.
    pub effective_spread: bool,
}

/// Every field of `s` equals `v`.
pub open spec fn all_fields(s: SignalSelection, v: bool) -> bool {
    &&& s.ofi == v
    &&& s.depth_imbalance == v
    &&& s.microprice == v
    &&& s.vsi == v
    &&& s.ofi_z == v
    &&& s.depth_imbalance_z == v
    &&& s.microprice_deviation_z == v
    &&& s.vsi_z == v
    &&& s.composite_toxicity == v
    &&& s.adverse_selection == v
    &&& s.effective_spread == v
}

impl Default for SignalSelection {
    /// Every signal enabled.
    fn default() -> (s: Self)
        ensures
            all_fields(s, true),
    {
        SignalSelection {
            ofi: true,
            depth_imbalance: true,
            microprice: true,
            vsi: true,
            ofi_z: true,
            depth_imbalance_z: true,
            microprice_deviation_z: true,
            vsi_z: true,
            composite_toxicity: true,
            adverse_selection: true,
            effective_spread: true,
        }
    }
}

impl SignalSelection {
    /// All signals disabled. Use as a base and enable only what you need.
    pub fn none() -> (s: Self)
        ensures
            all_fields(s, false),
    {
        SignalSelection {
            ofi: false,
            depth_imbalance: false,
            microprice: false,
            vsi: false,
            ofi_z: false,
            depth_imbalance_z: false,
            microprice_deviation_z: false,
            vsi_z: false,
            composite_toxicity: false,
            adverse_selection: false,
            effective_spread: false,
        }
    }

    /// All raw signals enabled; z-scores, composites, and adverse selection disabled.
    pub fn raw_only() -> (s: Self)
        ensures
            s.ofi && s.depth_imbalance && s.microprice && s.vsi && s.effective_spread,
            !s.ofi_z && !s.depth_imbalance_z && !s.microprice_deviation_z && !s.vsi_z,
            !s.composite_toxicity && !s.adverse_selection,
    {
        SignalSelection {
            ofi: true,
            depth_imbalance: true,
            microprice: true,
            vsi: true,
            ofi_z: false,
            depth_imbalance_z: false,
            microprice_deviation_z: false,
            vsi_z: false,
            composite_toxicity: false,
            adverse_selection: false,
            effective_spread: true,
        }
    }

    /// The selection an engine configuration starts from: every signal except VSI and its
    /// z-score (VSI needs a bucket volume, which the default configuration does not have).
    pub fn config_default() -> (s: Self)
        ensures
            !s.vsi && !s.vsi_z,
            s.ofi && s.depth_imbalance && s.microprice && s.effective_spread,
            s.ofi_z && s.depth_imbalance_z && s.microprice_deviation_z,
            s.composite_toxicity && s.adverse_selection,
    {
        let mut s = Self::default();
        s.vsi = false;
        s.vsi_z = false;
        s
    }
}

/// The components an engine builds for a selection.
#[derive(Debug, Clone, Copy, PartialEq, Eq, Structural)]
pub struct EnginePlan {
    /// Build the OFI calculator.
    pub ofi: bool,
    /// Build the Depth Imbalance calculator.
    pub depth_imbalance: bool,
    /// Build the Microprice calculator.
    pub microprice: bool,
    /// Build the VSI calculator.
    pub vsi: bool,
    /// Build the OFI normaliser.
    pub ofi_normaliser: bool,
    /// Build the Depth Imbalance normaliser.
    pub depth_imbalance_normaliser: bool,
    /// Build the Microprice Deviation normaliser.
    pub microprice_deviation_normaliser: bool,
    /// Build the VSI normaliser.
    pub vsi_normaliser: bool,
    /// Build the composite toxicity signal.
    pub composite: bool,
    /// Build the adverse selection signal.
    pub adverse_selection: bool,
    /// Build the effective spread calculator.
    pub effective_spread: bool,
    /// Build a trade classifier.
    pub classifier: bool,
}

/// At least one z-score is both selected and backed by its raw signal.
pub open spec fn any_z(s: SignalSelection) -> bool {
    ||| s.ofi && s.ofi_z
    ||| s.depth_imbalance && s.depth_imbalance_z
    ||| s.microprice && s.microprice_deviation_z
    ||| s.vsi && s.vsi_z
}

/// The plan for selection `s`, where `vsi_volume_valid` says whether the configured VSI bucket
/// volume is finite and positive.
pub open spec fn plan_for(s: SignalSelection, vsi_volume_valid: bool) -> EnginePlan {
    EnginePlan {
        ofi: s.ofi,
        depth_imbalance: s.depth_imbalance,
        microprice: s.microprice,
        vsi: s.vsi && vsi_volume_valid,
        ofi_normaliser: s.ofi && s.ofi_z,
        depth_imbalance_normaliser: s.depth_imbalance && s.depth_imbalance_z,
        microprice_deviation_normaliser: s.microprice && s.microprice_deviation_z,
        vsi_normaliser: s.vsi && s.vsi_z,
        composite: s.composite_toxicity && any_z(s),
        adverse_selection: s.adverse_selection && any_z(s),
        effective_spread: s.effective_spread,
        classifier: s.vsi || s.effective_spread,
    }
}

impl EnginePlan {
    /// Decide which components to build for `selection`. `vsi_volume_valid` says whether the
    /// configured VSI bucket volume is finite and positive; VSI is built only then.
    pub fn from_selection(selection: SignalSelection, vsi_volume_valid: bool) -> (p: Self)
        ensures
            p == plan_for(selection, vsi_volume_valid),
    {
        let s = selection;
        let any_z = (s.ofi && s.ofi_z) || (s.depth_imbalance && s.depth_imbalance_z) || (
        s.microprice && s.microprice_deviation_z) || (s.vsi && s.vsi_z);
        EnginePlan {
            ofi: s.ofi,
            depth_imbalance: s.depth_imbalance,
            microprice: s.microprice,
            vsi: s.vsi && vsi_volume_valid,
            ofi_normaliser: s.ofi && s.ofi_z,
            depth_imbalance_normaliser: s.depth_imbalance && s.depth_imbalance_z,
            microprice_deviation_normaliser: s.microprice && s.microprice_deviation_z,
            vsi_normaliser: s.vsi && s.vsi_z,
            composite: s.composite_toxicity && any_z,
            adverse_selection: s.adverse_selection && any_z,
            effective_spread: s.effective_spread,
            classifier: s.vsi || s.effective_spread,
        }
    }

    /// At least one normaliser is built.
    pub open spec fn has_normaliser(self) -> bool {
        self.ofi_normaliser || self.depth_imbalance_normaliser
            || self.microprice_deviation_normaliser || self.vsi_normaliser
    }
}

/// A z-score is never computed without its raw signal being selected, and a composite is never
/// built without some z-score to combine: every normaliser the plan builds has its raw signal
/// selected, and a composite or adverse selection signal implies at least one normaliser.
pub proof fn lemma_plan_dependencies(s: SignalSelection, vsi_volume_valid: bool)
    ensures
        ({
            let p = plan_for(s, vsi_volume_valid);
            &&& p.ofi_normaliser ==> p.ofi
            &&& p.depth_imbalance_normaliser ==> p.depth_imbalance
            &&& p.microprice_deviation_normaliser ==> p.microprice
            &&& p.vsi_normaliser ==> s.vsi
            &&& (p.composite || p.adverse_selection) ==> p.has_normaliser()
            &&& p.classifier <==> (s.vsi || s.effective_spread)
        }),
{
}

/// With [`SignalSelection::raw_only`] no normaliser and no composite is built, while every raw
/// signal is (VSI when its bucket volume is valid).
pub proof fn lemma_raw_only_plan(s: SignalSelection, vsi_volume_valid: bool)
    requires
        s.ofi && s.depth_imbalance && s.microprice && s.vsi && s.effective_spread,
        !s.ofi_z && !s.depth_imbalance_z && !s.microprice_deviation_z && !s.vsi_z,
        !s.composite_toxicity && !s.adverse_selection,
    ensures
        ({
            let p = plan_for(s, vsi_volume_valid);
            &&& !p.has_normaliser() && !p.composite && !p.adverse_selection
            &&& p.ofi && p.depth_imbalance && p.microprice && p.effective_spread && p.classifier
            &&& p.vsi == vsi_volume_valid
        }),
{
}

/// With [`SignalSelection::none`] nothing is built.
pub proof fn lemma_none_plan(s: SignalSelection, vsi_volume_valid: bool)
    requires
        all_fields(s, false),
    ensures
        ({
            let p = plan_for(s, vsi_volume_valid);
            &&& !p.ofi && !p.depth_imbalance && !p.microprice && !p.vsi
            &&& !p.has_normaliser() && !p.composite && !p.adverse_selection
            &&& !p.effective_spread && !p.classifier
        }),
{
}

/// The adverse selection signal is built exactly when it is selected and some z-score is
/// enabled together with its raw signal; it does not depend on whether composite toxicity is
/// selected, and likewise composite toxicity does not depend on whether adverse selection is.
pub proof fn lemma_composites_independent(s: SignalSelection, t: SignalSelection, vsi_volume_valid: bool)
    requires
        s.ofi == t.ofi && s.ofi_z == t.ofi_z,
        s.depth_imbalance == t.depth_imbalance && s.depth_imbalance_z == t.depth_imbalance_z,
        s.microprice == t.microprice && s.microprice_deviation_z == t.microprice_deviation_z,
        s.vsi == t.vsi && s.vsi_z == t.vsi_z,
    ensures
        s.adverse_selection == t.adverse_selection ==> plan_for(s, vsi_volume_valid).adverse_selection
            == plan_for(t, vsi_volume_valid).adverse_selection,
        s.composite_toxicity == t.composite_toxicity ==> plan_for(s, vsi_volume_valid).composite
            == plan_for(t, vsi_volume_valid).composite,
        plan_for(s, vsi_volume_valid).adverse_selection <==> (s.adverse_selection && (
        (s.ofi && s.ofi_z) || (s.depth_imbalance && s.depth_imbalance_z) || (s.microprice
            && s.microprice_deviation_z) || (s.vsi && s.vsi_z))),
        plan_for(s, vsi_volume_valid).composite <==> (s.composite_toxicity && ((s.ofi && s.ofi_z)
            || (s.depth_imbalance && s.depth_imbalance_z) || (s.microprice
            && s.microprice_deviation_z) || (s.vsi && s.vsi_z))),
{
}

/// Each raw signal and the effective spread calculator are built exactly when selected, whatever
/// else is selected (VSI additionally needs a usable bucket volume): in particular the effective
/// spread is built without VSI, as in the default configuration.
pub proof fn lemma_raw_components_follow_selection(s: SignalSelection, vsi_volume_valid: bool)
    ensures
        plan_for(s, vsi_volume_valid).effective_spread == s.effective_spread,
        plan_for(s, vsi_volume_valid).ofi == s.ofi,
        plan_for(s, vsi_volume_valid).depth_imbalance == s.depth_imbalance,
        plan_for(s, vsi_volume_valid).microprice == s.microprice,
        plan_for(s, vsi_volume_valid).vsi == (s.vsi && vsi_volume_valid),
{
}

} // verus!
