//! CPU compatibility validation: the first pipeline stage, run before any
//! resource commitment.
//!
//! Reading the CPU identification state is outside work performed by the
//! host environment; the decision about what it reported is verified here.

use vstd::prelude::*;

use crate::errors::{BootError, ValidationError};

verus! {

/// What the CPU identification state reported for each mandatory feature.
#[derive(Clone, Copy, Debug, PartialEq, Eq, Structural)]
pub struct CpuFeatures {
    /// 64-bit long mode is supported.
    pub long_mode: bool,
    /// SSE2 is supported.
    pub sse2: bool,
}

/// The structured outcome of a successful compatibility check: which
/// mandatory features were found present.
#[derive(Clone, Copy, Debug, PartialEq, Eq, Structural)]
pub struct FeatureReport {
    pub long_mode_present: bool,
    pub sse2_present: bool,
}

/// Every mandatory feature is present.
pub open spec fn all_mandatory_present(features: CpuFeatures) -> bool {
    features.long_mode && features.sse2
}

/// Validates the mandatory CPU features. Succeeds exactly when both long
/// mode and SSE2 are present; any absence is fatal, with no retry and no
/// degraded mode.
pub fn check_cpu_compatibility(features: &CpuFeatures) -> (r: Result<FeatureReport, BootError>)
    ensures
        r is Ok <==> all_mandatory_present(*features),
        r matches Ok(report) ==> report == (FeatureReport {
            long_mode_present: features.long_mode,
            sse2_present: features.sse2,
        }),
        !all_mandatory_present(*features) ==> r == Result::<FeatureReport, BootError>::Err(
            BootError::Validation(ValidationError::UnsupportedCpu),
        ),
{
    if features.long_mode && features.sse2 {
        Ok(FeatureReport { long_mode_present: features.long_mode, sse2_present: features.sse2 })
    } else {
        Err(BootError::Validation(ValidationError::UnsupportedCpu))
    }
}

} // verus!
