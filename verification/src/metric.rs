//! Distance metrics accepted by the clustering entry points, as a closed
//! enumeration mapped to the exact integer codes the backend expects.

use vstd::prelude::*;

verus! {

/// Distance metric forwarded to the clustering entry points.
#[derive(Debug, Clone, Copy, PartialEq, Eq, Structural)]
pub enum Metric {
    L2Expanded,
    L2SqrtExpanded,
    CosineExpanded,
    L1,
    L2Unexpanded,
    L2SqrtUnexpanded,
    InnerProduct,
    Linf,
}

impl Metric {
    /// The integer code the backend expects for this metric.
    pub open spec fn spec_code(self) -> i32 {
        match self {
            Metric::L2Expanded => 0,
            Metric::L2SqrtExpanded => 1,
            Metric::CosineExpanded => 2,
            Metric::L1 => 3,
            Metric::L2Unexpanded => 4,
            Metric::L2SqrtUnexpanded => 5,
            Metric::InnerProduct => 6,
            Metric::Linf => 7,
        }
    }

    /// Translate the metric to the backend's integer code.
    pub fn code(self) -> (c: i32)
        ensures
            c == self.spec_code(),
    {
        match self {
            Metric::L2Expanded => 0,
            Metric::L2SqrtExpanded => 1,
            Metric::CosineExpanded => 2,
            Metric::L1 => 3,
            Metric::L2Unexpanded => 4,
            Metric::L2SqrtUnexpanded => 5,
            Metric::InnerProduct => 6,
            Metric::Linf => 7,
        }
    }
}

} // verus!
