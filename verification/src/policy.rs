//! The configured bounds and thresholds, validated once at construction.

use crate::units::Percent;
use vstd::prelude::*;
use vstd::string::StringExecFns;

verus! {

/// Seconds to wait after an action before scaling up again, unless configured.
pub const DEFAULT_SCALE_UP_COOLDOWN: i32 = 300;

/// Seconds to wait after an action before scaling down again, unless configured.
pub const DEFAULT_SCALE_DOWN_COOLDOWN: i32 = 600;

/// The rule that a rejected configuration breaks.
#[derive(Clone, Copy, Debug, PartialEq, Eq, Structural)]
pub enum PolicyViolation {
    NegativeMinimum,
    MinimumExceedsMaximum,
    CpuThresholdOutOfRange,
    MemoryThresholdOutOfRange,
    NegativeScaleUpCooldown,
    NegativeScaleDownCooldown,
    UtilizationThresholdOutOfRange,
}

impl PolicyViolation {
    /// The sentence that tells the user what is wrong.
    pub open spec fn message(self) -> Seq<char> {
        match self {
            PolicyViolation::NegativeMinimum => "min_instances must not be negative"@,
            PolicyViolation::MinimumExceedsMaximum => "min_instances must not exceed max_instances"@,
            PolicyViolation::CpuThresholdOutOfRange => "cpu_threshold must lie between 0 and 100"@,
            PolicyViolation::MemoryThresholdOutOfRange => "memory_threshold must lie between 0 and 100"@,
            PolicyViolation::NegativeScaleUpCooldown => "scale_up_cooldown must not be negative"@,
            PolicyViolation::NegativeScaleDownCooldown => "scale_down_cooldown must not be negative"@,
            PolicyViolation::UtilizationThresholdOutOfRange => "utilization_threshold must lie between 0 and 100"@,
        }
    }

    /// The sentence that tells the user what is wrong.
    pub fn describe(&self) -> (s: String)
        ensures
            s@ == self.message(),
    {
        match self {
            PolicyViolation::NegativeMinimum => String::from_str(
                "min_instances must not be negative",
            ),
            PolicyViolation::MinimumExceedsMaximum => String::from_str(
                "min_instances must not exceed max_instances",
            ),
            PolicyViolation::CpuThresholdOutOfRange => String::from_str(
                "cpu_threshold must lie between 0 and 100",
            ),
            PolicyViolation::MemoryThresholdOutOfRange => String::from_str(
                "memory_threshold must lie between 0 and 100",
            ),
            PolicyViolation::NegativeScaleUpCooldown => String::from_str(
                "scale_up_cooldown must not be negative",
            ),
            PolicyViolation::NegativeScaleDownCooldown => String::from_str(
                "scale_down_cooldown must not be negative",
            ),
            PolicyViolation::UtilizationThresholdOutOfRange => String::from_str(
                "utilization_threshold must lie between 0 and 100",
            ),
        }
    }
}

/// What a scaling policy holds, as mathematical values.
pub struct ScalingRules {
    pub min_instances: int,
    pub max_instances: int,
    pub cpu_threshold: Percent,
    pub memory_threshold: Percent,
    pub scale_up_cooldown: int,
    pub scale_down_cooldown: int,
}

impl ScalingRules {
    /// The first rule that these values break, if any.
    pub open spec fn violation(self) -> Option<PolicyViolation> {
        if self.min_instances < 0 {
            Some(PolicyViolation::NegativeMinimum)
        } else if self.min_instances > self.max_instances {
            Some(PolicyViolation::MinimumExceedsMaximum)
        } else if !self.cpu_threshold.within_scale() {
            Some(PolicyViolation::CpuThresholdOutOfRange)
        } else if !self.memory_threshold.within_scale() {
            Some(PolicyViolation::MemoryThresholdOutOfRange)
        } else if self.scale_up_cooldown < 0 {
            Some(PolicyViolation::NegativeScaleUpCooldown)
        } else if self.scale_down_cooldown < 0 {
            Some(PolicyViolation::NegativeScaleDownCooldown)
        } else {
            None
        }
    }

    /// `0 <= min <= max`, both thresholds within 0 to 100 percent, and no
    /// negative cooldown.
    pub open spec fn valid(self) -> bool {
        &&& 0 <= self.min_instances <= self.max_instances
        &&& self.cpu_threshold.within_scale()
        &&& self.memory_threshold.within_scale()
        &&& 0 <= self.scale_up_cooldown
        &&& 0 <= self.scale_down_cooldown
    }
}

/// Bounds, thresholds and cooldowns for scaling one fleet. A value of this
/// type always satisfies [`ScalingRules::valid`].
#[derive(Clone, Copy, Debug)]
pub struct ScalingPolicy {
    min_instances: i32,
    max_instances: i32,
    cpu_threshold: Percent,
    memory_threshold: Percent,
    scale_up_cooldown: i32,
    scale_down_cooldown: i32,
}

impl View for ScalingPolicy {
    type V = ScalingRules;

    closed spec fn view(&self) -> ScalingRules {
        ScalingRules {
            min_instances: self.min_instances as int,
            max_instances: self.max_instances as int,
            cpu_threshold: self.cpu_threshold,
            memory_threshold: self.memory_threshold,
            scale_up_cooldown: self.scale_up_cooldown as int,
            scale_down_cooldown: self.scale_down_cooldown as int,
        }
    }
}

impl ScalingPolicy {
    #[verifier::type_invariant]
    spec fn rules_hold(self) -> bool {
        self@.valid()
    }

    /// The policy with these values, or the first rule they break.
    pub fn new(
        min_instances: i32,
        max_instances: i32,
        cpu_threshold: Percent,
        memory_threshold: Percent,
        scale_up_cooldown: i32,
        scale_down_cooldown: i32,
    ) -> (r: Result<ScalingPolicy, PolicyViolation>)
        ensures
            match r {
                Ok(policy) => {
                    &&& policy@ == (ScalingRules {
                        min_instances: min_instances as int,
                        max_instances: max_instances as int,
                        cpu_threshold,
                        memory_threshold,
                        scale_up_cooldown: scale_up_cooldown as int,
                        scale_down_cooldown: scale_down_cooldown as int,
                    })
                    &&& policy@.valid()
                    &&& policy@.violation() is None
                },
                Err(violation) => (ScalingRules {
                    min_instances: min_instances as int,
                    max_instances: max_instances as int,
                    cpu_threshold,
                    memory_threshold,
                    scale_up_cooldown: scale_up_cooldown as int,
                    scale_down_cooldown: scale_down_cooldown as int,
                }).violation() == Some(violation),
            },
    {
        if min_instances < 0 {
            Err(PolicyViolation::NegativeMinimum)
        } else if min_instances > max_instances {
            Err(PolicyViolation::MinimumExceedsMaximum)
        } else if !cpu_threshold.is_within_scale() {
            Err(PolicyViolation::CpuThresholdOutOfRange)
        } else if !memory_threshold.is_within_scale() {
            Err(PolicyViolation::MemoryThresholdOutOfRange)
        } else if scale_up_cooldown < 0 {
            Err(PolicyViolation::NegativeScaleUpCooldown)
        } else if scale_down_cooldown < 0 {
            Err(PolicyViolation::NegativeScaleDownCooldown)
        } else {
            Ok(
                ScalingPolicy {
                    min_instances,
                    max_instances,
                    cpu_threshold,
                    memory_threshold,
                    scale_up_cooldown,
                    scale_down_cooldown,
                },
            )
        }
    }

    /// The policy with these bounds and thresholds and the default cooldowns.
    pub fn with_default_cooldowns(
        min_instances: i32,
        max_instances: i32,
        cpu_threshold: Percent,
        memory_threshold: Percent,
    ) -> (r: Result<ScalingPolicy, PolicyViolation>)
        ensures
            match r {
                Ok(policy) => {
                    &&& policy@ == (ScalingRules {
                        min_instances: min_instances as int,
                        max_instances: max_instances as int,
                        cpu_threshold,
                        memory_threshold,
                        scale_up_cooldown: DEFAULT_SCALE_UP_COOLDOWN as int,
                        scale_down_cooldown: DEFAULT_SCALE_DOWN_COOLDOWN as int,
                    })
                    &&& policy@.valid()
                },
                Err(violation) => (ScalingRules {
                    min_instances: min_instances as int,
                    max_instances: max_instances as int,
                    cpu_threshold,
                    memory_threshold,
                    scale_up_cooldown: DEFAULT_SCALE_UP_COOLDOWN as int,
                    scale_down_cooldown: DEFAULT_SCALE_DOWN_COOLDOWN as int,
                }).violation() == Some(violation),
            },
    {
        ScalingPolicy::new(
            min_instances,
            max_instances,
            cpu_threshold,
            memory_threshold,
            DEFAULT_SCALE_UP_COOLDOWN,
            DEFAULT_SCALE_DOWN_COOLDOWN,
        )
    }

    pub fn min_instances(&self) -> (v: i32)
        ensures
            v == self@.min_instances,
            self@.valid(),
    {
        proof {
            use_type_invariant(self);
        }
        self.min_instances
    }

    pub fn max_instances(&self) -> (v: i32)
        ensures
            v == self@.max_instances,
            self@.valid(),
    {
        proof {
            use_type_invariant(self);
        }
        self.max_instances
    }

    pub fn cpu_threshold(&self) -> (v: Percent)
        ensures
            v == self@.cpu_threshold,
            self@.valid(),
    {
        proof {
            use_type_invariant(self);
        }
        self.cpu_threshold
    }

    pub fn memory_threshold(&self) -> (v: Percent)
        ensures
            v == self@.memory_threshold,
            self@.valid(),
    {
        proof {
            use_type_invariant(self);
        }
        self.memory_threshold
    }

    pub fn scale_up_cooldown(&self) -> (v: i32)
        ensures
            v == self@.scale_up_cooldown,
            self@.valid(),
    {
        proof {
            use_type_invariant(self);
        }
        self.scale_up_cooldown
    }

    pub fn scale_down_cooldown(&self) -> (v: i32)
        ensures
            v == self@.scale_down_cooldown,
            self@.valid(),
    {
        proof {
            use_type_invariant(self);
        }
        self.scale_down_cooldown
    }
}

/// What a cleanup policy holds, as mathematical values.
pub struct CleanupRules {
    pub age_threshold_days: int,
    pub utilization_threshold: Percent,
}

impl CleanupRules {
    pub open spec fn valid(self) -> bool {
        &&& 0 <= self.age_threshold_days
        &&& self.utilization_threshold.within_scale()
    }
}

/// Thresholds for proposing the removal of a resource. A value of this type
/// always satisfies [`CleanupRules::valid`].
#[derive(Clone, Copy, Debug)]
pub struct CleanupPolicy {
    age_threshold_days: u32,
    utilization_threshold: Percent,
}

impl View for CleanupPolicy {
    type V = CleanupRules;

    closed spec fn view(&self) -> CleanupRules {
        CleanupRules {
            age_threshold_days: self.age_threshold_days as int,
            utilization_threshold: self.utilization_threshold,
        }
    }
}

impl CleanupPolicy {
    #[verifier::type_invariant]
    spec fn rules_hold(self) -> bool {
        self@.valid()
    }

    /// The policy with these thresholds; rejected when the utilization
    /// threshold is above 100 percent.
    pub fn new(age_threshold_days: u32, utilization_threshold: Percent) -> (r: Result<
        CleanupPolicy,
        PolicyViolation,
    >)
        ensures
            match r {
                Ok(policy) => {
                    &&& utilization_threshold.within_scale()
                    &&& policy@ == (CleanupRules {
                        age_threshold_days: age_threshold_days as int,
                        utilization_threshold,
                    })
                    &&& policy@.valid()
                },
                Err(violation) => {
                    &&& !utilization_threshold.within_scale()
                    &&& violation == PolicyViolation::UtilizationThresholdOutOfRange
                },
            },
    {
        if utilization_threshold.is_within_scale() {
            Ok(CleanupPolicy { age_threshold_days, utilization_threshold })
        } else {
            Err(PolicyViolation::UtilizationThresholdOutOfRange)
        }
    }

    pub fn age_threshold_days(&self) -> (v: u32)
        ensures
            v == self@.age_threshold_days,
            self@.valid(),
    {
        proof {
            use_type_invariant(self);
        }
        self.age_threshold_days
    }

    pub fn utilization_threshold(&self) -> (v: Percent)
        ensures
            v == self@.utilization_threshold,
            self@.valid(),
    {
        proof {
            use_type_invariant(self);
        }
        self.utilization_threshold
    }
}

/// A set of rules is accepted exactly when it is valid.
pub proof fn lemma_violation_iff_invalid(rules: ScalingRules)
    ensures
        rules.violation() is None <==> rules.valid(),
{
}

} // verus!
