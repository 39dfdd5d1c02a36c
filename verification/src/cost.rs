//! The cost report: what each service cost over a period, the total, and the
//! alert that a budget raises.

use crate::cli::CloudProvider;
use crate::time::{day_of, Timestamp};
use crate::units::Money;
use vstd::prelude::*;
use vstd::string::StringExecFns;

verus! {

/// What one service cost.
#[derive(Clone, Debug, PartialEq, Eq)]
pub struct ServiceCost {
    pub service_name: String,
    pub cost: Money,
    pub usage: String,
    pub region: Option<String>,
}

/// A warning that the cost of a period is over budget.
#[derive(Clone, Debug, PartialEq, Eq)]
pub struct CostAlert {
    pub message: String,
    pub severity: String,
    pub threshold: Money,
    /// The total that exceeds the threshold, in cents.
    pub actual_cost: u128,
}

/// The costs of one provider over a period.
#[derive(Clone, Debug, PartialEq, Eq)]
pub struct CostReport {
    pub provider: String,
    pub start_date: String,
    pub end_date: String,
    /// The sum of the services' costs, in cents.
    pub total_cost: u128,
    pub currency: String,
    pub services: Vec<ServiceCost>,
    pub alerts: Vec<CostAlert>,
}

/// An alert as mathematical values.
pub struct AlertView {
    pub message: Seq<char>,
    pub severity: Seq<char>,
    pub threshold: Money,
    pub actual_cost: nat,
}

impl View for CostAlert {
    type V = AlertView;

    open spec fn view(&self) -> AlertView {
        AlertView {
            message: self.message@,
            severity: self.severity@,
            threshold: self.threshold,
            actual_cost: self.actual_cost as nat,
        }
    }
}

/// The sum of the costs of `services`, in cents.
pub open spec fn sum_of_costs(services: Seq<ServiceCost>) -> nat
    decreases services.len(),
{
    if services.len() == 0 {
        0
    } else {
        sum_of_costs(services.drop_last()) + services.last().cost.cents as nat
    }
}

/// The alerts that a total raises: one of high severity when a budget is set
/// and the total exceeds it, none otherwise.
pub open spec fn alerts_for(total: nat, budget_threshold: Option<Money>) -> Seq<AlertView> {
    match budget_threshold {
        Some(threshold) => if total > threshold.cents {
            seq![
                AlertView {
                    message: "Cost exceeds budget threshold"@,
                    severity: "high"@,
                    threshold,
                    actual_cost: total,
                },
            ]
        } else {
            Seq::empty()
        },
        None => Seq::empty(),
    }
}

/// The sum of the costs of `services`, in cents.
pub fn total_cost(services: &[ServiceCost]) -> (total: u128)
    ensures
        total == sum_of_costs(services@),
{
    let mut total: u128 = 0;
    let mut i: usize = 0;
    while i < services.len()
        invariant
            i <= services.len(),
            total == sum_of_costs(services@.take(i as int)),
            total <= i * u64::MAX,
        decreases services.len() - i,
    {
        proof {
            assert(services@.take(i + 1).drop_last() =~= services@.take(i as int));
            assert((i + 1) * u64::MAX == i * u64::MAX + u64::MAX) by (nonlinear_arith);
            assert(i * u64::MAX + u64::MAX <= u128::MAX) by (nonlinear_arith)
                requires
                    i < usize::MAX,
                    usize::MAX <= u64::MAX,
            ;
        }
        total = total + services[i].cost.cents as u128;
        i += 1;
    }
    assert(services@.take(i as int) =~= services@);
    total
}

/// The alerts that `total` raises against an optional budget.
pub fn budget_alerts(total: u128, budget_threshold: Option<Money>) -> (alerts: Vec<CostAlert>)
    ensures
        alerts@.map_values(|alert: CostAlert| alert@) == alerts_for(total as nat, budget_threshold),
{
    let mut alerts: Vec<CostAlert> = Vec::new();
    match budget_threshold {
        Some(threshold) => {
            if total > threshold.cents as u128 {
                let alert = CostAlert {
                    message: String::from_str("Cost exceeds budget threshold"),
                    severity: String::from_str("high"),
                    threshold,
                    actual_cost: total,
                };
                alerts.push(alert);
                assert(alerts@.map_values(|alert: CostAlert| alert@) =~= seq![alert@]);
            }
        },
        None => {},
    }
    assert(alerts@.len() == 0 ==> alerts@.map_values(|alert: CostAlert| alert@) =~= Seq::empty());
    alerts
}

/// Puts a report together from the costs of the services: the period as two
/// dates, the total, and the alerts that the total raises.
pub fn build_cost_report(
    provider: CloudProvider,
    start: Timestamp,
    end: Timestamp,
    services: Vec<ServiceCost>,
    budget_threshold: Option<Money>,
) -> (report: CostReport)
    ensures
        report.provider@ == provider.name(),
        report.start_date@ == start.day(),
        report.end_date@ == end.day(),
        report.total_cost == sum_of_costs(services@),
        report.currency@ == "USD"@,
        report.services == services,
        report.alerts@.map_values(|alert: CostAlert| alert@) == alerts_for(
            sum_of_costs(services@),
            budget_threshold,
        ),
{
    let total = total_cost(services.as_slice());
    CostReport {
        provider: provider.to_text(),
        start_date: day_of(start),
        end_date: day_of(end),
        total_cost: total,
        currency: String::from_str("USD"),
        services,
        alerts: budget_alerts(total, budget_threshold),
    }
}

} // verus!
