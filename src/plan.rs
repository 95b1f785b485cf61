use vstd::prelude::*;
use crate::clock::valid_days;
use crate::text::same_text;

verus! {

/// A subscription plan of the static catalog.
#[derive(Clone, Debug)]
pub struct SubscriptionPlan {
    pub id: String,
    pub name: String,
    /// The recurring charge, in the smallest currency unit.
    pub amount: i64,
    pub currency: String,
    /// Length of one paid access period.
    pub interval_days: i64,
    /// Length of the initial free period.
    pub trial_days: i64,
}

impl SubscriptionPlan {
    /// Billing and trial lengths lie in the accepted range of days.
    pub open spec fn wf(&self) -> bool {
        valid_days(self.interval_days) && valid_days(self.trial_days)
    }
}

/// Every plan of the catalog is well formed and no two share an id.
pub open spec fn catalog_wf(plans: Seq<SubscriptionPlan>) -> bool {
    &&& forall|i: int| 0 <= i < plans.len() ==> #[trigger] plans[i].wf()
    &&& forall|i: int, j: int|
        0 <= i < plans.len() && 0 <= j < plans.len() && i != j ==> plans[i].id@ != plans[j].id@
}

/// The catalog: one monthly plan at 399 XAF with a seven-day trial.
pub fn get_plans() -> (r: Vec<SubscriptionPlan>)
    ensures
        r@.len() == 1,
        r@[0].id@ == "premium_monthly"@,
        r@[0].name@ == "Premium Monthly"@,
        r@[0].amount == 399,
        r@[0].currency@ == "XAF"@,
        r@[0].interval_days == 30,
        r@[0].trial_days == 7,
        catalog_wf(r@),
{
    let mut plans: Vec<SubscriptionPlan> = Vec::new();
    plans.push(
        SubscriptionPlan {
            id: String::from_str("premium_monthly"),
            name: String::from_str("Premium Monthly"),
            amount: 399,
            currency: String::from_str("XAF"),
            interval_days: 30,
            trial_days: 7,
        },
    );
    plans
}

/// `i` is the first position in `plans` of a plan with id `id`.
pub open spec fn first_plan_at(plans: Seq<SubscriptionPlan>, id: Seq<char>, i: int) -> bool {
    &&& 0 <= i < plans.len()
    &&& plans[i].id@ == id
    &&& forall|j: int| 0 <= j < i ==> plans[j].id@ != id
}

/// The first position in `plans` of a plan with id `id`.
pub open spec fn plan_pos(plans: Seq<SubscriptionPlan>, id: Seq<char>) -> Option<int> {
    if exists|i: int| first_plan_at(plans, id, i) {
        Some(choose|i: int| first_plan_at(plans, id, i))
    } else {
        None
    }
}

/// Index of the first plan with the given id, if the catalog holds one.
pub fn find_plan(plans: &Vec<SubscriptionPlan>, id: &str) -> (r: Option<usize>)
    ensures
        match r {
            Some(i) => plan_pos(plans@, id@) == Some(i as int),
            None => plan_pos(plans@, id@) is None,
        },
        r is None <==> forall|i: int| 0 <= i < plans@.len() ==> plans@[i].id@ != id@,
{
    let mut i: usize = 0;
    while i < plans.len()
        invariant
            i <= plans@.len(),
            forall|j: int| 0 <= j < i ==> plans@[j].id@ != id@,
        decreases plans@.len() - i,
    {
        if same_text(plans[i].id.as_str(), id) {
            assert(first_plan_at(plans@, id@, i as int));
            let ghost k = choose|k: int| first_plan_at(plans@, id@, k);
            assert(k == i);
            return Some(i);
        }
        i = i + 1;
    }
    None
}

} // verus!
