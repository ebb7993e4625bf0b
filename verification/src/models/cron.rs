//! Scheduled tasks.
use vstd::prelude::*;

verus! {

/// A task that runs a script on a cron schedule.
#[derive(Debug, Clone)]
pub struct CronTaskConfig {
    pub name: String,
    pub cron_exp: String,
    pub path: String,
    pub timeout: u32,
}

impl Default for CronTaskConfig {
    fn default() -> (r: Self)
        ensures
            r.name@ == Seq::<char>::empty(),
            r.cron_exp@ == Seq::<char>::empty(),
            r.path@ == Seq::<char>::empty(),
            r.timeout == 0,
    {
        CronTaskConfig { name: String::new(), cron_exp: String::new(), path: String::new(), timeout: 0 }
    }
}

} // verus!
