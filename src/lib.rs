//! Decides when the `radar-fundamentos` collector may run and builds the
//! command line that launches it.
pub mod calendar;
pub mod config;
pub mod decision;
pub mod invocation;
pub mod moment;
pub mod scheduler;

pub use calendar::{is_business_day, Date};
pub use config::{get_ativos_from_config, RunnerConfig, TipoAtivo};
pub use decision::{in_window, should_run};
pub use invocation::{build_invocation, task_for, Commands, Invocation, TaskDescriptor};
pub use moment::{current_moment, Moment};
pub use scheduler::{plan_cycle, After, CyclePlan};
