//! One cycle of the scheduler loop: whether to launch, what, and what comes
//! next. The loop itself, the launch and the sleep belong to the caller.
use vstd::prelude::*;

use crate::calendar::texts;
use crate::config::RunnerConfig;
use crate::decision::{run_now, should_run};
use crate::invocation::{build_invocation, invocation_of, is_snapshot, Commands, Invocation, TaskDescriptor};
use crate::moment::Moment;

verus! {

/// Seconds between two checks of the historical export: three hours.
pub const HISTORICAL_INTERVAL_SECONDS: u64 = 10800;

/// What the loop does once a cycle is over.
#[derive(Clone, Copy, Debug, PartialEq, Eq, Structural)]
pub enum After {
    /// Wait this many seconds, then run the next cycle.
    Sleep { seconds: u64 },
    /// The task is done: an immediate run happens once.
    Stop,
}

/// The outcome of one cycle: the decision, and the invocation to launch
/// when it is positive.
pub struct CyclePlan {
    pub run: bool,
    pub invocation: Option<Invocation>,
    pub after: After,
}

/// What follows a cycle of kind `c`: immediate kinds stop; quote collection
/// waits its frequency in minutes (capped at the largest `u64`), historical
/// export three hours, indicator collection its frequency in seconds.
pub open spec fn after_cycle(config: &RunnerConfig, c: Commands) -> After {
    match c {
        Commands::Cotacoes => After::Sleep {
            seconds: if config.frequencia_minutos * 60 <= u64::MAX {
                (config.frequencia_minutos * 60) as u64
            } else {
                u64::MAX
            },
        },
        Commands::Historico { .. } => After::Sleep { seconds: HISTORICAL_INTERVAL_SECONDS },
        Commands::Indicadores { .. } => After::Sleep { seconds: config.frequencia_indicadores },
        _ => After::Stop,
    }
}

/// What the loop does after a cycle of kind `c`.
pub fn next_after(config: &RunnerConfig, c: Commands) -> (r: After)
    ensures
        r == after_cycle(config, c),
{
    match c {
        Commands::Cotacoes => {
            let seconds = match config.frequencia_minutos.checked_mul(60) {
                Some(s) => s,
                None => u64::MAX,
            };
            After::Sleep { seconds }
        },
        Commands::Historico { .. } => After::Sleep { seconds: HISTORICAL_INTERVAL_SECONDS },
        Commands::Indicadores { .. } => After::Sleep { seconds: config.frequencia_indicadores },
        _ => After::Stop,
    }
}

/// Plans one cycle of `task` at moment `now`: an immediate kind is forced to
/// run, a periodic one runs on a business day inside the configured window.
/// When it runs, the invocation writes under `data_dir`.
pub fn plan_cycle(config: &RunnerConfig, task: &TaskDescriptor, now: &Moment, data_dir: &str) -> (r:
    CyclePlan)
    requires
        now.wf(),
    ensures
        r.run == run_now(
            is_snapshot(task.comando),
            now.date,
            now.hour as int,
            texts(config.feriados@),
            config.intervalo_inicio as int,
            config.intervalo_fim as int,
        ),
        r.run ==> (r.invocation matches Some(i) && i@ == invocation_of(
            task.comando,
            texts(task.codes@),
            *now,
            data_dir@,
        )),
        !r.run ==> r.invocation is None,
        r.after == after_cycle(config, task.comando),
{
    let run = should_run(
        task.comando.is_snapshot(),
        &now.date,
        now.hour,
        config.feriados.as_slice(),
        config.intervalo_inicio,
        config.intervalo_fim,
    );
    let invocation = if run {
        Some(build_invocation(task, now, data_dir))
    } else {
        None
    };
    CyclePlan { run, invocation, after: next_after(config, task.comando) }
}

} // verus!
