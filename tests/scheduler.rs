use radar_runner::config::{
    default_acao_codes, default_ativos_codes, default_feriados, default_frequencia_indicadores,
    default_frequencia_minutos, default_fundo_codes, default_intervalo_fim, default_intervalo_inicio,
};
use radar_runner::scheduler::next_after;
use radar_runner::{
    current_moment, get_ativos_from_config, plan_cycle, task_for, After, Commands, Date, Moment,
    RunnerConfig, TipoAtivo,
};

fn moment(y: i32, mo: u32, d: u32, h: u32) -> Moment {
    Moment::new(Date::new(y, mo, d).unwrap(), h, 30, 0).unwrap()
}

fn config_with_christmas() -> RunnerConfig {
    let mut cfg = RunnerConfig::default();
    cfg.feriados = vec!["2025-12-25".to_string()];
    cfg
}

#[test]
fn defaults_match_the_built_in_values() {
    assert!(default_feriados().is_empty());
    assert_eq!(default_intervalo_inicio(), 10);
    assert_eq!(default_intervalo_fim(), 20);
    assert_eq!(default_frequencia_minutos(), 15);
    assert_eq!(default_frequencia_indicadores(), 360);
    assert_eq!(
        default_ativos_codes(),
        vec!["SNEL11", "AFHI11", "RELG11", "VGIR11", "VALE3", "PRIO3", "BRAV3", "KLBN11", "ITSA4"]
    );
    assert_eq!(default_acao_codes(), vec!["VALE3", "PRIO3", "BRAV3", "KLBN11", "ITSA4"]);
    assert_eq!(default_fundo_codes(), vec!["SNEL11", "AFHI11", "RELG11", "VGIR11"]);
}

#[test]
fn category_lists_come_from_the_configuration() {
    let cfg = RunnerConfig::default();
    assert_eq!(get_ativos_from_config(&cfg, TipoAtivo::Acoes), cfg.acao_codes.as_slice());
    assert_eq!(get_ativos_from_config(&cfg, TipoAtivo::Fundos), cfg.fundo_codes.as_slice());
    assert!(get_ativos_from_config(&cfg, TipoAtivo::Geral).is_empty());
}

#[test]
fn periodic_cycle_inside_window_launches() {
    let cfg = config_with_christmas();
    let task = task_for(&cfg, Commands::Historico { tipo: TipoAtivo::Acoes });
    let plan = plan_cycle(&cfg, &task, &moment(2025, 12, 26, 20), "/d");
    assert!(plan.run);
    let inv = plan.invocation.unwrap();
    assert_eq!(inv.args[0], "historico");
    assert_eq!(inv.output, Some("/d/dados/historico/acoes_2025-12-26_20h-30m-00s.csv".to_string()));
    assert_eq!(plan.after, After::Sleep { seconds: 10800 });
}

#[test]
fn periodic_cycle_on_holiday_waits() {
    let cfg = config_with_christmas();
    let task = task_for(&cfg, Commands::Cotacoes);
    let plan = plan_cycle(&cfg, &task, &moment(2025, 12, 25, 12), "/d");
    assert!(!plan.run);
    assert!(plan.invocation.is_none());
    assert_eq!(plan.after, After::Sleep { seconds: 900 });
}

#[test]
fn periodic_cycle_outside_window_waits() {
    let cfg = config_with_christmas();
    let task = task_for(&cfg, Commands::Indicadores { tipo: TipoAtivo::Fundos });
    let plan = plan_cycle(&cfg, &task, &moment(2025, 12, 26, 21), "/d");
    assert!(!plan.run);
    assert!(plan.invocation.is_none());
    assert_eq!(plan.after, After::Sleep { seconds: 360 });
}

#[test]
fn immediate_cycle_runs_once_on_weekend() {
    let cfg = config_with_christmas();
    let task = task_for(&cfg, Commands::CotacoesAgora);
    let plan = plan_cycle(&cfg, &task, &moment(2025, 12, 27, 3), "/d");
    assert!(plan.run);
    assert_eq!(plan.invocation.unwrap().output, Some("/d/cotacoes.csv".to_string()));
    assert_eq!(plan.after, After::Stop);
    let task = task_for(&cfg, Commands::IndicadoresAgora { tipo: TipoAtivo::Acoes });
    let plan = plan_cycle(&cfg, &task, &moment(2025, 12, 25, 23), "/d");
    assert!(plan.run);
    assert_eq!(plan.after, After::Stop);
}

#[test]
fn quote_interval_saturates() {
    let mut cfg = RunnerConfig::default();
    cfg.frequencia_minutos = u64::MAX / 2;
    assert_eq!(next_after(&cfg, Commands::Cotacoes), After::Sleep { seconds: u64::MAX });
    cfg.frequencia_minutos = 2;
    assert_eq!(next_after(&cfg, Commands::Cotacoes), After::Sleep { seconds: 120 });
}

#[test]
fn clock_reads_a_valid_moment() {
    let now = current_moment().unwrap();
    assert!(now.date.year >= 2020);
    assert!(now.hour < 24);
}
