//! The runner's settings and their built-in defaults.
use vstd::prelude::*;

use crate::calendar::texts;

verus! {

/// An asset category: stocks, closed-end funds, or no category at all.
#[derive(Clone, Copy, Debug, PartialEq, Eq, Structural)]
pub enum TipoAtivo {
    Acoes,
    Fundos,
    Geral,
}

/// The settings that one run reads: holidays, the hour window, the
/// frequencies of the periodic modes and the asset codes of each list.
pub struct RunnerConfig {
    /// Holidays, each written `YYYY-MM-DD`.
    pub feriados: Vec<String>,
    /// First hour of the window.
    pub intervalo_inicio: u32,
    /// Last hour of the window, included.
    pub intervalo_fim: u32,
    /// Minutes between two cycles of the periodic quote collection.
    pub frequencia_minutos: u64,
    /// Seconds between two cycles of the periodic indicator collection.
    pub frequencia_indicadores: u64,
    /// Codes of the quote collection.
    pub ativos_codes: Vec<String>,
    /// Codes of the stock category.
    pub acao_codes: Vec<String>,
    /// Codes of the fund category.
    pub fundo_codes: Vec<String>,
}

pub open spec fn default_quote_codes() -> Seq<Seq<char>> {
    seq![
        "SNEL11"@,
        "AFHI11"@,
        "RELG11"@,
        "VGIR11"@,
        "VALE3"@,
        "PRIO3"@,
        "BRAV3"@,
        "KLBN11"@,
        "ITSA4"@,
    ]
}

pub open spec fn default_stock_codes() -> Seq<Seq<char>> {
    seq!["VALE3"@, "PRIO3"@, "BRAV3"@, "KLBN11"@, "ITSA4"@]
}

pub open spec fn default_fund_codes() -> Seq<Seq<char>> {
    seq!["SNEL11"@, "AFHI11"@, "RELG11"@, "VGIR11"@]
}

/// The codes that the configuration lists for a category; none for `Geral`.
pub open spec fn category_codes(config: &RunnerConfig, tipo: TipoAtivo) -> Seq<String> {
    match tipo {
        TipoAtivo::Acoes => config.acao_codes@,
        TipoAtivo::Fundos => config.fundo_codes@,
        TipoAtivo::Geral => Seq::empty(),
    }
}

impl RunnerConfig {
    /// The configuration holds the built-in defaults.
    pub open spec fn is_default(&self) -> bool {
        &&& self.feriados@.len() == 0
        &&& self.intervalo_inicio == 10
        &&& self.intervalo_fim == 20
        &&& self.frequencia_minutos == 15
        &&& self.frequencia_indicadores == 360
        &&& texts(self.ativos_codes@) == default_quote_codes()
        &&& texts(self.acao_codes@) == default_stock_codes()
        &&& texts(self.fundo_codes@) == default_fund_codes()
    }
}

fn codes_from(names: &[&str]) -> (r: Vec<String>)
    ensures
        r@.len() == names@.len(),
        forall|i: int| 0 <= i < names@.len() ==> r@[i]@ == names@[i]@,
{
    let mut r: Vec<String> = Vec::new();
    let mut i: usize = 0;
    while i < names.len()
        invariant
            0 <= i <= names@.len(),
            r@.len() == i,
            forall|j: int| 0 <= j < i ==> r@[j]@ == names@[j]@,
        decreases names@.len() - i,
    {
        r.push(String::from_str(names[i]));
        i += 1;
    }
    r
}

/// No holidays.
pub fn default_feriados() -> (r: Vec<String>)
    ensures
        r@.len() == 0,
{
    Vec::new()
}

/// The codes of the quote collection: the funds, then the stocks.
pub fn default_ativos_codes() -> (r: Vec<String>)
    ensures
        texts(r@) == default_quote_codes(),
{
    let names = ["SNEL11", "AFHI11", "RELG11", "VGIR11", "VALE3", "PRIO3", "BRAV3", "KLBN11", "ITSA4"];
    let r = codes_from(&names);
    assert(texts(r@) =~= default_quote_codes());
    r
}

/// The codes of the stock category.
pub fn default_acao_codes() -> (r: Vec<String>)
    ensures
        texts(r@) == default_stock_codes(),
{
    let names = ["VALE3", "PRIO3", "BRAV3", "KLBN11", "ITSA4"];
    let r = codes_from(&names);
    assert(texts(r@) =~= default_stock_codes());
    r
}

/// The codes of the fund category.
pub fn default_fundo_codes() -> (r: Vec<String>)
    ensures
        texts(r@) == default_fund_codes(),
{
    let names = ["SNEL11", "AFHI11", "RELG11", "VGIR11"];
    let r = codes_from(&names);
    assert(texts(r@) =~= default_fund_codes());
    r
}

/// The window opens at ten o'clock.
pub fn default_intervalo_inicio() -> (r: u32)
    ensures
        r == 10,
{
    10
}

/// The window closes after twenty o'clock.
pub fn default_intervalo_fim() -> (r: u32)
    ensures
        r == 20,
{
    20
}

/// Quotes are collected every fifteen minutes.
pub fn default_frequencia_minutos() -> (r: u64)
    ensures
        r == 15,
{
    15
}

/// Indicators are checked every 360 seconds.
pub fn default_frequencia_indicadores() -> (r: u64)
    ensures
        r == 360,
{
    360
}

impl Default for RunnerConfig {
    /// The built-in configuration, used when no file can be read.
    fn default() -> (r: RunnerConfig)
        ensures
            r.is_default(),
    {
        RunnerConfig {
            feriados: default_feriados(),
            intervalo_inicio: default_intervalo_inicio(),
            intervalo_fim: default_intervalo_fim(),
            frequencia_minutos: default_frequencia_minutos(),
            frequencia_indicadores: default_frequencia_indicadores(),
            ativos_codes: default_ativos_codes(),
            acao_codes: default_acao_codes(),
            fundo_codes: default_fundo_codes(),
        }
    }
}

/// The codes that the configuration lists for a category: the stock list,
/// the fund list, or none for `Geral`.
pub fn get_ativos_from_config(config: &RunnerConfig, tipo: TipoAtivo) -> (r: &[String])
    ensures
        r@ == category_codes(config, tipo),
{
    match tipo {
        TipoAtivo::Acoes => config.acao_codes.as_slice(),
        TipoAtivo::Fundos => config.fundo_codes.as_slice(),
        TipoAtivo::Geral => &[],
    }
}

} // verus!
