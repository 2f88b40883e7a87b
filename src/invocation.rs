//! The command line that launches the collector for one task.
use vstd::prelude::*;
use vstd::string::StringExecFns;

use crate::calendar::texts;
use crate::config::{category_codes, get_ativos_from_config, RunnerConfig, TipoAtivo};
use crate::moment::{timestamp, timestamp_text, timestamp_text_injective, Moment};

verus! {

/// The collector program that every invocation launches.
pub const PROGRAM: &'static str = "radar-fundamentos";

/// The kinds of task: periodic or immediate quote collection, periodic
/// historical export, periodic or immediate indicator collection.
#[derive(Clone, Copy, Debug, PartialEq, Eq, Structural)]
pub enum Commands {
    Cotacoes,
    CotacoesAgora,
    Historico { tipo: TipoAtivo },
    Indicadores { tipo: TipoAtivo },
    IndicadoresAgora { tipo: TipoAtivo },
}

/// One schedulable unit: a kind of task and the asset codes it covers, in order.
pub struct TaskDescriptor {
    pub comando: Commands,
    pub codes: Vec<String>,
}

/// What the launcher starts: a program, its positional arguments, and the
/// file that the collector writes to.
pub struct Invocation {
    pub program: String,
    pub args: Vec<String>,
    pub output: Option<String>,
}

pub struct InvocationView {
    pub program: Seq<char>,
    pub args: Seq<Seq<char>>,
    pub output: Option<Seq<char>>,
}

impl View for Invocation {
    type V = InvocationView;

    open spec fn view(&self) -> InvocationView {
        InvocationView {
            program: self.program@,
            args: texts(self.args@),
            output: match self.output {
                Some(p) => Some(p@),
                None => None,
            },
        }
    }
}

/// The collector's subcommand for a kind of task.
pub open spec fn subcommand_text(c: Commands) -> Seq<char> {
    match c {
        Commands::Cotacoes => "cotacoes"@,
        Commands::CotacoesAgora => "cotacoes-agora"@,
        Commands::Historico { .. } => "historico"@,
        Commands::Indicadores { .. } => "indicadores"@,
        Commands::IndicadoresAgora { .. } => "indicadores"@,
    }
}

/// The name of a category in arguments and file names; empty for `Geral`.
pub open spec fn category_text(t: TipoAtivo) -> Seq<char> {
    match t {
        TipoAtivo::Acoes => "acoes"@,
        TipoAtivo::Fundos => "fundos"@,
        TipoAtivo::Geral => Seq::empty(),
    }
}

/// The category of a kind of task: quote collection has none.
pub open spec fn category_of(c: Commands) -> TipoAtivo {
    match c {
        Commands::Cotacoes => TipoAtivo::Geral,
        Commands::CotacoesAgora => TipoAtivo::Geral,
        Commands::Historico { tipo } => tipo,
        Commands::Indicadores { tipo } => tipo,
        Commands::IndicadoresAgora { tipo } => tipo,
    }
}

/// The immediate kinds run once and ignore the schedule.
pub open spec fn is_snapshot(c: Commands) -> bool {
    c is CotacoesAgora || c is IndicadoresAgora
}

/// The file that a task writes under the data directory `dir`: a new
/// timestamped file per historical export, a fixed file otherwise.
pub open spec fn output_text(c: Commands, now: Moment, dir: Seq<char>) -> Seq<char> {
    match c {
        Commands::Historico { tipo } => dir + "/dados/historico/"@ + category_text(tipo) + "_"@
            + timestamp_text(now) + ".csv"@,
        Commands::Cotacoes => dir + "/cotacoes.csv"@,
        Commands::CotacoesAgora => dir + "/cotacoes.csv"@,
        Commands::Indicadores { tipo } => dir + "/"@ + category_text(tipo) + ".csv"@,
        Commands::IndicadoresAgora { tipo } => dir + "/"@ + category_text(tipo) + ".csv"@,
    }
}

/// The arguments: the subcommand, the category (empty for quote collection),
/// then every code in order.
pub open spec fn args_of(c: Commands, codes: Seq<Seq<char>>) -> Seq<Seq<char>> {
    seq![subcommand_text(c), category_text(category_of(c))] + codes
}

/// The invocation that a task gives at moment `now`.
pub open spec fn invocation_of(
    c: Commands,
    codes: Seq<Seq<char>>,
    now: Moment,
    dir: Seq<char>,
) -> InvocationView {
    InvocationView {
        program: PROGRAM@,
        args: args_of(c, codes),
        output: Some(output_text(c, now, dir)),
    }
}

/// The codes that a task of kind `c` covers under `config`.
pub open spec fn task_codes(config: &RunnerConfig, c: Commands) -> Seq<String> {
    match c {
        Commands::Cotacoes => config.ativos_codes@,
        Commands::CotacoesAgora => config.ativos_codes@,
        _ => category_codes(config, category_of(c)),
    }
}

fn subcommand_name(c: Commands) -> (r: &'static str)
    ensures
        r@ == subcommand_text(c),
{
    match c {
        Commands::Cotacoes => "cotacoes",
        Commands::CotacoesAgora => "cotacoes-agora",
        Commands::Historico { .. } => "historico",
        Commands::Indicadores { .. } => "indicadores",
        Commands::IndicadoresAgora { .. } => "indicadores",
    }
}

/// The name of a category in arguments and file names; empty for `Geral`.
pub fn category_name(t: TipoAtivo) -> (r: &'static str)
    ensures
        r@ == category_text(t),
{
    match t {
        TipoAtivo::Acoes => "acoes",
        TipoAtivo::Fundos => "fundos",
        TipoAtivo::Geral => {
            proof {
                reveal_strlit("");
            }
            ""
        },
    }
}

impl Commands {
    /// The category of this kind of task: none for quote collection.
    pub fn category(&self) -> (r: TipoAtivo)
        ensures
            r == category_of(*self),
    {
        match *self {
            Commands::Cotacoes => TipoAtivo::Geral,
            Commands::CotacoesAgora => TipoAtivo::Geral,
            Commands::Historico { tipo } => tipo,
            Commands::Indicadores { tipo } => tipo,
            Commands::IndicadoresAgora { tipo } => tipo,
        }
    }

    /// Whether this kind runs once, ignoring the schedule.
    pub fn is_snapshot(&self) -> (r: bool)
        ensures
            r == is_snapshot(*self),
    {
        match *self {
            Commands::CotacoesAgora => true,
            Commands::IndicadoresAgora { .. } => true,
            _ => false,
        }
    }
}

/// The file that a task writes under `data_dir` at moment `now`.
pub fn output_path(c: Commands, now: &Moment, data_dir: &str) -> (r: String)
    requires
        now.wf(),
    ensures
        r@ == output_text(c, *now, data_dir@),
{
    let mut p = String::from_str(data_dir);
    match c {
        Commands::Historico { tipo } => {
            p.append("/dados/historico/");
            p.append(category_name(tipo));
            p.append("_");
            let stamp = timestamp(now);
            p.append(stamp.as_str());
            p.append(".csv");
        },
        Commands::Cotacoes | Commands::CotacoesAgora => {
            p.append("/cotacoes.csv");
        },
        Commands::Indicadores { tipo } | Commands::IndicadoresAgora { tipo } => {
            p.append("/");
            p.append(category_name(tipo));
            p.append(".csv");
        },
    }
    p
}

/// The invocation of `task` at moment `now`, with its output under `data_dir`.
pub fn build_invocation(task: &TaskDescriptor, now: &Moment, data_dir: &str) -> (r: Invocation)
    requires
        now.wf(),
    ensures
        r@ == invocation_of(task.comando, texts(task.codes@), *now, data_dir@),
{
    let mut args: Vec<String> = Vec::new();
    args.push(String::from_str(subcommand_name(task.comando)));
    args.push(String::from_str(category_name(task.comando.category())));
    let ghost head = seq![subcommand_text(task.comando), category_text(category_of(task.comando))];
    assert(texts(args@) =~= head);
    let mut i: usize = 0;
    while i < task.codes.len()
        invariant
            0 <= i <= task.codes@.len(),
            texts(args@) =~= head + texts(task.codes@).subrange(0, i as int),
        decreases task.codes@.len() - i,
    {
        let ghost before = args@;
        args.push(task.codes[i].clone());
        assert(texts(args@) =~= texts(before).push(task.codes@[i as int]@));
        assert(texts(task.codes@).subrange(0, i + 1) =~= texts(task.codes@).subrange(0, i as int).push(
            task.codes@[i as int]@,
        ));
        i += 1;
    }
    assert(texts(task.codes@).subrange(0, i as int) =~= texts(task.codes@));
    let output = output_path(task.comando, now, data_dir);
    Invocation { program: String::from_str(PROGRAM), args, output: Some(output) }
}

/// The task of kind `c` under `config`: the quote list for quote
/// collection, the category's list otherwise.
pub fn task_for(config: &RunnerConfig, c: Commands) -> (r: TaskDescriptor)
    ensures
        r.comando == c,
        texts(r.codes@) == texts(task_codes(config, c)),
{
    let codes: &[String] = match c {
        Commands::Cotacoes | Commands::CotacoesAgora => config.ativos_codes.as_slice(),
        _ => get_ativos_from_config(config, c.category()),
    };
    let mut v: Vec<String> = Vec::new();
    let mut i: usize = 0;
    while i < codes.len()
        invariant
            0 <= i <= codes@.len(),
            codes@ == task_codes(config, c),
            v@.len() == i,
            forall|j: int| 0 <= j < i ==> v@[j]@ == codes@[j]@,
        decreases codes@.len() - i,
    {
        v.push(codes[i].clone());
        i += 1;
    }
    assert(texts(v@) =~= texts(codes@));
    TaskDescriptor { comando: c, codes: v }
}

/// The invocation depends on the task, the moment and the data directory
/// alone: two builds from the same inputs give the same program, arguments
/// and output path.
pub proof fn build_deterministic(
    task: &TaskDescriptor,
    now: Moment,
    dir: Seq<char>,
    a: Invocation,
    b: Invocation,
)
    requires
        a@ == invocation_of(task.comando, texts(task.codes@), now, dir),
        b@ == invocation_of(task.comando, texts(task.codes@), now, dir),
    ensures
        a@.program == b@.program,
        a@.args == b@.args,
        a@.output == b@.output,
{
}

/// Historical exports of one category at two different moments write to
/// two different files.
pub proof fn historical_paths_distinct(tipo: TipoAtivo, m1: Moment, m2: Moment, dir: Seq<char>)
    requires
        m1.wf(),
        m2.wf(),
        m1 != m2,
    ensures
        output_text(Commands::Historico { tipo }, m1, dir) != output_text(
            Commands::Historico { tipo },
            m2,
            dir,
        ),
{
    let head = dir + "/dados/historico/"@ + category_text(tipo) + "_"@;
    let t1 = timestamp_text(m1);
    let t2 = timestamp_text(m2);
    let p1 = output_text(Commands::Historico { tipo }, m1, dir);
    let p2 = output_text(Commands::Historico { tipo }, m2, dir);
    assert(p1 == head + t1 + ".csv"@);
    assert(p2 == head + t2 + ".csv"@);
    assert(t1.len() == t2.len());
    if p1 == p2 {
        assert(p1.subrange(head.len() as int, (head.len() + t1.len()) as int) =~= t1);
        assert(p2.subrange(head.len() as int, (head.len() + t2.len()) as int) =~= t2);
        timestamp_text_injective(m1, m2);
    }
}

/// Quote and indicator collections write to the same file at every moment.
pub proof fn fixed_paths(c: Commands, m1: Moment, m2: Moment, dir: Seq<char>)
    requires
        !(c is Historico),
    ensures
        output_text(c, m1, dir) == output_text(c, m2, dir),
{
}

} // verus!
