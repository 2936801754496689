//! Parameterised statements over the `itens` table.
//!
//! A statement is its text and the values bound to its placeholders, in
//! order. The only things that ever vary in the text are the column and the
//! direction of the ordering, both taken from a fixed list. A search term,
//! a name, a price, an id, a limit or an offset is always a bound value.

use vstd::prelude::*;
use crate::decimal::{analisar_i32, i32_decimal};
use crate::item::{NovoItem, NovoItemSpec, Preco};
use crate::parametros::{texto_de, Coluna, Consulta, ConsultaSpec, Direcao};

verus! {

/// A value bound to a placeholder.
#[derive(Clone, Debug, PartialEq, Eq)]
pub enum Parametro {
    /// A 32-bit integer: an item's id.
    Inteiro(i32),
    /// A 64-bit integer: a limit or an offset.
    Longo(i64),
    /// Text: a name or a search pattern.
    Texto(String),
    /// A price.
    Real(Preco),
}

/// A bound value as contracts see it.
pub enum ParametroSpec {
    Inteiro(int),
    Longo(int),
    Texto(Seq<char>),
    Real(Preco),
}

impl View for Parametro {
    type V = ParametroSpec;

    open spec fn view(&self) -> ParametroSpec {
        match *self {
            Parametro::Inteiro(v) => ParametroSpec::Inteiro(v as int),
            Parametro::Longo(v) => ParametroSpec::Longo(v as int),
            Parametro::Texto(t) => ParametroSpec::Texto(t@),
            Parametro::Real(p) => ParametroSpec::Real(p),
        }
    }
}

/// A statement: text with placeholders `$1`, `$2`, ... and the values bound
/// to them, the first value to `$1`.
#[derive(Debug, PartialEq, Eq)]
pub struct Instrucao {
    pub texto: String,
    pub parametros: Vec<Parametro>,
}

/// A statement as contracts see it.
pub struct InstrucaoSpec {
    pub texto: Seq<char>,
    pub parametros: Seq<ParametroSpec>,
}

/// The bound values of a vector, each by its view.
pub open spec fn parametros_de(v: Seq<Parametro>) -> Seq<ParametroSpec> {
    v.map_values(|p: Parametro| p@)
}

impl View for Instrucao {
    type V = InstrucaoSpec;

    open spec fn view(&self) -> InstrucaoSpec {
        InstrucaoSpec { texto: self.texto@, parametros: parametros_de(self.parametros@) }
    }
}

/// How a listing is filtered.
#[derive(Clone, Debug, PartialEq, Eq)]
pub enum Filtro {
    /// Every row.
    Nenhum,
    /// Rows whose id is `id`, or whose name matches `padrao`.
    IdOuNome { id: i32, padrao: String },
    /// Rows whose name matches `padrao`.
    Nome { padrao: String },
}

/// A filter as contracts see it.
pub enum FiltroSpec {
    Nenhum,
    IdOuNome { id: int, padrao: Seq<char> },
    Nome { padrao: Seq<char> },
}

impl View for Filtro {
    type V = FiltroSpec;

    open spec fn view(&self) -> FiltroSpec {
        match *self {
            Filtro::Nenhum => FiltroSpec::Nenhum,
            Filtro::IdOuNome { id, padrao } => FiltroSpec::IdOuNome { id: id as int, padrao: padrao@ },
            Filtro::Nome { padrao } => FiltroSpec::Nome { padrao: padrao@ },
        }
    }
}

/// The pattern that matches names containing `termo`: the term between two
/// `%` wildcards.
pub open spec fn padrao_de(termo: Seq<char>) -> Seq<char> {
    "%"@ + termo + "%"@
}

/// The filter a search term asks for. No term, no filter. A term that is a
/// decimal 32-bit integer looks for that id or for names containing the
/// term; any other term looks for names containing it.
pub open spec fn filtro_de(busca: Option<Seq<char>>) -> FiltroSpec {
    match busca {
        None => FiltroSpec::Nenhum,
        Some(t) => match i32_decimal(t) {
            Some(id) => FiltroSpec::IdOuNome { id: id as int, padrao: padrao_de(t) },
            None => FiltroSpec::Nome { padrao: padrao_de(t) },
        },
    }
}

/// The name of a column in statement text.
pub open spec fn sql_coluna(c: Coluna) -> Seq<char> {
    match c {
        Coluna::Id => "id"@,
        Coluna::Nome => "nome"@,
        Coluna::Preco => "preco"@,
    }
}

/// The keyword of a direction in statement text.
pub open spec fn sql_direcao(d: Direcao) -> Seq<char> {
    match d {
        Direcao::Asc => "ASC"@,
        Direcao::Desc => "DESC"@,
    }
}

/// The condition a filter puts on the rows, with the space before it;
/// empty when every row qualifies.
pub open spec fn sql_condicao(f: FiltroSpec) -> Seq<char> {
    match f {
        FiltroSpec::Nenhum => Seq::<char>::empty(),
        FiltroSpec::IdOuNome { .. } => " WHERE id = $1 OR nome ILIKE $2"@,
        FiltroSpec::Nome { .. } => " WHERE nome ILIKE $1"@,
    }
}

/// The values a filter binds, in placeholder order.
pub open spec fn parametros_do_filtro(f: FiltroSpec) -> Seq<ParametroSpec> {
    match f {
        FiltroSpec::Nenhum => Seq::<ParametroSpec>::empty(),
        FiltroSpec::IdOuNome { id, padrao } => seq![
            ParametroSpec::Inteiro(id),
            ParametroSpec::Texto(padrao),
        ],
        FiltroSpec::Nome { padrao } => seq![ParametroSpec::Texto(padrao)],
    }
}

/// The limit and offset clause, whose two placeholders follow those of the
/// filter.
pub open spec fn sql_janela(f: FiltroSpec) -> Seq<char> {
    match f {
        FiltroSpec::Nenhum => " LIMIT $1 OFFSET $2"@,
        FiltroSpec::IdOuNome { .. } => " LIMIT $3 OFFSET $4"@,
        FiltroSpec::Nome { .. } => " LIMIT $2 OFFSET $3"@,
    }
}

/// The number of rows a page skips: the pages before it times the page
/// size, and the largest 64-bit integer where that product exceeds it. No
/// table has that many rows, so both skip every row.
pub open spec fn deslocamento(pagina: int, por_pagina: int) -> int {
    if (pagina - 1) * por_pagina > i64::MAX {
        i64::MAX as int
    } else {
        (pagina - 1) * por_pagina
    }
}

/// Text of the statement that fetches one page.
pub open spec fn sql_busca(f: FiltroSpec, c: Coluna, d: Direcao) -> Seq<char> {
    "SELECT id, nome, preco FROM itens"@ + sql_condicao(f) + " ORDER BY "@ + sql_coluna(c) + " "@
        + sql_direcao(d) + sql_janela(f)
}

/// Text of the statement that counts the rows of all pages.
pub open spec fn sql_contagem(f: FiltroSpec) -> Seq<char> {
    "SELECT COUNT(*) FROM itens"@ + sql_condicao(f)
}

/// The two statements of a listing.
#[derive(Debug, PartialEq, Eq)]
pub struct PlanoListagem {
    /// Fetches the rows of the requested page, in order.
    pub busca: Instrucao,
    /// Counts the rows that the filter lets through, on all pages.
    pub contagem: Instrucao,
}

/// The two statements as contracts see them.
pub struct PlanoSpec {
    pub busca: InstrucaoSpec,
    pub contagem: InstrucaoSpec,
}

impl View for PlanoListagem {
    type V = PlanoSpec;

    open spec fn view(&self) -> PlanoSpec {
        PlanoSpec { busca: self.busca@, contagem: self.contagem@ }
    }
}

/// The statements that answer a query. Both carry the filter's condition
/// and bind the filter's values first; the fetch then orders, and binds the
/// page size and the offset.
pub open spec fn plano_de(q: ConsultaSpec) -> PlanoSpec {
    let f = filtro_de(q.busca);
    PlanoSpec {
        busca: InstrucaoSpec {
            texto: sql_busca(f, q.coluna, q.direcao),
            parametros: parametros_do_filtro(f) + seq![
                ParametroSpec::Longo(q.por_pagina),
                ParametroSpec::Longo(deslocamento(q.pagina, q.por_pagina)),
            ],
        },
        contagem: InstrucaoSpec { texto: sql_contagem(f), parametros: parametros_do_filtro(f) },
    }
}

impl Filtro {
    /// Decides the filter from the search term.
    pub fn de_busca(busca: &Option<String>) -> (f: Filtro)
        ensures
            f@ == filtro_de(texto_de(*busca)),
    {
        match busca {
            None => Filtro::Nenhum,
            Some(t) => {
                let mut padrao = String::from_str("%");
                padrao.append(t.as_str());
                padrao.append("%");
                match analisar_i32(t.as_str()) {
                    Some(id) => Filtro::IdOuNome { id, padrao },
                    None => Filtro::Nome { padrao },
                }
            },
        }
    }

    /// The condition of this filter as statement text.
    pub fn condicao(&self) -> (s: &'static str)
        ensures
            s@ == sql_condicao(self@),
    {
        match self {
            Filtro::Nenhum => {
                proof {
                    reveal_strlit("");
                    assert(""@ =~= Seq::<char>::empty());
                }
                ""
            },
            Filtro::IdOuNome { .. } => " WHERE id = $1 OR nome ILIKE $2",
            Filtro::Nome { .. } => " WHERE nome ILIKE $1",
        }
    }

    /// The values this filter binds, in placeholder order.
    pub fn parametros(&self) -> (v: Vec<Parametro>)
        ensures
            parametros_de(v@) == parametros_do_filtro(self@),
    {
        let mut v: Vec<Parametro> = Vec::new();
        match self {
            Filtro::Nenhum => {},
            Filtro::IdOuNome { id, padrao } => {
                v.push(Parametro::Inteiro(*id));
                v.push(Parametro::Texto(padrao.clone()));
            },
            Filtro::Nome { padrao } => {
                v.push(Parametro::Texto(padrao.clone()));
            },
        }
        assert(parametros_de(v@) =~= parametros_do_filtro(self@));
        v
    }

    /// The limit and offset clause that goes with this filter.
    pub fn janela(&self) -> (s: &'static str)
        ensures
            s@ == sql_janela(self@),
    {
        match self {
            Filtro::Nenhum => " LIMIT $1 OFFSET $2",
            Filtro::IdOuNome { .. } => " LIMIT $3 OFFSET $4",
            Filtro::Nome { .. } => " LIMIT $2 OFFSET $3",
        }
    }
}

impl Coluna {
    /// The column's name in statement text.
    pub fn sql(self) -> (s: &'static str)
        ensures
            s@ == sql_coluna(self),
    {
        match self {
            Coluna::Id => "id",
            Coluna::Nome => "nome",
            Coluna::Preco => "preco",
        }
    }
}

impl Direcao {
    /// The direction's keyword in statement text.
    pub fn sql(self) -> (s: &'static str)
        ensures
            s@ == sql_direcao(self),
    {
        match self {
            Direcao::Asc => "ASC",
            Direcao::Desc => "DESC",
        }
    }
}

/// The number of rows to skip before the given page.
pub fn calcular_deslocamento(pagina: i64, por_pagina: i64) -> (d: i64)
    requires
        1 <= pagina,
        1 <= por_pagina,
    ensures
        d == deslocamento(pagina as int, por_pagina as int),
        0 <= d,
{
    assert(0 <= (pagina - 1) * por_pagina) by (nonlinear_arith)
        requires
            1 <= pagina,
            1 <= por_pagina,
    ;
    match (pagina - 1).checked_mul(por_pagina) {
        Some(d) => d,
        None => i64::MAX,
    }
}

/// Builds the two statements of a listing.
pub fn planejar_listagem(q: &Consulta) -> (p: PlanoListagem)
    ensures
        p@ == plano_de(q@),
{
    let filtro = Filtro::de_busca(q.busca());
    let por_pagina = q.por_pagina();
    let pagina = q.pagina();

    let mut texto_busca = String::from_str("SELECT id, nome, preco FROM itens");
    texto_busca.append(filtro.condicao());
    texto_busca.append(" ORDER BY ");
    texto_busca.append(q.coluna().sql());
    texto_busca.append(" ");
    texto_busca.append(q.direcao().sql());
    texto_busca.append(filtro.janela());

    let mut parametros_busca = filtro.parametros();
    let ghost antes = parametros_busca@;
    parametros_busca.push(Parametro::Longo(por_pagina));
    parametros_busca.push(Parametro::Longo(calcular_deslocamento(pagina, por_pagina)));
    assert(parametros_de(parametros_busca@) =~= parametros_de(antes) + seq![
        ParametroSpec::Longo(por_pagina as int),
        ParametroSpec::Longo(deslocamento(pagina as int, por_pagina as int)),
    ]);

    let mut texto_contagem = String::from_str("SELECT COUNT(*) FROM itens");
    texto_contagem.append(filtro.condicao());

    PlanoListagem {
        busca: Instrucao { texto: texto_busca, parametros: parametros_busca },
        contagem: Instrucao { texto: texto_contagem, parametros: filtro.parametros() },
    }
}

/// Text of the statement that inserts an item and returns the new row.
pub open spec fn sql_criar() -> Seq<char> {
    "INSERT INTO itens (nome, preco) VALUES ($1, $2) RETURNING id, nome, preco"@
}

/// Text of the statement that fetches one item by id.
pub open spec fn sql_buscar() -> Seq<char> {
    "SELECT id, nome, preco FROM itens WHERE id = $1"@
}

/// Text of the statement that replaces name and price of one item and
/// returns the row as it then is.
pub open spec fn sql_atualizar() -> Seq<char> {
    "UPDATE itens SET nome = $1, preco = $2 WHERE id = $3 RETURNING id, nome, preco"@
}

/// Text of the statement that removes one item by id.
pub open spec fn sql_deletar() -> Seq<char> {
    "DELETE FROM itens WHERE id = $1"@
}

/// The statement that creates an item.
pub open spec fn criar_de(novo: NovoItemSpec) -> InstrucaoSpec {
    InstrucaoSpec {
        texto: sql_criar(),
        parametros: seq![ParametroSpec::Texto(novo.nome), ParametroSpec::Real(novo.preco)],
    }
}

/// The statement that fetches the item `id`.
pub open spec fn buscar_de(id: int) -> InstrucaoSpec {
    InstrucaoSpec { texto: sql_buscar(), parametros: seq![ParametroSpec::Inteiro(id)] }
}

/// The statement that updates the item `id`.
pub open spec fn atualizar_de(id: int, novo: NovoItemSpec) -> InstrucaoSpec {
    InstrucaoSpec {
        texto: sql_atualizar(),
        parametros: seq![
            ParametroSpec::Texto(novo.nome),
            ParametroSpec::Real(novo.preco),
            ParametroSpec::Inteiro(id),
        ],
    }
}

/// The statement that removes the item `id`.
pub open spec fn deletar_de(id: int) -> InstrucaoSpec {
    InstrucaoSpec { texto: sql_deletar(), parametros: seq![ParametroSpec::Inteiro(id)] }
}

/// Builds the statement that creates an item from `novo`.
pub fn instrucao_criar(novo: NovoItem) -> (i: Instrucao)
    ensures
        i@ == criar_de(novo@),
{
    let mut parametros: Vec<Parametro> = Vec::new();
    parametros.push(Parametro::Texto(novo.nome));
    parametros.push(Parametro::Real(novo.preco));
    assert(parametros_de(parametros@) =~= criar_de(novo@).parametros);
    Instrucao {
        texto: String::from_str(
            "INSERT INTO itens (nome, preco) VALUES ($1, $2) RETURNING id, nome, preco",
        ),
        parametros,
    }
}

/// Builds the statement that fetches the item `id`.
pub fn instrucao_buscar(id: i32) -> (i: Instrucao)
    ensures
        i@ == buscar_de(id as int),
{
    let mut parametros: Vec<Parametro> = Vec::new();
    parametros.push(Parametro::Inteiro(id));
    assert(parametros_de(parametros@) =~= buscar_de(id as int).parametros);
    Instrucao {
        texto: String::from_str("SELECT id, nome, preco FROM itens WHERE id = $1"),
        parametros,
    }
}

/// Builds the statement that gives the item `id` the name and price of
/// `novo`.
pub fn instrucao_atualizar(id: i32, novo: NovoItem) -> (i: Instrucao)
    ensures
        i@ == atualizar_de(id as int, novo@),
{
    let mut parametros: Vec<Parametro> = Vec::new();
    parametros.push(Parametro::Texto(novo.nome));
    parametros.push(Parametro::Real(novo.preco));
    parametros.push(Parametro::Inteiro(id));
    assert(parametros_de(parametros@) =~= atualizar_de(id as int, novo@).parametros);
    Instrucao {
        texto: String::from_str(
            "UPDATE itens SET nome = $1, preco = $2 WHERE id = $3 RETURNING id, nome, preco",
        ),
        parametros,
    }
}

/// Builds the statement that removes the item `id`.
pub fn instrucao_deletar(id: i32) -> (i: Instrucao)
    ensures
        i@ == deletar_de(id as int),
{
    let mut parametros: Vec<Parametro> = Vec::new();
    parametros.push(Parametro::Inteiro(id));
    assert(parametros_de(parametros@) =~= deletar_de(id as int).parametros);
    Instrucao { texto: String::from_str("DELETE FROM itens WHERE id = $1"), parametros }
}

} // verus!
