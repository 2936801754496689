//! Listing parameters: what a request carries, and the validated query that
//! the rest of the crate works on.
//!
//! Normalisation never fails. Whatever is missing, malformed or out of range
//! becomes a default or is clamped.

use vstd::prelude::*;
use crate::decimal::{analisar_i64, i64_decimal};

verus! {

/// Page size when the request names none.
pub const POR_PAGINA_PADRAO: i64 = 10;

/// Smallest page size.
pub const POR_PAGINA_MIN: i64 = 1;

/// Largest page size.
pub const POR_PAGINA_MAX: i64 = 100;

/// First page, and the page when the request names none.
pub const PAGINA_PADRAO: i64 = 1;

/// A column the listing can be ordered by. These are the only column names
/// that ever reach statement text.
#[derive(Clone, Copy, Debug, PartialEq, Eq, Structural)]
pub enum Coluna {
    Id,
    Nome,
    Preco,
}

/// Direction of the ordering.
#[derive(Clone, Copy, Debug, PartialEq, Eq, Structural)]
pub enum Direcao {
    Asc,
    Desc,
}

/// Listing parameters as a request carries them, unchecked.
#[derive(Debug, PartialEq, Eq)]
pub struct ListarParams {
    pub busca: Option<String>,
    pub ordenar_por: Option<String>,
    pub ordem: Option<String>,
    pub pagina: Option<i64>,
    pub por_pagina: Option<i64>,
}

/// [`ListarParams`] as contracts see it.
pub struct ParamsSpec {
    pub busca: Option<Seq<char>>,
    pub ordenar_por: Option<Seq<char>>,
    pub ordem: Option<Seq<char>>,
    pub pagina: Option<int>,
    pub por_pagina: Option<int>,
}

/// A validated listing query as contracts see it.
pub struct ConsultaSpec {
    pub busca: Option<Seq<char>>,
    pub coluna: Coluna,
    pub direcao: Direcao,
    pub pagina: int,
    pub por_pagina: int,
}

/// The text of an optional string.
pub open spec fn texto_de(o: Option<String>) -> Option<Seq<char>> {
    match o {
        Some(s) => Some(s@),
        None => None,
    }
}

/// The value of an optional 64-bit integer.
pub open spec fn inteiro_de(o: Option<i64>) -> Option<int> {
    match o {
        Some(v) => Some(v as int),
        None => None,
    }
}

/// The integer an optional text denotes; text that is no 64-bit decimal
/// integer counts as absent.
pub open spec fn inteiro_do_texto(o: Option<Seq<char>>) -> Option<int> {
    match o {
        Some(t) => match i64_decimal(t) {
            Some(v) => Some(v as int),
            None => None,
        },
        None => None,
    }
}

impl View for ListarParams {
    type V = ParamsSpec;

    open spec fn view(&self) -> ParamsSpec {
        ParamsSpec {
            busca: texto_de(self.busca),
            ordenar_por: texto_de(self.ordenar_por),
            ordem: texto_de(self.ordem),
            pagina: inteiro_de(self.pagina),
            por_pagina: inteiro_de(self.por_pagina),
        }
    }
}

/// The column a requested name selects: `nome` and `preco` select
/// themselves, anything else, or nothing, selects `id`.
pub open spec fn coluna_de(nome: Option<Seq<char>>) -> Coluna {
    match nome {
        Some(t) => if t == "nome"@ {
            Coluna::Nome
        } else if t == "preco"@ {
            Coluna::Preco
        } else {
            Coluna::Id
        },
        None => Coluna::Id,
    }
}

/// The direction a requested word selects: lower-case `desc` is descending,
/// anything else, or nothing, is ascending.
pub open spec fn direcao_de(palavra: Option<Seq<char>>) -> Direcao {
    match palavra {
        Some(t) => if t == "desc"@ {
            Direcao::Desc
        } else {
            Direcao::Asc
        },
        None => Direcao::Asc,
    }
}

/// The search term in effect: an empty term is no term.
pub open spec fn busca_efetiva(busca: Option<Seq<char>>) -> Option<Seq<char>> {
    match busca {
        Some(t) => if t.len() > 0 {
            Some(t)
        } else {
            None
        },
        None => None,
    }
}

/// The page in effect: the requested one, or the first when none was
/// requested or the requested one is below it.
pub open spec fn pagina_efetiva(pedida: Option<int>) -> int {
    match pedida {
        Some(p) => if p < PAGINA_PADRAO {
            PAGINA_PADRAO as int
        } else {
            p
        },
        None => PAGINA_PADRAO as int,
    }
}

/// The page size in effect: the requested one brought into the allowed
/// range, or the default when none was requested.
pub open spec fn por_pagina_efetivo(pedido: Option<int>) -> int {
    match pedido {
        Some(n) => if n < POR_PAGINA_MIN {
            POR_PAGINA_MIN as int
        } else if n > POR_PAGINA_MAX {
            POR_PAGINA_MAX as int
        } else {
            n
        },
        None => POR_PAGINA_PADRAO as int,
    }
}

/// The validated query that raw parameters resolve to.
pub open spec fn normalizar_spec(p: ParamsSpec) -> ConsultaSpec {
    ConsultaSpec {
        busca: busca_efetiva(p.busca),
        coluna: coluna_de(p.ordenar_por),
        direcao: direcao_de(p.ordem),
        pagina: pagina_efetiva(p.pagina),
        por_pagina: por_pagina_efetivo(p.por_pagina),
    }
}

impl ConsultaSpec {
    /// What every validated query satisfies: a page from the first upward, a
    /// page size in the allowed range, both 64-bit, and a search term that
    /// is not empty if there is one.
    pub open spec fn valida(self) -> bool {
        &&& PAGINA_PADRAO <= self.pagina <= i64::MAX
        &&& POR_PAGINA_MIN <= self.por_pagina <= POR_PAGINA_MAX
        &&& (self.busca matches Some(t) ==> t.len() > 0)
    }
}

/// A validated listing query. It can only be made by
/// [`ListarParams::normalizar`], so every value of it is valid.
#[derive(Debug, PartialEq, Eq)]
pub struct Consulta {
    busca: Option<String>,
    coluna: Coluna,
    direcao: Direcao,
    pagina: i64,
    por_pagina: i64,
}

impl View for Consulta {
    type V = ConsultaSpec;

    closed spec fn view(&self) -> ConsultaSpec {
        ConsultaSpec {
            busca: texto_de(self.busca),
            coluna: self.coluna,
            direcao: self.direcao,
            pagina: self.pagina as int,
            por_pagina: self.por_pagina as int,
        }
    }
}

impl Consulta {
    #[verifier::type_invariant]
    spec fn invariante(self) -> bool {
        self@.valida()
    }

    /// The search term, absent when the listing is unfiltered.
    pub fn busca(&self) -> (r: &Option<String>)
        ensures
            texto_de(*r) == self@.busca,
            self@.valida(),
    {
        proof {
            use_type_invariant(self);
        }
        &self.busca
    }

    /// The column the listing is ordered by.
    pub fn coluna(&self) -> (r: Coluna)
        ensures
            r == self@.coluna,
    {
        self.coluna
    }

    /// The direction of the ordering.
    pub fn direcao(&self) -> (r: Direcao)
        ensures
            r == self@.direcao,
    {
        self.direcao
    }

    /// The page, counted from one.
    pub fn pagina(&self) -> (r: i64)
        ensures
            r == self@.pagina,
            self@.valida(),
    {
        proof {
            use_type_invariant(self);
        }
        self.pagina
    }

    /// The number of items a page holds at most.
    pub fn por_pagina(&self) -> (r: i64)
        ensures
            r == self@.por_pagina,
            self@.valida(),
    {
        proof {
            use_type_invariant(self);
        }
        self.por_pagina
    }
}

/// Resolves a requested column name against the whitelist.
pub fn resolver_coluna(nome: &Option<String>) -> (c: Coluna)
    ensures
        c == coluna_de(texto_de(*nome)),
{
    match nome {
        Some(t) => {
            if *t == String::from_str("nome") {
                Coluna::Nome
            } else if *t == String::from_str("preco") {
                Coluna::Preco
            } else {
                Coluna::Id
            }
        },
        None => Coluna::Id,
    }
}

/// Resolves a requested direction.
pub fn resolver_direcao(palavra: &Option<String>) -> (d: Direcao)
    ensures
        d == direcao_de(texto_de(*palavra)),
{
    match palavra {
        Some(t) => {
            if *t == String::from_str("desc") {
                Direcao::Desc
            } else {
                Direcao::Asc
            }
        },
        None => Direcao::Asc,
    }
}

/// Brings a requested page size into the allowed range.
pub fn limitar_por_pagina(pedido: Option<i64>) -> (n: i64)
    ensures
        n == por_pagina_efetivo(inteiro_de(pedido)),
        POR_PAGINA_MIN <= n <= POR_PAGINA_MAX,
{
    match pedido {
        Some(v) => {
            if v < POR_PAGINA_MIN {
                POR_PAGINA_MIN
            } else if v > POR_PAGINA_MAX {
                POR_PAGINA_MAX
            } else {
                v
            }
        },
        None => POR_PAGINA_PADRAO,
    }
}

/// Brings a requested page up to the first page.
pub fn limitar_pagina(pedida: Option<i64>) -> (p: i64)
    ensures
        p == pagina_efetiva(inteiro_de(pedida)),
        PAGINA_PADRAO <= p,
{
    match pedida {
        Some(v) => {
            if v < PAGINA_PADRAO {
                PAGINA_PADRAO
            } else {
                v
            }
        },
        None => PAGINA_PADRAO,
    }
}

/// Reads an optional integer parameter from its text. Text that is no
/// decimal 64-bit integer is treated as if the parameter were absent.
pub fn ler_inteiro(texto: &Option<String>) -> (r: Option<i64>)
    ensures
        inteiro_de(r) == inteiro_do_texto(texto_de(*texto)),
{
    match texto {
        Some(t) => analisar_i64(t.as_str()),
        None => None,
    }
}

impl ListarParams {
    /// Parameters from the text of each, as a query string carries them.
    /// The three textual ones are taken as they are; the page and the page
    /// size are read as decimal integers, and count as absent when they are
    /// not.
    pub fn de_texto(
        busca: Option<String>,
        ordenar_por: Option<String>,
        ordem: Option<String>,
        pagina: Option<String>,
        por_pagina: Option<String>,
    ) -> (p: ListarParams)
        ensures
            p@ == (ParamsSpec {
                busca: texto_de(busca),
                ordenar_por: texto_de(ordenar_por),
                ordem: texto_de(ordem),
                pagina: inteiro_do_texto(texto_de(pagina)),
                por_pagina: inteiro_do_texto(texto_de(por_pagina)),
            }),
    {
        let pagina_lida = ler_inteiro(&pagina);
        let por_pagina_lido = ler_inteiro(&por_pagina);
        ListarParams { busca, ordenar_por, ordem, pagina: pagina_lida, por_pagina: por_pagina_lido }
    }

    /// Validates the parameters. Every input gives a query: an empty search
    /// term is dropped, an unknown column is `id`, an unknown direction is
    /// ascending, the page is at least one and the page size is clamped.
    pub fn normalizar(self) -> (q: Consulta)
        ensures
            q@ == normalizar_spec(self@),
            q@.valida(),
    {
        let coluna = resolver_coluna(&self.ordenar_por);
        let direcao = resolver_direcao(&self.ordem);
        let pagina = limitar_pagina(self.pagina);
        let por_pagina = limitar_por_pagina(self.por_pagina);
        let busca = match self.busca {
            Some(t) => {
                if t.as_str().is_empty() {
                    None
                } else {
                    Some(t)
                }
            },
            None => None,
        };
        Consulta { busca, coluna, direcao, pagina, por_pagina }
    }
}

impl Default for ListarParams {
    /// Parameters of a request that names none.
    fn default() -> (p: ListarParams)
        ensures
            p@ == (ParamsSpec {
                busca: None,
                ordenar_por: None,
                ordem: None,
                pagina: None,
                por_pagina: None,
            }),
    {
        ListarParams { busca: None, ordenar_por: None, ordem: None, pagina: None, por_pagina: None }
    }
}

} // verus!
