//! What the store answered, turned into what the repository reports.
//!
//! The caller runs a statement and hands over the outcome as a `Result`
//! whose error is whatever its driver reports. Nothing here looks at that
//! error: every failure to execute is the same failure.

use vstd::prelude::*;
use crate::item::Item;
use crate::parametros::{Consulta, ConsultaSpec};

verus! {

/// Why a repository operation gave no result.
#[derive(Clone, Copy, Debug, PartialEq, Eq, Structural)]
pub enum ErroRepositorio {
    /// No row has the given id.
    NaoEncontrado,
    /// The store could not execute the statement.
    ArmazenamentoIndisponivel,
}

/// One page of a listing together with the totals over all pages.
#[derive(Debug, PartialEq, Eq)]
pub struct ListarResponse {
    pub itens: Vec<Item>,
    pub total: i64,
    pub pagina: i64,
    pub por_pagina: i64,
    pub total_paginas: i64,
}

/// The quotient of `a` by a positive `b`, rounded up: the least integer `n`
/// with `n * b >= a`.
pub open spec fn teto_divisao(a: int, b: int) -> int {
    if a % b == 0 {
        a / b
    } else {
        a / b + 1
    }
}

/// The number of pages that `total` rows fill, `por_pagina` to a page: none
/// for no rows, and one more than the full pages when rows are left over.
pub open spec fn paginas_de(total: int, por_pagina: int) -> int {
    teto_divisao(total, por_pagina)
}

/// The listing that a page of rows and a total make for a query.
pub open spec fn resposta_de(itens: Vec<Item>, total: i64, q: ConsultaSpec) -> ListarResponse {
    ListarResponse {
        itens,
        total,
        pagina: q.pagina as i64,
        por_pagina: q.por_pagina as i64,
        total_paginas: paginas_de(total as int, q.por_pagina) as i64,
    }
}

/// What a listing reports, from the outcome of the fetch and of the count.
/// If either failed, the listing fails; the count is not looked at when the
/// fetch failed.
pub open spec fn listagem_de<E>(
    itens: Result<Vec<Item>, E>,
    total: Result<i64, E>,
    q: ConsultaSpec,
) -> Result<ListarResponse, ErroRepositorio> {
    match itens {
        Err(_) => Err(ErroRepositorio::ArmazenamentoIndisponivel),
        Ok(linhas) => match total {
            Err(_) => Err(ErroRepositorio::ArmazenamentoIndisponivel),
            Ok(n) => Ok(resposta_de(linhas, n, q)),
        },
    }
}

/// What a creation reports, from the outcome of the insert.
pub open spec fn criacao_de<E>(linha: Result<Item, E>) -> Result<Item, ErroRepositorio> {
    match linha {
        Ok(item) => Ok(item),
        Err(_) => Err(ErroRepositorio::ArmazenamentoIndisponivel),
    }
}

/// What a lookup or an update reports, from the row the statement gave
/// back, if any.
pub open spec fn linha_de<E>(linha: Result<Option<Item>, E>) -> Result<Item, ErroRepositorio> {
    match linha {
        Ok(Some(item)) => Ok(item),
        Ok(None) => Err(ErroRepositorio::NaoEncontrado),
        Err(_) => Err(ErroRepositorio::ArmazenamentoIndisponivel),
    }
}

/// What a removal reports, from the number of rows the statement removed.
pub open spec fn remocao_de<E>(afetadas: Result<u64, E>) -> Result<(), ErroRepositorio> {
    match afetadas {
        Ok(n) => if n == 0 {
            Err(ErroRepositorio::NaoEncontrado)
        } else {
            Ok(())
        },
        Err(_) => Err(ErroRepositorio::ArmazenamentoIndisponivel),
    }
}

/// Rounding up is exact: the result times `b` reaches `a`, and one less
/// does not.
pub proof fn lema_teto_divisao(a: int, b: int)
    requires
        b > 0,
    ensures
        teto_divisao(a, b) * b >= a,
        (teto_divisao(a, b) - 1) * b < a,
        a >= 0 ==> 0 <= teto_divisao(a, b) <= a,
        a <= 0 ==> a <= teto_divisao(a, b) <= 0,
        a == 0 ==> teto_divisao(a, b) == 0,
{
    vstd::arithmetic::div_mod::lemma_fundamental_div_mod(a, b);
    vstd::arithmetic::div_mod::lemma_mod_bound(a, b);
    let q = a / b;
    let r = a % b;
    assert(a == b * q + r);
    assert(b * q == q * b) by (nonlinear_arith);
    assert((q + 1) * b == q * b + b) by (nonlinear_arith);
    assert((q - 1) * b == q * b - b) by (nonlinear_arith);
    if a >= 0 {
        assert(q >= 0) by (nonlinear_arith)
            requires
                a == b * q + r,
                0 <= r < b,
                a >= 0,
                b > 0,
        ;
        assert(q * b >= q) by (nonlinear_arith)
            requires
                q >= 0,
                b >= 1,
        ;
        if r != 0 && q == a {
            assert(q * b + r > a);
        }
    }
    if a <= 0 {
        assert(q <= 0) by (nonlinear_arith)
            requires
                a == b * q + r,
                0 <= r < b,
                a <= 0,
                b > 0,
        ;
        if r == 0 {
            assert(q * b <= q) by (nonlinear_arith)
                requires
                    q <= 0,
                    b >= 1,
            ;
        } else {
            assert(q < 0) by (nonlinear_arith)
                requires
                    a == b * q + r,
                    0 < r < b,
                    a <= 0,
                    b > 0,
            ;
            assert(q * b + r <= q + 1) by (nonlinear_arith)
                requires
                    q <= -1,
                    0 < r < b,
                    b >= 1,
            ;
        }
    }
}

/// Counts the pages that `total` rows fill.
pub fn total_paginas(total: i64, por_pagina: i64) -> (n: i64)
    requires
        1 <= por_pagina,
    ensures
        n == paginas_de(total as int, por_pagina as int),
{
    proof {
        lema_teto_divisao(total as int, por_pagina as int);
        vstd::arithmetic::div_mod::lemma_fundamental_div_mod(total as int, por_pagina as int);
        vstd::arithmetic::div_mod::lemma_mod_bound(total as int, por_pagina as int);
    }
    if total >= 0 {
        let cheias: i64 = total / por_pagina;
        if total % por_pagina == 0 {
            cheias
        } else {
            cheias + 1
        }
    } else {
        // Division of a negative count rounds toward zero, which is upward.
        let q: i64 = total / por_pagina;
        proof {
            lema_divisao_negativa(total as int, por_pagina as int);
        }
        q
    }
}

/// For a negative `a` and a positive `b`, dividing magnitudes and negating
/// rounds the quotient up.
proof fn lema_divisao_negativa(a: int, b: int)
    requires
        a < 0,
        b > 0,
    ensures
        -((-a) / b) == teto_divisao(a, b),
{
    let m = -a;
    vstd::arithmetic::div_mod::lemma_fundamental_div_mod(m, b);
    vstd::arithmetic::div_mod::lemma_mod_bound(m, b);
    vstd::arithmetic::div_mod::lemma_fundamental_div_mod(a, b);
    vstd::arithmetic::div_mod::lemma_mod_bound(a, b);
    let qm = m / b;
    let rm = m % b;
    let qa = a / b;
    let ra = a % b;
    // a = b*qa + ra and a = -(b*qm + rm) = b*(-qm) - rm
    if rm == 0 {
        assert(a == b * (-qm)) by (nonlinear_arith)
            requires
                -a == b * qm + rm,
                rm == 0,
        ;
        vstd::arithmetic::div_mod::lemma_fundamental_div_mod_converse(a, b, -qm, 0);
    } else {
        assert(a == b * (-qm - 1) + (b - rm)) by (nonlinear_arith)
            requires
                -a == b * qm + rm,
        ;
        vstd::arithmetic::div_mod::lemma_fundamental_div_mod_converse(a, b, -qm - 1, b - rm);
    }
}

/// Puts a page of rows and the total together for the query that asked.
pub fn montar_resposta(itens: Vec<Item>, total: i64, q: &Consulta) -> (r: ListarResponse)
    ensures
        r == resposta_de(itens, total, q@),
        r.itens == itens,
        r.total == total,
        r.pagina == q@.pagina,
        r.por_pagina == q@.por_pagina,
        r.total_paginas == paginas_de(total as int, q@.por_pagina),
{
    let pagina = q.pagina();
    let por_pagina = q.por_pagina();
    let paginas = total_paginas(total, por_pagina);
    ListarResponse { itens, total, pagina, por_pagina, total_paginas: paginas }
}

/// Reports a listing from the outcomes of its two statements.
pub fn resultado_listagem<E>(
    itens: Result<Vec<Item>, E>,
    total: Result<i64, E>,
    q: &Consulta,
) -> (r: Result<ListarResponse, ErroRepositorio>)
    ensures
        r == listagem_de(itens, total, q@),
{
    match itens {
        Err(_) => Err(ErroRepositorio::ArmazenamentoIndisponivel),
        Ok(linhas) => match total {
            Err(_) => Err(ErroRepositorio::ArmazenamentoIndisponivel),
            Ok(n) => Ok(montar_resposta(linhas, n, q)),
        },
    }
}

/// Reports a creation from the outcome of the insert.
pub fn resultado_criacao<E>(linha: Result<Item, E>) -> (r: Result<Item, ErroRepositorio>)
    ensures
        r == criacao_de(linha),
{
    match linha {
        Ok(item) => Ok(item),
        Err(_) => Err(ErroRepositorio::ArmazenamentoIndisponivel),
    }
}

/// Reports a lookup from the outcome of the select.
pub fn resultado_busca<E>(linha: Result<Option<Item>, E>) -> (r: Result<Item, ErroRepositorio>)
    ensures
        r == linha_de(linha),
{
    match linha {
        Ok(Some(item)) => Ok(item),
        Ok(None) => Err(ErroRepositorio::NaoEncontrado),
        Err(_) => Err(ErroRepositorio::ArmazenamentoIndisponivel),
    }
}

/// Reports an update from the outcome of the update statement, which
/// returns the row it changed, if it changed one.
pub fn resultado_atualizacao<E>(linha: Result<Option<Item>, E>) -> (r: Result<
    Item,
    ErroRepositorio,
>)
    ensures
        r == linha_de(linha),
{
    resultado_busca(linha)
}

/// Reports a removal from the number of rows the delete removed.
pub fn resultado_remocao<E>(afetadas: Result<u64, E>) -> (r: Result<(), ErroRepositorio>)
    ensures
        r == remocao_de(afetadas),
{
    match afetadas {
        Ok(n) => {
            if n == 0 {
                Err(ErroRepositorio::NaoEncontrado)
            } else {
                Ok(())
            }
        },
        Err(_) => Err(ErroRepositorio::ArmazenamentoIndisponivel),
    }
}

} // verus!
