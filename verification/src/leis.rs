//! What holds of the crate as a whole, proved from the definitions that the
//! functions' contracts are stated over.

use vstd::prelude::*;
use crate::http::{codigo_de, status_de, Operacao, Status};
use crate::instrucao::{
    deslocamento, filtro_de, parametros_do_filtro, plano_de, sql_busca, sql_condicao,
    sql_contagem, FiltroSpec, ParametroSpec,
};
use crate::item::Item;
use crate::parametros::{
    coluna_de, direcao_de, normalizar_spec, Coluna, ConsultaSpec, Direcao, ParamsSpec,
    PAGINA_PADRAO, POR_PAGINA_MAX, POR_PAGINA_MIN, POR_PAGINA_PADRAO,
};
use crate::repositorio::{
    lema_teto_divisao, linha_de, paginas_de, remocao_de, ErroRepositorio,
};

verus! {

/// The smaller of two integers.
pub open spec fn menor(a: int, b: int) -> int {
    if a <= b {
        a
    } else {
        b
    }
}

/// The number of rows that a window of `limite` rows after skipping
/// `salto` takes out of `total` rows.
pub open spec fn linhas_na_janela(total: int, limite: int, salto: int) -> int {
    menor(limite, if total - salto > 0 {
        total - salto
    } else {
        0
    })
}

/// The number of items on a page: a full page, what is left on the last
/// one, nothing beyond it.
pub open spec fn itens_na_pagina(total: int, pagina: int, por_pagina: int) -> int {
    linhas_na_janela(total, por_pagina, (pagina - 1) * por_pagina)
}

/// Whatever is requested, the page size in effect lies between the
/// smallest and the largest, and the page in effect is at least the first.
/// A requested size inside the range is kept, one below it becomes the
/// smallest and one above it the largest; with none requested it is the
/// default. A requested page below the first, or none, is the first; any
/// other is kept.
pub proof fn lei_limites(p: ParamsSpec)
    ensures
        POR_PAGINA_MIN <= normalizar_spec(p).por_pagina <= POR_PAGINA_MAX,
        PAGINA_PADRAO <= normalizar_spec(p).pagina,
        p.por_pagina is None ==> normalizar_spec(p).por_pagina == POR_PAGINA_PADRAO,
        p.por_pagina matches Some(n) ==> (n < POR_PAGINA_MIN ==> normalizar_spec(p).por_pagina
            == POR_PAGINA_MIN),
        p.por_pagina matches Some(n) ==> (n > POR_PAGINA_MAX ==> normalizar_spec(p).por_pagina
            == POR_PAGINA_MAX),
        p.por_pagina matches Some(n) ==> (POR_PAGINA_MIN <= n <= POR_PAGINA_MAX
            ==> normalizar_spec(p).por_pagina == n),
        p.pagina is None ==> normalizar_spec(p).pagina == PAGINA_PADRAO,
        p.pagina matches Some(n) ==> (n < PAGINA_PADRAO ==> normalizar_spec(p).pagina
            == PAGINA_PADRAO),
        p.pagina matches Some(n) ==> (n >= PAGINA_PADRAO ==> normalizar_spec(p).pagina == n),
{
}

/// Parameters that fit in 64 bits always normalise to a valid query.
pub proof fn lei_consulta_valida(p: ParamsSpec)
    requires
        p.pagina matches Some(n) ==> n <= i64::MAX,
    ensures
        normalizar_spec(p).valida(),
{
}

/// Normalising twice changes nothing: a query read back as parameters
/// normalises to itself.
pub proof fn lei_normalizar_idempotente(p: ParamsSpec)
    ensures
        ({
            let q = normalizar_spec(p);
            normalizar_spec(
                ParamsSpec {
                    busca: q.busca,
                    ordenar_por: Some(crate::instrucao::sql_coluna(q.coluna)),
                    ordem: Some(
                        match q.direcao {
                            Direcao::Asc => "asc"@,
                            Direcao::Desc => "desc"@,
                        },
                    ),
                    pagina: Some(q.pagina),
                    por_pagina: Some(q.por_pagina),
                },
            ) == q
        }),
{
    reveal_strlit("id");
    reveal_strlit("nome");
    reveal_strlit("preco");
    reveal_strlit("asc");
    reveal_strlit("desc");
    assert("id"@.len() == 2);
    assert("nome"@.len() == 4);
    assert("preco"@.len() == 5);
    assert("asc"@.len() == 3);
    assert("desc"@.len() == 4);
}

/// A column name outside the whitelist orders like `id`, and so does no
/// name at all.
pub proof fn lei_coluna_desconhecida(nome: Seq<char>)
    requires
        nome != "nome"@,
        nome != "preco"@,
    ensures
        coluna_de(Some(nome)) == Coluna::Id,
        coluna_de(Some(nome)) == coluna_de(Some("id"@)),
        coluna_de(Some(nome)) == coluna_de(None),
{
    reveal_strlit("id");
    reveal_strlit("nome");
    reveal_strlit("preco");
    assert("id"@.len() == 2);
    assert("nome"@.len() == 4);
    assert("preco"@.len() == 5);
}

/// A direction other than lower-case `desc` orders like `asc`, and so does
/// no direction at all.
pub proof fn lei_direcao_desconhecida(palavra: Seq<char>)
    requires
        palavra != "desc"@,
    ensures
        direcao_de(Some(palavra)) == Direcao::Asc,
        direcao_de(Some(palavra)) == direcao_de(Some("asc"@)),
        direcao_de(Some(palavra)) == direcao_de(None),
{
    reveal_strlit("asc");
    reveal_strlit("desc");
    assert("asc"@.len() == 3);
    assert("desc"@.len() == 4);
}

/// A request with an unknown column and an unknown direction is answered
/// with the very statements of the same request ordered by `id`,
/// ascending.
pub proof fn lei_ordenacao_padrao(p: ParamsSpec, nome: Seq<char>, palavra: Seq<char>)
    requires
        nome != "nome"@,
        nome != "preco"@,
        palavra != "desc"@,
    ensures
        normalizar_spec(ParamsSpec { ordenar_por: Some(nome), ordem: Some(palavra), ..p })
            == normalizar_spec(ParamsSpec { ordenar_por: Some("id"@), ordem: Some("asc"@), ..p }),
        plano_de(
            normalizar_spec(ParamsSpec { ordenar_por: Some(nome), ordem: Some(palavra), ..p }),
        ) == plano_de(
            normalizar_spec(ParamsSpec { ordenar_por: Some("id"@), ordem: Some("asc"@), ..p }),
        ),
{
    lei_coluna_desconhecida(nome);
    lei_direcao_desconhecida(palavra);
}

/// The two statements of a listing filter alike: both texts carry the same
/// condition, the count binds the filter's values and nothing else, and the
/// fetch binds the same values in the same places, followed by the page
/// size and the offset.
pub proof fn lei_mesmo_filtro(q: ConsultaSpec)
    ensures
        ({
            let f = filtro_de(q.busca);
            let p = plano_de(q);
            &&& p.contagem.texto == sql_contagem(f)
            &&& p.busca.texto == sql_busca(f, q.coluna, q.direcao)
            &&& p.contagem.parametros == parametros_do_filtro(f)
            &&& p.busca.parametros.len() == p.contagem.parametros.len() + 2
            &&& p.busca.parametros.take(p.contagem.parametros.len() as int)
                == p.contagem.parametros
            &&& p.busca.parametros[p.contagem.parametros.len() as int] == ParametroSpec::Longo(
                q.por_pagina,
            )
            &&& p.busca.parametros[p.contagem.parametros.len() as int + 1] == ParametroSpec::Longo(
                deslocamento(q.pagina, q.por_pagina),
            )
        }),
{
    let f = filtro_de(q.busca);
    let p = plano_de(q);
    assert(p.busca.parametros.take(p.contagem.parametros.len() as int) =~= p.contagem.parametros);
}

/// Two filters are of one kind when both let every row through, both look
/// for an id or a name, or both look for a name.
pub open spec fn mesma_especie(a: FiltroSpec, b: FiltroSpec) -> bool {
    ||| a is Nenhum && b is Nenhum
    ||| a is IdOuNome && b is IdOuNome
    ||| a is Nome && b is Nome
}

/// No search term reaches statement text: two queries with filters of one
/// kind, the same column and the same direction give the same two texts,
/// whatever their search terms, pages and page sizes are.
pub proof fn lei_texto_sem_busca(a: ConsultaSpec, b: ConsultaSpec)
    requires
        mesma_especie(filtro_de(a.busca), filtro_de(b.busca)),
        a.coluna == b.coluna,
        a.direcao == b.direcao,
    ensures
        plano_de(a).busca.texto == plano_de(b).busca.texto,
        plano_de(a).contagem.texto == plano_de(b).contagem.texto,
{
    let fa = filtro_de(a.busca);
    let fb = filtro_de(b.busca);
    assert(sql_condicao(fa) == sql_condicao(fb));
}

/// The fetch asks for exactly the rows of the requested page: out of any
/// number of rows that a table can hold, the window that the bound limit
/// and offset describe takes as many as the page has items, which is never
/// more than the page size.
pub proof fn lei_janela_da_pagina(q: ConsultaSpec, total: int)
    requires
        q.valida(),
        0 <= total <= i64::MAX,
    ensures
        linhas_na_janela(total, q.por_pagina, deslocamento(q.pagina, q.por_pagina))
            == itens_na_pagina(total, q.pagina, q.por_pagina),
        0 <= itens_na_pagina(total, q.pagina, q.por_pagina) <= q.por_pagina,
        itens_na_pagina(total, q.pagina, q.por_pagina) <= total,
{
    assert(0 <= (q.pagina - 1) * q.por_pagina) by (nonlinear_arith)
        requires
            1 <= q.pagina,
            1 <= q.por_pagina,
    ;
}

/// `n` pages of `por_pagina` items hold `total` rows.
pub open spec fn paginas_bastam(n: int, por_pagina: int, total: int) -> bool {
    n * por_pagina >= total
}

/// The page count is the quotient of the total by the page size, rounded
/// up: the least number of pages that hold all rows. No rows make no page.
pub proof fn lei_total_paginas(total: int, por_pagina: int)
    requires
        0 <= total,
        1 <= por_pagina,
    ensures
        paginas_bastam(paginas_de(total, por_pagina), por_pagina, total),
        !paginas_bastam(paginas_de(total, por_pagina) - 1, por_pagina, total),
        forall|n: int| #[trigger]
            paginas_bastam(n, por_pagina, total) ==> n >= paginas_de(total, por_pagina),
        0 <= paginas_de(total, por_pagina) <= total,
        total == 0 ==> paginas_de(total, por_pagina) == 0,
{
    lema_teto_divisao(total, por_pagina);
    let t = paginas_de(total, por_pagina);
    assert forall|n: int| #[trigger] paginas_bastam(n, por_pagina, total) implies n >= t by {
        if n < t {
            assert(n * por_pagina <= (t - 1) * por_pagina) by (nonlinear_arith)
                requires
                    n <= t - 1,
                    por_pagina >= 1,
            ;
        }
    }
}

/// The pages that have items are exactly the pages up to the page count.
pub proof fn lei_paginas_com_itens(total: int, pagina: int, por_pagina: int)
    requires
        0 <= total,
        1 <= pagina,
        1 <= por_pagina,
    ensures
        itens_na_pagina(total, pagina, por_pagina) > 0 <==> pagina <= paginas_de(
            total,
            por_pagina,
        ),
        pagina < paginas_de(total, por_pagina) ==> itens_na_pagina(total, pagina, por_pagina)
            == por_pagina,
{
    lema_teto_divisao(total, por_pagina);
    let t = paginas_de(total, por_pagina);
    if pagina <= t {
        assert((pagina - 1) * por_pagina <= (t - 1) * por_pagina) by (nonlinear_arith)
            requires
                pagina <= t,
                por_pagina >= 1,
        ;
    } else {
        assert((pagina - 1) * por_pagina >= t * por_pagina) by (nonlinear_arith)
            requires
                pagina - 1 >= t,
                por_pagina >= 1,
        ;
    }
    if pagina < t {
        assert(pagina * por_pagina <= (t - 1) * por_pagina) by (nonlinear_arith)
            requires
                pagina <= t - 1,
                por_pagina >= 1,
        ;
        assert(pagina * por_pagina == (pagina - 1) * por_pagina + por_pagina)
            by (nonlinear_arith);
    }
}

/// A lookup or an update is answered with "not found" exactly when the
/// store executed the statement and gave back no row, with an internal
/// error exactly when it could not execute, and with the row otherwise.
pub proof fn lei_status_da_linha<E>(op: Operacao, linha: Result<Option<Item>, E>)
    requires
        op == Operacao::Buscar || op == Operacao::Atualizar,
    ensures
        status_de(op, linha_de(linha)) == Status::NaoEncontrado <==> linha == Ok::<
            Option<Item>,
            E,
        >(None),
        status_de(op, linha_de(linha)) == Status::ErroInterno <==> linha is Err,
        status_de(op, linha_de(linha)) == Status::Sucesso <==> (linha matches Ok(Some(_))),
        linha matches Ok(Some(item)) ==> linha_de(linha) == Ok::<Item, ErroRepositorio>(item),
        codigo_de(Status::NaoEncontrado) == 404,
        codigo_de(Status::ErroInterno) == 500,
        codigo_de(Status::Sucesso) == 200,
{
}

/// A removal is answered with "not found" exactly when the store executed
/// the statement and removed no row, with an internal error exactly when
/// it could not execute, and with "no content" otherwise.
pub proof fn lei_status_da_remocao<E>(afetadas: Result<u64, E>)
    ensures
        status_de(Operacao::Deletar, remocao_de(afetadas)) == Status::NaoEncontrado
            <==> afetadas == Ok::<u64, E>(0),
        status_de(Operacao::Deletar, remocao_de(afetadas)) == Status::ErroInterno
            <==> afetadas is Err,
        status_de(Operacao::Deletar, remocao_de(afetadas)) == Status::SemConteudo <==> (
        afetadas matches Ok(n) && n > 0),
        codigo_de(Status::SemConteudo) == 204,
{
}

} // verus!
