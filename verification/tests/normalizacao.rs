use api_itens::parametros::{
    limitar_pagina, limitar_por_pagina, ler_inteiro, resolver_coluna, resolver_direcao,
};
use api_itens::{Coluna, Consulta, Direcao, ListarParams};

fn texto(s: &str) -> Option<String> {
    Some(s.to_string())
}

fn com_paginacao(pagina: Option<i64>, por_pagina: Option<i64>) -> Consulta {
    ListarParams { busca: None, ordenar_por: None, ordem: None, pagina, por_pagina }.normalizar()
}

fn com_ordenacao(ordenar_por: Option<String>, ordem: Option<String>) -> Consulta {
    ListarParams { busca: None, ordenar_por, ordem, pagina: None, por_pagina: None }.normalizar()
}

#[test]
fn sem_parametros_usa_os_padroes() {
    let q = ListarParams::default().normalizar();
    assert_eq!(q.busca(), &None);
    assert_eq!(q.coluna(), Coluna::Id);
    assert_eq!(q.direcao(), Direcao::Asc);
    assert_eq!(q.pagina(), 1);
    assert_eq!(q.por_pagina(), 10);
}

#[test]
fn por_pagina_zero_negativo_e_mil_ficam_na_faixa() {
    assert_eq!(com_paginacao(None, Some(0)).por_pagina(), 1);
    assert_eq!(com_paginacao(None, Some(-5)).por_pagina(), 1);
    assert_eq!(com_paginacao(None, Some(1000)).por_pagina(), 100);
    assert_eq!(com_paginacao(None, Some(i64::MIN)).por_pagina(), 1);
    assert_eq!(com_paginacao(None, Some(i64::MAX)).por_pagina(), 100);
}

#[test]
fn por_pagina_dentro_da_faixa_e_mantido() {
    assert_eq!(com_paginacao(None, Some(1)).por_pagina(), 1);
    assert_eq!(com_paginacao(None, Some(2)).por_pagina(), 2);
    assert_eq!(com_paginacao(None, Some(50)).por_pagina(), 50);
    assert_eq!(com_paginacao(None, Some(99)).por_pagina(), 99);
    assert_eq!(com_paginacao(None, Some(100)).por_pagina(), 100);
    assert_eq!(com_paginacao(None, Some(101)).por_pagina(), 100);
}

#[test]
fn pagina_zero_ou_negativa_vira_a_primeira() {
    assert_eq!(com_paginacao(Some(0), None).pagina(), 1);
    assert_eq!(com_paginacao(Some(-1), None).pagina(), 1);
    assert_eq!(com_paginacao(Some(-300), None).pagina(), 1);
    assert_eq!(com_paginacao(Some(i64::MIN), None).pagina(), 1);
}

#[test]
fn pagina_positiva_e_mantida() {
    assert_eq!(com_paginacao(Some(1), None).pagina(), 1);
    assert_eq!(com_paginacao(Some(7), None).pagina(), 7);
    assert_eq!(com_paginacao(Some(i64::MAX), None).pagina(), i64::MAX);
}

#[test]
fn limites_diretos() {
    assert_eq!(limitar_por_pagina(None), 10);
    assert_eq!(limitar_por_pagina(Some(0)), 1);
    assert_eq!(limitar_por_pagina(Some(1000)), 100);
    assert_eq!(limitar_por_pagina(Some(37)), 37);
    assert_eq!(limitar_pagina(None), 1);
    assert_eq!(limitar_pagina(Some(0)), 1);
    assert_eq!(limitar_pagina(Some(12)), 12);
}

#[test]
fn colunas_da_lista_sao_aceitas() {
    assert_eq!(com_ordenacao(texto("id"), None).coluna(), Coluna::Id);
    assert_eq!(com_ordenacao(texto("nome"), None).coluna(), Coluna::Nome);
    assert_eq!(com_ordenacao(texto("preco"), None).coluna(), Coluna::Preco);
}

#[test]
fn coluna_desconhecida_ordena_como_id() {
    let desconhecida = com_ordenacao(texto("unknown"), None);
    let por_id = com_ordenacao(texto("id"), None);
    assert_eq!(desconhecida, por_id);
    assert_eq!(desconhecida.coluna(), Coluna::Id);
    assert_eq!(resolver_coluna(&texto("")), Coluna::Id);
    assert_eq!(resolver_coluna(&texto("NOME")), Coluna::Id);
    assert_eq!(resolver_coluna(&texto("nome ")), Coluna::Id);
    assert_eq!(resolver_coluna(&texto("preço")), Coluna::Id);
    assert_eq!(resolver_coluna(&texto("id; DROP TABLE itens")), Coluna::Id);
    assert_eq!(resolver_coluna(&None), Coluna::Id);
}

#[test]
fn direcao_desconhecida_ordena_como_asc() {
    let de_lado = com_ordenacao(None, texto("sideways"));
    let asc = com_ordenacao(None, texto("asc"));
    assert_eq!(de_lado, asc);
    assert_eq!(de_lado.direcao(), Direcao::Asc);
    assert_eq!(resolver_direcao(&texto("desc")), Direcao::Desc);
    assert_eq!(resolver_direcao(&texto("DESC")), Direcao::Asc);
    assert_eq!(resolver_direcao(&texto("Desc")), Direcao::Asc);
    assert_eq!(resolver_direcao(&texto("desc ")), Direcao::Asc);
    assert_eq!(resolver_direcao(&texto("")), Direcao::Asc);
    assert_eq!(resolver_direcao(&None), Direcao::Asc);
}

#[test]
fn ordenacao_desconhecida_da_as_mesmas_instrucoes() {
    let a = api_itens::planejar_listagem(&com_ordenacao(texto("unknown"), texto("sideways")));
    let b = api_itens::planejar_listagem(&com_ordenacao(texto("id"), texto("asc")));
    let c = api_itens::planejar_listagem(&com_ordenacao(None, None));
    assert_eq!(a, b);
    assert_eq!(a, c);
}

#[test]
fn busca_vazia_e_nenhuma_busca() {
    let p = ListarParams {
        busca: texto(""),
        ordenar_por: None,
        ordem: None,
        pagina: None,
        por_pagina: None,
    };
    assert_eq!(p.normalizar().busca(), &None);
}

#[test]
fn busca_passa_sem_alteracao() {
    for termo in ["mesa", " Mesa ", "7", "%", "ação", "a'b\"c"] {
        let p = ListarParams {
            busca: texto(termo),
            ordenar_por: None,
            ordem: None,
            pagina: None,
            por_pagina: None,
        };
        assert_eq!(p.normalizar().busca(), &texto(termo));
    }
}

#[test]
fn de_texto_le_inteiros() {
    let p = ListarParams::de_texto(texto("mesa"), texto("nome"), texto("desc"), texto("3"), texto("25"));
    assert_eq!(
        p,
        ListarParams {
            busca: texto("mesa"),
            ordenar_por: texto("nome"),
            ordem: texto("desc"),
            pagina: Some(3),
            por_pagina: Some(25),
        }
    );
    let q = p.normalizar();
    assert_eq!(q.busca(), &texto("mesa"));
    assert_eq!(q.coluna(), Coluna::Nome);
    assert_eq!(q.direcao(), Direcao::Desc);
    assert_eq!(q.pagina(), 3);
    assert_eq!(q.por_pagina(), 25);
}

#[test]
fn de_texto_malformado_cai_no_padrao() {
    let p = ListarParams::de_texto(None, None, None, texto("abc"), texto("dez"));
    assert_eq!(p.pagina, None);
    assert_eq!(p.por_pagina, None);
    let q = p.normalizar();
    assert_eq!(q.pagina(), 1);
    assert_eq!(q.por_pagina(), 10);
}

#[test]
fn de_texto_fora_da_faixa_e_limitado() {
    let q = ListarParams::de_texto(None, None, None, texto("-4"), texto("1000")).normalizar();
    assert_eq!(q.pagina(), 1);
    assert_eq!(q.por_pagina(), 100);
    let q = ListarParams::de_texto(None, None, None, texto("0"), texto("0")).normalizar();
    assert_eq!(q.pagina(), 1);
    assert_eq!(q.por_pagina(), 1);
}

#[test]
fn ler_inteiro_aceita_so_decimais() {
    assert_eq!(ler_inteiro(&None), None);
    assert_eq!(ler_inteiro(&texto("0")), Some(0));
    assert_eq!(ler_inteiro(&texto("42")), Some(42));
    assert_eq!(ler_inteiro(&texto("+42")), Some(42));
    assert_eq!(ler_inteiro(&texto("-42")), Some(-42));
    assert_eq!(ler_inteiro(&texto("0042")), Some(42));
    assert_eq!(ler_inteiro(&texto("-0")), Some(0));
    assert_eq!(ler_inteiro(&texto("9223372036854775807")), Some(i64::MAX));
    assert_eq!(ler_inteiro(&texto("-9223372036854775808")), Some(i64::MIN));
    assert_eq!(ler_inteiro(&texto("9223372036854775808")), None);
    assert_eq!(ler_inteiro(&texto("-9223372036854775809")), None);
    assert_eq!(ler_inteiro(&texto("99999999999999999999999999")), None);
    assert_eq!(ler_inteiro(&texto("")), None);
    assert_eq!(ler_inteiro(&texto("+")), None);
    assert_eq!(ler_inteiro(&texto("-")), None);
    assert_eq!(ler_inteiro(&texto("+-1")), None);
    assert_eq!(ler_inteiro(&texto("--1")), None);
    assert_eq!(ler_inteiro(&texto(" 1")), None);
    assert_eq!(ler_inteiro(&texto("1 ")), None);
    assert_eq!(ler_inteiro(&texto("1_000")), None);
    assert_eq!(ler_inteiro(&texto("1.0")), None);
    assert_eq!(ler_inteiro(&texto("1e3")), None);
    assert_eq!(ler_inteiro(&texto("0x10")), None);
    assert_eq!(ler_inteiro(&texto("١٢")), None);
    assert_eq!(ler_inteiro(&texto("12a")), None);
}

#[test]
fn normalizar_duas_vezes_nao_muda_nada() {
    let casos = [
        ListarParams::de_texto(texto("mesa"), texto("preco"), texto("desc"), texto("4"), texto("500")),
        ListarParams::de_texto(texto(""), texto("x"), texto("y"), texto("-1"), texto("-1")),
        ListarParams::default(),
    ];
    for p in casos {
        let q = p.normalizar();
        let de_volta = ListarParams {
            busca: q.busca().clone(),
            ordenar_por: Some(q.coluna().sql().to_string()),
            ordem: Some(q.direcao().sql().to_lowercase()),
            pagina: Some(q.pagina()),
            por_pagina: Some(q.por_pagina()),
        };
        assert_eq!(de_volta.normalizar(), q);
    }
}
