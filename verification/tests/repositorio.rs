use api_itens::{
    montar_resposta, resultado_atualizacao, resultado_busca, resultado_criacao,
    resultado_listagem, resultado_remocao, total_paginas, Consulta, ErroRepositorio, Item,
    ListarParams, ListarResponse, Preco,
};

#[derive(Debug)]
struct Falha;

fn consulta(pagina: i64, por_pagina: i64) -> Consulta {
    ListarParams {
        busca: None,
        ordenar_por: None,
        ordem: None,
        pagina: Some(pagina),
        por_pagina: Some(por_pagina),
    }
    .normalizar()
}

fn item(id: i32, nome: &str, preco: f64) -> Item {
    Item { id, nome: nome.to_string(), preco: Preco::de_bits(preco.to_bits()) }
}

#[test]
fn total_de_paginas_arredonda_para_cima() {
    assert_eq!(total_paginas(0, 10), 0);
    assert_eq!(total_paginas(1, 10), 1);
    assert_eq!(total_paginas(9, 10), 1);
    assert_eq!(total_paginas(10, 10), 1);
    assert_eq!(total_paginas(11, 10), 2);
    assert_eq!(total_paginas(25, 10), 3);
    assert_eq!(total_paginas(30, 10), 3);
    assert_eq!(total_paginas(101, 100), 2);
    assert_eq!(total_paginas(7, 1), 7);
    assert_eq!(total_paginas(7, 100), 1);
}

#[test]
fn total_de_paginas_sem_linhas_e_zero() {
    for por_pagina in [1, 2, 10, 99, 100] {
        assert_eq!(total_paginas(0, por_pagina), 0);
    }
}

#[test]
fn total_de_paginas_nos_extremos() {
    assert_eq!(total_paginas(i64::MAX, 1), i64::MAX);
    assert_eq!(total_paginas(i64::MAX, 100), 92233720368547759);
    assert_eq!(total_paginas(i64::MAX - 7, 100), 92233720368547758);
    assert_eq!(total_paginas(i64::MAX, i64::MAX), 1);
    assert_eq!(total_paginas(i64::MAX - 1, i64::MAX), 1);
}

#[test]
fn total_de_paginas_de_um_total_negativo() {
    assert_eq!(total_paginas(-1, 10), 0);
    assert_eq!(total_paginas(-9, 10), 0);
    assert_eq!(total_paginas(-10, 10), -1);
    assert_eq!(total_paginas(-15, 10), -1);
    assert_eq!(total_paginas(i64::MIN, 1), i64::MIN);
}

#[test]
fn total_de_paginas_e_o_menor_numero_que_basta() {
    for total in 0i64..250 {
        for por_pagina in [1i64, 2, 3, 7, 10, 100] {
            let n = total_paginas(total, por_pagina);
            assert!(n * por_pagina >= total);
            assert!((n - 1) * por_pagina < total);
        }
    }
}

#[test]
fn listagem_vazia_sem_busca() {
    let q = ListarParams::default().normalizar();
    let r = resultado_listagem::<Falha>(Ok(vec![]), Ok(0), &q);
    assert_eq!(
        r,
        Ok(ListarResponse { itens: vec![], total: 0, pagina: 1, por_pagina: 10, total_paginas: 0 })
    );
}

#[test]
fn resposta_junta_pagina_e_totais() {
    let itens = vec![item(7, "Mesa", 250.0), item(3, "7 Cadeiras", 99.5)];
    let r = montar_resposta(itens.clone(), 42, &consulta(2, 20));
    assert_eq!(r.itens, itens);
    assert_eq!(r.total, 42);
    assert_eq!(r.pagina, 2);
    assert_eq!(r.por_pagina, 20);
    assert_eq!(r.total_paginas, 3);
}

#[test]
fn resposta_repete_os_valores_efetivos() {
    let r = montar_resposta(vec![], 1000, &consulta(-5, 1000));
    assert_eq!(r.pagina, 1);
    assert_eq!(r.por_pagina, 100);
    assert_eq!(r.total_paginas, 10);
}

#[test]
fn listagem_falha_se_a_busca_falhou() {
    let q = consulta(1, 10);
    assert_eq!(
        resultado_listagem(Err(Falha), Ok(5), &q),
        Err(ErroRepositorio::ArmazenamentoIndisponivel)
    );
    assert_eq!(
        resultado_listagem(Err(Falha), Err(Falha), &q),
        Err(ErroRepositorio::ArmazenamentoIndisponivel)
    );
}

#[test]
fn listagem_falha_se_a_contagem_falhou() {
    let q = consulta(1, 10);
    assert_eq!(
        resultado_listagem(Ok(vec![item(1, "a", 1.0)]), Err(Falha), &q),
        Err(ErroRepositorio::ArmazenamentoIndisponivel)
    );
}

#[test]
fn listagem_com_os_dois_resultados() {
    let q = consulta(3, 2);
    let itens = vec![item(5, "e", 5.0)];
    assert_eq!(
        resultado_listagem::<Falha>(Ok(itens.clone()), Ok(5), &q),
        Ok(ListarResponse { itens, total: 5, pagina: 3, por_pagina: 2, total_paginas: 3 })
    );
}

#[test]
fn criacao_devolve_a_linha_inserida() {
    let novo = item(11, "Mesa", 19.9);
    assert_eq!(resultado_criacao::<Falha>(Ok(novo.clone())), Ok(novo));
}

#[test]
fn criacao_falha_com_o_armazenamento() {
    assert_eq!(resultado_criacao(Err(Falha)), Err(ErroRepositorio::ArmazenamentoIndisponivel));
}

#[test]
fn busca_encontra_ou_nao() {
    let achado = item(7, "Mesa", 250.0);
    assert_eq!(resultado_busca::<Falha>(Ok(Some(achado.clone()))), Ok(achado));
    assert_eq!(resultado_busca::<Falha>(Ok(None)), Err(ErroRepositorio::NaoEncontrado));
    assert_eq!(resultado_busca(Err(Falha)), Err(ErroRepositorio::ArmazenamentoIndisponivel));
}

#[test]
fn busca_repetida_da_o_mesmo_resultado() {
    let linha = item(7, "Mesa", 250.0);
    let primeira = resultado_busca::<Falha>(Ok(Some(linha.clone())));
    let segunda = resultado_busca::<Falha>(Ok(Some(linha)));
    assert_eq!(primeira, segunda);
    assert_eq!(api_itens::instrucao_buscar(7), api_itens::instrucao_buscar(7));
}

#[test]
fn atualizacao_encontra_ou_nao() {
    let mudado = item(3, "8 Cadeiras", 120.0);
    assert_eq!(resultado_atualizacao::<Falha>(Ok(Some(mudado.clone()))), Ok(mudado));
    assert_eq!(resultado_atualizacao::<Falha>(Ok(None)), Err(ErroRepositorio::NaoEncontrado));
    assert_eq!(resultado_atualizacao(Err(Falha)), Err(ErroRepositorio::ArmazenamentoIndisponivel));
}

#[test]
fn remocao_conta_as_linhas_afetadas() {
    assert_eq!(resultado_remocao::<Falha>(Ok(0)), Err(ErroRepositorio::NaoEncontrado));
    assert_eq!(resultado_remocao::<Falha>(Ok(1)), Ok(()));
    assert_eq!(resultado_remocao::<Falha>(Ok(2)), Ok(()));
    assert_eq!(resultado_remocao::<Falha>(Ok(u64::MAX)), Ok(()));
    assert_eq!(resultado_remocao(Err(Falha)), Err(ErroRepositorio::ArmazenamentoIndisponivel));
}

#[test]
fn criacao_seguida_de_busca_mantem_nome_e_preco() {
    // The store is what keeps the row; here it is stood in for by handing
    // the inserted row back as the row the lookup finds.
    let criado = resultado_criacao::<Falha>(Ok(item(1, "Mesa", 19.9))).unwrap();
    let achado = resultado_busca::<Falha>(Ok(Some(criado.clone()))).unwrap();
    assert_eq!(achado.nome, "Mesa");
    assert_eq!(f64::from_bits(achado.preco.bits), 19.9);
    assert_eq!(achado.id, criado.id);
}
