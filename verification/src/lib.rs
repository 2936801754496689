//! Listing, lookup and maintenance of priced items kept in a relational
//! table, as a verified core: request normalisation, statement construction
//! and the rules that turn what the store answered into a reply.
//!
//! Nothing here talks to a store or a socket. A caller executes the
//! statements this crate builds and hands back what it got.

pub mod decimal;
pub mod http;
pub mod instrucao;
pub mod item;
pub mod leis;
pub mod parametros;
pub mod repositorio;

pub use http::{raiz, status_da_resposta, status_de_erro, status_de_sucesso, Operacao, Status};
pub use instrucao::{
    instrucao_atualizar, instrucao_buscar, instrucao_criar, instrucao_deletar, planejar_listagem,
    Filtro, Instrucao, Parametro, PlanoListagem,
};
pub use item::{Item, NovoItem, Preco};
pub use parametros::{Coluna, Consulta, Direcao, ListarParams};
pub use repositorio::{
    montar_resposta, resultado_atualizacao, resultado_busca, resultado_criacao,
    resultado_listagem, resultado_remocao, total_paginas, ErroRepositorio, ListarResponse,
};
