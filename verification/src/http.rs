//! The status a reply carries, by operation and by what the repository
//! reported.

use vstd::prelude::*;
use crate::repositorio::ErroRepositorio;

verus! {

/// The operations the service offers.
#[derive(Clone, Copy, Debug, PartialEq, Eq, Structural)]
pub enum Operacao {
    /// `GET /`: the welcome text.
    Raiz,
    /// `GET /itens`: one page of the listing.
    Listar,
    /// `POST /itens`: a new item.
    Criar,
    /// `GET /itens/{id}`: one item.
    Buscar,
    /// `PUT /itens/{id}`: a new name and price for one item.
    Atualizar,
    /// `DELETE /itens/{id}`: one item less.
    Deletar,
}

/// The statuses a reply can carry.
#[derive(Clone, Copy, Debug, PartialEq, Eq, Structural)]
pub enum Status {
    Sucesso,
    Criado,
    SemConteudo,
    NaoEncontrado,
    ErroInterno,
}

/// The text that greets a visitor of the service root.
pub open spec fn boas_vindas() -> Seq<char> {
    "Bem-vindo à API Rust! Acesse /swagger-ui para documentação."@
}

/// The number of a status on the wire.
pub open spec fn codigo_de(s: Status) -> int {
    match s {
        Status::Sucesso => 200,
        Status::Criado => 201,
        Status::SemConteudo => 204,
        Status::NaoEncontrado => 404,
        Status::ErroInterno => 500,
    }
}

/// The status of an operation that succeeded: created for a creation, no
/// content for a removal, plain success for the rest.
pub open spec fn sucesso_de(op: Operacao) -> Status {
    match op {
        Operacao::Criar => Status::Criado,
        Operacao::Deletar => Status::SemConteudo,
        _ => Status::Sucesso,
    }
}

/// The status of an operation that failed: not found for a missing row,
/// internal error when the store could not execute.
pub open spec fn falha_de(e: ErroRepositorio) -> Status {
    match e {
        ErroRepositorio::NaoEncontrado => Status::NaoEncontrado,
        ErroRepositorio::ArmazenamentoIndisponivel => Status::ErroInterno,
    }
}

/// The status of the reply to an operation, given what the repository
/// reported for it.
pub open spec fn status_de<T>(op: Operacao, resultado: Result<T, ErroRepositorio>) -> Status {
    match resultado {
        Ok(_) => sucesso_de(op),
        Err(e) => falha_de(e),
    }
}

impl Status {
    /// The number of this status on the wire.
    pub fn codigo(self) -> (c: u16)
        ensures
            c == codigo_de(self),
    {
        match self {
            Status::Sucesso => 200,
            Status::Criado => 201,
            Status::SemConteudo => 204,
            Status::NaoEncontrado => 404,
            Status::ErroInterno => 500,
        }
    }
}

/// The reply to a visit of the service root.
pub fn raiz() -> (texto: &'static str)
    ensures
        texto@ == boas_vindas(),
{
    "Bem-vindo à API Rust! Acesse /swagger-ui para documentação."
}

/// The status of an operation that succeeded.
pub fn status_de_sucesso(op: Operacao) -> (s: Status)
    ensures
        s == sucesso_de(op),
{
    match op {
        Operacao::Criar => Status::Criado,
        Operacao::Deletar => Status::SemConteudo,
        _ => Status::Sucesso,
    }
}

/// The status of an operation that failed with `e`.
pub fn status_de_erro(e: ErroRepositorio) -> (s: Status)
    ensures
        s == falha_de(e),
{
    match e {
        ErroRepositorio::NaoEncontrado => Status::NaoEncontrado,
        ErroRepositorio::ArmazenamentoIndisponivel => Status::ErroInterno,
    }
}

/// The status of the reply to `op`, given what the repository reported.
pub fn status_da_resposta<T>(op: Operacao, resultado: &Result<T, ErroRepositorio>) -> (s: Status)
    ensures
        s == status_de(op, *resultado),
{
    match resultado {
        Ok(_) => status_de_sucesso(op),
        Err(e) => status_de_erro(*e),
    }
}

} // verus!
