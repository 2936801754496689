//! The stored entity and the payload that creates or replaces one.

use vstd::prelude::*;

verus! {

/// A price as the wire and the store carry it: the 64 bits of an IEEE 754
/// double, kept as an integer. This crate moves a price and never does
/// arithmetic on it, so the bits are all it needs; a caller converts at the
/// boundary and gets back exactly the number it put in.
#[derive(Clone, Copy, Debug, PartialEq, Eq, Structural)]
pub struct Preco {
    pub bits: u64,
}

/// One row of the table. The store assigns `id` on creation and it never
/// changes afterwards.
#[derive(Clone, Debug, PartialEq, Eq)]
pub struct Item {
    pub id: i32,
    pub nome: String,
    pub preco: Preco,
}

/// What a caller supplies to create an item or to replace the name and
/// price of an existing one.
#[derive(Clone, Debug, PartialEq, Eq)]
pub struct NovoItem {
    pub nome: String,
    pub preco: Preco,
}

/// An item as contracts see it.
pub struct ItemSpec {
    pub id: int,
    pub nome: Seq<char>,
    pub preco: Preco,
}

/// A payload as contracts see it.
pub struct NovoItemSpec {
    pub nome: Seq<char>,
    pub preco: Preco,
}

impl View for Item {
    type V = ItemSpec;

    open spec fn view(&self) -> ItemSpec {
        ItemSpec { id: self.id as int, nome: self.nome@, preco: self.preco }
    }
}

impl View for NovoItem {
    type V = NovoItemSpec;

    open spec fn view(&self) -> NovoItemSpec {
        NovoItemSpec { nome: self.nome@, preco: self.preco }
    }
}

impl Preco {
    /// Wraps the bits of a price.
    pub fn de_bits(bits: u64) -> (p: Preco)
        ensures
            p.bits == bits,
    {
        Preco { bits }
    }
}

} // verus!
