//! The product record: the value that the catalog stores and hands out.

use vstd::prelude::*;

verus! {

/// One catalog entry.
///
/// The catalog reads only `id`. Every other field is carried through untouched.
#[derive(Debug)]
pub struct Product {
    /// Identifier chosen by the caller; unique within a catalog.
    pub id: u32,
    /// Display name.
    pub name: String,
    /// The price as the bit pattern of a 64-bit IEEE-754 number. The catalog
    /// never interprets it, so no sign or range is enforced.
    pub price_bits: u64,
    /// Free-form description.
    pub description: String,
    /// Reference to an image of the product.
    pub image: String,
}

/// The mathematical value of a [`Product`]: its texts as character sequences.
pub ghost struct ProductView {
    pub id: u32,
    pub name: Seq<char>,
    pub price_bits: u64,
    pub description: Seq<char>,
    pub image: Seq<char>,
}

impl View for Product {
    type V = ProductView;

    open spec fn view(&self) -> ProductView {
        ProductView {
            id: self.id,
            name: self.name@,
            price_bits: self.price_bits,
            description: self.description@,
            image: self.image@,
        }
    }
}

impl ProductView {
    /// The same record carrying `id` as its identifier.
    pub open spec fn filed_under(self, id: u32) -> ProductView {
        ProductView { id, ..self }
    }
}

/// The values of a sequence of records, in the same order.
pub open spec fn views(records: Seq<Product>) -> Seq<ProductView> {
    records.map_values(|p: Product| p@)
}

impl Clone for Product {
    /// An independent copy with the same value.
    fn clone(&self) -> (copy: Self)
        ensures
            copy == *self,
    {
        Product {
            id: self.id,
            name: self.name.clone(),
            price_bits: self.price_bits,
            description: self.description.clone(),
            image: self.image.clone(),
        }
    }
}

impl Product {
    /// Builds a record from its parts.
    pub fn new(id: u32, name: String, price_bits: u64, description: String, image: String) -> (p:
        Self)
        ensures
            p == (Product { id, name, price_bits, description, image }),
    {
        Product { id, name, price_bits, description, image }
    }

    /// The same record carrying `id` as its identifier.
    pub fn filed_under(self, id: u32) -> (p: Self)
        ensures
            p@ == self@.filed_under(id),
    {
        Product {
            id,
            name: self.name,
            price_bits: self.price_bits,
            description: self.description,
            image: self.image,
        }
    }

    /// Whether two records have the same value, field by field.
    pub fn same_as(&self, other: &Product) -> (same: bool)
        ensures
            same == (self@ == other@),
    {
        self.id == other.id && self.name == other.name && self.price_bits == other.price_bits
            && self.description == other.description && self.image == other.image
    }
}

/// Copies a list of records, keeping order and values.
pub fn clone_records(records: &Vec<Product>) -> (copy: Vec<Product>)
    ensures
        copy@ == records@,
{
    let mut copy: Vec<Product> = Vec::new();
    let mut i: usize = 0;
    while i < records.len()
        invariant
            i <= records.len(),
            copy@ == records@.subrange(0, i as int),
        decreases records.len() - i,
    {
        copy.push(records[i].clone());
        assert(records@.subrange(0, i as int).push(records@[i as int]) == records@.subrange(
            0,
            i + 1,
        ));
        i += 1;
    }
    assert(records@.subrange(0, records.len() as int) == records@);
    copy
}

} // verus!
