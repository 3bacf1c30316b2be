//! One sprite record of object attribute memory.

use vstd::prelude::*;

verus! {

/// A sprite as the four bytes it takes in object attribute memory, in
/// memory order: top line, tile number, attributes, left column.
#[derive(Copy, Clone, Debug, PartialEq, Eq, Structural)]
pub struct OamSprite {
    pub y: u8,
    pub id: u8,
    pub attribute: u8,
    pub x: u8,
}

impl OamSprite {
    /// The sprite of four zero bytes.
    pub fn new_empty() -> (r: OamSprite)
        ensures
            r == (OamSprite { y: 0, id: 0, attribute: 0, x: 0 }),
    {
        OamSprite { y: 0, id: 0, attribute: 0, x: 0 }
    }

    /// The sprite with the given left column, top line, tile number and
    /// attributes.
    pub fn new(x: u8, y: u8, id: u8, attribute: u8) -> (r: OamSprite)
        ensures
            r == (OamSprite { y, id, attribute, x }),
    {
        OamSprite { y, id, attribute, x }
    }

    /// The record with the byte that `address` selects replaced by `value`.
    /// The low two bits of the address select the byte.
    pub open spec fn spec_set_attribute_by_address(self, address: u8, value: u8) -> OamSprite {
        if address % 4 == 0 {
            OamSprite { y: value, ..self }
        } else if address % 4 == 1 {
            OamSprite { id: value, ..self }
        } else if address % 4 == 2 {
            OamSprite { attribute: value, ..self }
        } else {
            OamSprite { x: value, ..self }
        }
    }

    /// The record with the byte that `address` selects replaced by `value`.
    /// The low two bits of the address select the byte.
    pub fn set_attribute_by_address(&mut self, address: u8, value: u8)
        ensures
            *final(self) == old(self).spec_set_attribute_by_address(address, value),
    {
        let field = address % 4;
        if field == 0 {
            self.y = value;
        } else if field == 1 {
            self.id = value;
        } else if field == 2 {
            self.attribute = value;
        } else {
            self.x = value;
        }
    }

    /// The byte of the record that `address` selects by its low two bits.
    #[verifier::allow_in_spec]
    pub fn get_attribute_by_address(&self, address: u8) -> u8
        returns
            (if address % 4 == 0 {
                self.y
            } else if address % 4 == 1 {
                self.id
            } else if address % 4 == 2 {
                self.attribute
            } else {
                self.x
            }),
    {
        let field = address % 4;
        if field == 0 {
            self.y
        } else if field == 1 {
            self.id
        } else if field == 2 {
            self.attribute
        } else {
            self.x
        }
    }
}

/// A byte stored through an address is the byte read back through it, and
/// the other three bytes of the record stay.
pub proof fn lemma_set_then_get(sprite: OamSprite, address: u8, other: u8, value: u8)
    ensures
        sprite.spec_set_attribute_by_address(address, value).get_attribute_by_address(address)
            == value,
        other % 4 != address % 4 ==> sprite.spec_set_attribute_by_address(
            address,
            value,
        ).get_attribute_by_address(other) == sprite.get_attribute_by_address(other),
{
}

} // verus!
