//! Selectors that locate one entity inside the game's containers.

use vstd::arithmetic::power2::lemma2_to64;
use vstd::prelude::*;

use crate::shared::bits::{bit_range, lemma_bit_range, set_bit_range};

verus! {

/// The kinds of entity that a [`FieldInsSelector`] can point at. Each kind has
/// containers of its own.
#[derive(Debug, Copy, Clone, PartialEq, Eq, Hash, Structural)]
pub enum FieldInsType {
    Hit,
    Chr,
    Obj,
    Bullet,
}

impl FieldInsType {
    /// The number that the game stores for this kind.
    pub open spec fn spec_code(&self) -> u8 {
        match self {
            FieldInsType::Hit => 0,
            FieldInsType::Chr => 1,
            FieldInsType::Obj => 2,
            FieldInsType::Bullet => 3,
        }
    }

    /// The kind with the given code. Meaningful only for codes below 4.
    pub open spec fn from_code(code: int) -> FieldInsType {
        if code == 0 {
            FieldInsType::Hit
        } else if code == 1 {
            FieldInsType::Chr
        } else if code == 2 {
            FieldInsType::Obj
        } else {
            FieldInsType::Bullet
        }
    }

    /// Returns the number that the game stores for this kind.
    #[verifier::when_used_as_spec(spec_code)]
    pub fn code(&self) -> (c: u8)
        ensures
            c == self.spec_code(),
            c < 4,
            FieldInsType::from_code(c as int) == *self,
    {
        match self {
            FieldInsType::Hit => 0,
            FieldInsType::Chr => 1,
            FieldInsType::Obj => 2,
            FieldInsType::Bullet => 3,
        }
    }
}

/// The number of distinct element indices: two to the power of 20.
pub const INDEX_LIMIT: u32 = 0x10_0000;

/// The number of distinct container indices: two to the power of 8.
pub const CONTAINER_LIMIT: u32 = 0x100;

/// The number of kinds of entity.
pub const TYPE_LIMIT: u32 = 4;

/// The element index held by the lowest 20 bits of `raw`.
pub open spec fn selector_index(raw: u32) -> int {
    raw as int % 0x10_0000
}

/// The container index held by bits 20 to 27 of `raw`.
pub open spec fn selector_container(raw: u32) -> int {
    (raw as int / 0x10_0000) % 0x100
}

/// The type code held by the upper four bits of `raw`.
pub open spec fn selector_type_code(raw: u32) -> int {
    raw as int / 0x1000_0000
}

/// The word that holds `type_code` in its upper four bits, the low 8 bits of
/// `container` below them and the low 20 bits of `index` at the bottom.
pub open spec fn pack_selector(type_code: int, container: u32, index: u32) -> int {
    type_code * 0x1000_0000 + (container as int % 0x100) * 0x10_0000 + (index as int % 0x10_0000)
}

/// A selector that encodes the information to look up a specific entity
/// managed by its respective domain: a type, the index of a container of that
/// type, and the index of the entity in the container.
#[derive(Debug, Copy, Clone, PartialEq, Eq, Hash, Structural)]
pub struct FieldInsSelector(u32);

impl View for FieldInsSelector {
    type V = u32;

    /// The packed word.
    closed spec fn view(&self) -> u32 {
        self.0
    }
}

impl FieldInsSelector {
    #[verifier::type_invariant]
    spec fn well_formed(self) -> bool {
        selector_type_code(self.0) < 4
    }

    /// Creates a new selector from its components. A container index needs
    /// 8 bits and an element index 20; higher bits of either are dropped.
    pub fn new(field_ins_type: FieldInsType, container: u32, index: u32) -> (selector:
        FieldInsSelector)
        ensures
            selector@ == pack_selector(field_ins_type.spec_code() as int, container, index),
    {
        let mut raw: u32 = 0;
        let code = field_ins_type.code() as u32;
        proof {
            lemma2_to64();
            lemma_bit_range(raw, 31, 28, code, 0x1000_0000, 0x10);
        }
        set_bit_range(&mut raw, 31, 28, code);
        assert(raw == code * 0x1000_0000);
        let ghost with_type = raw;
        proof {
            lemma_bit_range(raw, 27, 20, container, 0x10_0000, 0x100);
            assert((with_type as int / 0x10_0000) % 0x100 == 0);
        }
        set_bit_range(&mut raw, 27, 20, container);
        assert(raw == with_type + (container as int % 0x100) * 0x10_0000);
        let ghost with_container = raw;
        proof {
            lemma_bit_range(raw, 19, 0, index, 1, 0x10_0000);
            let upper = code * 0x100 + container as int % 0x100;
            assert(with_container == upper * 0x10_0000);
            vstd::arithmetic::div_mod::lemma_mod_multiples_basic(upper, 0x10_0000);
        }
        set_bit_range(&mut raw, 19, 0, index);
        assert(raw == with_container + (index as int % 0x10_0000));
        proof {
            lemma_type_code_of_packed(code as int, container, index);
        }
        FieldInsSelector(raw)
    }

    /// Reads a selector out of a word found in the game's memory. A word
    /// whose type code names no kind of entity is refused.
    pub fn from_raw(raw: u32) -> (r: Option<FieldInsSelector>)
        ensures
            r is Some <==> selector_type_code(raw) < 4,
            r is Some ==> r->Some_0@ == raw,
    {
        proof {
            lemma2_to64();
            lemma_bit_range(raw, 31, 28, 0, 0x1000_0000, 0x10);
        }
        if bit_range(raw, 31, 28) < TYPE_LIMIT {
            Some(FieldInsSelector(raw))
        } else {
            None
        }
    }

    /// Returns the packed word.
    pub fn value(&self) -> (raw: u32)
        ensures
            raw == self@,
            selector_type_code(raw) < 4,
    {
        proof {
            use_type_invariant(self);
        }
        self.0
    }

    /// The index of this entity in its container.
    pub fn index(&self) -> (i: u32)
        ensures
            i == selector_index(self@),
    {
        proof {
            lemma2_to64();
            lemma_bit_range(self.0, 19, 0, 0, 1, 0x10_0000);
        }
        bit_range(self.0, 19, 0)
    }

    /// The index of the container that holds this entity.
    pub fn container(&self) -> (c: u32)
        ensures
            c == selector_container(self@),
    {
        proof {
            lemma2_to64();
            lemma_bit_range(self.0, 27, 20, 0, 0x10_0000, 0x100);
        }
        bit_range(self.0, 27, 20)
    }

    /// The type of entity this represents, which also indicates which object
    /// to look it up in.
    pub fn field_ins_type(&self) -> (t: FieldInsType)
        ensures
            t == FieldInsType::from_code(selector_type_code(self@)),
            t.spec_code() == selector_type_code(self@),
    {
        proof {
            use_type_invariant(self);
            lemma2_to64();
            lemma_bit_range(self.0, 31, 28, 0, 0x1000_0000, 0x10);
        }
        let code = bit_range(self.0, 31, 28);
        if code == 0 {
            FieldInsType::Hit
        } else if code == 1 {
            FieldInsType::Chr
        } else if code == 2 {
            FieldInsType::Obj
        } else {
            FieldInsType::Bullet
        }
    }

    /// Two selectors with the same packed word are the same selector.
    pub proof fn lemma_view_injective(a: FieldInsSelector, b: FieldInsSelector)
        requires
            a@ == b@,
        ensures
            a == b,
    {
    }
}

/// The upper four bits of a packed word hold the type code, whatever the
/// other two components are.
proof fn lemma_type_code_of_packed(type_code: int, container: u32, index: u32)
    requires
        0 <= type_code < 16,
    ensures
        0 <= pack_selector(type_code, container, index) <= u32::MAX,
        selector_type_code(pack_selector(type_code, container, index) as u32) == type_code,
{
}

/// Packing and then unpacking returns the triple that was packed: for a type code
/// below 4, a container index below 2^8 and an element index below 2^20, the
/// packed word fits in 32 bits and each of the three is read back from it
/// unchanged.
pub proof fn lemma_pack_unpack(type_code: int, container: u32, index: u32)
    requires
        0 <= type_code < TYPE_LIMIT,
        container < CONTAINER_LIMIT,
        index < INDEX_LIMIT,
    ensures
        0 <= pack_selector(type_code, container, index) <= u32::MAX,
        selector_type_code(pack_selector(type_code, container, index) as u32) == type_code,
        selector_container(pack_selector(type_code, container, index) as u32) == container,
        selector_index(pack_selector(type_code, container, index) as u32) == index,
{
}

} // verus!
