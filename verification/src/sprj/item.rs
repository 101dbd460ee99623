//! Item identifiers and the buffers that grant items to the player.
//!
//! A categorized item ID is a 32-bit number. Its upper four bits hold the
//! code of an [`ItemCategory`]; its lower 28 bits hold the item's number
//! within that category.

use vstd::prelude::*;

use crate::shared::instance::{resolve, spec_resolve, InstanceResult};
use crate::shared::layout::{Layout, LayoutError};
use crate::shared::memory::Region;
use crate::shared::pointer::OwnedPtr;
use crate::shared::text::{decimal_digits, labelled_number};

verus! {

/// One more than the largest uncategorized item ID: two to the power of 28.
pub const CATEGORY_UNIT: u32 = 0x1000_0000;

/// The raw number that the game uses for "no item".
pub const INVALID_ITEM_ID: u32 = 0xFFFF_FFFF;

/// The error returned when a byte doesn't name an [`ItemCategory`]. It holds
/// the rejected byte.
#[derive(Debug, Copy, Clone, PartialEq, Eq, Structural)]
pub struct TryFromItemCategoryError(pub u8);

/// The error returned when a number isn't a valid item ID of the kind asked
/// for. It holds the rejected number.
#[derive(Debug, Copy, Clone, PartialEq, Eq, Structural)]
pub struct TryFromItemIDError(pub u32);

/// All categories of items that are present in the game.
#[derive(Debug, Copy, Clone, PartialEq, Eq, Structural)]
pub enum ItemCategory {
    Weapon,
    Protector,
    Accessory,
    GemAsGoods,
    Goods,
    Gem,
}

/// Whether `code` is the four-bit code of some [`ItemCategory`].
pub open spec fn is_category_code(code: int) -> bool {
    code == 0 || code == 1 || code == 2 || code == 3 || code == 4 || code == 8
}

/// The upper four bits of `raw`, as a number below 16.
pub open spec fn category_code_of(raw: u32) -> int {
    raw as int / 0x1000_0000
}

/// The lower 28 bits of `raw`.
pub open spec fn ordinal_of(raw: u32) -> int {
    raw as int % 0x1000_0000
}

/// The number whose upper four bits are `code` and whose lower 28 bits are
/// `ordinal`.
pub open spec fn join_item_id(code: int, ordinal: int) -> int {
    code * 0x1000_0000 + ordinal
}

/// Whether the upper four bits of `raw` name an [`ItemCategory`].
pub open spec fn has_valid_category(raw: u32) -> bool {
    is_category_code(category_code_of(raw))
}

/// What untrusted data becomes when it is read as an item ID: itself where its
/// category is known, and the one invalid ID otherwise.
pub open spec fn normalize_item_id(raw: u32) -> u32 {
    if has_valid_category(raw) {
        raw
    } else {
        INVALID_ITEM_ID
    }
}

/// How an item ID reads to a person: the name of its category, a colon, and
/// its number within the category in decimal; or `<invalid>` where its
/// category is unknown.
pub open spec fn item_text(raw: u32) -> Seq<char> {
    if has_valid_category(raw) {
        ItemCategory::from_code(category_code_of(raw)).spec_name() + seq![':'] + decimal_digits(
            ordinal_of(raw) as nat,
        )
    } else {
        "<invalid>"@
    }
}

/// How the shifts and masks used on item IDs relate to division by
/// [`CATEGORY_UNIT`].
proof fn lemma_item_id_bits(raw: u32)
    ensures
        raw >> 28 == category_code_of(raw),
        raw & 0x0FFF_FFFF == ordinal_of(raw),
        raw >> 28 < 16,
{
    assert(raw >> 28 == raw / 0x1000_0000) by (bit_vector);
    assert(raw & 0x0FFF_FFFF == raw % 0x1000_0000) by (bit_vector);
    assert(raw >> 28 < 16) by (bit_vector);
}

impl ItemCategory {
    /// The four-bit code that the game stores for this category.
    pub open spec fn spec_code(&self) -> u8 {
        match self {
            ItemCategory::Weapon => 0,
            ItemCategory::Protector => 1,
            ItemCategory::Accessory => 2,
            ItemCategory::GemAsGoods => 3,
            ItemCategory::Goods => 4,
            ItemCategory::Gem => 8,
        }
    }

    /// The category with the given code. Meaningful only for a code that
    /// [`is_category_code`] accepts.
    pub open spec fn from_code(code: int) -> ItemCategory {
        if code == 0 {
            ItemCategory::Weapon
        } else if code == 1 {
            ItemCategory::Protector
        } else if code == 2 {
            ItemCategory::Accessory
        } else if code == 3 {
            ItemCategory::GemAsGoods
        } else if code == 4 {
            ItemCategory::Goods
        } else {
            ItemCategory::Gem
        }
    }

    /// Returns the four-bit code that the game stores for this category.
    #[verifier::when_used_as_spec(spec_code)]
    pub fn code(&self) -> (c: u8)
        ensures
            c == self.spec_code(),
            is_category_code(c as int),
            ItemCategory::from_code(c as int) == *self,
    {
        match self {
            ItemCategory::Weapon => 0,
            ItemCategory::Protector => 1,
            ItemCategory::Accessory => 2,
            ItemCategory::GemAsGoods => 3,
            ItemCategory::Goods => 4,
            ItemCategory::Gem => 8,
        }
    }

    /// Returns the category's name as the game's data calls it.
    pub fn name(&self) -> (s: &'static str)
        ensures
            s@ == self.spec_name(),
    {
        match self {
            ItemCategory::Weapon => "Weapon",
            ItemCategory::Protector => "Protector",
            ItemCategory::Accessory => "Accessory",
            ItemCategory::GemAsGoods => "GemAsGoods",
            ItemCategory::Goods => "Goods",
            ItemCategory::Gem => "Gem",
        }
    }

    /// The category's name as the game's data calls it.
    pub open spec fn spec_name(&self) -> Seq<char> {
        match self {
            ItemCategory::Weapon => "Weapon"@,
            ItemCategory::Protector => "Protector"@,
            ItemCategory::Accessory => "Accessory"@,
            ItemCategory::GemAsGoods => "GemAsGoods"@,
            ItemCategory::Goods => "Goods"@,
            ItemCategory::Gem => "Gem"@,
        }
    }
}

impl TryFrom<u8> for ItemCategory {
    type Error = TryFromItemCategoryError;

    /// Decodes a category code. Every byte other than the six codes is
    /// rejected and handed back in the error.
    fn try_from(value: u8) -> (r: Result<ItemCategory, TryFromItemCategoryError>) {
        match value {
            0 => Ok(ItemCategory::Weapon),
            1 => Ok(ItemCategory::Protector),
            2 => Ok(ItemCategory::Accessory),
            3 => Ok(ItemCategory::GemAsGoods),
            4 => Ok(ItemCategory::Goods),
            8 => Ok(ItemCategory::Gem),
            _ => Err(TryFromItemCategoryError(value)),
        }
    }
}

impl vstd::std_specs::convert::TryFromSpecImpl<u8> for ItemCategory {
    open spec fn obeys_try_from_spec() -> bool {
        true
    }

    open spec fn try_from_spec(value: u8) -> Result<ItemCategory, TryFromItemCategoryError> {
        if is_category_code(value as int) {
            Ok(ItemCategory::from_code(value as int))
        } else {
            Err(TryFromItemCategoryError(value))
        }
    }
}

/// An item ID that includes category information in the higher bits.
///
/// Every value of this type has a known category in its upper four bits. The
/// game's "no item" marker and other odd patterns are the business of
/// [`MaybeInvalidCategorizedItemID`].
#[derive(Debug, Copy, Clone, PartialEq, Eq, Structural)]
pub struct CategorizedItemID(u32);

impl View for CategorizedItemID {
    type V = u32;

    /// The raw number, category bits included.
    closed spec fn view(&self) -> u32 {
        self.0
    }
}

impl CategorizedItemID {
    #[verifier::type_invariant]
    spec fn well_formed(self) -> bool {
        has_valid_category(self.0)
    }

    /// The category that the upper four bits name.
    pub open spec fn spec_category(&self) -> ItemCategory {
        ItemCategory::from_code(category_code_of(self@))
    }

    /// Joins a category and an uncategorized ID. Any use of the upper four
    /// bits by `uncategorized` is rejected.
    pub fn try_new(category: ItemCategory, uncategorized: u32) -> (r: Result<
        CategorizedItemID,
        TryFromItemIDError,
    >)
        ensures
            uncategorized < CATEGORY_UNIT ==> r is Ok && r->Ok_0@ == join_item_id(
                category.spec_code() as int,
                uncategorized as int,
            ),
            uncategorized >= CATEGORY_UNIT ==> r == Err::<CategorizedItemID, TryFromItemIDError>(
                TryFromItemIDError(uncategorized),
            ),
    {
        match UncategorizedItemID::try_from(uncategorized) {
            Ok(base) => Ok(base.categorize(category)),
            Err(e) => Err(e),
        }
    }

    /// Wraps a raw ID that is known ahead of time to be valid.
    pub fn new_const(id: u32) -> (r: CategorizedItemID)
        requires
            has_valid_category(id),
        ensures
            r@ == id,
    {
        CategorizedItemID(id)
    }

    /// Returns the numeric value of this ID, including its category
    /// information.
    pub fn value(&self) -> (v: u32)
        ensures
            v == self@,
            has_valid_category(v),
    {
        proof {
            use_type_invariant(self);
        }
        self.0
    }

    /// Returns this ID's category.
    pub fn category(&self) -> (c: ItemCategory)
        ensures
            c == self.spec_category(),
            c.spec_code() == category_code_of(self@),
    {
        proof {
            use_type_invariant(self);
            lemma_item_id_bits(self.0);
        }
        let code: u32 = self.0 >> 28;
        if code == 0 {
            ItemCategory::Weapon
        } else if code == 1 {
            ItemCategory::Protector
        } else if code == 2 {
            ItemCategory::Accessory
        } else if code == 3 {
            ItemCategory::GemAsGoods
        } else if code == 4 {
            ItemCategory::Goods
        } else {
            ItemCategory::Gem
        }
    }

    /// Returns the uncategorized portion of this item's ID.
    pub fn uncategorized(&self) -> (u: UncategorizedItemID)
        ensures
            u@ == ordinal_of(self@),
    {
        proof {
            lemma_item_id_bits(self.0);
        }
        UncategorizedItemID(self.0 & 0x0FFF_FFFF)
    }

    /// Returns this ID as a person reads it: the name of its category, a
    /// colon, and its number within the category in decimal.
    pub fn debug_text(&self) -> (text: String)
        ensures
            text@ == item_text(self@),
    {
        proof {
            use_type_invariant(self);
        }
        labelled_number(self.category().name(), self.uncategorized().value())
    }

    /// Two IDs with the same raw number are the same ID.
    pub proof fn lemma_view_injective(a: CategorizedItemID, b: CategorizedItemID)
        requires
            a@ == b@,
        ensures
            a == b,
    {
    }
}

impl TryFrom<u32> for CategorizedItemID {
    type Error = TryFromItemIDError;

    /// Accepts a raw number as an ID if and only if its upper four bits name
    /// a category.
    fn try_from(value: u32) -> (r: Result<CategorizedItemID, TryFromItemIDError>)
        ensures
            has_valid_category(value) ==> r is Ok && r->Ok_0@ == value,
            !has_valid_category(value) ==> r == Err::<CategorizedItemID, TryFromItemIDError>(
                TryFromItemIDError(value),
            ),
    {
        proof {
            lemma_item_id_bits(value);
        }
        let code: u32 = value >> 28;
        match ItemCategory::try_from(code as u8) {
            Ok(_) => Ok(CategorizedItemID(value)),
            Err(_) => Err(TryFromItemIDError(value)),
        }
    }
}

impl vstd::std_specs::convert::TryFromSpecImpl<u32> for CategorizedItemID {
    open spec fn obeys_try_from_spec() -> bool {
        true
    }

    closed spec fn try_from_spec(value: u32) -> Result<CategorizedItemID, TryFromItemIDError> {
        if has_valid_category(value) {
            Ok(CategorizedItemID(value))
        } else {
            Err(TryFromItemIDError(value))
        }
    }
}

impl TryFrom<MaybeInvalidCategorizedItemID> for CategorizedItemID {
    type Error = TryFromItemIDError;

    /// Accepts the ID if and only if its upper four bits name a category.
    fn try_from(value: MaybeInvalidCategorizedItemID) -> (r: Result<
        CategorizedItemID,
        TryFromItemIDError,
    >)
        ensures
            has_valid_category(value@) ==> r is Ok && r->Ok_0@ == value@,
            !has_valid_category(value@) ==> r == Err::<CategorizedItemID, TryFromItemIDError>(
                TryFromItemIDError(value@),
            ),
    {
        CategorizedItemID::try_from(value.0)
    }
}

impl vstd::std_specs::convert::TryFromSpecImpl<MaybeInvalidCategorizedItemID> for CategorizedItemID {
    open spec fn obeys_try_from_spec() -> bool {
        true
    }

    closed spec fn try_from_spec(value: MaybeInvalidCategorizedItemID) -> Result<
        CategorizedItemID,
        TryFromItemIDError,
    > {
        if has_valid_category(value.0) {
            Ok(CategorizedItemID(value.0))
        } else {
            Err(TryFromItemIDError(value.0))
        }
    }
}

/// Like [`CategorizedItemID`], but may also hold the game's "no item" marker,
/// or any other pattern whose category is unknown.
#[derive(Debug, Copy, Clone, PartialEq, Eq, Structural)]
pub struct MaybeInvalidCategorizedItemID(u32);

impl View for MaybeInvalidCategorizedItemID {
    type V = u32;

    /// The raw number, category bits included.
    closed spec fn view(&self) -> u32 {
        self.0
    }
}

impl MaybeInvalidCategorizedItemID {
    /// Returns the ID that the game uses for "no item".
    pub fn invalid() -> (r: MaybeInvalidCategorizedItemID)
        ensures
            r@ == INVALID_ITEM_ID,
    {
        MaybeInvalidCategorizedItemID(INVALID_ITEM_ID)
    }

    /// Wraps a number exactly as it was found in the game's memory, whatever
    /// it holds.
    pub fn from_raw(raw: u32) -> (r: MaybeInvalidCategorizedItemID)
        ensures
            r@ == raw,
    {
        MaybeInvalidCategorizedItemID(raw)
    }

    /// If this is a valid ID, returns it as a [`CategorizedItemID`].
    /// Otherwise, returns `None`.
    pub fn as_valid(&self) -> (r: Option<CategorizedItemID>)
        ensures
            r is Some <==> has_valid_category(self@),
            r is Some ==> r->Some_0@ == self@,
    {
        match CategorizedItemID::try_from(*self) {
            Ok(id) => Some(id),
            Err(_) => None,
        }
    }

    /// Whether this represents a valid [`CategorizedItemID`].
    pub fn is_valid(&self) -> (b: bool)
        ensures
            b == has_valid_category(self@),
    {
        proof {
            lemma_item_id_bits(self.0);
        }
        let code: u32 = self.0 >> 28;
        code == 0 || code == 1 || code == 2 || code == 3 || code == 4 || code == 8
    }

    /// Returns the numeric value of this ID, including its category
    /// information.
    pub fn value(&self) -> (v: u32)
        ensures
            v == self@,
    {
        self.0
    }

    /// Returns this ID as a person reads it: like the valid ID that it is,
    /// or as `<invalid>` where it is none.
    pub fn debug_text(&self) -> (text: String)
        ensures
            text@ == item_text(self@),
    {
        match self.as_valid() {
            Some(valid) => valid.debug_text(),
            None => "<invalid>".to_owned(),
        }
    }

    /// Two IDs with the same raw number are the same ID.
    pub proof fn lemma_view_injective(
        a: MaybeInvalidCategorizedItemID,
        b: MaybeInvalidCategorizedItemID,
    )
        requires
            a@ == b@,
        ensures
            a == b,
    {
    }
}

impl From<u32> for MaybeInvalidCategorizedItemID {
    /// Reads untrusted data as an item ID. Every number whose category is
    /// unknown becomes the one invalid ID.
    fn from(value: u32) -> (r: MaybeInvalidCategorizedItemID)
        ensures
            r@ == normalize_item_id(value),
    {
        match CategorizedItemID::try_from(value) {
            Ok(_) => MaybeInvalidCategorizedItemID(value),
            Err(_) => MaybeInvalidCategorizedItemID(INVALID_ITEM_ID),
        }
    }
}

impl vstd::std_specs::convert::FromSpecImpl<u32> for MaybeInvalidCategorizedItemID {
    open spec fn obeys_from_spec() -> bool {
        true
    }

    closed spec fn from_spec(value: u32) -> MaybeInvalidCategorizedItemID {
        MaybeInvalidCategorizedItemID(normalize_item_id(value))
    }
}

impl From<CategorizedItemID> for MaybeInvalidCategorizedItemID {
    /// Widens a valid ID. The number is kept as it is.
    fn from(value: CategorizedItemID) -> (r: MaybeInvalidCategorizedItemID)
        ensures
            r@ == value@,
    {
        MaybeInvalidCategorizedItemID(value.0)
    }
}

impl vstd::std_specs::convert::FromSpecImpl<CategorizedItemID> for MaybeInvalidCategorizedItemID {
    open spec fn obeys_from_spec() -> bool {
        true
    }

    closed spec fn from_spec(value: CategorizedItemID) -> MaybeInvalidCategorizedItemID {
        MaybeInvalidCategorizedItemID(value.0)
    }
}

/// An item ID that doesn't include category information in the higher bits:
/// a number below [`CATEGORY_UNIT`].
#[derive(Debug, Copy, Clone, PartialEq, Eq, Structural)]
pub struct UncategorizedItemID(u32);

impl View for UncategorizedItemID {
    type V = u32;

    /// The item's number within its category.
    closed spec fn view(&self) -> u32 {
        self.0
    }
}

impl UncategorizedItemID {
    #[verifier::type_invariant]
    spec fn well_formed(self) -> bool {
        self.0 < CATEGORY_UNIT
    }

    /// Returns the numeric value of this ID. This can be used as an index into
    /// the various item params.
    pub fn value(&self) -> (v: u32)
        ensures
            v == self@,
            v < CATEGORY_UNIT,
    {
        proof {
            use_type_invariant(self);
        }
        self.0
    }

    /// Embeds `category` into this ID and returns the result.
    pub fn categorize(&self, category: ItemCategory) -> (id: CategorizedItemID)
        ensures
            id@ == join_item_id(category.spec_code() as int, self@ as int),
            id.spec_category() == category,
    {
        proof {
            use_type_invariant(self);
        }
        let code: u32 = category.code() as u32;
        let ordinal: u32 = self.0;
        let raw: u32 = ordinal | (code << 28);
        proof {
            assert(raw == code * 0x1000_0000 + ordinal) by (bit_vector)
                requires
                    raw == ordinal | (code << 28),
                    code < 16,
                    ordinal < 0x1000_0000,
            ;
        }
        CategorizedItemID(raw)
    }

    /// Two IDs with the same number are the same ID.
    pub proof fn lemma_view_injective(a: UncategorizedItemID, b: UncategorizedItemID)
        requires
            a@ == b@,
        ensures
            a == b,
    {
    }
}

impl TryFrom<u32> for UncategorizedItemID {
    type Error = TryFromItemIDError;

    /// Accepts a number as an uncategorized ID if and only if its upper four
    /// bits are zero.
    fn try_from(uncategorized: u32) -> (r: Result<UncategorizedItemID, TryFromItemIDError>)
        ensures
            uncategorized < CATEGORY_UNIT ==> r is Ok && r->Ok_0@ == uncategorized,
            uncategorized >= CATEGORY_UNIT ==> r == Err::<UncategorizedItemID, TryFromItemIDError>(
                TryFromItemIDError(uncategorized),
            ),
    {
        proof {
            assert(uncategorized & 0xF000_0000 == 0 <==> uncategorized < 0x1000_0000)
                by (bit_vector);
        }
        if uncategorized & 0xF000_0000 == 0 {
            Ok(UncategorizedItemID(uncategorized))
        } else {
            Err(TryFromItemIDError(uncategorized))
        }
    }
}

impl vstd::std_specs::convert::TryFromSpecImpl<u32> for UncategorizedItemID {
    open spec fn obeys_try_from_spec() -> bool {
        true
    }

    closed spec fn try_from_spec(value: u32) -> Result<UncategorizedItemID, TryFromItemIDError> {
        if value < CATEGORY_UNIT {
            Ok(UncategorizedItemID(value))
        } else {
            Err(TryFromItemIDError(value))
        }
    }
}

/// A single item granted to the player.
#[derive(Debug, Copy, Clone, PartialEq, Eq, Structural)]
pub struct ItemBufferEntry {
    /// The ID of the item that was granted.
    pub id: CategorizedItemID,
    /// The number of this item that the player received.
    pub quantity: u32,
    /// The durability of the item being granted. -1 means full durability.
    pub durability: i32,
}

/// The word that holds a signed number in two's complement.
pub open spec fn signed_word(value: i32) -> u32 {
    if value < 0 {
        (value + 0x1_0000_0000) as u32
    } else {
        value as u32
    }
}

impl ItemBufferEntry {
    /// The number of bytes that one entry takes in the game's memory.
    pub const SIZE: u64 = 12;

    /// Whether every field of the entry is zero.
    pub open spec fn is_zeroed(&self) -> bool {
        self.id@ == 0 && self.quantity == 0 && self.durability == 0
    }
}

impl From<CategorizedItemID> for ItemBufferEntry {
    /// Creates an entry containing a single full-durability item with this
    /// ID.
    fn from(id: CategorizedItemID) -> (r: ItemBufferEntry) {
        ItemBufferEntry { id, quantity: 1, durability: -1 }
    }
}

impl vstd::std_specs::convert::FromSpecImpl<CategorizedItemID> for ItemBufferEntry {
    open spec fn obeys_from_spec() -> bool {
        true
    }

    open spec fn from_spec(id: CategorizedItemID) -> ItemBufferEntry {
        ItemBufferEntry { id, quantity: 1, durability: -1i32 }
    }
}

/// A set of items granted to the player: a count followed by that many
/// entries.
#[derive(Debug)]
pub struct ItemBuffer {
    items: Vec<ItemBufferEntry>,
}

impl View for ItemBuffer {
    type V = Seq<ItemBufferEntry>;

    /// The entries, first to last.
    closed spec fn view(&self) -> Seq<ItemBufferEntry> {
        self.items@
    }
}

impl ItemBuffer {
    /// The number of bytes that the count takes in front of the entries.
    pub const HEADER_SIZE: u64 = 4;

    #[verifier::type_invariant]
    spec fn well_formed(self) -> bool {
        self.items@.len() <= u32::MAX
    }

    /// Creates a new buffer with `length` entries, all of them zeroed out.
    pub fn new(length: u32) -> (buffer: Box<ItemBuffer>)
        ensures
            buffer@.len() == length,
            forall|i: int| 0 <= i < length ==> (#[trigger] buffer@[i]).is_zeroed(),
    {
        let zero = ItemBufferEntry { id: CategorizedItemID(0), quantity: 0, durability: 0 };
        let mut items: Vec<ItemBufferEntry> = Vec::new();
        let mut i: u32 = 0;
        while i < length
            invariant
                i <= length,
                items@.len() == i,
                zero.is_zeroed(),
                forall|j: int| 0 <= j < i ==> (#[trigger] items@[j]).is_zeroed(),
            decreases length - i,
        {
            items.push(zero);
            i += 1;
        }
        Box::new(ItemBuffer { items })
    }

    /// Creates a new buffer that holds a copy of `items`.
    pub fn from_slice(items: &[ItemBufferEntry]) -> (buffer: Box<ItemBuffer>)
        requires
            items@.len() <= u32::MAX,
        ensures
            buffer@ == items@,
    {
        Box::new(ItemBuffer { items: vstd::slice::slice_to_vec(items) })
    }

    /// Returns the memory layout for a buffer with the given number of
    /// entries: the count, then the entries, four-byte aligned.
    pub fn layout(length: usize) -> (r: Result<Layout, LayoutError>)
        ensures
            r is Ok <==> ItemBuffer::HEADER_SIZE + ItemBufferEntry::SIZE * length
                <= crate::shared::layout::MAX_SIZE,
            r is Ok ==> r->Ok_0.spec_size() == ItemBuffer::HEADER_SIZE + ItemBufferEntry::SIZE
                * length && r->Ok_0.spec_align() == 4,
    {
        let header = match Layout::from_size_align(ItemBuffer::HEADER_SIZE, 4) {
            Ok(header) => header,
            Err(e) => {
                return Err(e);
            },
        };
        let entry = match Layout::from_size_align(ItemBufferEntry::SIZE, 4) {
            Ok(entry) => entry,
            Err(e) => {
                return Err(e);
            },
        };
        let entries = match entry.array(length as u64) {
            Ok(entries) => entries,
            Err(e) => {
                return Err(e);
            },
        };
        match header.extend(&entries) {
            Ok((layout, _)) => Ok(layout.pad_to_align()),
            Err(e) => Err(e),
        }
    }

    /// Returns the number of entries in the buffer.
    pub fn len(&self) -> (n: u32)
        ensures
            n == self@.len(),
    {
        proof {
            use_type_invariant(self);
        }
        self.items.len() as u32
    }

    /// Returns the list of items in the buffer as a slice.
    pub fn as_slice(&self) -> (slice: &[ItemBufferEntry])
        ensures
            slice@ == self@,
    {
        self.items.as_slice()
    }

    /// The words of the buffer as the game reads it: the number of entries,
    /// then three words for each entry, which hold its ID, its quantity and
    /// its durability.
    pub open spec fn spec_words(&self) -> Seq<u32> {
        Seq::new(
            1 + 3 * self@.len(),
            |k: int|
                if k == 0 {
                    self@.len() as u32
                } else if (k - 1) % 3 == 0 {
                    self@[(k - 1) / 3].id@
                } else if (k - 1) % 3 == 1 {
                    self@[(k - 1) / 3].quantity
                } else {
                    signed_word(self@[(k - 1) / 3].durability)
                },
        )
    }

    /// Returns the buffer as the game reads it, word by word. The words take
    /// exactly the bytes that [`ItemBuffer::layout`] gives for a buffer with
    /// this many entries.
    pub fn to_words(&self) -> (words: Vec<u32>)
        ensures
            words@ == self.spec_words(),
            4 * words@.len() == ItemBuffer::HEADER_SIZE + ItemBufferEntry::SIZE * self@.len(),
    {
        proof {
            use_type_invariant(self);
        }
        let count = self.items.len();
        let mut words: Vec<u32> = Vec::new();
        words.push(count as u32);
        let mut i: usize = 0;
        while i < count
            invariant
                i <= count == self@.len(),
                self.items@ == self@,
                words@ == self.spec_words().subrange(0, 1 + 3 * i),
            decreases count - i,
        {
            let entry = self.items[i];
            let durability: u32 = if entry.durability >= 0 {
                entry.durability as u32
            } else {
                (entry.durability - i32::MIN) as u32 + 0x8000_0000
            };
            words.push(entry.id.value());
            words.push(entry.quantity);
            words.push(durability);
            assert(words@ =~= self.spec_words().subrange(0, 1 + 3 * (i + 1)));
            i += 1;
        }
        assert(words@ =~= self.spec_words());
        words
    }

    /// Replaces the entry at `index`.
    pub fn set(&mut self, index: usize, entry: ItemBufferEntry)
        requires
            index < old(self)@.len(),
        ensures
            final(self)@ == old(self)@.update(index as int, entry),
    {
        proof {
            use_type_invariant(&*self);
        }
        self.items[index] = entry;
    }

    /// Removes the entry at `index` from the buffer, shifting all elements
    /// after it to the left.
    pub fn remove(&mut self, index: usize) -> (entry: ItemBufferEntry)
        requires
            index < old(self)@.len(),
        ensures
            entry == old(self)@[index as int],
            final(self)@ == old(self)@.remove(index as int),
    {
        proof {
            use_type_invariant(&*self);
        }
        let mut items: Vec<ItemBufferEntry> = Vec::new();
        core::mem::swap(&mut self.items, &mut items);
        let entry = items.remove(index);
        self.items = items;
        entry
    }
}

/// A fixed-size set of items granted to the player, which can stand wherever
/// an [`ItemBuffer`] is asked for.
#[derive(Debug)]
pub struct ItemArray<const N: usize> {
    length: u32,
    items: [ItemBufferEntry; N],
}

impl<const N: usize> View for ItemArray<N> {
    type V = Seq<ItemBufferEntry>;

    /// The entries, first to last.
    closed spec fn view(&self) -> Seq<ItemBufferEntry> {
        self.items@
    }
}

impl<const N: usize> ItemArray<N> {
    #[verifier::type_invariant]
    spec fn well_formed(self) -> bool {
        self.length == N
    }

    /// Creates a new fixed-size item buffer with the given contents.
    pub fn new(items: [ItemBufferEntry; N]) -> (array: ItemArray<N>)
        requires
            N <= u32::MAX,
        ensures
            array@ == items@,
            array@.len() == N,
    {
        ItemArray { length: N as u32, items }
    }

    /// Returns the count that the array announces to the game: the number of
    /// its entries.
    pub fn length(&self) -> (n: u32)
        ensures
            n == N,
            n == self@.len(),
    {
        proof {
            use_type_invariant(self);
        }
        self.length
    }

    /// Returns the entries.
    pub fn items(&self) -> (items: &[ItemBufferEntry; N])
        ensures
            items@ == self@,
    {
        &self.items
    }

    /// Returns the contents as an [`ItemBuffer`].
    pub fn to_buffer(&self) -> (buffer: Box<ItemBuffer>)
        ensures
            buffer@ == self@,
    {
        proof {
            use_type_invariant(self);
        }
        ItemBuffer::from_slice(self.items.as_slice())
    }
}

/// The arguments of one call of the game's routine that grants items with an
/// on-screen pop-up.
#[derive(Debug)]
pub struct GrantItemsCall {
    /// The items to grant.
    pub items: Box<ItemBuffer>,
    /// A flag whose meaning is unknown. Setting it to 1 makes the game
    /// ignore it.
    pub unknown: i32,
}

/// The game's manager of items that lie in the world.
#[derive(Debug)]
pub struct MapItemMan {}

impl MapItemMan {
    /// Looks up the live manager behind its slot. See
    /// [`resolve`](crate::shared::instance::resolve).
    pub fn instance(slot: Option<u64>, region: &Region) -> (r: InstanceResult<OwnedPtr>)
        ensures
            r is Ok <==> spec_resolve(slot, region) is Ok,
            r is Ok ==> r->Ok_0@ == spec_resolve(slot, region)->Ok_0,
            r is Err ==> r->Err_0 == spec_resolve(slot, region)->Err_0,
    {
        resolve(slot, region)
    }

    /// Prepares the call that grants the player the single `item`, with an
    /// on-screen pop-up indicating that they received it.
    pub fn grant_item<T: Into<ItemBufferEntry>>(&self, item: T) -> (call: GrantItemsCall)
        ensures
            call.unknown == 1,
            call.items@.len() == 1,
            call_ensures(T::into, (item,), call.items@[0]),
    {
        let array = ItemArray::new([item.into()]);
        self.grant_items(&*array.to_buffer())
    }

    /// Prepares the call that grants the player the given `items`, with an
    /// on-screen pop-up indicating that they received them.
    pub fn grant_items(&self, items: &ItemBuffer) -> (call: GrantItemsCall)
        ensures
            call.unknown == 1,
            call.items@ == items@,
    {
        proof {
            use_type_invariant(items);
        }
        GrantItemsCall { items: ItemBuffer::from_slice(items.as_slice()), unknown: 1 }
    }
}

/// Taking a valid ID apart and joining the parts gives the ID back: for every
/// raw number whose category is known, the category's code joined with the
/// lower 28 bits is that number, and the code is the code of the category
/// that the number decodes to.
pub proof fn lemma_categorize_uncategorized(raw: u32)
    requires
        has_valid_category(raw),
    ensures
        join_item_id(category_code_of(raw), ordinal_of(raw)) == raw,
        ItemCategory::from_code(category_code_of(raw)).spec_code() == category_code_of(raw),
        0 <= ordinal_of(raw) < CATEGORY_UNIT,
{
}

/// Joining a category and an ordinal below [`CATEGORY_UNIT`] gives a valid
/// ID, from which the same category and the same ordinal are read back.
pub proof fn lemma_category_of_categorized(category: ItemCategory, ordinal: u32)
    requires
        ordinal < CATEGORY_UNIT,
    ensures
        0 <= join_item_id(category.spec_code() as int, ordinal as int) <= u32::MAX,
        has_valid_category(join_item_id(category.spec_code() as int, ordinal as int) as u32),
        ItemCategory::from_code(
            category_code_of(join_item_id(category.spec_code() as int, ordinal as int) as u32),
        ) == category,
        ordinal_of(join_item_id(category.spec_code() as int, ordinal as int) as u32) == ordinal,
{
}

/// Reading untrusted data as an item ID agrees with the set of known
/// categories: a number stays as it is exactly when its upper four bits are
/// one of the six codes, every other number becomes the one invalid ID, and
/// the invalid ID is itself not valid.
pub proof fn lemma_normalize_item_id(raw: u32)
    ensures
        has_valid_category(raw) <==> category_code_of(raw) == 0 || category_code_of(raw) == 1
            || category_code_of(raw) == 2 || category_code_of(raw) == 3 || category_code_of(raw)
            == 4 || category_code_of(raw) == 8,
        has_valid_category(raw) ==> normalize_item_id(raw) == raw,
        !has_valid_category(raw) ==> normalize_item_id(raw) == INVALID_ITEM_ID,
        has_valid_category(normalize_item_id(raw)) == has_valid_category(raw),
        !has_valid_category(INVALID_ITEM_ID),
        normalize_item_id(normalize_item_id(raw)) == normalize_item_id(raw),
{
}

} // verus!
