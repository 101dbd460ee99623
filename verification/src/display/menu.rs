//! Asking the game to show the pop-up for a received item.

use vstd::prelude::*;

use crate::shared::text::{decimal_u32, parse_u32};
use crate::sprj::item::{has_valid_category, CategorizedItemID};

verus! {

/// What the user has typed into the form that asks for an item pop-up.
#[derive(Debug)]
pub struct ItemGetMenuManDebugState {
    /// The item's ID, as typed.
    pub item_id: String,
    /// The number of items, as typed.
    pub quantity: String,
    /// Whether the item is to go into the storage box.
    pub unk14: bool,
}

/// A pop-up that the form asks for.
#[derive(Debug, Copy, Clone, PartialEq, Eq, Structural)]
pub struct ShowItemRequest {
    /// The item to show.
    pub item: CategorizedItemID,
    /// The number of items to show.
    pub quantity: u32,
    /// Whether the item is to go into the storage box.
    pub in_box: bool,
}

impl Default for ItemGetMenuManDebugState {
    /// The empty form.
    fn default() -> (state: ItemGetMenuManDebugState)
        ensures
            state.item_id@.len() == 0,
            state.quantity@.len() == 0,
            !state.unk14,
    {
        ItemGetMenuManDebugState { item_id: String::new(), quantity: String::new(), unk14: false }
    }
}

/// Whether the numbers read from the form make up a request: both fields
/// hold a number, and the first is a valid item ID.
pub open spec fn is_request(item: Option<u32>, quantity: Option<u32>) -> bool {
    item is Some && has_valid_category(item->Some_0) && quantity is Some
}

/// Turns the numbers read from the form into a request. No request is made
/// unless both fields hold a number and the first is a valid item ID.
pub fn request_from(item: Option<u32>, quantity: Option<u32>, in_box: bool) -> (r: Option<
    ShowItemRequest,
>)
    ensures
        r is Some <==> is_request(item, quantity),
        r is Some ==> {
            &&& r->Some_0.item@ == item->Some_0
            &&& r->Some_0.quantity == quantity->Some_0
            &&& r->Some_0.in_box == in_box
        },
{
    let item = match item {
        Some(raw) => match CategorizedItemID::try_from(raw) {
            Ok(item) => item,
            Err(_) => {
                return None;
            },
        },
        None => {
            return None;
        },
    };
    match quantity {
        Some(quantity) => Some(ShowItemRequest { item, quantity, in_box }),
        None => None,
    }
}

impl ItemGetMenuManDebugState {
    /// Returns the pop-up that the form asks for, or `None` while the form
    /// is not filled in properly. The button that sends the form is enabled
    /// exactly while this is `Some`.
    pub fn request(&self) -> (r: Option<ShowItemRequest>)
        ensures
            r is Some <==> is_request(decimal_u32(self.item_id@), decimal_u32(self.quantity@)),
            r is Some ==> {
                &&& r->Some_0.item@ == decimal_u32(self.item_id@)->Some_0
                &&& r->Some_0.quantity == decimal_u32(self.quantity@)->Some_0
                &&& r->Some_0.in_box == self.unk14
            },
    {
        let item = parse_u32(self.item_id.as_str());
        let quantity = parse_u32(self.quantity.as_str());
        request_from(item, quantity, self.unk14)
    }
}

} // verus!
