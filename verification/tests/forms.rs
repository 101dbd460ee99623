use darksouls3::display::menu::{request_from, ItemGetMenuManDebugState, ShowItemRequest};
use darksouls3::shared::text::{bytes_equal, find_terminator, find_text_end};
use darksouls3::sprj::item::CategorizedItemID;

fn form(item_id: &str, quantity: &str, unk14: bool) -> ItemGetMenuManDebugState {
    ItemGetMenuManDebugState {
        item_id: String::from(item_id),
        quantity: String::from(quantity),
        unk14,
    }
}

#[test]
fn empty_form_asks_for_nothing() {
    let state = ItemGetMenuManDebugState::default();
    assert_eq!(state.item_id, "");
    assert_eq!(state.quantity, "");
    assert!(!state.unk14);
    assert_eq!(state.request(), None);
}

#[test]
fn filled_form_asks_for_the_item() {
    let request = form("1073741924", "3", true).request().unwrap();
    assert_eq!(
        request,
        ShowItemRequest {
            item: CategorizedItemID::new_const(0x4000_0064),
            quantity: 3,
            in_box: true
        }
    );
    let request = form("0", "4294967295", false).request().unwrap();
    assert_eq!(request.item.value(), 0);
    assert_eq!(request.quantity, u32::MAX);
    assert!(!request.in_box);
}

#[test]
fn form_with_anything_but_numbers_asks_for_nothing() {
    assert_eq!(form("abc", "1", false).request(), None);
    assert_eq!(form("100", "", false).request(), None);
    assert_eq!(form("", "1", false).request(), None);
    assert_eq!(form("100", "-1", false).request(), None);
    assert_eq!(form("100", "4294967296", false).request(), None);
    assert_eq!(form("0x64", "1", false).request(), None);
    assert_eq!(form(" 100", "1", false).request(), None);
}

#[test]
fn form_with_an_unknown_category_asks_for_nothing() {
    assert_eq!(form("1342177280", "1", false).request(), None);
    assert_eq!(form("4294967295", "1", false).request(), None);
    assert!(form("2147483648", "1", false).request().is_some());
}

#[test]
fn request_needs_both_numbers_and_a_known_category() {
    assert_eq!(request_from(None, Some(1), true), None);
    assert_eq!(request_from(Some(1), None, true), None);
    assert_eq!(request_from(None, None, false), None);
    assert_eq!(request_from(Some(0x5000_0000), Some(1), true), None);
    let request = request_from(Some(0x2000_0001), Some(9), false).unwrap();
    assert_eq!((request.item.value(), request.quantity, request.in_box), (0x2000_0001, 9, false));
}

#[test]
fn terminator_is_the_first_zero_byte() {
    assert_eq!(find_terminator(b"abc\0def\0", 0), Some(3));
    assert_eq!(find_terminator(b"abc\0def\0", 3), Some(3));
    assert_eq!(find_terminator(b"abc\0def\0", 4), Some(7));
    assert_eq!(find_terminator(b"abc\0def\0", 8), None);
    assert_eq!(find_terminator(b"abc", 0), None);
    assert_eq!(find_terminator(b"", 0), None);
    assert_eq!(find_terminator(b"\0", 5), None);
}

#[test]
fn text_ends_at_the_first_zero_unit() {
    assert_eq!(find_text_end(&[0x41, 0x42, 0, 0x43]), 2);
    assert_eq!(find_text_end(&[0, 0x41]), 0);
    assert_eq!(find_text_end(&[0x41, 0x42]), 2);
    assert_eq!(find_text_end(&[]), 0);
}

#[test]
fn byte_strings_are_equal_when_every_byte_is() {
    assert!(bytes_equal(b"", b""));
    assert!(bytes_equal(b"abc", b"abc"));
    assert!(!bytes_equal(b"abc", b"abd"));
    assert!(!bytes_equal(b"abc", b"ab"));
    assert!(!bytes_equal(b"ab", b"abc"));
}

#[test]
fn form_takes_a_plus_sign_and_leading_zeros() {
    assert_eq!(form("+100", "+1", false).request().unwrap().item.value(), 100);
    assert_eq!(form("000100", "0000000000000000000007", false).request().unwrap().quantity, 7);
    assert_eq!(form("+", "1", false).request(), None);
    assert_eq!(form("++1", "1", false).request(), None);
    assert_eq!(form("1", "+-1", false).request(), None);
    assert_eq!(form("1_0", "1", false).request(), None);
    assert_eq!(form("1", "1 ", false).request(), None);
    assert_eq!(form("\u{0663}", "1", false).request(), None);
    assert_eq!(form("1", "99999999999", false).request(), None);
}
