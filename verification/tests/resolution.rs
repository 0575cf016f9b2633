use desktop_events::event::{DesktopID, VirtualDesktopEvent, HRESULT};
use desktop_events::resolve::{desktop_changed_event, find_index};

fn ids(values: &[u128]) -> Vec<DesktopID> {
    values.iter().map(|value| DesktopID(*value)).collect()
}

#[test]
fn find_index_gives_the_position_of_a_held_identifier() {
    let desktops = ids(&[11, 22, 33, 44]);
    assert_eq!(find_index(&desktops, DesktopID(11)), Some(0));
    assert_eq!(find_index(&desktops, DesktopID(33)), Some(2));
    assert_eq!(find_index(&desktops, DesktopID(44)), Some(3));
}

#[test]
fn find_index_gives_nothing_for_an_unknown_identifier() {
    let desktops = ids(&[11, 22, 33]);
    assert_eq!(find_index(&desktops, DesktopID(99)), None);
}

#[test]
fn find_index_on_an_empty_list_gives_nothing() {
    assert_eq!(find_index(&Vec::new(), DesktopID(1)), None);
}

#[test]
fn find_index_takes_the_last_of_repeated_identifiers() {
    let desktops = ids(&[7, 8, 7, 9]);
    assert_eq!(find_index(&desktops, DesktopID(7)), Some(2));
}

#[test]
fn find_index_tells_identifiers_apart_in_their_high_bits() {
    let high = 1u128 << 127;
    let desktops = ids(&[1, high | 1, high]);
    assert_eq!(find_index(&desktops, DesktopID(high)), Some(2));
    assert_eq!(find_index(&desktops, DesktopID(high | 1)), Some(1));
}

#[test]
fn changed_event_names_both_positions() {
    let listing = Ok(ids(&[100, 200, 300, 400]));
    assert_eq!(
        desktop_changed_event(&listing, DesktopID(100), DesktopID(400)),
        Some(VirtualDesktopEvent::DesktopChanged(0, 3))
    );
    assert_eq!(
        desktop_changed_event(&listing, DesktopID(400), DesktopID(200)),
        Some(VirtualDesktopEvent::DesktopChanged(3, 1))
    );
}

#[test]
fn changed_event_needs_the_old_identifier() {
    let listing = Ok(ids(&[100, 200, 300]));
    assert_eq!(desktop_changed_event(&listing, DesktopID(999), DesktopID(200)), None);
}

#[test]
fn changed_event_needs_the_new_identifier() {
    let listing = Ok(ids(&[100, 200, 300]));
    assert_eq!(desktop_changed_event(&listing, DesktopID(100), DesktopID(999)), None);
}

#[test]
fn changed_event_needs_the_listing() {
    let listing = Err(HRESULT(-2147467259));
    assert_eq!(desktop_changed_event(&listing, DesktopID(100), DesktopID(200)), None);
}

#[test]
fn changed_event_on_an_empty_listing_is_none() {
    let listing = Ok(Vec::new());
    assert_eq!(desktop_changed_event(&listing, DesktopID(1), DesktopID(2)), None);
}

#[test]
fn changed_event_between_equal_identifiers_names_one_position_twice() {
    let listing = Ok(ids(&[5, 6, 7]));
    assert_eq!(
        desktop_changed_event(&listing, DesktopID(6), DesktopID(6)),
        Some(VirtualDesktopEvent::DesktopChanged(1, 1))
    );
}
