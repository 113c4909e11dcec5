use rustberry_poe_monitor::display::{brightness_from_config, compute_layout, Brightness, Point};

#[test]
fn brightness_steps_map_in_order() {
    assert_eq!(brightness_from_config(0), Brightness::Dimmest);
    assert_eq!(brightness_from_config(1), Brightness::Dim);
    assert_eq!(brightness_from_config(2), Brightness::Normal);
    assert_eq!(brightness_from_config(3), Brightness::Bright);
    assert_eq!(brightness_from_config(4), Brightness::Brightest);
}

#[test]
fn out_of_range_brightness_falls_back_to_dimmest() {
    assert_eq!(brightness_from_config(5), Brightness::Dimmest);
    assert_eq!(brightness_from_config(255), Brightness::Dimmest);
}

#[test]
fn layout_positions_without_offset() {
    // "192.168.1.5" (11 chars) centred; the four 4-char statistics
    // right-aligned in their columns.
    let l = compute_layout(11, 4, 4, 4, 4, Point::new(0, 0));
    assert_eq!(l.ip_position, Point::new(20, 7));
    assert_eq!(l.cpu_position, Point::new(2, 19));
    assert_eq!(l.ram_position, Point::new(2, 30));
    assert_eq!(l.temp_position, Point::new(67, 19));
    assert_eq!(l.disk_position, Point::new(67, 30));
}

#[test]
fn layout_applies_shift_offset() {
    let l = compute_layout(11, 4, 4, 4, 4, Point::new(1, 1));
    assert_eq!(l.ip_position, Point::new(21, 8));
    assert_eq!(l.cpu_position, Point::new(3, 20));
    assert_eq!(l.ram_position, Point::new(3, 31));
    assert_eq!(l.temp_position, Point::new(68, 20));
    assert_eq!(l.disk_position, Point::new(68, 31));
}

#[test]
fn layout_centres_text_wider_than_the_panel() {
    // 17 chars are 136 px, 8 px wider than the panel: centred at -4.
    let l = compute_layout(17, 4, 4, 4, 4, Point::new(0, 0));
    assert_eq!(l.ip_position, Point::new(-4, 7));
}
