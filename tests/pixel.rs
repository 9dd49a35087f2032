use game_of_life::Pixel;

#[test]
fn pixel_init() {
    let pixel = Pixel::new(5, 10, false);
    assert_eq!(5, pixel.get_coords().0);
    assert_eq!(10, pixel.get_coords().1);
    assert_eq!(false, pixel.is_on());
}

#[test]
fn turn_off_pixel() {
    let mut p = Pixel::new(5, 10, true);
    assert!(p.is_on());
    p.turn_off();
    assert!(!p.is_on());
}

#[test]
fn turn_on_pixel() {
    let mut p = Pixel::new(5, 10, false);
    assert!(!p.is_on());
    p.turn_on();
    assert!(p.is_on());
}

#[test]
fn new_pixel_is_not_marked_for_next_generation() {
    let p = Pixel::new(3, 4, true);
    assert!(!p.is_alive_next_generation());
    assert_eq!((3, 4), p.get_coords());
}

#[test]
fn survive_and_kill_touch_only_the_scratch_flag() {
    let mut p = Pixel::new(1, 2, false);
    p.survive();
    assert!(p.is_alive_next_generation());
    assert!(!p.is_on());
    p.kill();
    assert!(!p.is_alive_next_generation());
    assert!(!p.is_on());
    assert_eq!((1, 2), p.get_coords());
}

#[test]
fn turning_on_and_off_keeps_coordinates_and_scratch_flag() {
    let mut p = Pixel::new(7, 8, false);
    p.survive();
    p.turn_on();
    assert!(p.is_on());
    assert!(p.is_alive_next_generation());
    p.turn_off();
    assert!(!p.is_on());
    assert!(p.is_alive_next_generation());
    assert_eq!((7, 8), p.get_coords());
}
