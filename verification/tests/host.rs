use chip8::io::Screen;
use chip8::io::IO;
use chip8::options::parse_color;
use chip8::options::parse_seed;
use chip8::options::OptionError;
use chip8::options::Rgb;
use chip8::window::audio::AudioAction;
use chip8::window::audio::AudioEngine;
use chip8::window::audio::AudioStatus;
use chip8::window::error::WindowError;
use chip8::window::keyboard::KeyboardEngine;
use chip8::window::process_events;
use chip8::window::video::VideoEngine;
use chip8::window::Event;
use chip8::Chip8;

fn seed_text(r: Result<u16, OptionError>) -> Result<u16, String> {
    match r {
        Ok(seed) => Ok(seed),
        Err(OptionError::InvalidSeed(text)) => Err(text),
        Err(OptionError::InvalidColor(text)) => panic!("a seed was refused as a colour: {}", text),
    }
}

fn color_text(r: Result<Rgb, OptionError>) -> Result<Rgb, String> {
    match r {
        Ok(color) => Ok(color),
        Err(OptionError::InvalidColor(text)) => Err(text),
        Err(OptionError::InvalidSeed(text)) => panic!("a colour was refused as a seed: {}", text),
    }
}

#[test]
fn seeds_are_read_in_hexadecimal() {
    assert_eq!(seed_text(parse_seed("0x0")), Ok(0));
    assert_eq!(seed_text(parse_seed("0xcafe")), Ok(0xcafe));
    assert_eq!(seed_text(parse_seed("0xCaFe")), Ok(0xcafe));
    assert_eq!(seed_text(parse_seed("0xffff")), Ok(0xffff));
    assert_eq!(seed_text(parse_seed("0x0000ffff")), Ok(0xffff));
    assert_eq!(seed_text(parse_seed("0x+12")), Ok(0x12));
    for text in ["0x1234", "0x+0", "0x9", "0xA", "0xf", "0x00000000000000000001"] {
        let std = u16::from_str_radix(text.strip_prefix("0x").unwrap(), 16).ok();
        assert_eq!(seed_text(parse_seed(text)).ok(), std);
    }
}

#[test]
fn seeds_that_are_refused() {
    for text in [
        "", "0", "0x", "x12", "1234", "0X12", "0x10000", "0xfffff", "0x12g4", "0x-1", "0x+",
        "0x++1", "0x 1", "0x1 ", " 0x1", "0x1_0", "0xé", "0x１",
    ] {
        assert_eq!(seed_text(parse_seed(text)), Err(text.to_string()));
        let std = text.strip_prefix("0x").and_then(|hex| u16::from_str_radix(hex, 16).ok());
        assert_eq!(std, None);
    }
}

#[test]
fn colours_need_a_highest_byte() {
    assert_eq!(color_text(parse_color("#ff102030")), Ok(Rgb { r: 0x10, g: 0x20, b: 0x30 }));
    assert_eq!(color_text(parse_color("#01000000")), Ok(Rgb { r: 0, g: 0, b: 0 }));
    assert_eq!(color_text(parse_color("#FFD5C4A1")), Ok(Rgb { r: 0xd5, g: 0xc4, b: 0xa1 }));
    assert_eq!(color_text(parse_color("#+ff000001")), Ok(Rgb { r: 0, g: 0, b: 1 }));
    assert_eq!(color_text(parse_color("#0ffffffff")), Ok(Rgb { r: 0xff, g: 0xff, b: 0xff }));
}

#[test]
fn colours_that_are_refused() {
    for text in [
        "", "#", "ff102030", "#102030", "#00ffffff", "#0", "#100000000", "#ff10203g", "#-1",
        "# ff102030", "0xff102030",
    ] {
        assert_eq!(color_text(parse_color(text)), Err(text.to_string()));
    }
}

#[test]
fn scancodes_of_labels() {
    assert_eq!(KeyboardEngine::get_scancode('a'), Ok(4));
    assert_eq!(KeyboardEngine::get_scancode('A'), Ok(4));
    assert_eq!(KeyboardEngine::get_scancode('z'), Ok(29));
    assert_eq!(KeyboardEngine::get_scancode('Z'), Ok(29));
    assert_eq!(KeyboardEngine::get_scancode('q'), Ok(20));
    assert_eq!(KeyboardEngine::get_scancode('1'), Ok(30));
    assert_eq!(KeyboardEngine::get_scancode('9'), Ok(38));
    assert_eq!(KeyboardEngine::get_scancode('0'), Ok(39));
    for c in [' ', '-', '@', '[', '`', '{', '/', ':', 'é', 'É', '\u{ff21}', '\0'] {
        assert_eq!(KeyboardEngine::get_scancode(c), Err(WindowError::UnknownMapping(c)));
    }
}

#[test]
fn keyboard_follows_the_keys_of_the_pad() {
    let chip8 = Chip8::new(None);
    let mut keyboard = KeyboardEngine::new(chip8.get_pad_map()).expect("every label has a key");
    assert_eq!(keyboard.get_memory(), &[false; 16]);
    // 'x' is key 0 of the pad and has the scancode 27; 'v' is key 15 and has 25.
    keyboard.key_down(27);
    keyboard.key_down(25);
    keyboard.key_down(44);
    let mut expected = [false; 16];
    expected[0] = true;
    expected[15] = true;
    assert_eq!(keyboard.get_memory(), &expected);
    keyboard.key_up(27);
    keyboard.key_up(5);
    expected[0] = false;
    assert_eq!(keyboard.get_memory(), &expected);
}

#[test]
fn keyboard_refuses_a_label_without_a_key() {
    match KeyboardEngine::new(&['a', '?', 'b', '!']) {
        Err(error) => assert_eq!(error, WindowError::UnknownMapping('?')),
        Ok(_) => panic!("'?' has no key"),
    }
}

#[test]
fn keyboard_takes_the_later_of_two_equal_labels() {
    let mut keyboard = KeyboardEngine::new(&['a', 'b', 'A']).expect("every label has a key");
    keyboard.key_down(4);
    assert_eq!(keyboard.get_memory(), &[false, false, true]);
    keyboard.key_down(5);
    assert_eq!(keyboard.get_memory(), &[false, true, true]);
    let keyboard = KeyboardEngine::new(&[]).expect("no label, no trouble");
    assert_eq!(keyboard.get_memory(), &[] as &[bool]);
}

#[test]
fn events_are_taken_up_to_the_one_that_closes() {
    let mut keyboard = KeyboardEngine::new(&['a', 'b', 'c']).expect("every label has a key");
    let down = |code| Event::KeyDown { keycode: Some(97), scancode: Some(code) };
    assert!(process_events(&mut keyboard, &[]));
    assert!(process_events(
        &mut keyboard,
        &[down(4), Event::Other, down(6), Event::KeyUp { scancode: Some(4) }, Event::KeyUp { scancode: None }]
    ));
    assert_eq!(keyboard.get_memory(), &[false, false, true]);
    assert!(!process_events(&mut keyboard, &[down(5), Event::Quit, down(4)]));
    assert_eq!(keyboard.get_memory(), &[false, true, true]);
    // Escape closes even where its scancode stands for a key.
    assert!(!process_events(
        &mut keyboard,
        &[Event::KeyUp { scancode: Some(5) }, Event::KeyDown { keycode: Some(27), scancode: Some(4) }]
    ));
    assert_eq!(keyboard.get_memory(), &[false, false, true]);
    // A key without a scancode changes nothing.
    assert!(process_events(&mut keyboard, &[Event::KeyDown { keycode: None, scancode: None }]));
    assert_eq!(keyboard.get_memory(), &[false, false, true]);
}

#[test]
fn buzzer_drives_the_device() {
    let mut audio = AudioEngine::new();
    assert_eq!(audio.render(AudioStatus::Playing), AudioAction::Pause);
    assert_eq!(audio.render(AudioStatus::Paused), AudioAction::Keep);
    assert_eq!(audio.render(AudioStatus::Stopped), AudioAction::Keep);
    *audio.get_memory() = true;
    assert_eq!(audio.render(AudioStatus::Playing), AudioAction::Keep);
    assert_eq!(audio.render(AudioStatus::Paused), AudioAction::Resume);
    assert_eq!(audio.render(AudioStatus::Stopped), AudioAction::Keep);
}

#[test]
fn window_lengths_are_scaled() {
    assert_eq!(VideoEngine::scale(64, 8), Ok(512));
    assert_eq!(VideoEngine::scale(0, 255), Ok(0));
    assert_eq!(VideoEngine::scale(7, 0), Ok(0));
    assert_eq!(VideoEngine::scale(0xffff_ffff, 1), Ok(0xffff_ffff));
    assert_eq!(VideoEngine::scale(0x8000_0000, 2), Err(WindowError::InvalidScale(0x8000_0000, 2)));
    assert_eq!(VideoEngine::scale(usize::MAX, 2), Err(WindowError::InvalidScale(usize::MAX, 2)));
}

#[test]
fn video_is_made_dark() {
    let bg = Rgb { r: 0x28, g: 0x28, b: 0x28 };
    let fg = Rgb { r: 0xd5, g: 0xc4, b: 0xa1 };
    let video = VideoEngine::new((64, 32), 30, bg, fg).expect("a display of 64 by 32");
    assert_eq!(video.size(), (64, 32));
    assert_eq!(video.as_slice(), &[false; 64 * 32][..]);
    assert_eq!(video.background(), bg);
    assert_eq!(video.foreground(), fg);
    assert_eq!(video.points(), vec![]);
    assert!(matches!(
        VideoEngine::new((usize::MAX, 2), 30, bg, fg),
        Err(WindowError::InvalidScreenSize(usize::MAX, 2))
    ));
    assert!(matches!(VideoEngine::new((64, 32), 0, bg, fg), Err(WindowError::InvalidFPS(0))));
    assert!(matches!(
        VideoEngine::new((usize::MAX, 2), 0, bg, fg),
        Err(WindowError::InvalidScreenSize(usize::MAX, 2))
    ));
    let empty = VideoEngine::new((0, 5), 1, bg, fg).expect("a display without pixels");
    assert_eq!(empty.points(), vec![]);
}

#[test]
fn video_paces_its_frames() {
    let c = Rgb { r: 0, g: 0, b: 0 };
    // Four frames a second: one every 250 ms.
    let mut video = VideoEngine::new((64, 32), 4, c, c).expect("a display of 64 by 32");
    assert!(video.render(1_000));
    assert!(!video.render(1_000));
    assert!(!video.render(250_000_999));
    assert!(video.render(250_001_000));
    // The pace starts again from the frame shown, not from the one due.
    assert!(!video.render(500_000_999));
    assert!(video.render(600_000_000));
    assert!(!video.render(849_999_999));
    // A time before the last frame is no time gone by.
    assert!(!video.render(0));
    assert!(video.render(850_000_000));
    // Three frames a second: a third of a second, rounded down.
    let mut video = VideoEngine::new((1, 1), 3, c, c).expect("a display of one pixel");
    assert!(video.render(0));
    assert!(!video.render(333_333_332));
    assert!(video.render(333_333_333));
}

#[test]
fn video_lists_its_lit_pixels_row_after_row() {
    let c = Rgb { r: 0, g: 0, b: 0 };
    let mut video = VideoEngine::new((64, 32), 30, c, c).expect("a display of 64 by 32");
    assert!(!video.draw(62, 1, 0b1110_0000));
    assert!(!video.draw(3, 0, 0b1000_0000));
    assert_eq!(video.points(), vec![(3, 0), (0, 1), (62, 1), (63, 1)]);
    video.clear();
    assert_eq!(video.points(), vec![]);
}

#[test]
fn machine_draws_on_the_video_engine() {
    let c = Rgb { r: 0, g: 0, b: 0 };
    let mut chip8 = Chip8::new(Some(1000));
    // i = font sprite of 1 (at 5); draw 5 rows at (0, 0)
    assert_eq!(chip8.load_rom(&[0xa0, 0x05, 0xd0, 0x05], None), Ok(()));
    let mut video =
        VideoEngine::new(chip8.get_screen_size(), 30, c, c).expect("a display of 64 by 32");
    let mut keyboard = KeyboardEngine::new(chip8.get_pad_map()).expect("every label has a key");
    let mut audio = AudioEngine::new();
    keyboard.key_down(4);
    {
        let mut io = IO { screen: &mut video, pad: keyboard.get_memory(), audio: audio.get_memory() };
        assert_eq!(chip8.clock_at(0, &mut io), Ok(()));
        assert_eq!(chip8.clock_at(1000, &mut io), Ok(()));
    }
    // The sprite of the digit 1: 0x20 0x60 0x20 0x20 0x70.
    assert_eq!(
        video.points(),
        vec![(2, 0), (1, 1), (2, 1), (2, 2), (2, 3), (1, 4), (2, 4), (3, 4)]
    );
    assert_eq!(audio.render(AudioStatus::Playing), AudioAction::Pause);
}
