use chip8::audio::Audio;
use chip8::cartridge_reader::is_rom_extension;
use chip8::cartridge_reader::Cartridge;
use chip8::cartridge_reader::GameFile;
use chip8::emulator::Emulator;
use chip8::emulator::EmulatorChoice;
use chip8::emulator::EmulatorState;
use chip8::emulator::HostAction;
use chip8::keypad::keypad_index;
use chip8::keypad::Keypad;
use chip8::processor::Cpu;

fn file(path: &str, extension: &str) -> GameFile {
    GameFile { path: path.to_string(), extension: extension.to_string() }
}

fn shelf() -> Cartridge {
    let mut cartridge = Cartridge::new();
    cartridge.load_game_paths(&vec![
        file("assets/PONG.ch8", "ch8"),
        file("assets/font.ttf", "ttf"),
        file("assets/TETRIS.ch8", "ch8"),
        file("assets/notes.CH8", "CH8"),
        file("assets/MAZE.ch8", "ch8"),
    ]);
    cartridge
}

#[test]
fn empty_shelf() {
    let cartridge = Cartridge::new();
    assert!(cartridge.game_paths.is_empty());
    assert!(cartridge.rom.is_empty());
    assert_eq!(cartridge.get_game_name(), "");
    assert_eq!(cartridge.chosen_path(), "");
}

#[test]
fn only_games_come_on_the_shelf() {
    let cartridge = shelf();
    assert_eq!(cartridge.game_paths, vec!["assets/PONG.ch8", "assets/TETRIS.ch8", "assets/MAZE.ch8"]);
    assert_eq!(cartridge.chosen_path(), "assets/PONG.ch8");
    assert_eq!(cartridge.game_index, 0);
    assert!(is_rom_extension("ch8"));
    assert!(!is_rom_extension("ch"));
    assert!(!is_rom_extension("ch88"));
    assert!(!is_rom_extension(""));
}

#[test]
fn later_files_go_behind() {
    let mut cartridge = shelf();
    cartridge.next_game();
    cartridge.load_game_paths(&vec![file("assets/UFO.ch8", "ch8")]);
    assert_eq!(cartridge.game_paths.len(), 4);
    assert_eq!(cartridge.game_paths[3], "assets/UFO.ch8");
    assert_eq!(cartridge.chosen_path(), "assets/TETRIS.ch8");
}

#[test]
fn next_and_previous_game_go_round() {
    let mut cartridge = shelf();
    cartridge.next_game();
    assert_eq!(cartridge.get_game_name(), "TETRIS");
    cartridge.next_game();
    assert_eq!(cartridge.get_game_name(), "MAZE");
    cartridge.next_game();
    assert_eq!(cartridge.get_game_name(), "PONG");
    cartridge.previous_game();
    assert_eq!(cartridge.get_game_name(), "MAZE");
    assert_eq!(cartridge.game_index, 2);
    cartridge.previous_game();
    assert_eq!(cartridge.get_game_name(), "TETRIS");
}

#[test]
fn game_name_is_trimmed_at_both_ends() {
    let mut cartridge = Cartridge::new();
    for (path, name) in [
        ("assets/PONG.ch8", "PONG"),
        ("assets/assets/a.ch8.ch8", "a"),
        ("PONG", "PONG"),
        (".ch8", ""),
        ("assets/", ""),
        ("assets/.ch8", ""),
        ("roms/assets/x.ch8", "roms/assets/x"),
        ("assets/x.ch8.bak", "x.ch8.bak"),
        ("assets/\u{e9}t\u{e9}.ch8", "\u{e9}t\u{e9}"),
        ("assetsassets/.ch8", "assetsassets/"),
    ] {
        cartridge.choosen_game = path.to_string();
        assert_eq!(cartridge.get_game_name(), name);
    }
}

#[test]
fn emulator_switches() {
    let mut emulator = Emulator::new();
    assert_eq!(emulator.emulator_state, EmulatorState::InMenu);
    assert_eq!(emulator.emulator_choice, EmulatorChoice::LoadRom);
    emulator.switch_state();
    assert_eq!(emulator.emulator_state, EmulatorState::InGame);
    assert_eq!(emulator.emulator_choice, EmulatorChoice::LoadRom);
    emulator.switch_state();
    assert_eq!(emulator.emulator_state, EmulatorState::InMenu);
    emulator.switch_choice();
    assert_eq!(emulator.emulator_choice, EmulatorChoice::Quit);
    emulator.switch_choice();
    assert_eq!(emulator, Emulator::new());
}

#[test]
fn menu_and_game_keys() {
    let mut emulator = Emulator::new();
    assert_eq!(emulator.key_pressed(0x61), HostAction::PreviousGame);
    assert_eq!(emulator.key_pressed(0x4000_0050), HostAction::PreviousGame);
    assert_eq!(emulator.key_pressed(0x64), HostAction::NextGame);
    assert_eq!(emulator.key_pressed(0x4000_004F), HostAction::NextGame);
    assert_eq!(emulator.key_pressed(0x0D), HostAction::StartGame);
    assert_eq!(emulator.key_pressed(0x20), HostAction::StartGame);
    assert_eq!(emulator.key_pressed(0x1B), HostAction::Quit);
    assert_eq!(emulator.key_pressed(0x71), HostAction::Nothing);
    assert!(!emulator.cycle_is_due(1_000_000));
    emulator.switch_state();
    assert_eq!(emulator.key_pressed(0x1B), HostAction::LeaveGame);
    assert_eq!(emulator.key_pressed(0x61), HostAction::PressKey);
    assert_eq!(emulator.key_pressed(0x0D), HostAction::PressKey);
    assert!(emulator.cycle_is_due(1851));
    assert!(!emulator.cycle_is_due(1850));
}

#[test]
fn keypad_layout() {
    let codes = "1234qwerasdfzxcv";
    for (index, c) in codes.chars().enumerate() {
        assert_eq!(keypad_index(c as u32), Some(index as u8));
    }
    assert_eq!(keypad_index('5' as u32), None);
    assert_eq!(keypad_index('Q' as u32), None);
    assert_eq!(keypad_index(0), None);
    assert_eq!(keypad_index(0x4000_0050), None);
}

#[test]
fn keypad_press_and_release() {
    let mut keypad = Keypad::new();
    assert_eq!(*keypad.map_keys(), [false; 16]);
    keypad.presse_key('w' as u32);
    keypad.presse_key('v' as u32);
    keypad.presse_key('p' as u32);
    let mut expected = [false; 16];
    expected[5] = true;
    expected[15] = true;
    assert_eq!(*keypad.map_keys(), expected);
    keypad.release_key('w' as u32);
    keypad.release_key('1' as u32);
    keypad.release_key('p' as u32);
    expected[5] = false;
    assert_eq!(*keypad.map_keys(), expected);
    let mut cpu = Cpu::new();
    cpu.load_key_map(keypad.map_keys());
    assert_eq!(cpu.keypad, expected);
    assert_eq!(cpu.what_key_is_pressed(), Some(15));
}

#[test]
fn audio_starts_one_tone_per_run_of_the_timer() {
    let mut cpu = Cpu::new();
    let mut audio = Audio::new();
    assert_eq!(audio.play(&cpu), None);
    assert!(!audio.playing);
    cpu.sound_timer = 60;
    assert_eq!(audio.calc_audio_duration(&cpu), 999);
    assert_eq!(audio.play(&cpu), Some(999));
    assert!(audio.playing);
    assert_eq!(audio.duration_ms, 999);
    cpu.sound_timer = 30;
    assert_eq!(audio.play(&cpu), None);
    assert!(audio.playing);
    assert_eq!(audio.duration_ms, 999);
    cpu.sound_timer = 0;
    assert_eq!(audio.play(&cpu), None);
    assert!(!audio.playing);
    cpu.sound_timer = 255;
    assert_eq!(audio.play(&cpu), Some(4249));
    cpu.sound_timer = 1;
    assert_eq!(audio.calc_audio_duration(&cpu), 16);
}
