use kernel_heap::colors::{Color, ColorCode};
use kernel_heap::commands::Command;
use kernel_heap::exit_code::QemuExitCode;
use kernel_heap::keyboard::{get_scancode, handle_scancode, KeyAction, BACKSPACE, ENTER};
use kernel_heap::list::List;
use kernel_heap::channel::Channel;
use kernel_heap::cycles::still_waiting;
use kernel_heap::syscalls::{decode_syscall, syscall_result, Syscall};

#[test]
fn color_code_packs_nibbles() {
    assert_eq!(ColorCode::new(Color::Pink, Color::Black).value(), 0x0D);
    assert_eq!(ColorCode::new(Color::LightBlue, Color::Black).value(), 0x09);
    assert_eq!(ColorCode::new(Color::Red, Color::Yellow).value(), 0xE4);
    assert_eq!(
        ColorCode::new(Color::White, Color::Blue),
        ColorCode::new(Color::White, Color::Blue)
    );
}

#[test]
fn set_foreground_keeps_background() {
    let mut c = ColorCode::new(Color::Pink, Color::Blue);
    c.set_foreground(Color::LightRed);
    assert_eq!(c.value(), 0x1C);
}

#[test]
fn set_background_ors_the_new_bits() {
    let mut c = ColorCode::new(Color::Pink, Color::Black);
    c.set_background(Color::Blue);
    assert_eq!(c.value(), 0x1D);
    c.set_background(Color::Green);
    assert_eq!(c.value(), 0x3D);
}

#[test]
fn color_code_from_low_byte() {
    assert_eq!(ColorCode::from(0x1_2Fu64).value(), 0x2F);
}

#[test]
fn scancodes_map_to_characters() {
    assert_eq!(get_scancode(0x02), Some('1'));
    assert_eq!(get_scancode(0x10), Some('q'));
    assert_eq!(get_scancode(ENTER), Some('\n'));
    assert_eq!(get_scancode(BACKSPACE), Some('#'));
    assert_eq!(get_scancode(0x39), Some(' '));
    assert_eq!(get_scancode(0x4B), Some('%'));
    assert_eq!(get_scancode(0x4D), Some('%'));
    assert_eq!(get_scancode(0x2B), Some('\\'));
    assert_eq!(get_scancode(0x01), None);
    assert_eq!(get_scancode(0x9C), None);
}

#[test]
fn commands_parse() {
    assert!(matches!(Command::parse("help"), Command::Help));
    assert!(matches!(Command::parse("version"), Command::Version));
    assert!(matches!(Command::parse("reboot"), Command::Reboot));
    assert!(matches!(Command::parse("shutdown"), Command::Shutdown));
    assert!(matches!(Command::parse("clear"), Command::Clear));
    match Command::parse("hel") {
        Command::Error(s) => assert_eq!(s, "hel"),
        other => panic!("unexpected {:?}", other),
    }
    match Command::parse("") {
        Command::Error(s) => assert_eq!(s, ""),
        other => panic!("unexpected {:?}", other),
    }
}

#[test]
fn typing_a_line_and_submitting() {
    let mut line = String::new();
    for code in [0x23u8, 0x12, 0x26, 0x19] {
        assert!(matches!(handle_scancode(&mut line, code), KeyAction::Echo(_)));
    }
    assert_eq!(line, "help");
    assert!(matches!(handle_scancode(&mut line, 0x01), KeyAction::Ignore));
    assert!(matches!(handle_scancode(&mut line, BACKSPACE), KeyAction::Erase));
    assert_eq!(line, "hel");
    assert!(matches!(handle_scancode(&mut line, 0x19), KeyAction::Echo('p')));
    assert!(matches!(handle_scancode(&mut line, ENTER), KeyAction::Submit(Command::Help)));
    assert_eq!(line, "");
    assert!(matches!(handle_scancode(&mut line, BACKSPACE), KeyAction::Erase));
    assert_eq!(line, "");
}

#[test]
fn exit_codes() {
    assert_eq!(QemuExitCode::Success.code(), 0x10);
    assert_eq!(QemuExitCode::Failed.code(), 0x11);
}

#[test]
fn list_is_a_stack() {
    let mut list = List::new();
    assert_eq!(list.pop(), None);
    list.push(1);
    list.push(2);
    list.push(3);
    assert_eq!(list.peek(), Some(&3));
    if let Some(v) = list.peek_mut() {
        *v = 30;
    }
    assert_eq!(list.pop(), Some(30));
    assert_eq!(list.pop(), Some(2));
    list.push(4);
    assert_eq!(list.pop(), Some(4));
    assert_eq!(list.pop(), Some(1));
    assert_eq!(list.pop(), None);
    assert_eq!(list.peek(), None);
}

#[test]
fn syscalls_decode() {
    match decode_syscall(0, 5, 7, 0x141, 0x1_2F) {
        Syscall::WriteByteAt { row, col, byte, color } => {
            assert_eq!((row, col, byte, color.value()), (7, 5, 0x41, 0x2F));
        }
        other => panic!("unexpected {:?}", other),
    }
    match decode_syscall(1, 3, 4, 0xdead_beef, 0x0E) {
        Syscall::WriteStringAt { row, col, text, color } => {
            assert_eq!((row, col, text, color.value()), (4, 3, 0xdead_beef, 0x0E));
        }
        other => panic!("unexpected {:?}", other),
    }
    assert_eq!(decode_syscall(2, 0, 0, 0, 0), Syscall::Ticks);
    assert_eq!(decode_syscall(0x10, 0, 0, 0, 0), Syscall::HeapSize);
    assert_eq!(decode_syscall(3, 0, 0, 0, 0), Syscall::Unknown);
}

#[test]
fn syscall_results() {
    assert_eq!(syscall_result(Syscall::Ticks, 42), 42);
    assert_eq!(syscall_result(Syscall::HeapSize, 42), 102400);
    assert_eq!(syscall_result(Syscall::Unknown, 42), 0);
    assert_eq!(syscall_result(decode_syscall(0, 1, 2, 3, 4), 42), 0);
}

#[test]
fn waiting_on_cycles() {
    assert!(still_waiting(100, 150, 100));
    assert!(!still_waiting(100, 200, 100));
    assert!(!still_waiting(100, 250, 100));
    assert!(!still_waiting(7, 7, 0));
}

#[test]
fn channel_carries_one_message() {
    let mut channel = Channel::new();
    let (sender, receiver) = channel.split();
    assert!(!receiver.is_ready(&channel));
    sender.send(&mut channel, String::from("hi"));
    assert!(receiver.is_ready(&channel));
    assert_eq!(receiver.receive(&mut channel), "hi");
    let (_, receiver) = channel.split();
    assert!(!receiver.is_ready(&channel));
}
