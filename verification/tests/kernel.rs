use rcore::lkm::{cstr_to_str, virtual_area_range, LinearManager};
use rcore::logging::{init, level_to_color_code, log, print, print_in_color, push_decimal, Level, LevelFilter};
use rcore::memory::{enlarge_heap_runs, frame_addr, frame_id, phys_to_virt, virt_to_phys, KernelStack, MemoryAttr};
use rcore::syscall::time::Duration;
use rcore::trap::{serial, timer, Ticks, Timer};
use rcore::util::color::ConsoleColor;
use rcore::util::escape_parser::{CharacterAttribute, EscapeParser, CSI};

fn feed(p: &mut EscapeParser, bytes: &[u8]) -> Vec<CSI> {
    let mut out = Vec::new();
    for &b in bytes {
        if !p.is_parsing() {
            if b == 0x1b {
                p.start_parse();
            }
        } else if let Some(c) = p.parse(b) {
            out.push(c);
        }
    }
    out
}

#[test]
fn console_codes_round_trip() {
    assert_eq!(ConsoleColor::Red.to_console_code(), 31);
    assert_eq!(ConsoleColor::BrightWhite.to_console_code(), 97);
    for code in 0u8..=255 {
        match ConsoleColor::from_console_code(code) {
            Some(c) => assert_eq!(c.to_console_code(), code),
            None => assert!(!((30..=37).contains(&code) || (90..=97).contains(&code))),
        }
    }
}

#[test]
fn sgr_sets_foreground_and_background() {
    let mut p = EscapeParser::new();
    let csis = feed(&mut p, b"\x1b[31;42m");
    assert_eq!(csis, vec![CSI::SGR]);
    let a = p.char_attribute();
    assert_eq!(a.foreground, ConsoleColor::Red);
    assert_eq!(a.background, ConsoleColor::Green);
    assert!(!a.underline);
}

#[test]
fn sgr_without_parameters_resets() {
    let mut p = EscapeParser::new();
    feed(&mut p, b"\x1b[4;94m");
    let a = p.char_attribute();
    assert!(a.underline);
    assert_eq!(a.foreground, ConsoleColor::BrightBlue);
    feed(&mut p, b"\x1b[m");
    assert_eq!(p.char_attribute(), CharacterAttribute::default());
    assert!(!p.is_parsing());
}

#[test]
fn cursor_moves() {
    let mut p = EscapeParser::new();
    assert_eq!(feed(&mut p, b"\x1b[3A"), vec![CSI::CursorMove(-3, 0)]);
    assert_eq!(feed(&mut p, b"\x1b[B"), vec![CSI::CursorMove(1, 0)]);
    assert_eq!(feed(&mut p, b"\x1b[2D"), vec![CSI::CursorMove(0, -2)]);
    assert_eq!(feed(&mut p, b"\x1b[5F"), vec![CSI::CursorMoveLine(-5)]);
    assert_eq!(feed(&mut p, b"\x1b[1J"), vec![CSI::Unknown]);
    assert_eq!(CSI::new(0x43, &[7]), CSI::CursorMove(0, 7));
    assert_eq!(CSI::new(0x45, &[]), CSI::CursorMoveLine(1));
}

#[test]
fn escape_without_bracket_ends_sequence() {
    let mut p = EscapeParser::new();
    assert!(feed(&mut p, b"\x1bX").is_empty());
    assert!(!p.is_parsing());
    assert_eq!(p.char_attribute(), CharacterAttribute::default());
}

#[test]
fn apply_sgr_codes() {
    let mut a = CharacterAttribute::default();
    a.apply_sgr(7);
    a.apply_sgr(9);
    a.apply_sgr(103);
    assert!(a.reverse && a.strikethrough);
    assert_eq!(a.background, ConsoleColor::BrightYellow);
    a.apply_sgr(27);
    a.apply_sgr(29);
    assert!(!a.reverse && !a.strikethrough);
    a.apply_sgr(0);
    assert_eq!(a, CharacterAttribute::default());
}

#[test]
fn log_level_from_setting() {
    assert_eq!(init(Some(b"info")), LevelFilter::Info);
    assert_eq!(init(Some(b"trace")), LevelFilter::Trace);
    assert_eq!(init(Some(b"error")), LevelFilter::Error);
    assert_eq!(init(Some(b"warn")), LevelFilter::Warn);
    assert_eq!(init(Some(b"debug")), LevelFilter::Debug);
    assert_eq!(init(Some(b"verbose")), LevelFilter::Off);
    assert_eq!(init(None), LevelFilter::Off);
}

#[test]
fn level_colors() {
    assert_eq!(level_to_color_code(Level::Error), 31);
    assert_eq!(level_to_color_code(Level::Warn), 93);
    assert_eq!(level_to_color_code(Level::Info), 34);
    assert_eq!(level_to_color_code(Level::Debug), 32);
    assert_eq!(level_to_color_code(Level::Trace), 90);
}

#[test]
fn decimal_and_color_output() {
    let mut v = Vec::new();
    push_decimal(&mut v, 0);
    push_decimal(&mut v, 4096);
    assert_eq!(v, b"04096".to_vec());
    let mut out = Vec::new();
    print(&mut out, b"hi ");
    print_in_color(&mut out, b"there", 31);
    assert_eq!(out, b"hi \x1b[31mthere\x1b[0m".to_vec());
}

#[test]
fn log_lines() {
    let mut out = Vec::new();
    log(&mut out, Level::Error, Some(5), b"tgt", b"msg");
    assert_eq!(out, b"\x1b[31m[ERROR][5][tgt] msg\n\x1b[0m".to_vec());
    let mut out = Vec::new();
    log(&mut out, Level::Info, None, b"k", b"up");
    assert_eq!(out, b"\x1b[34m[ INFO][-][k] up\n\x1b[0m".to_vec());
}

#[test]
fn ticks_wrap_and_count_cpus() {
    let mut t = Ticks::new();
    t.do_tick(0);
    t.do_tick(1);
    t.do_tick(0);
    assert_eq!(t.wall_tick(), 2);
    assert_eq!(t.cpu_tick(), 3);
    assert_eq!(t.uptime_msec(10_000), 20);
    let mut w = Ticks { tick: usize::MAX, tick_all_processors: usize::MAX };
    w.do_tick(0);
    assert_eq!(w.wall_tick(), 0);
    assert_eq!(w.cpu_tick(), 0);
}

#[test]
fn timer_wakes_due_in_order() {
    let mut ticks = Ticks::new();
    let mut q = Timer::new();
    q.add(Duration::new(2, 0), 20);
    q.add(Duration::new(1, 500), 10);
    q.add(Duration::new(5, 0), 50);
    q.add(Duration::new(0, 2_000_000_000), 21);
    let woken = timer(&mut ticks, &mut q, 0, Duration::new(2, 0));
    assert_eq!(woken, vec![10, 20, 21]);
    assert_eq!(q.events.len(), 1);
    assert_eq!(q.events[0].waker, 50);
    assert_eq!(ticks.wall_tick(), 1);
    let none = q.expire(Duration::new(4, 999_999_999));
    assert!(none.is_empty());
    assert_eq!(q.expire(Duration::new(5, 0)), vec![50]);
    assert!(q.events.is_empty());
}

#[test]
fn serial_turns_return_into_newline() {
    assert_eq!(serial(b'\r'), b'\n');
    assert_eq!(serial(b'a'), b'a');
    assert_eq!(serial(b'\n'), b'\n');
}

#[test]
fn frame_arithmetic() {
    assert_eq!(frame_addr(3, 0x8000_0000), 0x8000_3000);
    assert_eq!(frame_id(0x8000_3fff, 0x8000_0000), 3);
    assert_eq!(phys_to_virt(0x1000, 0xffff_8000_0000_0000), 0xffff_8000_0000_1000);
    assert_eq!(virt_to_phys(0xffff_8000_0000_1000, 0xffff_8000_0000_0000), 0x1000);
    assert_eq!(KernelStack(0x10000).top(), 0x14000);
    let a = MemoryAttr::default().user().writable();
    let b = MemoryAttr::default().writable().user();
    assert!(a == b);
}

#[test]
fn heap_runs_group_adjacent_pages() {
    let vas = vec![0x9000, 0x8000, 0x7000, 0x20000, 0x1f000, 0x5000];
    let runs = enlarge_heap_runs(&vas);
    assert_eq!(runs, vec![(0x7000, 0x3000), (0x1f000, 0x2000), (0x5000, 0x1000)]);
    assert!(enlarge_heap_runs(&Vec::new()).is_empty());
}

#[test]
fn module_strings() {
    assert_eq!(cstr_to_str(b"hello\0world", 64), "hello");
    assert_eq!(cstr_to_str(b"\0", 1), "");
    assert_eq!(cstr_to_str(b"abc\0", 4), "abc");
}

#[test]
fn linear_manager_hands_out_pages() {
    let mut m = LinearManager::new();
    assert_eq!(m.allocate(1, 0xe000_0000), Some((0xe000_0000, 0x1000)));
    assert_eq!(m.allocate(0x1001, 0xe000_0000), Some((0xe000_1000, 0x2000)));
    m.free((0xe000_1000, 0x2000));
    assert_eq!(m.allocate(0, 0xe000_0000), Some((0xe000_3000, 0)));
    assert_eq!(m.last_page, 3);
}

#[test]
fn virtual_area_covers_pages() {
    assert_eq!(virtual_area_range(0x1234, 0x10), (0x1000, 0x2000));
    assert_eq!(virtual_area_range(0x1000, 0x1000), (0x1000, 0x2000));
    assert_eq!(virtual_area_range(0x1fff, 2), (0x1000, 0x3000));
}

#[test]
fn timer_keeps_deadline_order() {
    let mut q = Timer::new();
    q.add(Duration::new(3, 0), 1);
    q.add(Duration::new(1, 0), 2);
    q.add(Duration::new(3, 0), 3);
    q.add(Duration::new(2, 0), 4);
    let order: Vec<usize> = q.events.iter().map(|e| e.waker).collect();
    assert_eq!(order, vec![2, 4, 1, 3]);
    assert_eq!(q.expire(Duration::new(3, 0)), vec![2, 4, 1, 3]);
    assert!(q.events.is_empty());
}
