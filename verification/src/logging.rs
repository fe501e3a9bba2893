//! The kernel log: levels, the level filter read from the build, and the
//! colored lines that the console shows.

use vstd::prelude::*;

verus! {

/// The level of a log record.
#[derive(Debug, Clone, Copy, PartialEq, Eq, Structural)]
pub enum Level {
    Error,
    Warn,
    Info,
    Debug,
    Trace,
}

/// The most verbose level that is shown.
#[derive(Debug, Clone, Copy, PartialEq, Eq, Structural)]
pub enum LevelFilter {
    Off,
    Error,
    Warn,
    Info,
    Debug,
    Trace,
}

/// The filter that the `LOG` setting names: `error`, `warn`, `info`,
/// `debug` or `trace`; anything else, or none, turns the log off.
pub open spec fn level_filter_spec(setting: Option<Seq<u8>>) -> LevelFilter {
    match setting {
        Some(s) => if s == seq![0x65u8, 0x72, 0x72, 0x6f, 0x72] {
            LevelFilter::Error
        } else if s == seq![0x77u8, 0x61, 0x72, 0x6e] {
            LevelFilter::Warn
        } else if s == seq![0x69u8, 0x6e, 0x66, 0x6f] {
            LevelFilter::Info
        } else if s == seq![0x64u8, 0x65, 0x62, 0x75, 0x67] {
            LevelFilter::Debug
        } else if s == seq![0x74u8, 0x72, 0x61, 0x63, 0x65] {
            LevelFilter::Trace
        } else {
            LevelFilter::Off
        },
        None => LevelFilter::Off,
    }
}

fn bytes_eq(a: &[u8], b: &[u8]) -> (r: bool)
    ensures
        r == (a@ == b@),
{
    if a.len() != b.len() {
        return false;
    }
    let mut i: usize = 0;
    while i < a.len()
        invariant
            i <= a@.len(),
            a@.len() == b@.len(),
            forall|j: int| 0 <= j < i ==> a@[j] == b@[j],
        decreases a@.len() - i,
    {
        if a[i] != b[i] {
            return false;
        }
        i = i + 1;
    }
    assert(a@ =~= b@);
    true
}

/// `init`'s choice of the maximum level from the `LOG` setting of the
/// build.
pub fn init(setting: Option<&[u8]>) -> (f: LevelFilter)
    ensures
        f == level_filter_spec(
            match setting {
                Some(s) => Some(s@),
                None => None,
            },
        ),
{
    match setting {
        Some(s) => {
            let error: [u8; 5] = [0x65, 0x72, 0x72, 0x6f, 0x72];
            let warn: [u8; 4] = [0x77, 0x61, 0x72, 0x6e];
            let info: [u8; 4] = [0x69, 0x6e, 0x66, 0x6f];
            let debug: [u8; 5] = [0x64, 0x65, 0x62, 0x75, 0x67];
            let trace: [u8; 5] = [0x74, 0x72, 0x61, 0x63, 0x65];
            assert(error@ =~= seq![0x65u8, 0x72, 0x72, 0x6f, 0x72]);
            assert(warn@ =~= seq![0x77u8, 0x61, 0x72, 0x6e]);
            assert(info@ =~= seq![0x69u8, 0x6e, 0x66, 0x6f]);
            assert(debug@ =~= seq![0x64u8, 0x65, 0x62, 0x75, 0x67]);
            assert(trace@ =~= seq![0x74u8, 0x72, 0x61, 0x63, 0x65]);
            if bytes_eq(s, error.as_slice()) {
                LevelFilter::Error
            } else if bytes_eq(s, warn.as_slice()) {
                LevelFilter::Warn
            } else if bytes_eq(s, info.as_slice()) {
                LevelFilter::Info
            } else if bytes_eq(s, debug.as_slice()) {
                LevelFilter::Debug
            } else if bytes_eq(s, trace.as_slice()) {
                LevelFilter::Trace
            } else {
                LevelFilter::Off
            }
        },
        None => LevelFilter::Off,
    }
}

/// The SGR color of a level: red, bright yellow, blue, green, bright black.
pub open spec fn level_color(level: Level) -> u8 {
    match level {
        Level::Error => 31,
        Level::Warn => 93,
        Level::Info => 34,
        Level::Debug => 32,
        Level::Trace => 90,
    }
}

pub fn level_to_color_code(level: Level) -> (c: u8)
    ensures
        c == level_color(level),
{
    match level {
        Level::Error => 31,
        Level::Warn => 93,
        Level::Info => 34,
        Level::Debug => 32,
        Level::Trace => 90,
    }
}

/// The decimal digits of `n`.
pub open spec fn decimal(n: nat) -> Seq<u8>
    decreases n,
{
    if n < 10 {
        seq![(48 + n) as u8]
    } else {
        decimal(n / 10).push((48 + n % 10) as u8)
    }
}

/// Appends the decimal digits of `n`.
pub fn push_decimal(v: &mut Vec<u8>, n: usize)
    ensures
        final(v)@ == old(v)@ + decimal(n as nat),
    decreases n,
{
    if n >= 10 {
        push_decimal(v, n / 10);
    }
    v.push((48 + n % 10) as u8);
    proof {
        if n >= 10 {
            assert(final(v)@ =~= old(v)@ + decimal(n as nat));
        } else {
            assert(final(v)@ =~= old(v)@ + decimal(n as nat));
        }
    }
}

/// `text` between the escape that sets color `color_code` and the one
/// that resets it.
pub open spec fn colored(text: Seq<u8>, color_code: u8) -> Seq<u8> {
    seq![0x1bu8, 0x5b] + decimal(color_code as nat) + seq![0x6du8] + text + seq![0x1bu8, 0x5b, 0x30, 0x6d]
}

/// Prints `text` to the console `out`.
pub fn print(out: &mut Vec<u8>, text: &[u8])
    ensures
        final(out)@ == old(out)@ + text@,
{
    let mut i: usize = 0;
    while i < text.len()
        invariant
            i <= text@.len(),
            out@ == old(out)@ + text@.take(i as int),
        decreases text@.len() - i,
    {
        out.push(text[i]);
        proof {
            assert(out@ =~= old(out)@ + text@.take(i + 1));
        }
        i = i + 1;
    }
    proof {
        assert(text@.take(text@.len() as int) =~= text@);
    }
}

/// Prints `text` in color `color_code`.
pub fn print_in_color(out: &mut Vec<u8>, text: &[u8], color_code: u8)
    ensures
        final(out)@ == old(out)@ + colored(text@, color_code),
{
    out.push(0x1b);
    out.push(0x5b);
    push_decimal(out, color_code as usize);
    out.push(0x6d);
    print(out, text);
    out.push(0x1b);
    out.push(0x5b);
    out.push(0x30);
    out.push(0x6d);
    assert(out@ =~= old(out)@ + colored(text@, color_code));
}

/// The name of a level, right-aligned in five columns.
pub open spec fn level_name(level: Level) -> Seq<u8> {
    match level {
        Level::Error => seq![0x45u8, 0x52, 0x52, 0x4f, 0x52],
        Level::Warn => seq![0x20u8, 0x57, 0x41, 0x52, 0x4e],
        Level::Info => seq![0x20u8, 0x49, 0x4e, 0x46, 0x4f],
        Level::Debug => seq![0x44u8, 0x45, 0x42, 0x55, 0x47],
        Level::Trace => seq![0x54u8, 0x52, 0x41, 0x43, 0x45],
    }
}

fn level_name_bytes(level: Level) -> (v: Vec<u8>)
    ensures
        v@ == level_name(level),
{
    let v = match level {
        Level::Error => vec![0x45u8, 0x52, 0x52, 0x4f, 0x52],
        Level::Warn => vec![0x20u8, 0x57, 0x41, 0x52, 0x4e],
        Level::Info => vec![0x20u8, 0x49, 0x4e, 0x46, 0x4f],
        Level::Debug => vec![0x44u8, 0x45, 0x42, 0x55, 0x47],
        Level::Trace => vec![0x54u8, 0x52, 0x41, 0x43, 0x45],
    };
    assert(v@ =~= level_name(level));
    v
}

/// A log line: `[level][tid][target] message` and a newline, with `-`
/// where no thread runs.
pub open spec fn log_line(level: Level, tid: Option<usize>, target: Seq<u8>, message: Seq<u8>) -> Seq<u8> {
    seq![0x5bu8] + level_name(level) + seq![0x5du8, 0x5b] + match tid {
        Some(t) => decimal(t as nat),
        None => seq![0x2du8],
    } + seq![0x5du8, 0x5b] + target + seq![0x5du8, 0x20] + message + seq![0x0au8]
}

/// Logs a record: its line in the color of its level.
pub fn log(out: &mut Vec<u8>, level: Level, tid: Option<usize>, target: &[u8], message: &[u8])
    ensures
        final(out)@ == old(out)@ + colored(log_line(level, tid, target@, message@), level_color(level)),
{
    let mut line: Vec<u8> = Vec::new();
    line.push(0x5b);
    let name = level_name_bytes(level);
    print(&mut line, name.as_slice());
    line.push(0x5d);
    line.push(0x5b);
    match tid {
        Some(t) => push_decimal(&mut line, t),
        None => line.push(0x2d),
    }
    line.push(0x5d);
    line.push(0x5b);
    print(&mut line, target);
    line.push(0x5d);
    line.push(0x20);
    print(&mut line, message);
    line.push(0x0a);
    assert(line@ =~= log_line(level, tid, target@, message@));
    print_in_color(out, line.as_slice(), level_to_color_code(level));
}

} // verus!
