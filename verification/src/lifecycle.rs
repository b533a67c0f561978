//! What it takes to start the private display server: its configuration,
//! its command line and environment, and the display number it reports.
//!
//! Forking, executing and reading the pipe happen elsewhere; here are the
//! values that go in and the meaning of what comes out.
use vstd::prelude::*;
use vstd::string::StringExecFns;

verus! {

/// The configuration of the server: one device driven by the injection
/// module, one screen on that device, one layout with that screen.
pub const CONFIG: &'static str =
    "\nSection \"Device\"\n    Identifier  \"winit device\"\n    Driver      \"winit\"\nEndSection\n\nSection \"Screen\"\n    Identifier  \"winit screen\"\n    Device      \"winit device\"\nEndSection\n\nSection \"Serverlayout\"\n    Identifier  \"winit layout\"\n    Screen      \"winit screen\"\nEndSection\n";

/// The server binary that is started when no other is asked for.
pub const DEFAULT_X_PATH: &'static str = "/usr/lib/Xorg";

/// The character of a digit.
pub open spec fn spec_digit_char(digit: nat) -> char
    recommends
        digit < 10,
{
    if digit == 0 {
        '0'
    } else if digit == 1 {
        '1'
    } else if digit == 2 {
        '2'
    } else if digit == 3 {
        '3'
    } else if digit == 4 {
        '4'
    } else if digit == 5 {
        '5'
    } else if digit == 6 {
        '6'
    } else if digit == 7 {
        '7'
    } else if digit == 8 {
        '8'
    } else {
        '9'
    }
}

/// The decimal numeral of `n`, without sign or leading zeros.
pub open spec fn spec_decimal(n: nat) -> Seq<char>
    decreases n,
{
    if n < 10 {
        seq![spec_digit_char(n)]
    } else {
        spec_decimal(n / 10).push(spec_digit_char(n % 10))
    }
}

fn digit_str(digit: u32) -> (text: &'static str)
    requires
        digit < 10,
    ensures
        text@ == seq![spec_digit_char(digit as nat)],
{
    proof {
        reveal_strlit("0");
        reveal_strlit("1");
        reveal_strlit("2");
        reveal_strlit("3");
        reveal_strlit("4");
        reveal_strlit("5");
        reveal_strlit("6");
        reveal_strlit("7");
        reveal_strlit("8");
        reveal_strlit("9");
    }
    let text = if digit == 0 {
        "0"
    } else if digit == 1 {
        "1"
    } else if digit == 2 {
        "2"
    } else if digit == 3 {
        "3"
    } else if digit == 4 {
        "4"
    } else if digit == 5 {
        "5"
    } else if digit == 6 {
        "6"
    } else if digit == 7 {
        "7"
    } else if digit == 8 {
        "8"
    } else {
        "9"
    };
    assert(text@ =~= seq![spec_digit_char(digit as nat)]);
    text
}

/// Writes `n` as a decimal numeral.
pub fn decimal(n: u32) -> (text: String)
    ensures
        text@ == spec_decimal(n as nat),
{
    let mut text = String::from_str(digit_str(n % 10));
    let mut rest: u32 = n / 10;
    // What is written so far is the numeral of `n` with the numeral of
    // `rest` cut off its front.
    assert(spec_decimal(n as nat) =~= if rest == 0 {
        text@
    } else {
        spec_decimal(rest as nat) + text@
    });
    while rest > 0
        invariant
            text@.len() > 0,
            spec_decimal(n as nat) == if rest == 0 {
                text@
            } else {
                spec_decimal(rest as nat) + text@
            },
        decreases rest,
    {
        let ghost before = text@;
        text = String::from_str(digit_str(rest % 10)).concat(text.as_str());
        proof {
            let digit = seq![spec_digit_char((rest % 10) as nat)];
            assert(text@ == digit + before);
            if rest / 10 == 0 {
                assert(spec_decimal(rest as nat) =~= digit);
            } else {
                assert(spec_decimal(rest as nat) =~= spec_decimal((rest / 10) as nat) + digit);
                assert((spec_decimal((rest / 10) as nat) + digit) + before =~= spec_decimal(
                    (rest / 10) as nat,
                ) + (digit + before));
            }
        }
        rest = rest / 10;
    }
    text
}

/// The name under which a display is connected to: a colon and its number.
pub open spec fn spec_display_name(display: u32) -> Seq<char> {
    ":"@ + spec_decimal(display as nat)
}

/// Returns the name under which display number `display` is connected to.
pub fn display_name(display: u32) -> (name: String)
    ensures
        name@ == spec_display_name(display),
{
    String::from_str(":").concat(decimal(display).as_str())
}

/// The module path of the server: its own default path, then the directory
/// in which the injection module is installed below `root`.
pub open spec fn spec_module_search_path(default_path: Seq<char>, root: Seq<char>) -> Seq<char> {
    default_path + ","@ + root + "/x11-module/install"@
}

/// Returns the module path of the server.
pub fn module_search_path(default_path: &str, root: &str) -> (path: String)
    ensures
        path@ == spec_module_search_path(default_path@, root@),
{
    String::from_str(default_path).concat(",").concat(root).concat("/x11-module/install")
}

/// The paths and descriptors that the command line of the server names.
pub struct ServerSetup {
    /// The server binary.
    pub x_path: String,
    /// The configuration file.
    pub config_file: String,
    /// The directory for further configuration.
    pub config_dir: String,
    /// The module path, see [`module_search_path`].
    pub modules: String,
    /// The log file.
    pub log_file: String,
    /// The descriptor on which the server reports its display number.
    pub display_fd: u32,
}

impl ServerSetup {
    /// The command line of the server.
    pub open spec fn spec_arguments(self) -> Seq<Seq<char>> {
        seq![
            self.x_path@,
            "-config"@,
            self.config_file@,
            "-configdir"@,
            self.config_dir@,
            "-modulepath"@,
            self.modules@,
            "-seat"@,
            "winit-seat"@,
            "-logfile"@,
            self.log_file@,
            "-noreset"@,
            "-displayfd"@,
            spec_decimal(self.display_fd as nat),
        ]
    }

    /// Returns the command line of the server: the binary, its
    /// configuration, its seat, its log, and the descriptor to report the
    /// display number on, passed by number.
    pub fn arguments(&self) -> (arguments: Vec<String>)
        ensures
            arguments@.map_values(|a: String| a@) == self.spec_arguments(),
    {
        let mut arguments: Vec<String> = Vec::new();
        arguments.push(self.x_path.clone());
        arguments.push(String::from_str("-config"));
        arguments.push(self.config_file.clone());
        arguments.push(String::from_str("-configdir"));
        arguments.push(self.config_dir.clone());
        arguments.push(String::from_str("-modulepath"));
        arguments.push(self.modules.clone());
        arguments.push(String::from_str("-seat"));
        arguments.push(String::from_str("winit-seat"));
        arguments.push(String::from_str("-logfile"));
        arguments.push(self.log_file.clone());
        arguments.push(String::from_str("-noreset"));
        arguments.push(String::from_str("-displayfd"));
        arguments.push(decimal(self.display_fd));
        assert(arguments@.map_values(|a: String| a@) =~= self.spec_arguments());
        arguments
    }
}

/// The environment of the server: home and search path of the caller, and
/// the descriptor of the injection channel, passed by number.
pub open spec fn spec_environment(home: Seq<char>, path: Seq<char>, socket_fd: u32) -> Seq<
    Seq<char>,
> {
    seq![
        "HOME="@ + home,
        "PATH="@ + path,
        "WINIT_IT_SOCKET="@ + spec_decimal(socket_fd as nat),
    ]
}

/// Returns the environment of the server.
pub fn environment(home: &str, path: &str, socket_fd: u32) -> (environment: Vec<String>)
    ensures
        environment@.map_values(|e: String| e@) == spec_environment(home@, path@, socket_fd),
{
    let mut environment: Vec<String> = Vec::new();
    environment.push(String::from_str("HOME=").concat(home));
    environment.push(String::from_str("PATH=").concat(path));
    environment.push(String::from_str("WINIT_IT_SOCKET=").concat(decimal(socket_fd).as_str()));
    assert(environment@.map_values(|e: String| e@) =~= spec_environment(home@, path@, socket_fd));
    environment
}

/// Whether a byte is ASCII white space.
pub open spec fn spec_is_space(byte: u8) -> bool {
    byte == 0x20 || (0x09 <= byte <= 0x0d)
}

/// Whether a byte is an ASCII digit.
pub open spec fn spec_is_digit(byte: u8) -> bool {
    0x30 <= byte <= 0x39
}

/// The number that the digits `digits` spell.
pub open spec fn spec_digits_value(digits: Seq<u8>) -> nat
    decreases digits.len(),
{
    if digits.len() == 0 {
        0
    } else {
        spec_digits_value(digits.drop_last()) * 10 + (digits.last() - 0x30) as nat
    }
}

/// Index of the first byte at or after `from` that is not white space, or
/// the length of `bytes`.
pub open spec fn spec_skip_space(bytes: Seq<u8>, from: int) -> int
    decreases bytes.len() - from,
{
    if from < 0 || from >= bytes.len() {
        bytes.len() as int
    } else if spec_is_space(bytes[from]) {
        spec_skip_space(bytes, from + 1)
    } else {
        from
    }
}

/// The end of the part of `bytes` before `to` without trailing white space,
/// not below `floor`.
pub open spec fn spec_trim_end(bytes: Seq<u8>, floor: int, to: int) -> int
    decreases to - floor,
{
    if to <= floor || to > bytes.len() {
        floor
    } else if spec_is_space(bytes[to - 1]) {
        spec_trim_end(bytes, floor, to - 1)
    } else {
        to
    }
}

/// `bytes` without the white space at either end.
pub open spec fn spec_trimmed(bytes: Seq<u8>) -> Seq<u8> {
    let start = spec_skip_space(bytes, 0);
    bytes.subrange(start, spec_trim_end(bytes, start, bytes.len() as int))
}

/// The display number that the server has written: a decimal number of at
/// least one digit that fits 32 bits, with an optional plus sign in front
/// and optional white space around it. Anything else is no display number.
pub open spec fn spec_parse_display(bytes: Seq<u8>) -> Option<u32> {
    let text = spec_trimmed(bytes);
    if text.len() > 0 && text[0] == 0x2b {
        spec_number(text.skip(1))
    } else {
        spec_number(text)
    }
}

/// Whether all of `digits` are digits.
pub open spec fn spec_all_digits(digits: Seq<u8>) -> bool {
    forall|i: int| 0 <= i < digits.len() ==> spec_is_digit(#[trigger] digits[i])
}

/// The number that `digits` spell, if they are digits, at least one, and
/// the number fits 32 bits.
pub open spec fn spec_number(digits: Seq<u8>) -> Option<u32> {
    if digits.len() > 0 && spec_all_digits(digits) && spec_digits_value(digits) <= u32::MAX {
        Some(spec_digits_value(digits) as u32)
    } else {
        None
    }
}

/// Adding a digit makes a number no smaller.
proof fn lemma_digits_value_grows(digits: Seq<u8>, shorter: int)
    requires
        0 <= shorter <= digits.len(),
        spec_all_digits(digits),
    ensures
        spec_digits_value(digits.take(shorter)) <= spec_digits_value(digits),
    decreases digits.len() - shorter,
{
    if shorter < digits.len() {
        let next = digits.take(shorter + 1);
        assert(next.drop_last() =~= digits.take(shorter));
        assert(next.last() == digits[shorter]);
        lemma_digits_value_grows(digits, shorter + 1);
    } else {
        assert(digits.take(shorter) =~= digits);
    }
}

/// Reads the display number that the server has written to its pipe.
pub fn parse_display(bytes: &[u8]) -> (display: Option<u32>)
    ensures
        display == spec_parse_display(bytes@),
{
    let len = bytes.len();
    let mut start: usize = 0;
    while start < len && is_space(bytes[start])
        invariant
            start <= len,
            len == bytes@.len(),
            spec_skip_space(bytes@, 0) == spec_skip_space(bytes@, start as int),
        decreases len - start,
    {
        start = start + 1;
    }
    let mut end: usize = len;
    while end > start && is_space(bytes[end - 1])
        invariant
            start <= end <= len,
            len == bytes@.len(),
            spec_trim_end(bytes@, start as int, len as int) == spec_trim_end(
                bytes@,
                start as int,
                end as int,
            ),
        decreases end - start,
    {
        end = end - 1;
    }
    assert(start == spec_skip_space(bytes@, 0));
    assert(end == spec_trim_end(bytes@, start as int, len as int));
    let ghost text = bytes@.subrange(start as int, end as int);
    assert(text == spec_trimmed(bytes@));
    let first: usize = if start < end && bytes[start] == 0x2b {
        start + 1
    } else {
        start
    };
    let ghost digits = bytes@.subrange(first as int, end as int);
    proof {
        if text.len() > 0 && text[0] == 0x2b {
            assert(digits =~= text.skip(1));
        } else {
            assert(digits =~= text);
        }
    }
    assert(spec_parse_display(bytes@) == spec_number(digits));
    if first == end {
        return None;
    }
    let mut value: u32 = 0;
    let mut i: usize = first;
    assert(digits.take(0) =~= Seq::<u8>::empty());
    while i < end
        invariant
            first <= i <= end <= len,
            len == bytes@.len(),
            digits == bytes@.subrange(first as int, end as int),
            spec_parse_display(bytes@) == spec_number(digits),
            forall|j: int| 0 <= j < i - first ==> spec_is_digit(#[trigger] digits[j]),
            value == spec_digits_value(digits.take(i - first)),
        decreases end - i,
    {
        let byte = bytes[i];
        assert(byte == digits[i - first]);
        if !(0x30 <= byte && byte <= 0x39) {
            assert(!spec_is_digit(digits[i - first]));
            return None;
        }
        let digit: u32 = (byte - 0x30) as u32;
        proof {
            let next = digits.take(i - first + 1);
            assert(next.drop_last() =~= digits.take(i - first));
            assert(next.last() == byte);
            assert(spec_digits_value(next) == value * 10 + digit);
        }
        if value > (u32::MAX - digit) / 10 {
            proof {
                // The prefix read so far already exceeds the range; if all
                // digits are digits, the whole is no smaller.
                if spec_all_digits(digits) {
                    lemma_digits_value_grows(digits, i - first + 1);
                }
            }
            return None;
        }
        value = value * 10 + digit;
        i = i + 1;
    }
    assert(digits.take(digits.len() as int) =~= digits);
    Some(value)
}

/// Returns whether a byte is ASCII white space.
pub fn is_space(byte: u8) -> (space: bool)
    ensures
        space == spec_is_space(byte),
{
    byte == 0x20 || (0x09 <= byte && byte <= 0x0d)
}

} // verus!
