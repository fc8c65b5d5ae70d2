//! Reading filter parameters from the words of a command.
use vstd::prelude::*;
use vstd::string::*;
use crate::filters::Filter;
use crate::filters::blur::Mode;
use crate::filters::sharpen::SharpenMode;
use crate::filters::threshold::Threshold;
use crate::filters::lighting::Lighting;
use crate::filters::blur::Blur;
use crate::filters::sharpen::Sharpen;
use crate::filters::vignette::Vignette;
use crate::filters::huerotate::Huerotate;
use crate::linalg::clamp;

verus! {

/// A decimal digit.
pub open spec fn is_digit(ch: char) -> bool {
    '0' <= ch <= '9'
}

/// A non-empty run of decimal digits.
pub open spec fn all_digits(s: Seq<char>) -> bool {
    s.len() > 0 && forall|i: int| 0 <= i < s.len() ==> #[trigger] is_digit(s[i])
}

/// The value of a run of decimal digits.
pub open spec fn digits_value(s: Seq<char>) -> int
    decreases s.len(),
{
    if s.len() == 0 {
        0
    } else {
        digits_value(s.drop_last()) * 10 + (s.last() as int - '0' as int)
    }
}

/// The integer a text denotes: an optional `+` or `-`, then digits, and
/// nothing else.
pub open spec fn int_text(s: Seq<char>) -> Option<int> {
    if all_digits(s) {
        Some(digits_value(s))
    } else if s.len() > 0 && s[0] == '+' && all_digits(s.skip(1)) {
        Some(digits_value(s.skip(1)))
    } else if s.len() > 0 && s[0] == '-' && all_digits(s.skip(1)) {
        Some(-digits_value(s.skip(1)))
    } else {
        None
    }
}

/// The `i32` a text denotes, if it denotes one in range.
pub open spec fn i32_text(s: Seq<char>) -> Option<i32> {
    match int_text(s) {
        Some(v) => if i32::MIN <= v <= i32::MAX {
            Some(v as i32)
        } else {
            None
        },
        None => None,
    }
}

/// The boolean a text denotes: `true` or `false`.
pub open spec fn bool_text(s: Seq<char>) -> Option<bool> {
    if s == "true"@ {
        Some(true)
    } else if s == "false"@ {
        Some(false)
    } else {
        None
    }
}

/// A value above every `i32`, at which the running value saturates.
const CAP: i64 = 0x1_0000_0000;

/// The value of the digits of `s` from `start` on, capped at `CAP`, and
/// whether they are all digits and at least one.
fn digits_from(s: &str, start: usize) -> (r: (bool, i64))
    requires
        start <= s@.len(),
    ensures
        r.0 == all_digits(s@.skip(start as int)),
        0 <= r.1 <= CAP,
        r.0 ==> digits_value(s@.skip(start as int)) >= 0,
        r.0 ==> r.1 == (if digits_value(s@.skip(start as int)) > CAP {
            CAP as int
        } else {
            digits_value(s@.skip(start as int))
        }),
{
    let n = s.unicode_len();
    let mut acc: i64 = 0;
    let mut i: usize = start;
    assert(s@.subrange(start as int, start as int) =~= Seq::<char>::empty());
    while i < n
        invariant
            n == s@.len(),
            start <= i <= n,
            forall|k: int| start <= k < i ==> #[trigger] is_digit(s@[k]),
            acc == (if digits_value(s@.subrange(start as int, i as int)) > CAP {
                CAP as int
            } else {
                digits_value(s@.subrange(start as int, i as int))
            }),
            0 <= acc <= CAP,
        decreases n - i,
    {
        let ch = s.get_char(i);
        if !('0' <= ch && ch <= '9') {
            assert(!is_digit(s@.skip(start as int)[i - start]));
            return (false, 0);
        }
        let d = (ch as u32 - '0' as u32) as i64;
        let ghost prev = s@.subrange(start as int, i as int);
        assert(s@.subrange(start as int, i as int + 1).drop_last() =~= prev);
        assert(digits_value(prev) >= 0) by {
            lemma_digits_nonneg(prev);
        }
        let next = acc * 10 + d;
        acc = if next > CAP {
            CAP
        } else {
            next
        };
        i += 1;
    }
    assert(s@.subrange(start as int, n as int) =~= s@.skip(start as int));
    proof {
        lemma_digits_nonneg(s@.skip(start as int));
    }
    (i > start, acc)
}

proof fn lemma_digits_nonneg(s: Seq<char>)
    requires
        forall|i: int| 0 <= i < s.len() ==> #[trigger] is_digit(s[i]),
    ensures
        digits_value(s) >= 0,
    decreases s.len(),
{
    if s.len() > 0 {
        lemma_digits_nonneg(s.drop_last());
        assert(is_digit(s[s.len() - 1]));
    }
}

/// Reads an `i32` in decimal, with an optional sign.
pub fn parse_i32(s: &str) -> (r: Option<i32>)
    ensures
        r == i32_text(s@),
{
    let n = s.unicode_len();
    if n == 0 {
        return None;
    }
    let first = s.get_char(0);
    let (ok, v) = if first == '+' || first == '-' {
        digits_from(s, 1)
    } else {
        digits_from(s, 0)
    };
    assert(s@.skip(0) =~= s@);
    if !ok {
        proof {
            if first == '+' || first == '-' {
                assert(!is_digit(s@[0]));
            }
        }
        return None;
    }
    proof {
        if first == '+' || first == '-' {
            assert(!is_digit(s@[0]));
            assert(!all_digits(s@));
        }
    }
    let signed = if first == '-' {
        -v
    } else {
        v
    };
    if signed < i32::MIN as i64 || signed > i32::MAX as i64 {
        None
    } else {
        Some(signed as i32)
    }
}

/// `s` is the text `lit`.
pub fn text_is(s: &str, lit: &str) -> (r: bool)
    ensures
        r == (s@ == lit@),
{
    let n = s.unicode_len();
    if n != lit.unicode_len() {
        return false;
    }
    let mut i: usize = 0;
    while i < n
        invariant
            n == s@.len(),
            n == lit@.len(),
            i <= n,
            forall|k: int| 0 <= k < i ==> s@[k] == lit@[k],
        decreases n - i,
    {
        if s.get_char(i) != lit.get_char(i) {
            return false;
        }
        i += 1;
    }
    assert(s@ =~= lit@);
    true
}

/// Reads `true` or `false`.
pub fn parse_bool(s: &str) -> (r: Option<bool>)
    ensures
        r == bool_text(s@),
{
    if text_is(s, "true") {
        Some(true)
    } else if text_is(s, "false") {
        Some(false)
    } else {
        None
    }
}

/// The blur mode a word names.
pub open spec fn blur_mode_text(s: Seq<char>) -> Option<Mode> {
    if s == "gaussian"@ {
        Some(Mode::Gaussian)
    } else if s == "box"@ {
        Some(Mode::Box)
    } else if s == "median"@ {
        Some(Mode::Median)
    } else {
        None
    }
}

/// The sharpening mode a word names.
pub open spec fn sharpen_mode_text(s: Seq<char>) -> Option<SharpenMode> {
    if s == "gaussian"@ {
        Some(SharpenMode::Gaussian)
    } else if s == "box"@ {
        Some(SharpenMode::Box)
    } else if s == "median"@ {
        Some(SharpenMode::Median)
    } else if s == "bilateral"@ {
        Some(SharpenMode::Bilateral)
    } else {
        None
    }
}

impl Mode {
    /// The mode named `gaussian`, `box` or `median`.
    pub fn from_name(s: &str) -> (r: Option<Mode>)
        ensures
            r == blur_mode_text(s@),
    {
        if text_is(s, "gaussian") {
            Some(Mode::Gaussian)
        } else if text_is(s, "box") {
            Some(Mode::Box)
        } else if text_is(s, "median") {
            Some(Mode::Median)
        } else {
            None
        }
    }
}

impl SharpenMode {
    /// The mode named `gaussian`, `box`, `median` or `bilateral`.
    pub fn from_name(s: &str) -> (r: Option<SharpenMode>)
        ensures
            r == sharpen_mode_text(s@),
    {
        if text_is(s, "gaussian") {
            Some(SharpenMode::Gaussian)
        } else if text_is(s, "box") {
            Some(SharpenMode::Box)
        } else if text_is(s, "median") {
            Some(SharpenMode::Median)
        } else if text_is(s, "bilateral") {
            Some(SharpenMode::Bilateral)
        } else {
            None
        }
    }
}

impl std::str::FromStr for Mode {
    type Err = String;

    fn from_str(s: &str) -> Result<Mode, String> {
        match Mode::from_name(s) {
            Some(m) => Ok(m),
            None => Err(s.to_owned().concat(" is not a valid blur mode")),
        }
    }
}

impl std::str::FromStr for SharpenMode {
    type Err = String;

    fn from_str(s: &str) -> Result<SharpenMode, String> {
        match SharpenMode::from_name(s) {
            Some(m) => Ok(m),
            None => Err(s.to_owned().concat(" is not a valid sharpening mode")),
        }
    }
}

/// Why the words of a command do not make a filter's parameters.
#[derive(Debug, Clone, Copy, PartialEq, Eq, Structural)]
pub enum ParseError {
    /// No word at this position.
    Missing { position: usize },
    /// The word at this position is no `i32`.
    NotAnInteger { position: usize },
    /// The word at this position is no mode of the filter.
    NotAMode { position: usize },
    /// The word at this position is neither `true` nor `false`.
    NotABool { position: usize },
}

/// The `i32` of word `i`, or the error that it is missing or no integer.
pub open spec fn int_arg(words: Seq<String>, i: int) -> Result<i32, ParseError> {
    if i >= words.len() {
        Err(ParseError::Missing { position: i as usize })
    } else {
        match i32_text(words[i]@) {
            Some(v) => Ok(v),
            None => Err(ParseError::NotAnInteger { position: i as usize }),
        }
    }
}

/// Reads word `i` as an `i32`.
pub fn int_word(words: &Vec<String>, i: usize) -> (r: Result<i32, ParseError>)
    ensures
        r == int_arg(words@, i as int),
{
    if i >= words.len() {
        return Err(ParseError::Missing { position: i });
    }
    match parse_i32(words[i].as_str()) {
        Some(v) => Ok(v),
        None => Err(ParseError::NotAnInteger { position: i }),
    }
}

/// The words of a command turned into a filter's parameters.
pub trait CommandParse: Sized {
    /// What the words give.
    type Args;

    /// Reads the parameters from `command`, the words after the filter's name.
    fn parse(command: Vec<String>) -> Result<Self::Args, ParseError>;
}

impl CommandParse for Threshold {
    type Args = Filter;

    /// `threshold <level>`.
    fn parse(command: Vec<String>) -> (r: Result<Filter, ParseError>)
        ensures
            int_arg(command@, 0) is Err ==> r == Err::<Filter, ParseError>(int_arg(command@, 0)->Err_0),
            int_arg(command@, 0) is Ok ==> (r matches Ok(Filter::Threshold(t)) && t.level() == clamp(
                int_arg(command@, 0)->Ok_0 as int,
                0,
                255,
            )),
    {
        let level = match int_word(&command, 0) {
            Ok(v) => v,
            Err(e) => return Err(e),
        };
        Ok(Filter::Threshold(Threshold::new(level)))
    }
}

impl CommandParse for Lighting {
    type Args = Filter;

    /// `lighting <brightness> <contrast>`.
    fn parse(command: Vec<String>) -> (r: Result<Filter, ParseError>)
        ensures
            int_arg(command@, 0) is Err ==> r == Err::<Filter, ParseError>(int_arg(command@, 0)->Err_0),
            int_arg(command@, 0) is Ok && int_arg(command@, 1) is Err ==> r == Err::<Filter, ParseError>(
                int_arg(command@, 1)->Err_0,
            ),
            int_arg(command@, 0) is Ok && int_arg(command@, 1) is Ok ==> (r matches Ok(Filter::Lighting(l))
                && l.brightness_spec() == clamp(int_arg(command@, 0)->Ok_0 as int, -255, 255)
                && l.contrast_spec() == clamp(int_arg(command@, 1)->Ok_0 as int, -255, 255)),
    {
        let brightness = match int_word(&command, 0) {
            Ok(v) => v,
            Err(e) => return Err(e),
        };
        let contrast = match int_word(&command, 1) {
            Ok(v) => v,
            Err(e) => return Err(e),
        };
        Ok(Filter::Lighting(Lighting::new(brightness, contrast)))
    }
}

/// The blur mode of word `i`, or the error that it is missing or no mode.
pub open spec fn blur_mode_arg(words: Seq<String>, i: int) -> Result<Mode, ParseError> {
    if i >= words.len() {
        Err(ParseError::Missing { position: i as usize })
    } else {
        match blur_mode_text(words[i]@) {
            Some(m) => Ok(m),
            None => Err(ParseError::NotAMode { position: i as usize }),
        }
    }
}

/// The sharpening mode of word `i`, or the error that it is missing or no
/// mode.
pub open spec fn sharpen_mode_arg(words: Seq<String>, i: int) -> Result<SharpenMode, ParseError> {
    if i >= words.len() {
        Err(ParseError::Missing { position: i as usize })
    } else {
        match sharpen_mode_text(words[i]@) {
            Some(m) => Ok(m),
            None => Err(ParseError::NotAMode { position: i as usize }),
        }
    }
}

/// The boolean of word `i`, or the error that it is missing or no boolean.
pub open spec fn bool_arg(words: Seq<String>, i: int) -> Result<bool, ParseError> {
    if i >= words.len() {
        Err(ParseError::Missing { position: i as usize })
    } else {
        match bool_text(words[i]@) {
            Some(b) => Ok(b),
            None => Err(ParseError::NotABool { position: i as usize }),
        }
    }
}

impl CommandParse for Blur {
    type Args = (i32, Mode);

    /// `blur <radius> <gaussian|box|median>`: the radius and the mode.
    fn parse(command: Vec<String>) -> (r: Result<(i32, Mode), ParseError>)
        ensures
            r == match (int_arg(command@, 0), blur_mode_arg(command@, 1)) {
                (Err(e), _) => Err(e),
                (Ok(_), Err(e)) => Err(e),
                (Ok(radius), Ok(mode)) => Ok((radius, mode)),
            },
    {
        let radius = match int_word(&command, 0) {
            Ok(v) => v,
            Err(e) => return Err(e),
        };
        if command.len() < 2 {
            return Err(ParseError::Missing { position: 1 });
        }
        match Mode::from_name(command[1].as_str()) {
            Some(mode) => Ok((radius, mode)),
            None => Err(ParseError::NotAMode { position: 1 }),
        }
    }
}

impl CommandParse for Sharpen {
    type Args = (SharpenMode, i32, bool);

    /// `sharpen <gaussian|box|median|bilateral> <coarse radius> <true|false>`:
    /// the mode, the coarse radius, and whether to render the fine mask alone.
    fn parse(command: Vec<String>) -> (r: Result<(SharpenMode, i32, bool), ParseError>)
        ensures
            r == match (sharpen_mode_arg(command@, 0), int_arg(command@, 1), bool_arg(command@, 2)) {
                (Err(e), _, _) => Err(e),
                (Ok(_), Err(e), _) => Err(e),
                (Ok(_), Ok(_), Err(e)) => Err(e),
                (Ok(mode), Ok(radius), Ok(mask)) => Ok((mode, radius, mask)),
            },
    {
        if command.len() < 1 {
            return Err(ParseError::Missing { position: 0 });
        }
        let mode = match SharpenMode::from_name(command[0].as_str()) {
            Some(m) => m,
            None => return Err(ParseError::NotAMode { position: 0 }),
        };
        let radius = match int_word(&command, 1) {
            Ok(v) => v,
            Err(e) => return Err(e),
        };
        if command.len() < 3 {
            return Err(ParseError::Missing { position: 2 });
        }
        match parse_bool(command[2].as_str()) {
            Some(mask) => Ok((mode, radius, mask)),
            None => Err(ParseError::NotABool { position: 2 }),
        }
    }
}

impl CommandParse for Vignette {
    type Args = (i32, i32);

    /// `vignette <radius> <opacity>`, both in percent.
    fn parse(command: Vec<String>) -> (r: Result<(i32, i32), ParseError>)
        ensures
            r == match (int_arg(command@, 0), int_arg(command@, 1)) {
                (Err(e), _) => Err(e),
                (Ok(_), Err(e)) => Err(e),
                (Ok(radius), Ok(opacity)) => Ok((radius, opacity)),
            },
    {
        let radius = match int_word(&command, 0) {
            Ok(v) => v,
            Err(e) => return Err(e),
        };
        let opacity = match int_word(&command, 1) {
            Ok(v) => v,
            Err(e) => return Err(e),
        };
        Ok((radius, opacity))
    }
}

impl CommandParse for Huerotate {
    type Args = i32;

    /// `huerotate <degrees>`.
    fn parse(command: Vec<String>) -> (r: Result<i32, ParseError>)
        ensures
            r == int_arg(command@, 0),
    {
        int_word(&command, 0)
    }
}

/// The commands of an editing session.
#[derive(Debug, Clone, Copy, PartialEq, Eq, Structural)]
pub enum Command {
    Open,
    Add,
    Remove,
    List,
    Show,
    Close,
    Save,
    Exit,
    Help,
}

/// The command a word names.
pub open spec fn command_text(s: Seq<char>) -> Option<Command> {
    if s == "open"@ {
        Some(Command::Open)
    } else if s == "add"@ {
        Some(Command::Add)
    } else if s == "remove"@ {
        Some(Command::Remove)
    } else if s == "list"@ {
        Some(Command::List)
    } else if s == "show"@ {
        Some(Command::Show)
    } else if s == "close"@ {
        Some(Command::Close)
    } else if s == "save"@ {
        Some(Command::Save)
    } else if s == "exit"@ {
        Some(Command::Exit)
    } else if s == "help"@ {
        Some(Command::Help)
    } else {
        None
    }
}

impl Command {
    pub fn from_name(s: &str) -> (r: Option<Command>)
        ensures
            r == command_text(s@),
    {
        if text_is(s, "open") {
            Some(Command::Open)
        } else if text_is(s, "add") {
            Some(Command::Add)
        } else if text_is(s, "remove") {
            Some(Command::Remove)
        } else if text_is(s, "list") {
            Some(Command::List)
        } else if text_is(s, "show") {
            Some(Command::Show)
        } else if text_is(s, "close") {
            Some(Command::Close)
        } else if text_is(s, "save") {
            Some(Command::Save)
        } else if text_is(s, "exit") {
            Some(Command::Exit)
        } else if text_is(s, "help") {
            Some(Command::Help)
        } else {
            None
        }
    }
}

/// The kinds of filter a command can add.
#[derive(Debug, Clone, Copy, PartialEq, Eq, Structural)]
pub enum FilterKind {
    Sepia,
    Invert,
    Grayscale,
    Threshold,
    Vignette,
    Huerotate,
    Sharpen,
    Lighting,
    Blur,
    Bilateral,
}

/// The kind of filter a word names.
pub open spec fn filter_kind_text(s: Seq<char>) -> Option<FilterKind> {
    if s == "sepia"@ {
        Some(FilterKind::Sepia)
    } else if s == "invert"@ {
        Some(FilterKind::Invert)
    } else if s == "grayscale"@ {
        Some(FilterKind::Grayscale)
    } else if s == "threshold"@ {
        Some(FilterKind::Threshold)
    } else if s == "vignette"@ {
        Some(FilterKind::Vignette)
    } else if s == "huerotate"@ {
        Some(FilterKind::Huerotate)
    } else if s == "sharpen"@ {
        Some(FilterKind::Sharpen)
    } else if s == "lighting"@ {
        Some(FilterKind::Lighting)
    } else if s == "blur"@ {
        Some(FilterKind::Blur)
    } else if s == "bilateral"@ {
        Some(FilterKind::Bilateral)
    } else {
        None
    }
}

impl FilterKind {
    pub fn from_name(s: &str) -> (r: Option<FilterKind>)
        ensures
            r == filter_kind_text(s@),
    {
        if text_is(s, "sepia") {
            Some(FilterKind::Sepia)
        } else if text_is(s, "invert") {
            Some(FilterKind::Invert)
        } else if text_is(s, "grayscale") {
            Some(FilterKind::Grayscale)
        } else if text_is(s, "threshold") {
            Some(FilterKind::Threshold)
        } else if text_is(s, "vignette") {
            Some(FilterKind::Vignette)
        } else if text_is(s, "huerotate") {
            Some(FilterKind::Huerotate)
        } else if text_is(s, "sharpen") {
            Some(FilterKind::Sharpen)
        } else if text_is(s, "lighting") {
            Some(FilterKind::Lighting)
        } else if text_is(s, "blur") {
            Some(FilterKind::Blur)
        } else if text_is(s, "bilateral") {
            Some(FilterKind::Bilateral)
        } else {
            None
        }
    }
}

} // verus!
