//! Turning one event into one line: bracketed colored text, or a JSON object.

use vstd::prelude::*;
use owo_colors::OwoColorize;
use crate::severity::{Severity, tag_text};
use crate::text::{digit_char, padded_decimal, push_char};
use crate::timestamp::{DateTime, day_first_text, lemma_day_first_shape, stamp_shaped, iso_text, format_day_first, format_iso, year_text, two, clock_text};

verus! {

/// The terminal foreground colors that a plain-text line uses.
#[derive(Clone, Copy, Debug, PartialEq, Eq, Structural)]
pub enum Color {
    BrightBlack,
    BrightBlue,
    BrightMagenta,
    Red,
    Yellow,
    Cyan,
    Green,
    Magenta,
}

pub open spec fn esc() -> char {
    '\x1b'
}

/// The SGR parameter that selects a color.
pub open spec fn color_code(c: Color) -> Seq<char> {
    match c {
        Color::BrightBlack => seq!['9', '0'],
        Color::BrightBlue => seq!['9', '4'],
        Color::BrightMagenta => seq!['9', '5'],
        Color::Red => seq!['3', '1'],
        Color::Yellow => seq!['3', '3'],
        Color::Cyan => seq!['3', '6'],
        Color::Green => seq!['3', '2'],
        Color::Magenta => seq!['3', '5'],
    }
}

/// `text` between the escape that selects `c` and the one that restores
/// the default foreground.
pub open spec fn painted(c: Color, text: Seq<char>) -> Seq<char> {
    seq![esc(), '['] + color_code(c) + seq!['m'] + text + seq![esc(), '[', '3', '9', 'm']
}

/// The color of each level tag.
pub open spec fn level_color(s: Severity) -> Color {
    match s {
        Severity::Error => Color::Red,
        Severity::Warn => Color::Yellow,
        Severity::Info => Color::Cyan,
        Severity::Debug => Color::Green,
        Severity::Trace => Color::Magenta,
    }
}

/// `open` `text` `close`, each of the three colored, the brackets dim.
pub open spec fn bracketed(open: char, c: Color, text: Seq<char>, close: char) -> Seq<char> {
    painted(Color::BrightBlack, seq![open]) + painted(c, text) + painted(
        Color::BrightBlack,
        seq![close],
    )
}

/// `[<timestamp>](<service>)[<LEVEL>] <message>` and a newline.
pub open spec fn plain_line(t: DateTime, service: Seq<char>, s: Severity, message: Seq<char>) -> Seq<
    char,
> {
    bracketed('[', Color::BrightBlue, day_first_text(t), ']') + bracketed(
        '(',
        Color::BrightMagenta,
        service,
        ')',
    ) + bracketed('[', level_color(s), tag_text(s), ']') + seq![' '] + message + seq!['\n']
}

pub open spec fn hex_char(d: nat) -> char {
    if d < 10 {
        digit_char(d)
    } else {
        ((('a' as u32) as nat) + (d - 10)) as char
    }
}

/// How one character stands inside a JSON string.
pub open spec fn escape_char(c: char) -> Seq<char> {
    if c == '"' {
        seq!['\\', '"']
    } else if c == '\\' {
        seq!['\\', '\\']
    } else if c == '\n' {
        seq!['\\', 'n']
    } else if c == '\r' {
        seq!['\\', 'r']
    } else if c == '\t' {
        seq!['\\', 't']
    } else if (c as u32) < 0x20 {
        seq!['\\', 'u', '0', '0', hex_char((c as u32 / 16) as nat), hex_char((c as u32 % 16) as nat)]
    } else {
        seq![c]
    }
}

/// The JSON string body that stands for `s`.
pub open spec fn escaped(s: Seq<char>) -> Seq<char>
    decreases s.len(),
{
    if s.len() == 0 {
        seq![]
    } else {
        escaped(s.drop_last()) + escape_char(s.last())
    }
}

/// `s` as a quoted JSON string.
pub open spec fn quoted(s: Seq<char>) -> Seq<char> {
    seq!['"'] + escaped(s) + seq!['"']
}

/// `"key":` followed by the quoted value.
pub open spec fn member(key: Seq<char>, value: Seq<char>) -> Seq<char> {
    quoted(key) + seq![':'] + quoted(value)
}

pub open spec fn key_timestamp() -> Seq<char> {
    seq!['t', 'i', 'm', 'e', 's', 't', 'a', 'm', 'p']
}

pub open spec fn key_level() -> Seq<char> {
    seq!['l', 'e', 'v', 'e', 'l']
}

pub open spec fn key_service() -> Seq<char> {
    seq!['s', 'e', 'r', 'v', 'i', 'c', 'e']
}

pub open spec fn key_message() -> Seq<char> {
    seq!['m', 'e', 's', 's', 'a', 'g', 'e']
}

/// `{"timestamp":..,"level":..,"service":..,"message":..}` and a newline.
pub open spec fn json_line(t: DateTime, service: Seq<char>, s: Severity, message: Seq<char>) -> Seq<
    char,
> {
    seq!['{'] + member(key_timestamp(), iso_text(t)) + seq![','] + member(key_level(), tag_text(s))
        + seq![','] + member(key_service(), service) + seq![','] + member(key_message(), message)
        + seq!['}', '\n']
}

/// Relies on `owo_colors::OwoColorize`: the `Display` of a foreground color
/// writes `ESC[<code>m`, the text, then `ESC[39m`.
#[verifier::external_body]
fn paint(text: &str, c: Color) -> (r: String)
    ensures
        r@ == painted(c, text@),
{
    match c {
        Color::BrightBlack => text.bright_black().to_string(),
        Color::BrightBlue => text.bright_blue().to_string(),
        Color::BrightMagenta => text.bright_magenta().to_string(),
        Color::Red => text.red().to_string(),
        Color::Yellow => text.yellow().to_string(),
        Color::Cyan => text.cyan().to_string(),
        Color::Green => text.green().to_string(),
        Color::Magenta => text.purple().to_string(),
    }
}

impl Severity {
    /// The color of this severity's tag.
    pub fn color(self) -> (r: Color)
        ensures
            r == level_color(self),
    {
        match self {
            Severity::Error => Color::Red,
            Severity::Warn => Color::Yellow,
            Severity::Info => Color::Cyan,
            Severity::Debug => Color::Green,
            Severity::Trace => Color::Magenta,
        }
    }
}

fn push_painted(out: &mut String, text: &str, c: Color)
    ensures
        final(out)@ == old(out)@ + painted(c, text@),
{
    let p = paint(text, c);
    out.append(p.as_str());
}

/// One of the four delimiters of a plain-text line, as a one-character string.
fn delimiter(open: bool, square: bool) -> (r: &'static str)
    ensures
        r@ == seq![
            if square {
                if open { '[' } else { ']' }
            } else {
                if open { '(' } else { ')' }
            },
        ],
{
    if square {
        if open {
            proof {
                reveal_strlit("[");
            }
            assert("["@ =~= seq!['[']);
            "["
        } else {
            proof {
                reveal_strlit("]");
            }
            assert("]"@ =~= seq![']']);
            "]"
        }
    } else {
        if open {
            proof {
                reveal_strlit("(");
            }
            assert("("@ =~= seq!['(']);
            "("
        } else {
            proof {
                reveal_strlit(")");
            }
            assert(")"@ =~= seq![')']);
            ")"
        }
    }
}

fn push_bracketed(out: &mut String, square: bool, text: &str, c: Color)
    ensures
        final(out)@ == old(out)@ + bracketed(
            if square { '[' } else { '(' },
            c,
            text@,
            if square { ']' } else { ')' },
        ),
{
    push_painted(out, delimiter(true, square), Color::BrightBlack);
    push_painted(out, text, c);
    push_painted(out, delimiter(false, square), Color::BrightBlack);
    assert(final(out)@ =~= old(out)@ + bracketed(
        if square { '[' } else { '(' },
        c,
        text@,
        if square { ']' } else { ')' },
    ));
}

/// Renders an event as a colored plain-text line.
pub fn render_plain(t: DateTime, service: &str, s: Severity, message: &str) -> (r: String)
    requires
        t.wf(),
    ensures
        r@ == plain_line(t, service@, s, message@),
{
    let mut out = String::new();
    let stamp = format_day_first(t);
    push_bracketed(&mut out, true, stamp.as_str(), Color::BrightBlue);
    push_bracketed(&mut out, false, service, Color::BrightMagenta);
    let tag = s.tag();
    push_bracketed(&mut out, true, tag.as_str(), s.color());
    push_char(&mut out, ' ');
    out.append(message);
    push_char(&mut out, '\n');
    assert(out@ =~= plain_line(t, service@, s, message@));
    out
}

fn hex_digit(d: u32) -> (r: char)
    requires
        d < 16,
    ensures
        r == hex_char(d as nat),
{
    if d < 10 {
        (48u8 + d as u8) as char
    } else {
        (97u8 + (d - 10) as u8) as char
    }
}

fn push_escaped_char(out: &mut String, c: char)
    ensures
        final(out)@ == old(out)@ + escape_char(c),
{
    if c == '"' {
        push_char(out, '\\');
        push_char(out, '"');
    } else if c == '\\' {
        push_char(out, '\\');
        push_char(out, '\\');
    } else if c == '\n' {
        push_char(out, '\\');
        push_char(out, 'n');
    } else if c == '\r' {
        push_char(out, '\\');
        push_char(out, 'r');
    } else if c == '\t' {
        push_char(out, '\\');
        push_char(out, 't');
    } else if (c as u32) < 0x20 {
        push_char(out, '\\');
        push_char(out, 'u');
        push_char(out, '0');
        push_char(out, '0');
        push_char(out, hex_digit(c as u32 / 16));
        push_char(out, hex_digit(c as u32 % 16));
    } else {
        push_char(out, c);
    }
    assert(final(out)@ =~= old(out)@ + escape_char(c));
}

fn push_quoted(out: &mut String, s: &str)
    ensures
        final(out)@ == old(out)@ + quoted(s@),
{
    let ghost start = out@;
    push_char(out, '"');
    let n = s.unicode_len();
    let mut i: usize = 0;
    while i < n
        invariant
            n == s@.len(),
            i <= n,
            out@ == start + seq!['"'] + escaped(s@.take(i as int)),
        decreases n - i,
    {
        let c = s.get_char(i);
        push_escaped_char(out, c);
        assert(s@.take(i + 1).drop_last() =~= s@.take(i as int));
        i = i + 1;
        assert(out@ =~= start + seq!['"'] + escaped(s@.take(i as int)));
    }
    assert(s@.take(n as int) =~= s@);
    push_char(out, '"');
    assert(final(out)@ =~= old(out)@ + quoted(s@));
}

fn push_member(out: &mut String, key: &str, value: &str)
    ensures
        final(out)@ == old(out)@ + member(key@, value@),
{
    push_quoted(out, key);
    push_char(out, ':');
    push_quoted(out, value);
    assert(final(out)@ =~= old(out)@ + member(key@, value@));
}

/// Renders an event as a single-line JSON object.
pub fn render_json(t: DateTime, service: &str, s: Severity, message: &str) -> (r: String)
    requires
        t.wf(),
    ensures
        r@ == json_line(t, service@, s, message@),
{
    let mut out = String::new();
    push_char(&mut out, '{');
    let stamp = format_iso(t);
    proof {
        reveal_strlit("timestamp");
        reveal_strlit("level");
        reveal_strlit("service");
        reveal_strlit("message");
    }
    assert("timestamp"@ =~= key_timestamp());
    assert("level"@ =~= key_level());
    assert("service"@ =~= key_service());
    assert("message"@ =~= key_message());
    push_member(&mut out, "timestamp", stamp.as_str());
    push_char(&mut out, ',');
    let tag = s.tag();
    push_member(&mut out, "level", tag.as_str());
    push_char(&mut out, ',');
    push_member(&mut out, "service", service);
    push_char(&mut out, ',');
    push_member(&mut out, "message", message);
    push_char(&mut out, '}');
    push_char(&mut out, '\n');
    assert(out@ =~= json_line(t, service@, s, message@));
    out
}

/// `s` holds no escape character.
pub open spec fn escape_free(s: Seq<char>) -> bool {
    forall|i: int| 0 <= i < s.len() ==> s[i] != esc()
}

proof fn lemma_concat_escape_free(a: Seq<char>, b: Seq<char>)
    requires
        escape_free(a),
        escape_free(b),
    ensures
        escape_free(a + b),
{
    assert forall|i: int| 0 <= i < (a + b).len() implies (a + b)[i] != esc() by {
        if i >= a.len() {
            assert((a + b)[i] == b[i - a.len()]);
        }
    }
}

proof fn lemma_padded_escape_free(n: nat, width: nat)
    ensures
        escape_free(padded_decimal(n, width)),
    decreases n, width,
{
    if n < 10 && width <= 1 {
    } else {
        lemma_padded_escape_free(n / 10, if width > 0 { (width - 1) as nat } else { 0 });
        lemma_concat_escape_free(
            padded_decimal(n / 10, if width > 0 { (width - 1) as nat } else { 0 }),
            seq![digit_char(n % 10)],
        );
        assert(padded_decimal(n, width) =~= padded_decimal(
            n / 10,
            if width > 0 { (width - 1) as nat } else { 0 },
        ) + seq![digit_char(n % 10)]);
    }
}

proof fn lemma_iso_escape_free(t: DateTime)
    ensures
        escape_free(iso_text(t)),
{
    lemma_padded_escape_free((-t.year) as nat, 4);
    lemma_padded_escape_free(t.year as nat, 4);
    lemma_padded_escape_free(t.month as nat, 2);
    lemma_padded_escape_free(t.day as nat, 2);
    lemma_padded_escape_free(t.hour as nat, 2);
    lemma_padded_escape_free(t.minute as nat, 2);
    lemma_padded_escape_free(t.second as nat, 2);
    lemma_concat_escape_free(seq!['-'], padded_decimal((-t.year) as nat, 4));
    let c = clock_text(t);
    lemma_concat_escape_free(two(t.hour), seq![':']);
    lemma_concat_escape_free(two(t.hour) + seq![':'], two(t.minute));
    lemma_concat_escape_free(two(t.hour) + seq![':'] + two(t.minute), seq![':']);
    lemma_concat_escape_free(two(t.hour) + seq![':'] + two(t.minute) + seq![':'], two(t.second));
    let y = year_text(t.year as int);
    lemma_concat_escape_free(y, seq!['-']);
    lemma_concat_escape_free(y + seq!['-'], two(t.month));
    lemma_concat_escape_free(y + seq!['-'] + two(t.month), seq!['-']);
    lemma_concat_escape_free(y + seq!['-'] + two(t.month) + seq!['-'], two(t.day));
    lemma_concat_escape_free(y + seq!['-'] + two(t.month) + seq!['-'] + two(t.day), seq!['T']);
    lemma_concat_escape_free(y + seq!['-'] + two(t.month) + seq!['-'] + two(t.day) + seq!['T'], c);
    lemma_concat_escape_free(
        y + seq!['-'] + two(t.month) + seq!['-'] + two(t.day) + seq!['T'] + c,
        seq!['Z'],
    );
}

proof fn lemma_escaped_escape_free(s: Seq<char>)
    ensures
        escape_free(escaped(s)),
    decreases s.len(),
{
    if s.len() > 0 {
        lemma_escaped_escape_free(s.drop_last());
        let c = s.last();
        if (c as u32) < 0x20 && c != '\n' && c != '\r' && c != '\t' {
            assert(hex_char((c as u32 / 16) as nat) != esc());
            assert(hex_char((c as u32 % 16) as nat) != esc());
        }
        assert(c != '"' && c != '\\' && !((c as u32) < 0x20) ==> c != esc()) by {
            if c == esc() {
                assert((c as u32) == 0x1b);
            }
        }
        lemma_concat_escape_free(escaped(s.drop_last()), escape_char(c));
    }
}

proof fn lemma_member_escape_free(key: Seq<char>, value: Seq<char>)
    ensures
        escape_free(member(key, value)),
{
    lemma_escaped_escape_free(key);
    lemma_escaped_escape_free(value);
    lemma_concat_escape_free(seq!['"'], escaped(key));
    lemma_concat_escape_free(seq!['"'] + escaped(key), seq!['"']);
    lemma_concat_escape_free(seq!['"'], escaped(value));
    lemma_concat_escape_free(seq!['"'] + escaped(value), seq!['"']);
    lemma_concat_escape_free(quoted(key), seq![':']);
    lemma_concat_escape_free(quoted(key) + seq![':'], quoted(value));
}

/// Output modes exclude each other: a JSON line holds no escape character
/// whatever the service name and message, while a plain-text line opens
/// with the escape that dims its first bracket and colors the level tag.
pub proof fn lemma_mode_exclusive(t: DateTime, service: Seq<char>, s: Severity, message: Seq<char>)
    requires
        t.wf(),
    ensures
        escape_free(json_line(t, service, s, message)),
        !json_line(t, service, s, message).contains(esc()),
        plain_line(t, service, s, message)[0] == esc(),
        plain_line(t, service, s, message).contains(esc()),
{
    lemma_iso_escape_free(t);
    lemma_member_escape_free(key_timestamp(), iso_text(t));
    lemma_member_escape_free(key_level(), tag_text(s));
    lemma_member_escape_free(key_service(), service);
    lemma_member_escape_free(key_message(), message);
    let a = member(key_timestamp(), iso_text(t));
    let b = member(key_level(), tag_text(s));
    let c = member(key_service(), service);
    let d = member(key_message(), message);
    lemma_concat_escape_free(seq!['{'], a);
    lemma_concat_escape_free(seq!['{'] + a, seq![',']);
    lemma_concat_escape_free(seq!['{'] + a + seq![','], b);
    lemma_concat_escape_free(seq!['{'] + a + seq![','] + b, seq![',']);
    lemma_concat_escape_free(seq!['{'] + a + seq![','] + b + seq![','], c);
    lemma_concat_escape_free(seq!['{'] + a + seq![','] + b + seq![','] + c, seq![',']);
    lemma_concat_escape_free(seq!['{'] + a + seq![','] + b + seq![','] + c + seq![','], d);
    lemma_concat_escape_free(
        seq!['{'] + a + seq![','] + b + seq![','] + c + seq![','] + d,
        seq!['}', '\n'],
    );
    let p = plain_line(t, service, s, message);
    assert(p[0] == esc());
    assert(p.len() > 0);
}

/// A plain-text line is, segment by segment, `[`, the timestamp, `]`, `(`,
/// the service name, `)`, `[`, the level tag, `]`, a space, the message and
/// a newline, each of the first nine wrapped in its color; for an instant in
/// the years 0 to 9999 the timestamp reads `DD-MM-YYYY HH:MM:SS`.
pub proof fn lemma_plain_line_shape(t: DateTime, service: Seq<char>, s: Severity, message: Seq<char>)
    requires
        t.wf(),
        0 <= t.year <= 9999,
    ensures
        stamp_shaped(day_first_text(t)),
        plain_line(t, service, s, message) == painted(Color::BrightBlack, seq!['['])
            + painted(Color::BrightBlue, day_first_text(t)) + painted(Color::BrightBlack, seq![']'])
            + painted(Color::BrightBlack, seq!['(']) + painted(Color::BrightMagenta, service)
            + painted(Color::BrightBlack, seq![')']) + painted(Color::BrightBlack, seq!['['])
            + painted(level_color(s), tag_text(s)) + painted(Color::BrightBlack, seq![']'])
            + seq![' '] + message + seq!['\n'],
{
    lemma_day_first_shape(t);
    assert(plain_line(t, service, s, message) =~= painted(Color::BrightBlack, seq!['['])
        + painted(Color::BrightBlue, day_first_text(t)) + painted(Color::BrightBlack, seq![']'])
        + painted(Color::BrightBlack, seq!['(']) + painted(Color::BrightMagenta, service)
        + painted(Color::BrightBlack, seq![')']) + painted(Color::BrightBlack, seq!['['])
        + painted(level_color(s), tag_text(s)) + painted(Color::BrightBlack, seq![']'])
        + seq![' '] + message + seq!['\n']);
}

} // verus!
