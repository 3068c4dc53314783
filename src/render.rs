//! Terminal colour capability and the escape sequences that paint text.
use vstd::prelude::*;
use vstd::string::*;

use crate::text::{dec, push_decimal, str_eq};

verus! {

/// How many colours the terminal shows.
#[derive(Clone, Copy, Debug, PartialEq, Eq, Structural)]
pub enum ColorLevel {
    NoColor,
    Ansi16,
    Ansi256,
    TrueColor,
}

/// What the environment says about colour: `COLORTERM`, `TERM`, and
/// whether `NO_COLOR` is set. Gathered once, outside this library.
#[derive(Clone, Debug, Default)]
pub struct ColorEnv {
    pub colorterm: Option<String>,
    pub term: Option<String>,
    pub no_color: bool,
}

/// Whether `s` holds `pat` as a contiguous part.
pub open spec fn contains(s: Seq<char>, pat: Seq<char>) -> bool {
    exists|i: int| 0 <= i <= s.len() - pat.len() && #[trigger] s.subrange(i, i + pat.len()) == pat
}

/// The level the environment supports.
pub open spec fn probed_level(env: ColorEnv) -> ColorLevel {
    if env.no_color {
        ColorLevel::NoColor
    } else if env.colorterm.deep_view() == Some("truecolor"@) || env.colorterm.deep_view() == Some(
        "24bit"@,
    ) {
        ColorLevel::TrueColor
    } else if env.term.deep_view() is Some && contains(env.term.deep_view().unwrap(), "256color"@) {
        ColorLevel::Ansi256
    } else {
        ColorLevel::Ansi16
    }
}

/// The level a setting asks for: one of `none`, `16`, `256`, `truecolor`
/// forces it; anything else (`auto`) probes the environment.
pub open spec fn level_for(setting: Seq<char>, env: ColorEnv) -> ColorLevel {
    if setting == "none"@ {
        ColorLevel::NoColor
    } else if setting == "16"@ {
        ColorLevel::Ansi16
    } else if setting == "256"@ {
        ColorLevel::Ansi256
    } else if setting == "truecolor"@ {
        ColorLevel::TrueColor
    } else {
        probed_level(env)
    }
}

/// SGR foreground code of a named colour.
pub open spec fn named_code(c: Seq<char>) -> Option<nat> {
    if c == "black"@ {
        Some(30)
    } else if c == "red"@ {
        Some(31)
    } else if c == "green"@ {
        Some(32)
    } else if c == "yellow"@ {
        Some(33)
    } else if c == "blue"@ {
        Some(34)
    } else if c == "magenta"@ {
        Some(35)
    } else if c == "cyan"@ {
        Some(36)
    } else if c == "white"@ {
        Some(37)
    } else if c == "brightBlack"@ {
        Some(90)
    } else if c == "brightRed"@ {
        Some(91)
    } else if c == "brightGreen"@ {
        Some(92)
    } else if c == "brightYellow"@ {
        Some(93)
    } else if c == "brightBlue"@ {
        Some(94)
    } else if c == "brightMagenta"@ {
        Some(95)
    } else if c == "brightCyan"@ {
        Some(96)
    } else if c == "brightWhite"@ {
        Some(97)
    } else {
        None
    }
}

/// Value of a hexadecimal digit.
pub open spec fn hex_value(c: char) -> Option<nat> {
    if '0' <= c && c <= '9' {
        Some((c as u32 - '0' as u32) as nat)
    } else if 'a' <= c && c <= 'f' {
        Some((c as u32 - 'a' as u32 + 10) as nat)
    } else if 'A' <= c && c <= 'F' {
        Some((c as u32 - 'A' as u32 + 10) as nat)
    } else {
        None
    }
}

/// The byte written by the two hex digits at `i` and `i + 1`.
pub open spec fn hex_byte(s: Seq<char>, i: int) -> nat {
    hex_value(s[i]).unwrap() * 16 + hex_value(s[i + 1]).unwrap()
}

/// Whether `s` is `#rrggbb`.
pub open spec fn is_hex_color(s: Seq<char>) -> bool {
    &&& s.len() == 7
    &&& s[0] == '#'
    &&& forall|i: int| 1 <= i < 7 ==> (#[trigger] hex_value(s[i])) is Some
}

/// One channel scaled to the six steps of the 256-colour cube.
pub open spec fn cube_step(v: nat) -> nat {
    v * 6 / 256
}

/// SGR parameters selecting colour `c` as foreground (or background) at
/// `level`; `None` for a colour that cannot be shown.
pub open spec fn color_code(level: ColorLevel, c: Seq<char>, background: bool) -> Option<Seq<char>> {
    let base: nat = if background {
        10
    } else {
        0
    };
    match named_code(c) {
        Some(n) => Some(dec(n + base)),
        None => if is_hex_color(c) {
            let r = hex_byte(c, 1);
            let g = hex_byte(c, 3);
            let b = hex_byte(c, 5);
            match level {
                ColorLevel::TrueColor => Some(
                    dec(38 + base) + ";2;"@ + dec(r) + ";"@ + dec(g) + ";"@ + dec(b),
                ),
                ColorLevel::Ansi256 => Some(
                    dec(38 + base) + ";5;"@ + dec(
                        16 + 36 * cube_step(r) + 6 * cube_step(g) + cube_step(b),
                    ),
                ),
                ColorLevel::Ansi16 => Some(
                    dec(
                        30 + base + (if r >= 128 {
                            1nat
                        } else {
                            0
                        }) + (if g >= 128 {
                            2nat
                        } else {
                            0
                        }) + (if b >= 128 {
                            4nat
                        } else {
                            0
                        }),
                    ),
                ),
                ColorLevel::NoColor => None,
            }
        } else {
            None
        },
    }
}

/// `acc` followed by parameter `p`, separated by `;` when both are there.
pub open spec fn add_param(acc: Seq<char>, p: Option<Seq<char>>) -> Seq<char> {
    match p {
        Some(q) => if acc.len() == 0 {
            q
        } else {
            acc + ";"@ + q
        },
        None => acc,
    }
}

/// All SGR parameters of a style: bold, then foreground, then background.
pub open spec fn style_params(
    level: ColorLevel,
    fg: Option<Seq<char>>,
    bg: Option<Seq<char>>,
    bold: bool,
) -> Seq<char> {
    let b = if bold {
        "1"@
    } else {
        Seq::<char>::empty()
    };
    let f = match fg {
        Some(c) => color_code(level, c, false),
        None => None,
    };
    let k = match bg {
        Some(c) => color_code(level, c, true),
        None => None,
    };
    add_param(add_param(b, f), k)
}

/// Text as the terminal receives it: unchanged at level `None` or when the
/// style selects nothing, else wrapped in a style sequence and a reset.
pub open spec fn painted(
    level: ColorLevel,
    text: Seq<char>,
    fg: Option<Seq<char>>,
    bg: Option<Seq<char>>,
    bold: bool,
) -> Seq<char> {
    let p = style_params(level, fg, bg, bold);
    if level == ColorLevel::NoColor || p.len() == 0 {
        text
    } else {
        "\x1b["@ + p + "m"@ + text + "\x1b[0m"@
    }
}

/// View of an optional string slice.
pub open spec fn opt_str(o: Option<&str>) -> Option<Seq<char>> {
    match o {
        Some(s) => Some(s@),
        None => None,
    }
}

/// Whether `pat` occurs in `s`.
pub fn str_contains(s: &str, pat: &str) -> (r: bool)
    ensures
        r == contains(s@, pat@),
{
    let n = s.unicode_len();
    let m = pat.unicode_len();
    if m > n {
        proof {
            assert forall|i: int| 0 <= i <= s@.len() - pat@.len() implies #[trigger] s@.subrange(
                i,
                i + pat@.len(),
            ) != pat@ by {}
        }
        return false;
    }
    let last = n - m;
    let mut i: usize = 0;
    loop
        invariant
            n == s@.len(),
            m == pat@.len(),
            m <= n,
            last == n - m,
            i <= last,
            forall|j: int| 0 <= j < i ==> #[trigger] s@.subrange(j, j + m) != pat@,
        decreases last - i,
    {
        if str_eq(s.substring_char(i, i + m), pat) {
            return true;
        }
        if i == last {
            return false;
        }
        i = i + 1;
    }
}

fn named_code_exec(c: &str) -> (r: Option<u64>)
    ensures
        r matches Some(n) ==> named_code(c@) == Some(n as nat),
        r is None ==> named_code(c@) is None,
{
    if str_eq(c, "black") {
        Some(30)
    } else if str_eq(c, "red") {
        Some(31)
    } else if str_eq(c, "green") {
        Some(32)
    } else if str_eq(c, "yellow") {
        Some(33)
    } else if str_eq(c, "blue") {
        Some(34)
    } else if str_eq(c, "magenta") {
        Some(35)
    } else if str_eq(c, "cyan") {
        Some(36)
    } else if str_eq(c, "white") {
        Some(37)
    } else if str_eq(c, "brightBlack") {
        Some(90)
    } else if str_eq(c, "brightRed") {
        Some(91)
    } else if str_eq(c, "brightGreen") {
        Some(92)
    } else if str_eq(c, "brightYellow") {
        Some(93)
    } else if str_eq(c, "brightBlue") {
        Some(94)
    } else if str_eq(c, "brightMagenta") {
        Some(95)
    } else if str_eq(c, "brightCyan") {
        Some(96)
    } else if str_eq(c, "brightWhite") {
        Some(97)
    } else {
        None
    }
}

fn hex_value_exec(c: char) -> (r: Option<u64>)
    ensures
        r matches Some(v) ==> hex_value(c) == Some(v as nat) && v < 16,
        r is None ==> hex_value(c) is None,
{
    if '0' <= c && c <= '9' {
        Some((c as u32 - '0' as u32) as u64)
    } else if 'a' <= c && c <= 'f' {
        Some((c as u32 - 'a' as u32 + 10) as u64)
    } else if 'A' <= c && c <= 'F' {
        Some((c as u32 - 'A' as u32 + 10) as u64)
    } else {
        None
    }
}

/// The three channels of `#rrggbb`, or `None` for any other string.
fn hex_channels(c: &str) -> (r: Option<(u64, u64, u64)>)
    ensures
        r is Some == is_hex_color(c@),
        r matches Some(t) ==> t.0 as nat == hex_byte(c@, 1) && t.1 as nat == hex_byte(c@, 3)
            && t.2 as nat == hex_byte(c@, 5) && t.0 < 256 && t.1 < 256 && t.2 < 256,
{
    if c.unicode_len() != 7 || c.get_char(0) != '#' {
        return None;
    }
    let mut vals: Vec<u64> = Vec::new();
    let mut i: usize = 1;
    while i < 7
        invariant
            c@.len() == 7,
            c@[0] == '#',
            1 <= i <= 7,
            vals@.len() == i - 1,
            forall|j: int| 1 <= j < i ==> (#[trigger] hex_value(c@[j])) == Some(vals@[j - 1] as nat),
            forall|j: int| 0 <= j < vals@.len() ==> #[trigger] vals@[j] < 16,
        decreases 7 - i,
    {
        match hex_value_exec(c.get_char(i)) {
            Some(v) => vals.push(v),
            None => {
                return None;
            },
        }
        i = i + 1;
    }
    assert(hex_value(c@[1]) is Some && hex_value(c@[2]) is Some);
    Some((vals[0] * 16 + vals[1], vals[2] * 16 + vals[3], vals[4] * 16 + vals[5]))
}

/// Appends `acc`'s separator (when `acc` is not empty) and a parameter.
fn push_param(acc: &mut String, p: Option<String>)
    ensures
        final(acc)@ == add_param(old(acc)@, p.deep_view()),
{
    if let Some(q) = p {
        if acc.as_str().unicode_len() == 0 {
            *acc = q;
        } else {
            acc.append(";");
            acc.append(q.as_str());
        }
    }
}

/// Current colour capability and how to paint with it.
#[derive(Clone, Copy, Debug)]
pub struct Renderer {
    pub level: ColorLevel,
}

impl Renderer {
    /// A renderer for setting `level` (`auto`, `none`, `16`, `256` or
    /// `truecolor`), probing `env` for `auto`.
    pub fn detect_with_env(level: &str, env: &ColorEnv) -> (r: Renderer)
        ensures
            r.level == level_for(level@, *env),
    {
        let l = if str_eq(level, "none") {
            ColorLevel::NoColor
        } else if str_eq(level, "16") {
            ColorLevel::Ansi16
        } else if str_eq(level, "256") {
            ColorLevel::Ansi256
        } else if str_eq(level, "truecolor") {
            ColorLevel::TrueColor
        } else if env.no_color {
            ColorLevel::NoColor
        } else {
            let true_color = match &env.colorterm {
                Some(ct) => str_eq(ct.as_str(), "truecolor") || str_eq(ct.as_str(), "24bit"),
                None => false,
            };
            if true_color {
                ColorLevel::TrueColor
            } else {
                let wide = match &env.term {
                    Some(t) => str_contains(t.as_str(), "256color"),
                    None => false,
                };
                if wide {
                    ColorLevel::Ansi256
                } else {
                    ColorLevel::Ansi16
                }
            }
        };
        Renderer { level: l }
    }

    /// A renderer for setting `level`, with `auto` taken as an environment
    /// that says nothing about colour.
    pub fn detect(level: &str) -> (r: Renderer)
        ensures
            r.level == level_for(level@, ColorEnv { colorterm: None, term: None, no_color: false }),
    {
        let env = ColorEnv { colorterm: None, term: None, no_color: false };
        Renderer::detect_with_env(level, &env)
    }

    /// SGR parameters of colour `c`.
    pub fn color_code(&self, c: &str, background: bool) -> (r: Option<String>)
        ensures
            r.deep_view() == color_code(self.level, c@, background),
    {
        let base: u64 = if background {
            10
        } else {
            0
        };
        match named_code_exec(c) {
            Some(n) => {
                let mut s = String::new();
                push_decimal(&mut s, (n + base) as u128);
                Some(s)
            },
            None => match hex_channels(c) {
                Some((r, g, b)) => {
                    let mut s = String::new();
                    match self.level {
                        ColorLevel::TrueColor => {
                            push_decimal(&mut s, (38 + base) as u128);
                            s.append(";2;");
                            push_decimal(&mut s, r as u128);
                            s.append(";");
                            push_decimal(&mut s, g as u128);
                            s.append(";");
                            push_decimal(&mut s, b as u128);
                        },
                        ColorLevel::Ansi256 => {
                            push_decimal(&mut s, (38 + base) as u128);
                            s.append(";5;");
                            let n = 16 + 36 * (r * 6 / 256) + 6 * (g * 6 / 256) + b * 6 / 256;
                            push_decimal(&mut s, n as u128);
                        },
                        ColorLevel::Ansi16 => {
                            let n = 30 + base + (if r >= 128 {
                                1
                            } else {
                                0
                            }) + (if g >= 128 {
                                2
                            } else {
                                0
                            }) + (if b >= 128 {
                                4
                            } else {
                                0
                            });
                            push_decimal(&mut s, n as u128);
                        },
                        ColorLevel::NoColor => {
                            return None;
                        },
                    }
                    assert(s@ =~= color_code(self.level, c@, background).unwrap());
                    Some(s)
                },
                None => None,
            },
        }
    }

    /// `text` styled with foreground `fg`, background `bg` and `bold`.
    pub fn paint(&self, text: &str, fg: Option<&str>, bg: Option<&str>, bold: bool) -> (r: String)
        ensures
            r@ == painted(self.level, text@, opt_str(fg), opt_str(bg), bold),
    {
        if self.level == ColorLevel::NoColor {
            return String::from_str(text);
        }
        let mut p = if bold {
            String::from_str("1")
        } else {
            String::new()
        };
        let f = match fg {
            Some(c) => self.color_code(c, false),
            None => None,
        };
        push_param(&mut p, f);
        let k = match bg {
            Some(c) => self.color_code(c, true),
            None => None,
        };
        push_param(&mut p, k);
        assert(p@ =~= style_params(self.level, opt_str(fg), opt_str(bg), bold));
        if p.as_str().unicode_len() == 0 {
            return String::from_str(text);
        }
        let mut s = String::from_str("\x1b[");
        s.append(p.as_str());
        s.append("m");
        s.append(text);
        s.append("\x1b[0m");
        s
    }
}

/// With colour off, painting changes nothing, whatever colours and weight
/// are asked for: no escape sequence is ever added.
pub proof fn lemma_no_color_is_plain(
    text: Seq<char>,
    fg: Option<Seq<char>>,
    bg: Option<Seq<char>>,
    bold: bool,
)
    ensures
        painted(ColorLevel::NoColor, text, fg, bg, bold) == text,
{
}

} // verus!
