//! The commands that go out to the remote peer, their notation on the wire,
//! and the table that maps a key to its command token.

use vstd::prelude::*;
use vstd::string::*;
use crate::text::{push_signed_decimal, signed_decimal, str_eq};

verus! {

/// The button of a click, as the remote peer knows it.
#[derive(Clone, Copy, Debug, PartialEq, Eq, Structural)]
pub enum MouseButton {
    Left,
    Right,
}

/// A command for the remote peer.
#[derive(Clone, Debug, PartialEq, Eq)]
#[allow(inconsistent_fields)]
pub enum Command {
    /// A key went down. `key` is the token of the key, and the mouse
    /// position is the cell under the pointer.
    Key { key: String, shift: bool, mouse_x: i32, mouse_y: i32 },
    /// A key went up; which one is not told.
    KeyUp,
    /// A click on a cell of the grid.
    Click { col: i32, row: i32, button: MouseButton },
    /// The pointer moved to a cell of the grid.
    Hover { col: isize, row: isize },
    /// An entry of the tutorial menu was chosen.
    TutorialSelect { id: String },
}

/// `true` or `false`.
pub open spec fn bool_text(b: bool) -> Seq<char> {
    if b {
        "true"@
    } else {
        "false"@
    }
}

/// `left` or `right`.
pub open spec fn button_text(b: MouseButton) -> Seq<char> {
    match b {
        MouseButton::Left => "left"@,
        MouseButton::Right => "right"@,
    }
}

/// The notation of a key command.
pub open spec fn key_json(key: Seq<char>, shift: bool, mouse_x: int, mouse_y: int) -> Seq<char> {
    "{\"type\":\"key\",\"key\":\""@ + key + "\",\"shift\":"@ + bool_text(shift)
        + ",\"mouse_x\":"@ + signed_decimal(mouse_x) + ",\"mouse_y\":"@ + signed_decimal(mouse_y)
        + "}"@
}

/// The notation of a command: a flat record whose `type` tells its kind.
/// Strings are written as they are, between double quotes.
pub open spec fn command_json(c: Command) -> Seq<char> {
    match c {
        Command::Key { key, shift, mouse_x, mouse_y } => key_json(
            key@,
            shift,
            mouse_x as int,
            mouse_y as int,
        ),
        Command::KeyUp => "{\"type\":\"key_up\"}"@,
        Command::Click { col, row, button } => "{\"type\":\"click\",\"col\":"@ + signed_decimal(
            col as int,
        ) + ",\"row\":"@ + signed_decimal(row as int) + ",\"button\":\""@ + button_text(button)
            + "\"}"@,
        Command::Hover { col, row } => "{\"type\":\"hover\",\"col\":"@ + signed_decimal(col as int)
            + ",\"row\":"@ + signed_decimal(row as int) + "}"@,
        Command::TutorialSelect { id } => "{\"type\":\"tutorial_select\",\"id\":\""@ + id@
            + "\"}"@,
    }
}

fn key_message(key: &str, shift: bool, mouse_x: i32, mouse_y: i32) -> (r: String)
    ensures
        r@ == key_json(key@, shift, mouse_x as int, mouse_y as int),
{
    let mut out = String::new();
    out.append("{\"type\":\"key\",\"key\":\"");
    out.append(key);
    out.append("\",\"shift\":");
    if shift {
        out.append("true");
    } else {
        out.append("false");
    }
    out.append(",\"mouse_x\":");
    push_signed_decimal(&mut out, mouse_x as i64);
    out.append(",\"mouse_y\":");
    push_signed_decimal(&mut out, mouse_y as i64);
    out.append("}");
    assert(out@ =~= key_json(key@, shift, mouse_x as int, mouse_y as int));
    out
}

impl Command {
    /// The command as it is written on the wire.
    pub fn to_json(&self) -> (r: String)
        ensures
            r@ == command_json(*self),
    {
        match self {
            Command::Key { key, shift, mouse_x, mouse_y } => key_message(
                key.as_str(),
                *shift,
                *mouse_x,
                *mouse_y,
            ),
            Command::KeyUp => "{\"type\":\"key_up\"}".to_string(),
            Command::Click { col, row, button } => {
                let mut out = String::new();
                out.append("{\"type\":\"click\",\"col\":");
                push_signed_decimal(&mut out, *col as i64);
                out.append(",\"row\":");
                push_signed_decimal(&mut out, *row as i64);
                out.append(",\"button\":\"");
                match button {
                    MouseButton::Left => {
                        out.append("left");
                    },
                    MouseButton::Right => {
                        out.append("right");
                    },
                }
                out.append("\"}");
                assert(out@ =~= command_json(*self));
                out
            },
            Command::Hover { col, row } => {
                let mut out = String::new();
                out.append("{\"type\":\"hover\",\"col\":");
                push_signed_decimal(&mut out, *col as i64);
                out.append(",\"row\":");
                push_signed_decimal(&mut out, *row as i64);
                out.append("}");
                assert(out@ =~= command_json(*self));
                out
            },
            Command::TutorialSelect { id } => {
                let mut out = String::new();
                out.append("{\"type\":\"tutorial_select\",\"id\":\"");
                out.append(id.as_str());
                out.append("\"}");
                assert(out@ =~= command_json(*self));
                out
            },
        }
    }
}

/// The token of a letter key: the letter as typed, in upper case where the
/// shift key is held.
pub open spec fn letter_key(
    lower: Seq<char>,
    upper: Seq<char>,
    key: Seq<char>,
    shift: bool,
) -> Option<Seq<char>> {
    if key == lower {
        Some(if shift { upper } else { lower })
    } else if key == upper {
        Some(upper)
    } else {
        None
    }
}

/// The token of a key that has one fixed token.
pub open spec fn fixed_key(name: Seq<char>, token: Seq<char>, key: Seq<char>) -> Option<Seq<char>> {
    if key == name {
        Some(token)
    } else {
        None
    }
}

/// The first of two tokens that is there.
pub open spec fn or_key(a: Option<Seq<char>>, b: Option<Seq<char>>) -> Option<Seq<char>> {
    if a is Some {
        a
    } else {
        b
    }
}

/// The token of a key that moves a unit.
pub open spec fn movement_key(key: Seq<char>, shift: bool) -> Option<Seq<char>> {
    or_key(
        letter_key("q"@, "Q"@, key, shift),
        or_key(
            letter_key("w"@, "W"@, key, shift),
            or_key(
                letter_key("e"@, "E"@, key, shift),
                or_key(
                    letter_key("a"@, "A"@, key, shift),
                    or_key(
                        letter_key("d"@, "D"@, key, shift),
                        or_key(
                            letter_key("z"@, "Z"@, key, shift),
                            or_key(
                                letter_key("x"@, "X"@, key, shift),
                                letter_key("c"@, "C"@, key, shift),
                            ),
                        ),
                    ),
                ),
            ),
        ),
    )
}

/// The token of a key that chooses what a city builds.
pub open spec fn production_key(key: Seq<char>, shift: bool) -> Option<Seq<char>> {
    or_key(
        letter_key("f"@, "F"@, key, shift),
        or_key(
            letter_key("t"@, "T"@, key, shift),
            or_key(
                letter_key("p"@, "P"@, key, shift),
                or_key(letter_key("s"@, "S"@, key, shift), letter_key("b"@, "B"@, key, shift)),
            ),
        ),
    )
}

/// The token of a key that has a fixed token whatever the shift key does.
pub open spec fn special_key(key: Seq<char>) -> Option<Seq<char>> {
    or_key(
        fixed_key(" "@, "space"@, key),
        or_key(
            fixed_key("Escape"@, "escape"@, key),
            or_key(
                fixed_key("`"@, "`"@, key),
                or_key(
                    fixed_key("!"@, "!"@, key),
                    or_key(
                        fixed_key("."@, "."@, key),
                        or_key(
                            fixed_key("*"@, "*"@, key),
                            or_key(fixed_key("+"@, "+"@, key), fixed_key("^"@, "^"@, key)),
                        ),
                    ),
                ),
            ),
        ),
    )
}

/// The token of a key that commands a unit or turns a tutorial's page.
pub open spec fn unit_key(key: Seq<char>, shift: bool) -> Option<Seq<char>> {
    or_key(
        letter_key("u"@, "U"@, key, shift),
        or_key(
            letter_key("l"@, "L"@, key, shift),
            or_key(
                letter_key("m"@, "M"@, key, shift),
                or_key(
                    letter_key("o"@, "O"@, key, shift),
                    or_key(letter_key("n"@, "N"@, key, shift), fixed_key("?"@, "?"@, key)),
                ),
            ),
        ),
    )
}

/// The token of the key that shows or hides the tips of the remote peer.
/// The token is `h`, and the key is `i`: the key `h` itself, in either
/// case, is kept for the help panel of this client and is in no table.
pub open spec fn tips_key(key: Seq<char>) -> Option<Seq<char>> {
    fixed_key("i"@, "h"@, key)
}

/// The token that a key is forwarded under, or `None` for a key that is not
/// forwarded.
pub open spec fn mapped_key(key: Seq<char>, shift: bool) -> Option<Seq<char>> {
    or_key(
        movement_key(key, shift),
        or_key(
            production_key(key, shift),
            or_key(special_key(key), or_key(unit_key(key, shift), tips_key(key))),
        ),
    )
}

/// Whether `r` is the token `t`, both there or both not.
pub open spec fn is_token(r: Option<&'static str>, t: Option<Seq<char>>) -> bool {
    match r {
        Some(s) => t == Some(s@),
        None => t is None,
    }
}

fn letter(lower: &'static str, upper: &'static str, key: &str, shift: bool) -> (r: Option<
    &'static str,
>)
    ensures
        is_token(r, letter_key(lower@, upper@, key@, shift)),
{
    if str_eq(key, lower) {
        Some(if shift { upper } else { lower })
    } else if str_eq(key, upper) {
        Some(upper)
    } else {
        None
    }
}

fn fixed(name: &'static str, token: &'static str, key: &str) -> (r: Option<&'static str>)
    ensures
        is_token(r, fixed_key(name@, token@, key@)),
{
    if str_eq(key, name) {
        Some(token)
    } else {
        None
    }
}

fn either(a: Option<&'static str>, b: Option<&'static str>) -> (r: Option<&'static str>)
    ensures
        r == (if a is Some { a } else { b }),
{
    if a.is_some() {
        a
    } else {
        b
    }
}

fn movement(key: &str, shift: bool) -> (r: Option<&'static str>)
    ensures
        is_token(r, movement_key(key@, shift)),
{
    either(
        letter("q", "Q", key, shift),
        either(
            letter("w", "W", key, shift),
            either(
                letter("e", "E", key, shift),
                either(
                    letter("a", "A", key, shift),
                    either(
                        letter("d", "D", key, shift),
                        either(
                            letter("z", "Z", key, shift),
                            either(letter("x", "X", key, shift), letter("c", "C", key, shift)),
                        ),
                    ),
                ),
            ),
        ),
    )
}

fn production(key: &str, shift: bool) -> (r: Option<&'static str>)
    ensures
        is_token(r, production_key(key@, shift)),
{
    either(
        letter("f", "F", key, shift),
        either(
            letter("t", "T", key, shift),
            either(
                letter("p", "P", key, shift),
                either(letter("s", "S", key, shift), letter("b", "B", key, shift)),
            ),
        ),
    )
}

fn special(key: &str) -> (r: Option<&'static str>)
    ensures
        is_token(r, special_key(key@)),
{
    either(
        fixed(" ", "space", key),
        either(
            fixed("Escape", "escape", key),
            either(
                fixed("`", "`", key),
                either(
                    fixed("!", "!", key),
                    either(
                        fixed(".", ".", key),
                        either(
                            fixed("*", "*", key),
                            either(fixed("+", "+", key), fixed("^", "^", key)),
                        ),
                    ),
                ),
            ),
        ),
    )
}

fn unit(key: &str, shift: bool) -> (r: Option<&'static str>)
    ensures
        is_token(r, unit_key(key@, shift)),
{
    either(
        letter("u", "U", key, shift),
        either(
            letter("l", "L", key, shift),
            either(
                letter("m", "M", key, shift),
                either(
                    letter("o", "O", key, shift),
                    either(letter("n", "N", key, shift), fixed("?", "?", key)),
                ),
            ),
        ),
    )
}

fn tips(key: &str) -> (r: Option<&'static str>)
    ensures
        is_token(r, tips_key(key@)),
{
    fixed("i", "h", key)
}

/// Maps a key, by its name and the state of the shift key, to the token it
/// is forwarded under and to the whole key command in its notation on the
/// wire. A key outside the table gives `None`.
pub fn map_key_event(key: &str, shift: bool, mouse_x: i32, mouse_y: i32) -> (r: Option<
    (String, String),
>)
    ensures
        match r {
            Some((token, message)) => {
                &&& mapped_key(key@, shift) == Some(token@)
                &&& message@ == key_json(token@, shift, mouse_x as int, mouse_y as int)
            },
            None => mapped_key(key@, shift) is None,
        },
{
    let token = either(
        movement(key, shift),
        either(production(key, shift), either(special(key), either(unit(key, shift), tips(key)))),
    );
    match token {
        Some(t) => {
            let message = key_message(t, shift, mouse_x, mouse_y);
            Some((t.to_string(), message))
        },
        None => None,
    }
}

/// The key of the help panel is not forwarded: `h` has no token, in either
/// case and whatever the shift key does.
pub proof fn help_key_is_not_forwarded(shift: bool)
    ensures
        mapped_key("h"@, shift) is None,
        mapped_key("H"@, shift) is None,
{
    reveal_strlit("h");
    reveal_strlit("H");
    reveal_strlit("q");
    reveal_strlit("Q");
    reveal_strlit("w");
    reveal_strlit("W");
    reveal_strlit("e");
    reveal_strlit("E");
    reveal_strlit("a");
    reveal_strlit("A");
    reveal_strlit("d");
    reveal_strlit("D");
    reveal_strlit("z");
    reveal_strlit("Z");
    reveal_strlit("x");
    reveal_strlit("X");
    reveal_strlit("c");
    reveal_strlit("C");
    reveal_strlit("f");
    reveal_strlit("F");
    reveal_strlit("t");
    reveal_strlit("T");
    reveal_strlit("p");
    reveal_strlit("P");
    reveal_strlit("s");
    reveal_strlit("S");
    reveal_strlit("b");
    reveal_strlit("B");
    reveal_strlit(" ");
    reveal_strlit("Escape");
    reveal_strlit("`");
    reveal_strlit("!");
    reveal_strlit(".");
    reveal_strlit("*");
    reveal_strlit("+");
    reveal_strlit("^");
    reveal_strlit("u");
    reveal_strlit("U");
    reveal_strlit("l");
    reveal_strlit("L");
    reveal_strlit("m");
    reveal_strlit("M");
    reveal_strlit("o");
    reveal_strlit("O");
    reveal_strlit("n");
    reveal_strlit("N");
    reveal_strlit("?");
    reveal_strlit("i");
    let lower = "h"@;
    let upper = "H"@;
    assert(lower.len() == 1 && lower[0] == 'h');
    assert(upper.len() == 1 && upper[0] == 'H');
    assert(movement_key(lower, shift) is None && movement_key(upper, shift) is None) by {
        assert("q"@[0] == 'q' && "Q"@[0] == 'Q' && "w"@[0] == 'w' && "W"@[0] == 'W');
        assert("e"@[0] == 'e' && "E"@[0] == 'E' && "a"@[0] == 'a' && "A"@[0] == 'A');
        assert("d"@[0] == 'd' && "D"@[0] == 'D' && "z"@[0] == 'z' && "Z"@[0] == 'Z');
        assert("x"@[0] == 'x' && "X"@[0] == 'X' && "c"@[0] == 'c' && "C"@[0] == 'C');
    }
    assert(production_key(lower, shift) is None && production_key(upper, shift) is None) by {
        assert("f"@[0] == 'f' && "F"@[0] == 'F' && "t"@[0] == 't' && "T"@[0] == 'T');
        assert("p"@[0] == 'p' && "P"@[0] == 'P' && "s"@[0] == 's' && "S"@[0] == 'S');
        assert("b"@[0] == 'b' && "B"@[0] == 'B');
    }
    assert(special_key(lower) is None && special_key(upper) is None) by {
        assert(" "@[0] == ' ' && "Escape"@.len() == 6 && "`"@[0] == '`' && "!"@[0] == '!');
        assert("."@[0] == '.' && "*"@[0] == '*' && "+"@[0] == '+' && "^"@[0] == '^');
    }
    assert(unit_key(lower, shift) is None && unit_key(upper, shift) is None) by {
        assert("u"@[0] == 'u' && "U"@[0] == 'U' && "l"@[0] == 'l' && "L"@[0] == 'L');
        assert("m"@[0] == 'm' && "M"@[0] == 'M' && "o"@[0] == 'o' && "O"@[0] == 'O');
        assert("n"@[0] == 'n' && "N"@[0] == 'N' && "?"@[0] == '?');
    }
    assert(tips_key(lower) is None && tips_key(upper) is None) by {
        assert("i"@[0] == 'i');
    }
}

} // verus!
