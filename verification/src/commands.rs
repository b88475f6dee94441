//! The command line of the interactive front end: from a line of text to
//! the command that it asks for.
//!
//! Carrying a command out means talking to a server, which is the caller's
//! business.  What is decided here is which command a line stands for,
//! with which arguments, and what is answered at once.

use crate::input_handler::help_text;
use crate::text::{char_is_whitespace, is_white_space, text_chars, text_of};
use vstd::prelude::*;
use vstd::string::StringExecFns;

verus! {

/// The lower-case form of a text, as `str::to_lowercase` gives it.
pub uninterp spec fn lowercase(s: Seq<char>) -> Seq<char>;

/// `str::to_lowercase`: the lower-case form of `s` after the rules of
/// Unicode.  The contract gives that text a name and states nothing else
/// of it.
#[verifier::external_body]
pub(crate) fn lowercase_text(s: &str) -> (lower: String)
    ensures
        lower@ == lowercase(s@),
{
    s.to_lowercase()
}

/// A text cut into words, read from the left: the finished words and the
/// word that is being read.
pub open spec fn scanned(s: Seq<char>) -> (Seq<Seq<char>>, Seq<char>)
    decreases s.len(),
{
    if s.len() == 0 {
        (Seq::empty(), Seq::empty())
    } else {
        let (done, current) = scanned(s.drop_last());
        if is_white_space(s.last()) {
            if current.len() > 0 {
                (done.push(current), Seq::empty())
            } else {
                (done, current)
            }
        } else {
            (done, current.push(s.last()))
        }
    }
}

/// The words of a text: its longest runs of characters that are no white
/// space, in order.
pub open spec fn words(s: Seq<char>) -> Seq<Seq<char>> {
    let (done, current) = scanned(s);
    if current.len() > 0 {
        done.push(current)
    } else {
        done
    }
}

/// Whether a text has no white space in it.
pub open spec fn no_white_space(w: Seq<char>) -> bool {
    forall|j: int| 0 <= j < w.len() ==> !is_white_space(#[trigger] w[j])
}

/// Every word has a character and no white space in it.
pub proof fn law_words_are_words(s: Seq<char>)
    ensures
        forall|i: int|
            0 <= i < scanned(s).0.len() ==> (#[trigger] scanned(s).0[i]).len() > 0
                && no_white_space(scanned(s).0[i]),
        no_white_space(scanned(s).1),
        forall|i: int|
            0 <= i < words(s).len() ==> (#[trigger] words(s)[i]).len() > 0 && no_white_space(
                words(s)[i],
            ),
    decreases s.len(),
{
    if s.len() > 0 {
        law_words_are_words(s.drop_last());
        let (done, current) = scanned(s.drop_last());
        if is_white_space(s.last()) {
            if current.len() > 0 {
                assert forall|i: int| 0 <= i < scanned(s).0.len() implies (
                #[trigger] scanned(s).0[i]).len() > 0 && no_white_space(scanned(s).0[i]) by {
                    if i < done.len() {
                        assert(scanned(s).0[i] == done[i]);
                    } else {
                        assert(scanned(s).0[i] == current);
                    }
                }
            }
        } else {
            assert(scanned(s).0 == done);
            assert(scanned(s).1 == current.push(s.last()));
        }
    }
    let (done, current) = scanned(s);
    assert forall|i: int| 0 <= i < words(s).len() implies (#[trigger] words(s)[i]).len() > 0
        && no_white_space(words(s)[i]) by {
        if i < done.len() {
            assert(words(s)[i] == done[i]);
        } else {
            assert(words(s)[i] == current);
        }
    }
}

/// The value of a decimal digit.
pub open spec fn digit_value(c: char) -> Option<int> {
    if '0' <= c && c <= '9' {
        Some(c as int - '0' as int)
    } else {
        None
    }
}

/// The number that a text of decimal digits writes, if every character of
/// it is one.
pub open spec fn digits_value(s: Seq<char>) -> Option<int>
    decreases s.len(),
{
    if s.len() == 0 {
        Some(0)
    } else {
        match (digits_value(s.drop_last()), digit_value(s.last())) {
            (Some(high), Some(low)) => Some(high * 10 + low),
            _ => None,
        }
    }
}

/// The number of thirty-two bits that a text writes: a sign, which may be
/// left out, and decimal digits, at least one, that write a number within
/// reach.  Any other text writes none.
pub open spec fn number(s: Seq<char>) -> Option<int> {
    if s.len() == 0 {
        None
    } else {
        let negative = s[0] == '-';
        let digits = if s[0] == '-' || s[0] == '+' {
            s.drop_first()
        } else {
            s
        };
        if digits.len() == 0 {
            None
        } else {
            match digits_value(digits) {
                Some(v) => {
                    let n = if negative {
                        -v
                    } else {
                        v
                    };
                    if i32::MIN <= n <= i32::MAX {
                        Some(n)
                    } else {
                        None
                    }
                },
                None => None,
            }
        }
    }
}

/// A text of digits writes no smaller number than any of its beginnings.
pub proof fn lemma_digits_grow(s: Seq<char>, shorter: int)
    requires
        0 <= shorter <= s.len(),
        digits_value(s) is Some,
    ensures
        digits_value(s.take(shorter)) is Some,
        0 <= digits_value(s.take(shorter))->0 <= digits_value(s)->0,
    decreases s.len(),
{
    if shorter == s.len() {
        assert(s.take(shorter) =~= s);
        if s.len() > 0 {
            lemma_digits_grow(s.drop_last(), s.len() - 1);
            assert(s.drop_last().take(s.len() - 1) =~= s.drop_last());
        }
    } else {
        lemma_digits_grow(s.drop_last(), shorter);
        assert(s.drop_last().take(shorter) =~= s.take(shorter));
    }
}

/// A text with a character that is no digit writes no number.
pub proof fn lemma_digits_need_digits(s: Seq<char>, at: int)
    requires
        0 <= at < s.len(),
        digit_value(s[at]) is None,
    ensures
        digits_value(s) is None,
    decreases s.len(),
{
    if at < s.len() - 1 {
        lemma_digits_need_digits(s.drop_last(), at);
    }
}

/// The value of the decimal digit `c`, if it is one.
fn digit_of_char(c: char) -> (value: Option<i64>)
    ensures
        match value {
            Some(v) => digit_value(c) == Some(v as int) && 0 <= v <= 9,
            None => digit_value(c) is None,
        },
{
    if c >= '0' && c <= '9' {
        Some((c as u32 - '0' as u32) as i64)
    } else {
        None
    }
}

/// Reads a number of thirty-two bits.
pub fn parse_number(token: &[char]) -> (value: Option<i32>)
    ensures
        match value {
            Some(v) => number(token@) == Some(v as int),
            None => number(token@) is None,
        },
{
    if token.len() == 0 {
        return None;
    }
    let negative = token[0] == '-';
    let start: usize = if token[0] == '-' || token[0] == '+' {
        1
    } else {
        0
    };
    if start == token.len() {
        proof {
            assert(token@.drop_first().len() == 0);
        }
        return None;
    }
    let ghost digits = token@.skip(start as int);
    proof {
        if start == 1 {
            assert(digits =~= token@.drop_first());
        } else {
            assert(digits =~= token@);
        }
        assert(digits.take(0) =~= Seq::<char>::empty());
        assert(digits == if token@[0] == '-' || token@[0] == '+' {
            token@.drop_first()
        } else {
            token@
        });
    }
    let mut value: i64 = 0;
    let mut i: usize = start;
    while i < token.len()
        invariant
            start <= i <= token.len(),
            token@.len() > 0,
            digits.len() > 0,
            digits == token@.skip(start as int),
            digits == if token@[0] == '-' || token@[0] == '+' {
                token@.drop_first()
            } else {
                token@
            },
            digits_value(digits.take(i - start)) == Some(value as int),
            0 <= value <= 0x8000_0000,
        decreases token.len() - i,
    {
        proof {
            assert(digits.take(i - start + 1).drop_last() =~= digits.take(i - start));
            assert(digits.take(i - start + 1).last() == token@[i as int]);
        }
        match digit_of_char(token[i]) {
            Some(low) => {
                let next = value * 10 + low;
                if next > 0x8000_0000 {
                    proof {
                        assert(digits_value(digits.take(i - start + 1)) == Some(next as int));
                        if digits_value(digits) is Some {
                            lemma_digits_grow(digits, i - start + 1);
                        }
                        assert(number(token@) is None);
                    }
                    return None;
                }
                value = next;
            },
            None => {
                proof {
                    assert(digits[i - start] == token@[i as int]);
                    lemma_digits_need_digits(digits, i - start);
                    assert(number(token@) is None);
                }
                return None;
            },
        }
        i += 1;
    }
    proof {
        assert(digits.take(digits.len() as int) =~= digits);
    }
    if negative {
        Some((-value) as i32)
    } else if value > 0x7fff_ffff {
        None
    } else {
        Some(value as i32)
    }
}

/// The texts of a list of words.
pub open spec fn texts_of(list: Seq<Vec<char>>) -> Seq<Seq<char>> {
    list.map_values(|w: Vec<char>| w@)
}

/// The words of a line.
pub fn split_words(line: &str) -> (list: Vec<Vec<char>>)
    ensures
        texts_of(list@) == words(line@),
{
    let chars = text_chars(line);
    let mut list: Vec<Vec<char>> = Vec::new();
    let mut current: Vec<char> = Vec::new();
    let mut i: usize = 0;
    proof {
        assert(chars@.take(0) =~= Seq::<char>::empty());
        assert(texts_of(list@) =~= scanned(chars@.take(0)).0);
    }
    while i < chars.len()
        invariant
            i <= chars.len(),
            texts_of(list@) == scanned(chars@.take(i as int)).0,
            current@ == scanned(chars@.take(i as int)).1,
        decreases chars.len() - i,
    {
        let c = chars[i];
        proof {
            assert(chars@.take(i + 1).drop_last() =~= chars@.take(i as int));
            assert(chars@.take(i + 1).last() == c);
        }
        if char_is_whitespace(c) {
            if current.len() > 0 {
                let ghost before = texts_of(list@);
                let ghost word = current@;
                list.push(current);
                current = Vec::new();
                proof {
                    assert(texts_of(list@) =~= before.push(word));
                }
            }
        } else {
            current.push(c);
        }
        i += 1;
    }
    proof {
        assert(chars@.take(chars@.len() as int) =~= chars@);
    }
    if current.len() > 0 {
        let ghost before = texts_of(list@);
        let ghost word = current@;
        list.push(current);
        proof {
            assert(texts_of(list@) =~= before.push(word));
        }
    }
    list
}

/// What a line asks for.
#[derive(Debug, Clone)]
pub enum Command {
    /// The line has no word.
    Empty,
    Help,
    Quit,
    Create { width: i32, height: i32, pattern: Option<String> },
    /// `create` with fewer than two arguments.
    CreateUsage,
    Step { steps: i32, simulation: String },
    Load { pattern: String, x: i32, y: i32 },
    /// `load` without an argument.
    LoadUsage,
    Run,
    Status,
    Backend { name: String },
    /// `backend` without an argument.
    BackendUsage,
    Clear,
    /// A first word that names no command: the word, in lower case.
    Unknown { name: String },
}

/// A command, with its texts as sequences of characters.
pub enum CommandView {
    Empty,
    Help,
    Quit,
    Create { width: int, height: int, pattern: Option<Seq<char>> },
    CreateUsage,
    Step { steps: int, simulation: Seq<char> },
    Load { pattern: Seq<char>, x: int, y: int },
    LoadUsage,
    Run,
    Status,
    Backend { name: Seq<char> },
    BackendUsage,
    Clear,
    Unknown { name: Seq<char> },
}

impl View for Command {
    type V = CommandView;

    open spec fn view(&self) -> CommandView {
        match *self {
            Command::Empty => CommandView::Empty,
            Command::Help => CommandView::Help,
            Command::Quit => CommandView::Quit,
            Command::Create { width, height, pattern } => CommandView::Create {
                width: width as int,
                height: height as int,
                pattern: match pattern {
                    Some(p) => Some(p@),
                    None => None,
                },
            },
            Command::CreateUsage => CommandView::CreateUsage,
            Command::Step { steps, simulation } => CommandView::Step {
                steps: steps as int,
                simulation: simulation@,
            },
            Command::Load { pattern, x, y } => CommandView::Load {
                pattern: pattern@,
                x: x as int,
                y: y as int,
            },
            Command::LoadUsage => CommandView::LoadUsage,
            Command::Run => CommandView::Run,
            Command::Status => CommandView::Status,
            Command::Backend { name } => CommandView::Backend { name: name@ },
            Command::BackendUsage => CommandView::BackendUsage,
            Command::Clear => CommandView::Clear,
            Command::Unknown { name } => CommandView::Unknown { name: name@ },
        }
    }
}

/// The number that the argument at `at` writes, or `otherwise` where there
/// is no such argument or it writes none.
pub open spec fn number_at(list: Seq<Seq<char>>, at: int, otherwise: int) -> int {
    if at < list.len() && number(list[at]) is Some {
        number(list[at])->0
    } else {
        otherwise
    }
}

/// The command that the name `name` asks for, with the words after the
/// first of `list` as its arguments.  The name is taken as it stands.
pub open spec fn command_named(name: Seq<char>, list: Seq<Seq<char>>) -> CommandView {
    if name == "help"@ || name == "h"@ {
        CommandView::Help
    } else if name == "quit"@ || name == "q"@ || name == "exit"@ {
        CommandView::Quit
    } else if name == "create"@ || name == "new"@ {
        if list.len() >= 3 {
            CommandView::Create {
                width: number_at(list, 1, 50),
                height: number_at(list, 2, 30),
                pattern: if list.len() > 3 {
                    Some(list[3])
                } else {
                    None
                },
            }
        } else {
            CommandView::CreateUsage
        }
    } else if name == "step"@ || name == "s"@ {
        CommandView::Step {
            steps: number_at(list, 1, 1),
            simulation: if list.len() > 2 {
                list[2]
            } else {
                "default"@
            },
        }
    } else if name == "load"@ || name == "l"@ {
        if list.len() >= 2 {
            CommandView::Load {
                pattern: list[1],
                x: number_at(list, 2, 0),
                y: number_at(list, 3, 0),
            }
        } else {
            CommandView::LoadUsage
        }
    } else if name == "run"@ || name == "r"@ {
        CommandView::Run
    } else if name == "status"@ || name == "stat"@ {
        CommandView::Status
    } else if name == "backend"@ || name == "be"@ {
        if list.len() >= 2 {
            CommandView::Backend { name: list[1] }
        } else {
            CommandView::BackendUsage
        }
    } else if name == "clear"@ || name == "c"@ {
        CommandView::Clear
    } else {
        CommandView::Unknown { name }
    }
}

/// The command that a list of words asks for.  The first word names the
/// command, in any case of letters; the others are its arguments.
pub open spec fn command_of(list: Seq<Seq<char>>) -> CommandView {
    if list.len() == 0 {
        CommandView::Empty
    } else {
        command_named(lowercase(list[0]), list)
    }
}

/// The number that the argument at `at` writes, or `otherwise`.
fn argument_number(list: &Vec<Vec<char>>, at: usize, otherwise: i32) -> (value: i32)
    ensures
        value == number_at(texts_of(list@), at as int, otherwise as int),
{
    if at < list.len() {
        match parse_number(list[at].as_slice()) {
            Some(v) => v,
            None => otherwise,
        }
    } else {
        otherwise
    }
}

/// The text of the word at `at`.
fn argument_text(list: &Vec<Vec<char>>, at: usize) -> (text: String)
    requires
        at < list.len(),
    ensures
        text@ == texts_of(list@)[at as int],
{
    text_of(list[at].as_slice())
}

/// Whether `text` is `literal`.
fn is_word(text: &String, literal: &str) -> (same: bool)
    ensures
        same == (text@ == literal@),
{
    *text == literal.to_string()
}

/// The command that the name `name` asks for, with the words after the
/// first of `list` as its arguments.  The name is taken as it stands: a
/// caller that wants letters of either case lowers it first.
pub fn command_for(name: String, list: &Vec<Vec<char>>) -> (command: Command)
    ensures
        command@ == command_named(name@, texts_of(list@)),
{
    if is_word(&name, "help") || is_word(&name, "h") {
        Command::Help
    } else if is_word(&name, "quit") || is_word(&name, "q") || is_word(&name, "exit") {
        Command::Quit
    } else if is_word(&name, "create") || is_word(&name, "new") {
        if list.len() >= 3 {
            let width = argument_number(list, 1, 50);
            let height = argument_number(list, 2, 30);
            let pattern = if list.len() > 3 {
                Some(argument_text(list, 3))
            } else {
                None
            };
            Command::Create { width, height, pattern }
        } else {
            Command::CreateUsage
        }
    } else if is_word(&name, "step") || is_word(&name, "s") {
        let steps = argument_number(list, 1, 1);
        let simulation = if list.len() > 2 {
            argument_text(list, 2)
        } else {
            "default".to_string()
        };
        Command::Step { steps, simulation }
    } else if is_word(&name, "load") || is_word(&name, "l") {
        if list.len() >= 2 {
            let pattern = argument_text(list, 1);
            let x = argument_number(list, 2, 0);
            let y = argument_number(list, 3, 0);
            Command::Load { pattern, x, y }
        } else {
            Command::LoadUsage
        }
    } else if is_word(&name, "run") || is_word(&name, "r") {
        Command::Run
    } else if is_word(&name, "status") || is_word(&name, "stat") {
        Command::Status
    } else if is_word(&name, "backend") || is_word(&name, "be") {
        if list.len() >= 2 {
            Command::Backend { name: argument_text(list, 1) }
        } else {
            Command::BackendUsage
        }
    } else if is_word(&name, "clear") || is_word(&name, "c") {
        Command::Clear
    } else {
        Command::Unknown { name }
    }
}

/// Reads a command from a line.
pub fn parse_command(line: &str) -> (command: Command)
    ensures
        command@ == command_of(words(line@)),
{
    let list = split_words(line);
    if list.len() == 0 {
        return Command::Empty;
    }
    let first = argument_text(&list, 0);
    let name = lowercase_text(first.as_str());
    command_for(name, &list)
}

/// The answer that a command gets at once, without a word to a server.
pub open spec fn immediate_reply(command: CommandView) -> Option<Seq<char>> {
    match command {
        CommandView::Empty => Some("No command entered"@),
        CommandView::Help => Some(help_text()),
        CommandView::Quit => Some("Quitting..."@),
        CommandView::CreateUsage => Some("Usage: create <width> <height> [pattern]"@),
        CommandView::LoadUsage => Some("Usage: load <pattern_name> [x] [y]"@),
        CommandView::BackendUsage => Some("Usage: backend <bevy|entt|flecs>"@),
        CommandView::Clear => Some("Grid cleared (not implemented)"@),
        CommandView::Unknown { name } => Some(
            "Unknown command: "@ + name + ". Type 'help' for available commands."@,
        ),
        _ => None,
    }
}

impl Command {
    /// The answer that the command gets at once, if it gets one: the
    /// commands that are carried out by a server get none.
    pub fn reply(&self) -> (answer: Option<String>)
        ensures
            match answer {
                Some(text) => immediate_reply(self@) == Some(text@),
                None => immediate_reply(self@) is None,
            },
    {
        match self {
            Command::Empty => Some("No command entered".to_string()),
            Command::Help => Some(crate::input_handler::InputHandler::new().get_help_text()),
            Command::Quit => Some("Quitting...".to_string()),
            Command::CreateUsage => Some("Usage: create <width> <height> [pattern]".to_string()),
            Command::LoadUsage => Some("Usage: load <pattern_name> [x] [y]".to_string()),
            Command::BackendUsage => Some("Usage: backend <bevy|entt|flecs>".to_string()),
            Command::Clear => Some("Grid cleared (not implemented)".to_string()),
            Command::Unknown { name } => Some(
                "Unknown command: ".to_string().concat(name.as_str()).concat(
                    ". Type 'help' for available commands.",
                ),
            ),
            _ => None,
        }
    }
}

} // verus!
