//! The dispatcher: a tick loop that is steered by commands given as text.
//! Here stand the commands, how a line of text is read as one, and how the
//! dispatcher reacts to each; the loop itself belongs to the program.

use crate::strings::{
    decimal, decimal_string, join, joined, same_text, split_whitespace, texts, words,
};
use vstd::prelude::*;

verus! {

/// How many nanoseconds a second has.
pub const NANOS_PER_SECOND: u64 = 1_000_000_000;

/// A command to the dispatcher.
#[derive(Debug, Clone, PartialEq, Eq)]
pub enum Command {
    /// Stop processing ticks.
    Pause,
    /// Go on processing ticks.
    Resume,
    /// Process the given number of ticks at once.
    Step(u64),
    /// Change the number of ticks in a second.
    SetTickRate(u64),
    /// A message of the caller's own.
    Custom(String),
    /// End the loop.
    Terminate,
}

/// A command as a plain value.
pub enum CommandView {
    /// Stop processing ticks.
    Pause,
    /// Go on processing ticks.
    Resume,
    /// Process the given number of ticks at once.
    Step(u64),
    /// Change the number of ticks in a second.
    SetTickRate(u64),
    /// A message of the caller's own.
    Custom(Seq<char>),
    /// End the loop.
    Terminate,
}

impl View for Command {
    type V = CommandView;

    open spec fn view(&self) -> CommandView {
        match self {
            Command::Pause => CommandView::Pause,
            Command::Resume => CommandView::Resume,
            Command::Step(count) => CommandView::Step(*count),
            Command::SetTickRate(rate) => CommandView::SetTickRate(*rate),
            Command::Custom(message) => CommandView::Custom(message@),
            Command::Terminate => CommandView::Terminate,
        }
    }
}

/// What reading a command gave, as a plain value.
pub open spec fn outcome_view(outcome: Result<Command, String>) -> Result<CommandView, Seq<char>> {
    match outcome {
        Ok(command) => Ok(command@),
        Err(message) => Err(message@),
    }
}

/// Whether `c` is a decimal digit.
pub open spec fn is_digit(c: char) -> bool {
    '0' <= c && c <= '9'
}

/// Whether `s` holds decimal digits only.
pub open spec fn all_digits(s: Seq<char>) -> bool {
    forall|i: int| 0 <= i < s.len() ==> is_digit(#[trigger] s[i])
}

/// The number that the decimal digits `s` stand for.
pub open spec fn digits_value(s: Seq<char>) -> nat
    decreases s.len(),
{
    if s.len() == 0 {
        0
    } else {
        digits_value(s.drop_last()) * 10 + (s.last() as nat - '0' as nat) as nat
    }
}

/// `s` without a plus sign in front of it.
pub open spec fn unsigned(s: Seq<char>) -> Seq<char> {
    if s.len() > 0 && s[0] == '+' {
        s.skip(1)
    } else {
        s
    }
}

/// The number that `s` stands for, as `u64::from_str` reads it: an optional
/// plus sign and then at least one decimal digit, nothing else, and a value
/// that fits.
pub open spec fn number(s: Seq<char>) -> Option<u64> {
    let digits = unsigned(s);
    if digits.len() > 0 && all_digits(digits) && digits_value(digits) <= u64::MAX {
        Some(digits_value(digits) as u64)
    } else {
        None
    }
}

/// The lower-case form of `s` that `str::to_lowercase` gives.
pub uninterp spec fn lowercased(s: Seq<char>) -> Seq<char>;

/// Calls `str::to_lowercase`, which returns the lower-case form of the
/// string.  The form depends on the text alone, and that is all the contract
/// claims.
#[verifier::external_body]
fn to_lowercase(text: &str) -> (lower: String)
    ensures
        lower@ == lowercased(text@),
{
    text.to_lowercase()
}

/// The command that the verb `verb`, already in lower case, and the words
/// `args` behind it stand for, or the message that says what is wrong.
pub open spec fn command_for(verb: Seq<char>, args: Seq<Seq<char>>) -> Result<
    CommandView,
    Seq<char>,
> {
    if verb == "pause"@ {
        Ok(CommandView::Pause)
    } else if verb == "resume"@ {
        Ok(CommandView::Resume)
    } else if verb == "step"@ {
        if args.len() == 0 {
            Ok(CommandView::Step(1))
        } else {
            match number(args[0]) {
                Some(count) => Ok(CommandView::Step(count)),
                None => Err("Invalid step count: "@ + args[0]),
            }
        }
    } else if verb == "rate"@ || verb == "tick_rate"@ {
        if args.len() == 0 {
            Err("tick rate requires a numeric value"@)
        } else {
            match number(args[0]) {
                Some(rate) => if rate == 0 {
                    Err("Tick rate must be greater than zero"@)
                } else {
                    Ok(CommandView::SetTickRate(rate))
                },
                None => Err("Invalid tick rate: "@ + args[0]),
            }
        }
    } else if verb == "custom"@ {
        Ok(CommandView::Custom(joined(args, " "@)))
    } else if verb == "quit"@ || verb == "exit"@ || verb == "terminate"@ {
        Ok(CommandView::Terminate)
    } else {
        Err("Unknown command: "@ + verb)
    }
}

/// The command that a line of text stands for: its first word, in lower
/// case, is the verb, and the words behind it are the arguments.
pub open spec fn parsed_command(input: Seq<char>) -> Result<CommandView, Seq<char>> {
    let parts = words(input);
    if parts.len() == 0 {
        Err("empty command received"@)
    } else {
        command_for(lowercased(parts[0]), parts.skip(1))
    }
}

/// The value of the first digits of a number is at most the value of all of
/// them.
proof fn lemma_digits_value_grows(s: Seq<char>, k: int)
    requires
        0 <= k <= s.len(),
        all_digits(s),
    ensures
        digits_value(s.take(k)) <= digits_value(s),
    decreases s.len() - k,
{
    if k == s.len() {
        assert(s.take(k) =~= s);
    } else {
        assert(s.take(k + 1).drop_last() =~= s.take(k));
        assert(is_digit(s[k]));
        lemma_digits_value_grows(s, k + 1);
    }
}

/// How many digits have been read after `index` characters of a text whose
/// sign takes `sign` characters.
spec fn digits_read(index: int, sign: int) -> int {
    if index >= sign {
        index - sign
    } else {
        0
    }
}

/// The number that `text` stands for, if it stands for one.
pub fn parse_u64(text: &str) -> (value: Option<u64>)
    ensures
        value == number(text@),
{
    broadcast use vstd::string::axiom_spec_iter;

    let ghost digits = unsigned(text@);
    let ghost sign: int = text@.len() - digits.len();
    let mut value: u64 = 0;
    let mut first = true;
    let mut seen = false;
    let chars = text.chars();
    assert(digits.take(0) =~= Seq::<char>::empty());
    for c in it: chars
        invariant
            it.seq() == text@,
            digits == unsigned(text@),
            sign == text@.len() - digits.len(),
            first <==> it.index() == 0,
            seen <==> digits_read(it.index(), sign) > 0,
            all_digits(digits.take(digits_read(it.index(), sign))),
            value == digits_value(digits.take(digits_read(it.index(), sign))),
    {
        let ghost k = digits_read(it.index(), sign);
        if first && c == '+' {
            first = false;
        } else {
            first = false;
            assert(digits[k] == c);
            assert(digits.take(k + 1).drop_last() =~= digits.take(k));
            if !('0' <= c && c <= '9') {
                return None;
            }
            let digit = (c as u8 - '0' as u8) as u64;
            proof {
                if all_digits(digits) {
                    lemma_digits_value_grows(digits, k + 1);
                }
            }
            match value.checked_mul(10) {
                None => {
                    return None;
                },
                Some(shifted) => match shifted.checked_add(digit) {
                    None => {
                        return None;
                    },
                    Some(next) => {
                        value = next;
                    },
                },
            }
            seen = true;
        }
    }
    assert(digits.take(digits.len() as int) =~= digits);
    if seen {
        Some(value)
    } else {
        None
    }
}

/// A message that ends with a piece of the input.
fn message_about(opening: &str, subject: &str) -> (message: String)
    ensures
        message@ == opening@ + subject@,
{
    let mut message = opening.to_owned();
    message.append(subject);
    message
}

/// The command that the verb `verb`, already in lower case, and the words
/// `args` behind it stand for.
pub fn interpret(verb: &str, args: &Vec<String>) -> (outcome: Result<Command, String>)
    ensures
        outcome_view(outcome) == command_for(verb@, texts(args@)),
{
    if same_text(verb, "pause") {
        Ok(Command::Pause)
    } else if same_text(verb, "resume") {
        Ok(Command::Resume)
    } else if same_text(verb, "step") {
        if args.len() == 0 {
            Ok(Command::Step(1))
        } else {
            match parse_u64(args[0].as_str()) {
                Some(count) => Ok(Command::Step(count)),
                None => Err(message_about("Invalid step count: ", args[0].as_str())),
            }
        }
    } else if same_text(verb, "rate") || same_text(verb, "tick_rate") {
        if args.len() == 0 {
            Err("tick rate requires a numeric value".to_owned())
        } else {
            match parse_u64(args[0].as_str()) {
                Some(rate) => if rate == 0 {
                    Err("Tick rate must be greater than zero".to_owned())
                } else {
                    Ok(Command::SetTickRate(rate))
                },
                None => Err(message_about("Invalid tick rate: ", args[0].as_str())),
            }
        }
    } else if same_text(verb, "custom") {
        Ok(Command::Custom(join(args, " ")))
    } else if same_text(verb, "quit") || same_text(verb, "exit") || same_text(verb, "terminate") {
        Ok(Command::Terminate)
    } else {
        Err(message_about("Unknown command: ", verb))
    }
}

/// Reads a line of text as a command.
pub fn parse_command(input: &str) -> (outcome: Result<Command, String>)
    ensures
        outcome_view(outcome) == parsed_command(input@),
{
    let mut parts = split_whitespace(input);
    if parts.len() == 0 {
        return Err("empty command received".to_owned());
    }
    let ghost all = texts(parts@);
    let first = parts.remove(0);
    assert(texts(parts@) =~= all.skip(1));
    let verb = to_lowercase(first.as_str());
    interpret(verb.as_str(), &parts)
}

/// What the program is to do after a command.
#[derive(Debug)]
pub struct Reaction {
    /// What is to be printed.
    pub message: String,
    /// How many ticks are to be processed at once.
    pub ticks: u64,
    /// Whether the loop is to end.
    pub terminate: bool,
}

/// The state of the dispatcher.
#[derive(Debug)]
pub struct Dispatcher {
    /// How many ticks are processed in a second.
    pub tick_rate: u64,
    /// How many nanoseconds a tick lasts.
    pub tick_nanos: u64,
    /// Whether ticks are processed at all.
    pub paused: bool,
}

/// The message after a change of the tick rate.
pub open spec fn rate_message(tick_rate: u64) -> Seq<char> {
    "Tick rate updated to "@ + decimal(tick_rate as nat) + " ticks/second"@
}

/// The message before stepping.
pub open spec fn step_message(count: u64) -> Seq<char> {
    "Stepping dispatcher for "@ + decimal(count as nat) + " tick(s)"@
}

impl Dispatcher {
    /// Whether the length of a tick fits the tick rate.
    pub open spec fn well_formed(&self) -> bool {
        self.tick_rate > 0 && self.tick_nanos == NANOS_PER_SECOND / self.tick_rate
    }

    /// The state after `command`.
    pub open spec fn after(self, command: CommandView) -> Dispatcher {
        match command {
            CommandView::Pause => Dispatcher { paused: true, ..self },
            CommandView::Resume => Dispatcher { paused: false, ..self },
            CommandView::SetTickRate(rate) => Dispatcher {
                tick_rate: rate,
                tick_nanos: NANOS_PER_SECOND / rate,
                paused: self.paused,
            },
            _ => self,
        }
    }

    /// What is printed after `command`.
    pub open spec fn message_for(command: CommandView) -> Seq<char> {
        match command {
            CommandView::Pause => "Dispatcher paused"@,
            CommandView::Resume => "Dispatcher resumed"@,
            CommandView::Step(count) => step_message(count),
            CommandView::SetTickRate(rate) => rate_message(rate),
            CommandView::Custom(message) => "Received custom command: "@ + message,
            CommandView::Terminate => "Termination command received. Exiting dispatcher."@,
        }
    }

    /// A running dispatcher with the given tick rate.
    pub fn new(tick_rate: u64) -> (dispatcher: Self)
        requires
            tick_rate > 0,
        ensures
            dispatcher.well_formed(),
            dispatcher.tick_rate == tick_rate,
            !dispatcher.paused,
    {
        Dispatcher { tick_rate, tick_nanos: NANOS_PER_SECOND / tick_rate, paused: false }
    }

    /// Changes the tick rate and says so.
    pub fn update_tick_rate(&mut self, tick_rate: u64) -> (message: String)
        requires
            tick_rate > 0,
        ensures
            *final(self) == old(self).after(CommandView::SetTickRate(tick_rate)),
            message@ == rate_message(tick_rate),
    {
        self.tick_rate = tick_rate;
        self.tick_nanos = NANOS_PER_SECOND / tick_rate;
        let mut message = "Tick rate updated to ".to_owned();
        message.append(decimal_string(tick_rate).as_str());
        message.append(" ticks/second");
        message
    }

    /// Takes a command: changes the state as the command says, and tells
    /// the program what to print, how many ticks to process at once and
    /// whether to end the loop.
    pub fn handle_command(&mut self, command: Command) -> (reaction: Reaction)
        requires
            command matches Command::SetTickRate(rate) ==> rate > 0,
        ensures
            *final(self) == old(self).after(command@),
            old(self).well_formed() ==> final(self).well_formed(),
            reaction.message@ == Self::message_for(command@),
            reaction.ticks == match command {
                Command::Step(count) => count,
                _ => 0,
            },
            reaction.terminate == (command is Terminate),
    {
        match command {
            Command::Pause => {
                self.paused = true;
                Reaction { message: "Dispatcher paused".to_owned(), ticks: 0, terminate: false }
            },
            Command::Resume => {
                self.paused = false;
                Reaction { message: "Dispatcher resumed".to_owned(), ticks: 0, terminate: false }
            },
            Command::Step(count) => {
                let mut message = "Stepping dispatcher for ".to_owned();
                message.append(decimal_string(count).as_str());
                message.append(" tick(s)");
                Reaction { message, ticks: count, terminate: false }
            },
            Command::SetTickRate(rate) => {
                let message = self.update_tick_rate(rate);
                Reaction { message, ticks: 0, terminate: false }
            },
            Command::Custom(text) => {
                let mut message = "Received custom command: ".to_owned();
                message.append(text.as_str());
                Reaction { message, ticks: 0, terminate: false }
            },
            Command::Terminate => Reaction {
                message: "Termination command received. Exiting dispatcher.".to_owned(),
                ticks: 0,
                terminate: true,
            },
        }
    }

    /// Processes one tick.  Nothing happens in a tick yet.
    pub fn process_tick(&self) {
    }
}

} // verus!
