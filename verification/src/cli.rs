//! The command line: which settings a list of arguments and the
//! environment come to.

use vstd::prelude::*;
use vstd::string::*;
use crate::text::{ascii_digit, chars_of, is_ascii_digit};

verus! {

/// The port to listen on where none is asked for.
pub const DEFAULT_PORT: u16 = 3000;

/// The settings of the server.
#[derive(Debug)]
pub struct Args {
    /// The path of the database file.
    pub db_path: String,
    /// The port to listen on.
    pub port: u16,
    /// Keep the database in memory.
    pub in_memory: bool,
    /// The host to bind to.
    pub host: String,
    /// The secret that signs the tokens.
    pub jwt_secret: Option<String>,
    /// The directory of the file store.
    pub storage_path: Option<String>,
}

/// What the environment sets: the value of each variable that is set.
#[derive(Debug)]
pub struct Environment {
    pub port: Option<String>,
    pub path: Option<String>,
    pub host: Option<String>,
    pub memory: bool,
    pub jwt_secret: Option<String>,
    pub storage_path: Option<String>,
}

/// What the command line asks for.
#[derive(Debug)]
pub enum Invocation {
    /// Run the server with these settings.
    Run(Args),
    /// Print the help text and leave.
    Help,
}

/// What an [`Args`] says, with its texts as sequences of characters.
pub ghost struct ArgsSpec {
    pub db_path: Seq<char>,
    pub port: u16,
    pub in_memory: bool,
    pub host: Seq<char>,
    pub jwt_secret: Option<Seq<char>>,
    pub storage_path: Option<Seq<char>>,
}

/// The text of an optional string.
pub open spec fn optional_text(s: Option<String>) -> Option<Seq<char>> {
    match s {
        Some(t) => Some(t@),
        None => None,
    }
}

impl View for Args {
    type V = ArgsSpec;

    open spec fn view(&self) -> ArgsSpec {
        ArgsSpec {
            db_path: self.db_path@,
            port: self.port,
            in_memory: self.in_memory,
            host: self.host@,
            jwt_secret: optional_text(self.jwt_secret),
            storage_path: optional_text(self.storage_path),
        }
    }
}

/// The settings where nothing is asked for.
pub open spec fn default_args() -> ArgsSpec {
    ArgsSpec {
        db_path: "vibedb.db"@,
        port: DEFAULT_PORT,
        in_memory: false,
        host: "0.0.0.0"@,
        jwt_secret: None,
        storage_path: None,
    }
}

/// The number that a sequence of decimal digits writes.
pub open spec fn digits_value(digits: Seq<char>) -> nat
    decreases digits.len(),
{
    if digits.len() == 0 {
        0
    } else {
        digits_value(digits.drop_last()) * 10 + ((digits.last() as u8) - 48) as nat
    }
}

/// Every character of `s` is a decimal digit.
pub open spec fn all_digits(s: Seq<char>) -> bool {
    forall|i: int| 0 <= i < s.len() ==> is_ascii_digit(#[trigger] s[i])
}

/// The digits of a port number: the text without the plus sign that may
/// open it.
pub open spec fn port_digits(text: Seq<char>) -> Seq<char> {
    if text.len() > 0 && text[0] == '+' {
        text.drop_first()
    } else {
        text
    }
}

/// The port that a text writes: decimal digits, after a plus sign or
/// without one, that come to no more than 65535.
pub open spec fn port_of(text: Seq<char>) -> Option<u16> {
    let digits = port_digits(text);
    if digits.len() == 0 || !all_digits(digits) || digits_value(digits) > u16::MAX {
        None
    } else {
        Some(digits_value(digits) as u16)
    }
}

/// A number written with more digits is no smaller.
proof fn lemma_digits_value_grows(digits: Seq<char>, n: int)
    requires
        0 <= n <= digits.len(),
    ensures
        digits_value(digits.take(n)) <= digits_value(digits),
    decreases digits.len(),
{
    if n < digits.len() {
        let init = digits.drop_last();
        lemma_digits_value_grows(init, n);
        assert(init.take(n) =~= digits.take(n));
    } else {
        assert(digits.take(n) =~= digits);
    }
}

/// Reads a port number.
pub fn parse_port(text: &str) -> (r: Option<u16>)
    ensures
        r == port_of(text@),
{
    let chars = chars_of(text);
    let start: usize = if chars.len() > 0 && chars[0] == '+' {
        1
    } else {
        0
    };
    let ghost digits = chars@.subrange(start as int, chars@.len() as int);
    proof {
        if start == 1 {
            assert(digits =~= text@.drop_first());
        } else {
            assert(digits =~= text@);
        }
    }
    if chars.len() == start {
        return None;
    }
    let mut value: u32 = 0;
    let mut i: usize = start;
    while i < chars.len()
        invariant
            start <= i <= chars@.len(),
            digits == chars@.subrange(start as int, chars@.len() as int),
            digits == port_digits(text@),
            all_digits(digits.take(i - start)),
            value == digits_value(digits.take(i - start)),
            value <= u16::MAX,
        decreases chars@.len() - i,
    {
        let c = chars[i];
        proof {
            let next = digits.take(i - start + 1);
            assert(next.drop_last() =~= digits.take(i - start));
            assert(next.last() == c);
            assert(digits[i - start] == c);
        }
        if !ascii_digit(c) {
            return None;
        }
        let d: u32 = (c as u8 - 48) as u32;
        value = value * 10 + d;
        proof {
            assert(value == digits_value(digits.take(i - start + 1)));
        }
        if value > 65535 {
            proof {
                lemma_digits_value_grows(digits, i - start + 1);
            }
            return None;
        }
        proof {
            let next = digits.take(i - start + 1);
            assert forall|j: int| 0 <= j < next.len() implies is_ascii_digit(#[trigger] next[j]) by {
                if j < i - start {
                    assert(digits.take(i - start)[j] == next[j]);
                }
            }
        }
        i = i + 1;
    }
    proof {
        assert(digits.take(i - start) =~= digits);
    }
    Some(value as u16)
}

/// The argument is a switch that takes the next argument as its value.
pub open spec fn takes_value(arg: Seq<char>) -> bool {
    arg == "--db"@ || arg == "-d"@ || arg == "--port"@ || arg == "-p"@ || arg == "--host"@ || arg
        == "-h"@
}

/// The settings after the switch `arg` has taken `value`.
pub open spec fn with_value(settings: ArgsSpec, arg: Seq<char>, value: Seq<char>) -> ArgsSpec {
    if arg == "--db"@ || arg == "-d"@ {
        ArgsSpec { db_path: value, ..settings }
    } else if arg == "--port"@ || arg == "-p"@ {
        ArgsSpec {
            port: match port_of(value) {
                Some(p) => p,
                None => DEFAULT_PORT,
            },
            ..settings
        }
    } else {
        ArgsSpec { host: value, ..settings }
    }
}

/// What the arguments from position `i` on make of `settings`; `None`
/// where they ask for the help text. A switch without a value after it,
/// and an argument that is no switch, are passed over.
pub open spec fn scanned(args: Seq<String>, i: int, settings: ArgsSpec) -> Option<ArgsSpec>
    decreases args.len() - i,
{
    if i < 0 || i >= args.len() {
        Some(settings)
    } else if takes_value(args[i]@) {
        if i + 1 < args.len() {
            scanned(args, i + 2, with_value(settings, args[i]@, args[i + 1]@))
        } else {
            scanned(args, i + 1, settings)
        }
    } else if args[i]@ == "--memory"@ || args[i]@ == "-m"@ {
        scanned(args, i + 1, ArgsSpec { in_memory: true, ..settings })
    } else if args[i]@ == "--help"@ {
        None
    } else {
        scanned(args, i + 1, settings)
    }
}

/// The settings after the environment has overridden them.
pub open spec fn overridden(settings: ArgsSpec, env: Environment) -> ArgsSpec {
    ArgsSpec {
        port: match env.port {
            Some(text) => match port_of(text@) {
                Some(p) => p,
                None => settings.port,
            },
            None => settings.port,
        },
        db_path: match env.path {
            Some(path) => path@,
            None => settings.db_path,
        },
        host: match env.host {
            Some(host) => host@,
            None => settings.host,
        },
        in_memory: settings.in_memory || env.memory,
        jwt_secret: match env.jwt_secret {
            Some(secret) => Some(secret@),
            None => settings.jwt_secret,
        },
        storage_path: match env.storage_path {
            Some(path) => Some(path@),
            None => settings.storage_path,
        },
    }
}

impl Default for Args {
    fn default() -> (r: Args)
        ensures
            r@ == default_args(),
    {
        Args {
            db_path: "vibedb.db".to_string(),
            port: DEFAULT_PORT,
            in_memory: false,
            host: "0.0.0.0".to_string(),
            jwt_secret: None,
            storage_path: None,
        }
    }
}

impl Args {
    /// Reads the settings from the arguments, the program's name first, and
    /// then lets the environment override them.
    pub fn from_env(args: &Vec<String>, env: Environment) -> (r: Invocation)
        ensures
            match r {
                Invocation::Run(settings) => scanned(args@, 1, default_args()) is Some
                    && settings@ == overridden(scanned(args@, 1, default_args())->0, env),
                Invocation::Help => scanned(args@, 1, default_args()) is None,
            },
    {
        let mut settings = Args::default();
        let mut i: usize = 1;
        while i < args.len()
            invariant
                1 <= i,
                scanned(args@, 1, default_args()) == scanned(args@, i as int, settings@),
            decreases args@.len() - i,
        {
            let arg = args[i].as_str();
            if *arg == *"--db" || *arg == *"-d" {
                if i + 1 < args.len() {
                    settings.db_path = args[i + 1].clone();
                    i = i + 1;
                }
            } else if *arg == *"--port" || *arg == *"-p" {
                if i + 1 < args.len() {
                    settings.port = match parse_port(args[i + 1].as_str()) {
                        Some(p) => p,
                        None => DEFAULT_PORT,
                    };
                    i = i + 1;
                }
            } else if *arg == *"--host" || *arg == *"-h" {
                if i + 1 < args.len() {
                    settings.host = args[i + 1].clone();
                    i = i + 1;
                }
            } else if *arg == *"--memory" || *arg == *"-m" {
                settings.in_memory = true;
            } else if *arg == *"--help" {
                return Invocation::Help;
            }
            i = i + 1;
        }
        match env.port {
            Some(text) => match parse_port(text.as_str()) {
                Some(p) => {
                    settings.port = p;
                },
                None => {},
            },
            None => {},
        }
        match env.path {
            Some(path) => {
                settings.db_path = path;
            },
            None => {},
        }
        match env.host {
            Some(host) => {
                settings.host = host;
            },
            None => {},
        }
        if env.memory {
            settings.in_memory = true;
        }
        match env.jwt_secret {
            Some(secret) => {
                settings.jwt_secret = Some(secret);
            },
            None => {},
        }
        match env.storage_path {
            Some(path) => {
                settings.storage_path = Some(path);
            },
            None => {},
        }
        Invocation::Run(settings)
    }
}

} // verus!
