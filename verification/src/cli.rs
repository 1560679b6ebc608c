//! The command line: which command to run and with which options.
use vstd::prelude::*;

use crate::error::{fails_with, AegisError};
use crate::text::{join3, parse_u16, parse_u16_exec, str_eq};

verus! {

/// The command that a command line asks for.
#[derive(Debug, Clone, PartialEq, Eq)]
pub enum Command {
    Help,
    Doctor,
    Init(InitArgs),
    Smoke(SmokeArgs),
    Fast(FastArgs),
    Browser,
}

/// Options of `aegis smoke`.
#[derive(Debug, Clone, PartialEq, Eq)]
pub struct SmokeArgs {
    pub url: String,
    pub expect_status: u16,
    pub expect_text: Option<String>,
    pub expect_all: Vec<String>,
    pub expect_not: Vec<String>,
}

/// Options of `aegis fast` (and of its alias `aegis test`). `config` is the path
/// of the configuration file.
#[derive(Debug, Clone, PartialEq, Eq)]
pub struct FastArgs {
    pub config: String,
    pub format: OutputFormat,
    pub fail_fast: bool,
}

/// How a fast suite reports its result.
#[derive(Debug, Clone, Copy, PartialEq, Eq)]
pub enum OutputFormat {
    Text,
    Json,
}

/// Options of `aegis init`.
#[derive(Debug, Clone, Copy, PartialEq, Eq)]
pub struct InitArgs {
    pub force: bool,
}

/// The usage text that a `-h` or `--help` option of a command asks to print.
#[derive(Debug, Clone, Copy, PartialEq, Eq)]
pub enum HelpTopic {
    Init,
    Smoke,
    Fast,
}

/// The value of a `SmokeArgs`.
pub struct SmokeArgsView {
    pub url: Seq<char>,
    pub expect_status: u16,
    pub expect_text: Option<Seq<char>>,
    pub expect_all: Seq<Seq<char>>,
    pub expect_not: Seq<Seq<char>>,
}

/// The value of a `FastArgs`.
pub struct FastArgsView {
    pub config: Seq<char>,
    pub format: OutputFormat,
    pub fail_fast: bool,
}

/// The value of a `Command`.
pub enum CommandView {
    Help,
    Doctor,
    Init(InitArgs),
    Smoke(SmokeArgsView),
    Fast(FastArgsView),
    Browser,
}

impl View for SmokeArgs {
    type V = SmokeArgsView;

    open spec fn view(&self) -> SmokeArgsView {
        SmokeArgsView {
            url: self.url@,
            expect_status: self.expect_status,
            expect_text: self.expect_text.deep_view(),
            expect_all: self.expect_all.deep_view(),
            expect_not: self.expect_not.deep_view(),
        }
    }
}

impl View for FastArgs {
    type V = FastArgsView;

    open spec fn view(&self) -> FastArgsView {
        FastArgsView { config: self.config@, format: self.format, fail_fast: self.fail_fast }
    }
}

impl View for Command {
    type V = CommandView;

    open spec fn view(&self) -> CommandView {
        match self {
            Command::Help => CommandView::Help,
            Command::Doctor => CommandView::Doctor,
            Command::Init(a) => CommandView::Init(*a),
            Command::Smoke(a) => CommandView::Smoke(a@),
            Command::Fast(a) => CommandView::Fast(a@),
            Command::Browser => CommandView::Browser,
        }
    }
}

/// The smoke options before any are given.
pub open spec fn default_smoke_args() -> SmokeArgsView {
    SmokeArgsView {
        url: "http://127.0.0.1:3000/"@,
        expect_status: 200,
        expect_text: None,
        expect_all: Seq::empty(),
        expect_not: Seq::empty(),
    }
}

/// The fast options before any are given.
pub open spec fn default_fast_args() -> FastArgsView {
    FastArgsView { config: "aegis.toml"@, format: OutputFormat::Text, fail_fast: true }
}

impl Default for SmokeArgs {
    fn default() -> (r: SmokeArgs)
        ensures
            r@ == default_smoke_args(),
    {
        let r = SmokeArgs {
            url: "http://127.0.0.1:3000/".to_string(),
            expect_status: 200,
            expect_text: None,
            expect_all: Vec::new(),
            expect_not: Vec::new(),
        };
        assert(r.expect_all.deep_view() =~= Seq::<Seq<char>>::empty());
        assert(r.expect_not.deep_view() =~= Seq::<Seq<char>>::empty());
        r
    }
}

impl Default for FastArgs {
    fn default() -> (r: FastArgs)
        ensures
            r@ == default_fast_args(),
    {
        FastArgs { config: "aegis.toml".to_string(), format: OutputFormat::Text, fail_fast: true }
    }
}

/// The options of `aegis init` found from position `i` of `args` on, starting from
/// `acc`; the flag tells whether a help option ended them.
pub open spec fn init_options(args: Seq<Seq<char>>, i: int, acc: InitArgs) -> Result<
    (InitArgs, bool),
    Seq<char>,
>
    decreases args.len() - i,
{
    if i < 0 || i >= args.len() {
        Ok((acc, false))
    } else {
        let a = args[i];
        if a == "--force"@ || a == "-f"@ {
            init_options(args, i + 1, InitArgs { force: true })
        } else if a == "-h"@ || a == "--help"@ {
            Ok((acc, true))
        } else {
            Err("unknown init option '"@ + a + "'. Run `aegis init --help`."@)
        }
    }
}

/// The options of `aegis smoke` found from position `i` of `args` on, starting from
/// `acc`; the flag tells whether a help option ended them.
pub open spec fn smoke_options(args: Seq<Seq<char>>, i: int, acc: SmokeArgsView) -> Result<
    (SmokeArgsView, bool),
    Seq<char>,
>
    decreases args.len() - i,
{
    if i < 0 || i >= args.len() {
        Ok((acc, false))
    } else {
        let a = args[i];
        let has_value = i + 1 < args.len();
        if a == "--url"@ {
            if has_value {
                smoke_options(args, i + 2, SmokeArgsView { url: args[i + 1], ..acc })
            } else {
                Err("--url requires a value"@)
            }
        } else if a == "--status"@ {
            if !has_value {
                Err("--status requires a value"@)
            } else {
                match parse_u16(args[i + 1]) {
                    Some(n) => smoke_options(
                        args,
                        i + 2,
                        SmokeArgsView { expect_status: n, ..acc },
                    ),
                    None => Err("--status must be a valid HTTP status code"@),
                }
            }
        } else if a == "--expect"@ {
            if has_value {
                smoke_options(args, i + 2, SmokeArgsView { expect_text: Some(args[i + 1]), ..acc })
            } else {
                Err("--expect requires a value"@)
            }
        } else if a == "--expect-not"@ {
            if has_value {
                smoke_options(
                    args,
                    i + 2,
                    SmokeArgsView { expect_not: acc.expect_not.push(args[i + 1]), ..acc },
                )
            } else {
                Err("--expect-not requires a value"@)
            }
        } else if a == "-h"@ || a == "--help"@ {
            Ok((acc, true))
        } else {
            Err("unknown smoke option '"@ + a + "'. Run `aegis smoke --help`."@)
        }
    }
}

/// What `--format` accepts.
pub open spec fn output_format(v: Seq<char>) -> Result<OutputFormat, Seq<char>> {
    if v == "text"@ {
        Ok(OutputFormat::Text)
    } else if v == "json"@ {
        Ok(OutputFormat::Json)
    } else {
        Err("unknown output format '"@ + v + "'. Expected 'text' or 'json'."@)
    }
}

/// What a boolean option called `name` accepts.
pub open spec fn bool_flag(name: Seq<char>, v: Seq<char>) -> Result<bool, Seq<char>> {
    if v == "true"@ {
        Ok(true)
    } else if v == "false"@ {
        Ok(false)
    } else {
        Err(name + " must be true or false; got '"@ + v + "'"@)
    }
}

/// The options of `aegis fast` found from position `i` of `args` on, starting from
/// `acc`; the flag tells whether a help option ended them.
pub open spec fn fast_options(args: Seq<Seq<char>>, i: int, acc: FastArgsView) -> Result<
    (FastArgsView, bool),
    Seq<char>,
>
    decreases args.len() - i,
{
    if i < 0 || i >= args.len() {
        Ok((acc, false))
    } else {
        let a = args[i];
        let has_value = i + 1 < args.len();
        if a == "--config"@ || a == "-c"@ {
            if has_value {
                fast_options(args, i + 2, FastArgsView { config: args[i + 1], ..acc })
            } else {
                Err("--config requires a value"@)
            }
        } else if a == "--format"@ {
            if !has_value {
                Err("--format requires a value"@)
            } else {
                match output_format(args[i + 1]) {
                    Ok(f) => fast_options(args, i + 2, FastArgsView { format: f, ..acc }),
                    Err(m) => Err(m),
                }
            }
        } else if a == "--fail-fast"@ {
            if !has_value {
                Err("--fail-fast requires true or false"@)
            } else {
                match bool_flag("--fail-fast"@, args[i + 1]) {
                    Ok(b) => fast_options(args, i + 2, FastArgsView { fail_fast: b, ..acc }),
                    Err(m) => Err(m),
                }
            }
        } else if a == "-h"@ || a == "--help"@ {
            Ok((acc, true))
        } else {
            Err("unknown fast option '"@ + a + "'. Run `aegis fast --help`."@)
        }
    }
}

/// A command line that asks for the general usage text.
pub open spec fn asks_for_help(args: Seq<Seq<char>>) -> bool {
    args.len() == 0 || args[0] == "-h"@ || args[0] == "--help"@ || args[0] == "help"@
}

/// What a command line asks for: the command, and which usage text a help option
/// of that command asks to print; or the message of the error it is refused with.
pub open spec fn command_line(args: Seq<Seq<char>>) -> Result<
    (CommandView, Option<HelpTopic>),
    Seq<char>,
> {
    if asks_for_help(args) {
        Ok((CommandView::Help, None))
    } else {
        let c = args[0];
        if c == "doctor"@ {
            Ok((CommandView::Doctor, None))
        } else if c == "init"@ {
            match init_options(args, 1, InitArgs { force: false }) {
                Ok((a, h)) => Ok((CommandView::Init(a), if h { Some(HelpTopic::Init) } else { None })),
                Err(m) => Err(m),
            }
        } else if c == "smoke"@ {
            match smoke_options(args, 1, default_smoke_args()) {
                Ok((a, h)) => Ok((CommandView::Smoke(a), if h { Some(HelpTopic::Smoke) } else { None })),
                Err(m) => Err(m),
            }
        } else if c == "fast"@ || c == "test"@ {
            match fast_options(args, 1, default_fast_args()) {
                Ok((a, h)) => Ok((CommandView::Fast(a), if h { Some(HelpTopic::Fast) } else { None })),
                Err(m) => Err(m),
            }
        } else if c == "browser"@ {
            Ok((CommandView::Browser, None))
        } else {
            Err("unknown command '"@ + c + "'. Run `aegis --help`."@)
        }
    }
}

/// The command of a command line, or the message of the error it is refused with.
pub open spec fn command_of(args: Seq<Seq<char>>) -> Result<CommandView, Seq<char>> {
    match command_line(args) {
        Ok((c, _)) => Ok(c),
        Err(m) => Err(m),
    }
}

fn parse_init_args(args: &Vec<String>, start: usize) -> (r: Result<(InitArgs, bool), AegisError>)
    requires
        1 <= start <= args.len(),
    ensures
        match (r, init_options(args.deep_view(), start as int, InitArgs { force: false })) {
            (Ok(x), Ok(y)) => x == y,
            (Err(e), Err(m)) => fails_with(e, m),
            _ => false,
        },
{
    let ghost av = args.deep_view();
    let ghost target = init_options(av, start as int, InitArgs { force: false });
    let mut init = InitArgs { force: false };
    let mut index = start;
    while index < args.len()
        invariant
            start <= index <= args.len(),
            av == args.deep_view(),
            target == init_options(av, start as int, InitArgs { force: false }),
            init_options(av, index as int, init) == target,
        decreases args.len() - index,
    {
        let a = args[index].as_str();
        assert(a@ == av[index as int]);
        if str_eq(a, "--force") || str_eq(a, "-f") {
            init = InitArgs { force: true };
        } else if str_eq(a, "-h") || str_eq(a, "--help") {
            return Ok((init, true));
        } else {
            return Err(AegisError::new(join3("unknown init option '", a, "'. Run `aegis init --help`.")));
        }
        index = index + 1;
    }
    Ok((init, false))
}

fn parse_smoke_args(args: &Vec<String>, start: usize) -> (r: Result<(SmokeArgs, bool), AegisError>)
    requires
        1 <= start <= args.len(),
    ensures
        match (r, smoke_options(args.deep_view(), start as int, default_smoke_args())) {
            (Ok(x), Ok(y)) => x.0@ == y.0 && x.1 == y.1,
            (Err(e), Err(m)) => fails_with(e, m),
            _ => false,
        },
{
    let ghost av = args.deep_view();
    let ghost target = smoke_options(av, start as int, default_smoke_args());
    let mut smoke = SmokeArgs::default();
    let mut index = start;
    while index < args.len()
        invariant
            start <= index <= args.len(),
            av == args.deep_view(),
            target == smoke_options(av, start as int, default_smoke_args()),
            smoke_options(av, index as int, smoke@) == target,
        decreases args.len() - index,
    {
        let a = args[index].as_str();
        assert(a@ == av[index as int]);
        let has_value = index + 1 < args.len();
        if str_eq(a, "--url") {
            if !has_value {
                return Err(AegisError::new("--url requires a value".to_string()));
            }
            smoke.url = args[index + 1].clone();
            index = index + 2;
        } else if str_eq(a, "--status") {
            if !has_value {
                return Err(AegisError::new("--status requires a value".to_string()));
            }
            match parse_u16_exec(args[index + 1].as_str()) {
                Some(n) => {
                    smoke.expect_status = n;
                },
                None => {
                    return Err(
                        AegisError::new("--status must be a valid HTTP status code".to_string()),
                    );
                },
            }
            index = index + 2;
        } else if str_eq(a, "--expect") {
            if !has_value {
                return Err(AegisError::new("--expect requires a value".to_string()));
            }
            smoke.expect_text = Some(args[index + 1].clone());
            index = index + 2;
        } else if str_eq(a, "--expect-not") {
            if !has_value {
                return Err(AegisError::new("--expect-not requires a value".to_string()));
            }
            let ghost before = smoke.expect_not.deep_view();
            smoke.expect_not.push(args[index + 1].clone());
            assert(smoke.expect_not.deep_view() =~= before.push(av[index + 1]));
            index = index + 2;
        } else if str_eq(a, "-h") || str_eq(a, "--help") {
            return Ok((smoke, true));
        } else {
            return Err(
                AegisError::new(join3("unknown smoke option '", a, "'. Run `aegis smoke --help`.")),
            );
        }
    }
    Ok((smoke, false))
}

fn parse_output_format(value: &str) -> (r: Result<OutputFormat, AegisError>)
    ensures
        match (r, output_format(value@)) {
            (Ok(x), Ok(y)) => x == y,
            (Err(e), Err(m)) => fails_with(e, m),
            _ => false,
        },
{
    if str_eq(value, "text") {
        Ok(OutputFormat::Text)
    } else if str_eq(value, "json") {
        Ok(OutputFormat::Json)
    } else {
        Err(AegisError::new(join3("unknown output format '", value, "'. Expected 'text' or 'json'.")))
    }
}

fn parse_bool_flag(name: &str, value: &str) -> (r: Result<bool, AegisError>)
    ensures
        match (r, bool_flag(name@, value@)) {
            (Ok(x), Ok(y)) => x == y,
            (Err(e), Err(m)) => fails_with(e, m),
            _ => false,
        },
{
    if str_eq(value, "true") {
        Ok(true)
    } else if str_eq(value, "false") {
        Ok(false)
    } else {
        let mut m = join3(name, " must be true or false; got '", value);
        m.append("'");
        Err(AegisError::new(m))
    }
}

fn parse_fast_args(args: &Vec<String>, start: usize) -> (r: Result<(FastArgs, bool), AegisError>)
    requires
        1 <= start <= args.len(),
    ensures
        match (r, fast_options(args.deep_view(), start as int, default_fast_args())) {
            (Ok(x), Ok(y)) => x.0@ == y.0 && x.1 == y.1,
            (Err(e), Err(m)) => fails_with(e, m),
            _ => false,
        },
{
    let ghost av = args.deep_view();
    let ghost target = fast_options(av, start as int, default_fast_args());
    let mut fast = FastArgs::default();
    let mut index = start;
    while index < args.len()
        invariant
            start <= index <= args.len(),
            av == args.deep_view(),
            target == fast_options(av, start as int, default_fast_args()),
            fast_options(av, index as int, fast@) == target,
        decreases args.len() - index,
    {
        let a = args[index].as_str();
        assert(a@ == av[index as int]);
        let has_value = index + 1 < args.len();
        if str_eq(a, "--config") || str_eq(a, "-c") {
            if !has_value {
                return Err(AegisError::new("--config requires a value".to_string()));
            }
            fast.config = args[index + 1].clone();
            index = index + 2;
        } else if str_eq(a, "--format") {
            if !has_value {
                return Err(AegisError::new("--format requires a value".to_string()));
            }
            fast.format = parse_output_format(args[index + 1].as_str())?;
            index = index + 2;
        } else if str_eq(a, "--fail-fast") {
            if !has_value {
                return Err(AegisError::new("--fail-fast requires true or false".to_string()));
            }
            fast.fail_fast = parse_bool_flag("--fail-fast", args[index + 1].as_str())?;
            index = index + 2;
        } else if str_eq(a, "-h") || str_eq(a, "--help") {
            return Ok((fast, true));
        } else {
            return Err(
                AegisError::new(join3("unknown fast option '", a, "'. Run `aegis fast --help`.")),
            );
        }
    }
    Ok((fast, false))
}

/// Reads a command line (without the program name): the command, and which usage
/// text a help option of that command asks to print.
pub fn parse_invocation(args: &Vec<String>) -> (r: Result<(Command, Option<HelpTopic>), AegisError>)
    ensures
        match (r, command_line(args.deep_view())) {
            (Ok(x), Ok(y)) => x.0@ == y.0 && x.1 == y.1,
            (Err(e), Err(m)) => fails_with(e, m),
            _ => false,
        },
{
    let ghost av = args.deep_view();
    if args.len() == 0 {
        return Ok((Command::Help, None));
    }
    let c = args[0].as_str();
    assert(c@ == av[0]);
    if str_eq(c, "-h") || str_eq(c, "--help") || str_eq(c, "help") {
        return Ok((Command::Help, None));
    }
    if str_eq(c, "doctor") {
        Ok((Command::Doctor, None))
    } else if str_eq(c, "init") {
        let (a, h) = parse_init_args(args, 1)?;
        Ok((Command::Init(a), if h { Some(HelpTopic::Init) } else { None }))
    } else if str_eq(c, "smoke") {
        let (a, h) = parse_smoke_args(args, 1)?;
        Ok((Command::Smoke(a), if h { Some(HelpTopic::Smoke) } else { None }))
    } else if str_eq(c, "fast") || str_eq(c, "test") {
        let (a, h) = parse_fast_args(args, 1)?;
        Ok((Command::Fast(a), if h { Some(HelpTopic::Fast) } else { None }))
    } else if str_eq(c, "browser") {
        Ok((Command::Browser, None))
    } else {
        Err(AegisError::new(join3("unknown command '", c, "'. Run `aegis --help`.")))
    }
}

/// Reads a command line (without the program name) into the command it asks for.
pub fn parse_command(args: Vec<String>) -> (r: Result<Command, AegisError>)
    ensures
        match (r, command_of(args.deep_view())) {
            (Ok(x), Ok(y)) => x@ == y,
            (Err(e), Err(m)) => fails_with(e, m),
            _ => false,
        },
{
    match parse_invocation(&args) {
        Ok((c, _)) => Ok(c),
        Err(e) => Err(e),
    }
}

} // verus!
