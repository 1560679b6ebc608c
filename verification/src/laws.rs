//! Properties of the library as a whole, each stated over the specifications that
//! the functions' contracts use, and proved.
use vstd::prelude::*;

use crate::cli::{
    asks_for_help, init_options, smoke_options, SmokeArgsView,
    bool_flag, command_line, default_fast_args, output_format, FastArgsView, default_smoke_args, fast_options, CommandView, HelpTopic,
    InitArgs, OutputFormat,
};
use crate::links::{
    authority, has_link, skipped_link, href_marker, is_quote, scheme_separator, is_absolute, joined, link_hrefs, resolved, selector_href, url_origin,
    without_leading_slashes, without_trailing_slashes,
};
use crate::check::{after_load, check_report, page_expectations, PhaseView};
use crate::config::FastCheckView;
use crate::page::{
    absence_expectation, link_plan, probes_from, status_expectation, text_expectation, PageView,
};
use crate::suite::{check_label, suite_consistent, suite_finished, suite_result, SuiteRunView};
use crate::text::{
    contains, find, is_white, lemma_find_contains, lemma_find_from, starts_with, occurs_at, trim_end, trim_start, decimal, digit_char, digits_value, is_digit, parse_u16, unsigned_part};

verus! {

/// Fast options read from position `i` on depend only on the arguments from `i` on.
proof fn lemma_fast_options_frame(a: Seq<Seq<char>>, b: Seq<Seq<char>>, i: int)
    requires
        a.len() == b.len(),
        0 <= i,
        forall|j: int| i <= j < a.len() ==> a[j] == b[j],
    ensures
        forall|acc: FastArgsView| #[trigger] fast_options(a, i, acc) == fast_options(b, i, acc),
    decreases a.len() - i,
{
    if i < a.len() {
        lemma_fast_options_frame(a, b, i + 1);
        if i + 1 < a.len() {
            lemma_fast_options_frame(a, b, i + 2);
        }
        assert forall|acc: FastArgsView| #[trigger] fast_options(a, i, acc) == fast_options(
            b,
            i,
            acc,
        ) by {
            assert(a[i] == b[i]);
            if i + 1 < a.len() {
                assert(a[i + 1] == b[i + 1]);
                let c = FastArgsView { config: a[i + 1], ..acc };
                assert(fast_options(a, i + 2, c) == fast_options(b, i + 2, c));
                if let Ok(f) = output_format(a[i + 1]) {
                    let c = FastArgsView { format: f, ..acc };
                    assert(fast_options(a, i + 2, c) == fast_options(b, i + 2, c));
                }
                if let Ok(f) = bool_flag("--fail-fast"@, a[i + 1]) {
                    let c = FastArgsView { fail_fast: f, ..acc };
                    assert(fast_options(a, i + 2, c) == fast_options(b, i + 2, c));
                }
            }
        }
    }
}

/// `aegis test` is an alias for `aegis fast`: with the same options, both command
/// lines ask for the same thing.
pub proof fn test_is_an_alias_for_fast(options: Seq<Seq<char>>)
    ensures
        command_line(seq!["test"@] + options) == command_line(seq!["fast"@] + options),
{
    reveal_strlit("test");
    reveal_strlit("fast");
    reveal_strlit("-h");
    reveal_strlit("--help");
    reveal_strlit("help");
    reveal_strlit("doctor");
    reveal_strlit("init");
    reveal_strlit("smoke");
    assert("test"@[0] != "help"@[0] && "test"@[0] != "init"@[0] && "test"@[0] != "fast"@[0]);
    assert("fast"@[0] != "help"@[0] && "fast"@[0] != "init"@[0]);
    let a = seq!["test"@] + options;
    let b = seq!["fast"@] + options;
    assert(a[0] == "test"@);
    assert(b[0] == "fast"@);
    lemma_fast_options_frame(a, b, 1);
}

/// A help option ends a command's options: what follows it is not read, and the
/// command runs with its default options after printing its usage text.
pub proof fn help_ends_the_options(options: Seq<Seq<char>>)
    ensures
        command_line(seq!["fast"@, "--help"@] + options) == Ok::<_, Seq<char>>(
            (CommandView::Fast(default_fast_args()), Some(HelpTopic::Fast)),
        ),
        command_line(seq!["smoke"@, "--help"@] + options) == Ok::<_, Seq<char>>(
            (CommandView::Smoke(default_smoke_args()), Some(HelpTopic::Smoke)),
        ),
        command_line(seq!["init"@, "--help"@] + options) == Ok::<_, Seq<char>>(
            (CommandView::Init(InitArgs { force: false }), Some(HelpTopic::Init)),
        ),
{
    reveal_strlit("fast");
    reveal_strlit("smoke");
    reveal_strlit("init");
    reveal_strlit("-h");
    reveal_strlit("--help");
    reveal_strlit("help");
    reveal_strlit("doctor");
    reveal_strlit("test");
    reveal_strlit("--force");
    reveal_strlit("-f");
    reveal_strlit("--url");
    reveal_strlit("--status");
    reveal_strlit("--expect");
    reveal_strlit("--expect-not");
    reveal_strlit("--config");
    reveal_strlit("-c");
    reveal_strlit("--format");
    reveal_strlit("--fail-fast");
    assert("fast"@[0] != "help"@[0] && "fast"@[0] != "init"@[0] && "fast"@[0] != "test"@[0]);
    assert("init"@[0] != "help"@[0] && "init"@[0] != "fast"@[0] && "init"@[0] != "test"@[0]);
    let f = seq!["fast"@, "--help"@] + options;
    let s = seq!["smoke"@, "--help"@] + options;
    let i = seq!["init"@, "--help"@] + options;
    assert(f[0] == "fast"@ && f[1] == "--help"@);
    assert(s[0] == "smoke"@ && s[1] == "--help"@);
    assert(i[0] == "init"@ && i[1] == "--help"@);
}

/// `y` goes on from `x` with a help option.
spec fn help_follows(x: Seq<Seq<char>>, y: Seq<Seq<char>>) -> bool {
    &&& x.len() < y.len()
    &&& forall|j: int| 0 <= j < x.len() ==> y[j] == x[j]
    &&& (y[x.len() as int] == "-h"@ || y[x.len() as int] == "--help"@)
}

/// A help option is none of the other options.
proof fn lemma_help_is_no_option(h: Seq<char>)
    requires
        h == "-h"@ || h == "--help"@,
    ensures
        h != "--force"@ && h != "-f"@,
        h != "--url"@ && h != "--status"@ && h != "--expect"@ && h != "--expect-not"@,
        h != "--config"@ && h != "-c"@ && h != "--format"@ && h != "--fail-fast"@,
{
    reveal_strlit("-h");
    reveal_strlit("--help");
    reveal_strlit("--force");
    reveal_strlit("-f");
    reveal_strlit("--url");
    reveal_strlit("--status");
    reveal_strlit("--expect");
    reveal_strlit("--expect-not");
    reveal_strlit("--config");
    reveal_strlit("-c");
    reveal_strlit("--format");
    reveal_strlit("--fail-fast");
    assert("-h"@.len() == 2 && "-h"@[1] == 'h');
    assert("--help"@.len() == 6);
    assert("-f"@.len() == 2 && "-f"@[1] == 'f');
    assert("-c"@.len() == 2 && "-c"@[1] == 'c');
    assert("--force"@.len() == 7);
    assert("--url"@.len() == 5);
    assert("--status"@.len() == 8);
    assert("--expect"@.len() == 8);
    assert("--expect-not"@.len() == 12);
    assert("--config"@.len() == 8);
    assert("--format"@.len() == 8);
    assert("--fail-fast"@.len() == 11);
}

/// Smoke options read without error up to the end of `x` read the same in `y`, which
/// goes on from `x` with a help option, and end there.
proof fn lemma_smoke_help_follows(x: Seq<Seq<char>>, y: Seq<Seq<char>>, i: int, acc: SmokeArgsView)
    requires
        0 <= i <= x.len(),
        help_follows(x, y),
        smoke_options(x, i, acc) is Ok,
    ensures
        smoke_options(y, i, acc) == Ok::<_, Seq<char>>((smoke_options(x, i, acc)->Ok_0.0, true)),
    decreases x.len() - i,
{
    if i == x.len() {
        lemma_help_is_no_option(y[i]);
    }
    if i < x.len() {
        let a = x[i];
        assert(y[i] == a);
        if i + 1 < x.len() {
            assert(y[i + 1] == x[i + 1]);
        }
        if a == "--url"@ {
            if i + 1 < x.len() {
                lemma_smoke_help_follows(x, y, i + 2, SmokeArgsView { url: x[i + 1], ..acc });
            }
        } else if a == "--status"@ {
            if i + 1 < x.len() {
                if let Some(n) = parse_u16(x[i + 1]) {
                    lemma_smoke_help_follows(x, y, i + 2, SmokeArgsView { expect_status: n, ..acc });
                }
            }
        } else if a == "--expect"@ {
            if i + 1 < x.len() {
                lemma_smoke_help_follows(
                    x,
                    y,
                    i + 2,
                    SmokeArgsView { expect_text: Some(x[i + 1]), ..acc },
                );
            }
        } else if a == "--expect-not"@ {
            if i + 1 < x.len() {
                lemma_smoke_help_follows(
                    x,
                    y,
                    i + 2,
                    SmokeArgsView { expect_not: acc.expect_not.push(x[i + 1]), ..acc },
                );
            }
        }
    }
}

/// Fast options read without error up to the end of `x` read the same in `y`, which
/// goes on from `x` with a help option, and end there.
proof fn lemma_fast_help_follows(x: Seq<Seq<char>>, y: Seq<Seq<char>>, i: int, acc: FastArgsView)
    requires
        0 <= i <= x.len(),
        help_follows(x, y),
        fast_options(x, i, acc) is Ok,
    ensures
        fast_options(y, i, acc) == Ok::<_, Seq<char>>((fast_options(x, i, acc)->Ok_0.0, true)),
    decreases x.len() - i,
{
    if i == x.len() {
        lemma_help_is_no_option(y[i]);
    }
    if i < x.len() {
        let a = x[i];
        assert(y[i] == a);
        if i + 1 < x.len() {
            assert(y[i + 1] == x[i + 1]);
        }
        if a == "--config"@ || a == "-c"@ {
            if i + 1 < x.len() {
                lemma_fast_help_follows(x, y, i + 2, FastArgsView { config: x[i + 1], ..acc });
            }
        } else if a == "--format"@ {
            if i + 1 < x.len() {
                if let Ok(f) = output_format(x[i + 1]) {
                    lemma_fast_help_follows(x, y, i + 2, FastArgsView { format: f, ..acc });
                }
            }
        } else if a == "--fail-fast"@ {
            if i + 1 < x.len() {
                if let Ok(b) = bool_flag("--fail-fast"@, x[i + 1]) {
                    lemma_fast_help_follows(x, y, i + 2, FastArgsView { fail_fast: b, ..acc });
                }
            }
        }
    }
}

/// Init options read without error up to the end of `x` read the same in `y`, which
/// goes on from `x` with a help option, and end there.
proof fn lemma_init_help_follows(x: Seq<Seq<char>>, y: Seq<Seq<char>>, i: int, acc: InitArgs)
    requires
        0 <= i <= x.len(),
        help_follows(x, y),
        init_options(x, i, acc) is Ok,
    ensures
        init_options(y, i, acc) == Ok::<_, Seq<char>>((init_options(x, i, acc)->Ok_0.0, true)),
    decreases x.len() - i,
{
    if i == x.len() {
        lemma_help_is_no_option(y[i]);
    }
    if i < x.len() {
        assert(y[i] == x[i]);
        if x[i] == "--force"@ || x[i] == "-f"@ {
            lemma_init_help_follows(x, y, i + 1, InitArgs { force: true });
        }
    }
}

/// A help option ends a command's options wherever it stands: after options that are
/// read without error, whatever follows it is neither applied nor checked, and the
/// command runs with the options read so far after printing its usage text.
pub proof fn help_ends_the_options_anywhere(
    command: Seq<char>,
    options: Seq<Seq<char>>,
    help: Seq<char>,
    rest: Seq<Seq<char>>,
)
    requires
        help == "-h"@ || help == "--help"@,
    ensures
        ({
            let before = command_line(seq![command] + options);
            let after = command_line(seq![command] + options + seq![help] + rest);
            &&& before matches Ok((CommandView::Smoke(a), _)) ==> after == Ok::<_, Seq<char>>(
                (CommandView::Smoke(a), Some(HelpTopic::Smoke)),
            )
            &&& before matches Ok((CommandView::Fast(a), _)) ==> after == Ok::<_, Seq<char>>(
                (CommandView::Fast(a), Some(HelpTopic::Fast)),
            )
            &&& before matches Ok((CommandView::Init(a), _)) ==> after == Ok::<_, Seq<char>>(
                (CommandView::Init(a), Some(HelpTopic::Init)),
            )
        }),
{
    let x = seq![command] + options;
    let y = seq![command] + options + seq![help] + rest;
    assert(y.len() > x.len());
    assert forall|j: int| 0 <= j < x.len() implies y[j] == x[j] by {}
    assert(y[x.len() as int] == help);
    assert(help_follows(x, y));
    assert(x[0] == command && y[0] == command);
    assert(asks_for_help(y) == asks_for_help(x));
    match command_line(x) {
        Ok((CommandView::Init(_), _)) => {
            lemma_init_help_follows(x, y, 1, InitArgs { force: false });
        },
        Ok((CommandView::Smoke(_), _)) => {
            lemma_smoke_help_follows(x, y, 1, default_smoke_args());
        },
        Ok((CommandView::Fast(_), _)) => {
            lemma_fast_help_follows(x, y, 1, default_fast_args());
        },
        _ => {},
    }
}

/// `--format` is none of the other fast options.
proof fn lemma_format_is_no_other_option()
    ensures
        "--format"@ != "--config"@ && "--format"@ != "-c"@ && "--format"@ != "--fail-fast"@,
        "--format"@ != "-h"@ && "--format"@ != "--help"@,
        "text"@ != "json"@,
{
    reveal_strlit("--format");
    reveal_strlit("--config");
    reveal_strlit("-c");
    reveal_strlit("--fail-fast");
    reveal_strlit("-h");
    reveal_strlit("--help");
    reveal_strlit("text");
    reveal_strlit("json");
    assert("--format"@.len() == 8 && "--format"@[2] == 'f');
    assert("--config"@.len() == 8 && "--config"@[2] == 'c');
    assert("-c"@.len() == 2);
    assert("--fail-fast"@.len() == 11);
    assert("-h"@.len() == 2);
    assert("--help"@.len() == 6);
    assert("text"@[0] == 't' && "json"@[0] == 'j');
}

/// Fast options read without error and without a help option up to the end of `x`
/// go on in `y`, which adds `--format` and a value, with that value read last.
proof fn lemma_fast_format_follows(x: Seq<Seq<char>>, y: Seq<Seq<char>>, i: int, acc: FastArgsView)
    requires
        0 <= i <= x.len(),
        y.len() == x.len() + 2,
        forall|j: int| 0 <= j < x.len() ==> y[j] == x[j],
        y[x.len() as int] == "--format"@,
        fast_options(x, i, acc) matches Ok((_, h)) && !h,
    ensures
        fast_options(y, i, acc) == (match output_format(y[x.len() + 1int]) {
            Ok(f) => Ok((FastArgsView { format: f, ..fast_options(x, i, acc)->Ok_0.0 }, false)),
            Err(m) => Err(m),
        }),
    decreases x.len() - i,
{
    if i == x.len() {
        lemma_format_is_no_other_option();
        if let Ok(f) = output_format(y[i + 1]) {
            assert(fast_options(y, i + 2, FastArgsView { format: f, ..acc }) == Ok::<_, Seq<char>>(
                (FastArgsView { format: f, ..acc }, false),
            ));
        }
    } else {
        let a = x[i];
        assert(y[i] == a);
        if i + 1 < x.len() {
            assert(y[i + 1] == x[i + 1]);
        }
        if a == "--config"@ || a == "-c"@ {
            if i + 1 < x.len() {
                lemma_fast_format_follows(x, y, i + 2, FastArgsView { config: x[i + 1], ..acc });
            }
        } else if a == "--format"@ {
            if i + 1 < x.len() {
                if let Ok(f) = output_format(x[i + 1]) {
                    lemma_fast_format_follows(x, y, i + 2, FastArgsView { format: f, ..acc });
                }
            }
        } else if a == "--fail-fast"@ {
            if i + 1 < x.len() {
                if let Ok(b) = bool_flag("--fail-fast"@, x[i + 1]) {
                    lemma_fast_format_follows(x, y, i + 2, FastArgsView { fail_fast: b, ..acc });
                }
            }
        }
    }
}

/// `--format text` asks for the text report and `--format json` for the JSON report,
/// after any fast options: the last `--format` decides, the other options stay as
/// they were read, and any other value is refused.
pub proof fn the_last_format_option_decides(
    command: Seq<char>,
    options: Seq<Seq<char>>,
    value: Seq<char>,
)
    requires
        command == "fast"@ || command == "test"@,
    ensures
        command_line(seq![command] + options) matches Ok((CommandView::Fast(a), None)) ==> {
            let after = command_line(seq![command] + options + seq!["--format"@, value]);
            &&& value == "text"@ ==> after == Ok::<_, Seq<char>>(
                (CommandView::Fast(FastArgsView { format: OutputFormat::Text, ..a }), None::<HelpTopic>),
            )
            &&& value == "json"@ ==> after == Ok::<_, Seq<char>>(
                (CommandView::Fast(FastArgsView { format: OutputFormat::Json, ..a }), None::<HelpTopic>),
            )
            &&& value != "text"@ && value != "json"@ ==> after is Err
        },
{
    lemma_format_is_no_other_option();
    let x = seq![command] + options;
    let y = seq![command] + options + seq!["--format"@, value];
    assert(y.len() == x.len() + 2);
    assert forall|j: int| 0 <= j < x.len() implies y[j] == x[j] by {}
    assert(y[x.len() as int] == "--format"@);
    assert(y[x.len() + 1int] == value);
    assert(x[0] == command && y[0] == command);
    assert(asks_for_help(y) == asks_for_help(x));
    if let Ok((CommandView::Fast(_), None)) = command_line(x) {
        lemma_fast_format_follows(x, y, 1, default_fast_args());
    }
}

/// `--fail-fast` is none of the other fast options.
proof fn lemma_fail_fast_is_no_other_option()
    ensures
        "--fail-fast"@ != "--config"@ && "--fail-fast"@ != "-c"@ && "--fail-fast"@ != "--format"@,
        "--fail-fast"@ != "-h"@ && "--fail-fast"@ != "--help"@,
        "true"@ != "false"@,
{
    reveal_strlit("--format");
    reveal_strlit("--config");
    reveal_strlit("-c");
    reveal_strlit("--fail-fast");
    reveal_strlit("-h");
    reveal_strlit("--help");
    reveal_strlit("true");
    reveal_strlit("false");
    assert("--format"@.len() == 8 && "--format"@[2] == 'f');
    assert("--config"@.len() == 8 && "--config"@[2] == 'c');
    assert("-c"@.len() == 2);
    assert("--fail-fast"@.len() == 11);
    assert("-h"@.len() == 2);
    assert("--help"@.len() == 6);
    assert("true"@[0] == 't' && "false"@[0] == 'f');
}

/// Fast options read without error and without a help option up to the end of `x`
/// go on in `y`, which adds `--fail-fast` and a value, with that value read last.
proof fn lemma_fast_fail_fast_follows(x: Seq<Seq<char>>, y: Seq<Seq<char>>, i: int, acc: FastArgsView)
    requires
        0 <= i <= x.len(),
        y.len() == x.len() + 2,
        forall|j: int| 0 <= j < x.len() ==> y[j] == x[j],
        y[x.len() as int] == "--fail-fast"@,
        fast_options(x, i, acc) matches Ok((_, h)) && !h,
    ensures
        fast_options(y, i, acc) == (match bool_flag("--fail-fast"@, y[x.len() + 1int]) {
            Ok(f) => Ok((FastArgsView { fail_fast: f, ..fast_options(x, i, acc)->Ok_0.0 }, false)),
            Err(m) => Err(m),
        }),
    decreases x.len() - i,
{
    if i == x.len() {
        lemma_fail_fast_is_no_other_option();
        if let Ok(f) = bool_flag("--fail-fast"@, y[i + 1]) {
            assert(fast_options(y, i + 2, FastArgsView { fail_fast: f, ..acc }) == Ok::<_, Seq<char>>(
                (FastArgsView { fail_fast: f, ..acc }, false),
            ));
        }
    } else {
        let a = x[i];
        assert(y[i] == a);
        if i + 1 < x.len() {
            assert(y[i + 1] == x[i + 1]);
        }
        if a == "--config"@ || a == "-c"@ {
            if i + 1 < x.len() {
                lemma_fast_fail_fast_follows(x, y, i + 2, FastArgsView { config: x[i + 1], ..acc });
            }
        } else if a == "--format"@ {
            if i + 1 < x.len() {
                if let Ok(f) = output_format(x[i + 1]) {
                    lemma_fast_fail_fast_follows(x, y, i + 2, FastArgsView { format: f, ..acc });
                }
            }
        } else if a == "--fail-fast"@ {
            if i + 1 < x.len() {
                if let Ok(b) = bool_flag("--fail-fast"@, x[i + 1]) {
                    lemma_fast_fail_fast_follows(x, y, i + 2, FastArgsView { fail_fast: b, ..acc });
                }
            }
        }
    }
}

/// `--fail-fast true` stops a suite at its first failure and `--fail-fast false` runs
/// every check, after any fast options: the last `--fail-fast` decides, the other
/// options stay as they were read, and any other value is refused.
pub proof fn the_last_fail_fast_option_decides(
    command: Seq<char>,
    options: Seq<Seq<char>>,
    value: Seq<char>,
)
    requires
        command == "fast"@ || command == "test"@,
    ensures
        command_line(seq![command] + options) matches Ok((CommandView::Fast(a), None)) ==> {
            let after = command_line(seq![command] + options + seq!["--fail-fast"@, value]);
            &&& value == "true"@ ==> after == Ok::<_, Seq<char>>(
                (CommandView::Fast(FastArgsView { fail_fast: true, ..a }), None::<HelpTopic>),
            )
            &&& value == "false"@ ==> after == Ok::<_, Seq<char>>(
                (CommandView::Fast(FastArgsView { fail_fast: false, ..a }), None::<HelpTopic>),
            )
            &&& value != "true"@ && value != "false"@ ==> after is Err
        },
{
    lemma_fail_fast_is_no_other_option();
    let x = seq![command] + options;
    let y = seq![command] + options + seq!["--fail-fast"@, value];
    assert(y.len() == x.len() + 2);
    assert forall|j: int| 0 <= j < x.len() implies y[j] == x[j] by {}
    assert(y[x.len() as int] == "--fail-fast"@);
    assert(y[x.len() + 1int] == value);
    assert(x[0] == command && y[0] == command);
    assert(asks_for_help(y) == asks_for_help(x));
    if let Ok((CommandView::Fast(_), None)) = command_line(x) {
        lemma_fast_fail_fast_follows(x, y, 1, default_fast_args());
    }
}

proof fn lemma_digit_char(d: nat)
    requires
        d < 10,
    ensures
        digit_char(d) as u32 == 48 + d,
        is_digit(digit_char(d)),
{
}

proof fn lemma_decimal(n: nat)
    ensures
        decimal(n).len() >= 1,
        forall|i: int| 0 <= i < decimal(n).len() ==> is_digit(#[trigger] decimal(n)[i]),
        digits_value(decimal(n)) == n,
    decreases n,
{
    if n >= 10 {
        lemma_decimal(n / 10);
        lemma_digit_char(n % 10);
        let d = decimal(n / 10);
        assert(decimal(n).drop_last() =~= d);
        assert(decimal(n).last() == digit_char(n % 10));
        assert((n / 10) * 10 + n % 10 == n);
        assert(digits_value(decimal(n)) == digits_value(d) * 10 + ((digit_char(n % 10) as u32) - 48) as nat);
    } else {
        lemma_digit_char(n);
        assert(decimal(n).drop_last() =~= Seq::<char>::empty());
        assert(digits_value(decimal(n)) == digits_value(Seq::<char>::empty()) * 10 + ((digit_char(n) as u32) - 48) as nat);
    }
}

/// The status a message shows is the status that `--status` reads back: a `u16`
/// written in decimal parses to itself.
pub proof fn status_round_trip(n: u16)
    ensures
        parse_u16(decimal(n as nat)) == Some(n),
{
    lemma_decimal(n as nat);
    let d = decimal(n as nat);
    assert(is_digit(d[0]));
    assert(unsigned_part(d) == d);
}

/// A text expected in a body and the same text expected to be absent from it never
/// both hold, and one of them always does.
pub proof fn presence_and_absence_exclude(body: Seq<char>, text: Seq<char>)
    ensures
        text_expectation(body, text) is Ok <==> absence_expectation(body, text) is Err,
{
}

/// `join_url` puts exactly one `/` between base and path: slashes already at the
/// joint change nothing.
pub proof fn join_ignores_slashes_at_the_joint(base: Seq<char>, path: Seq<char>)
    ensures
        joined(base + "/"@, "/"@ + path) == joined(base, path),
{
    reveal_strlit("/");
    let b = base + "/"@;
    assert(b.drop_last() =~= base);
    let p = "/"@ + path;
    assert(p.drop_first() =~= path);
}

/// A click selector written around a link target names that target, whichever
/// quotes it uses.
pub proof fn selector_names_its_target(target: Seq<char>)
    ensures
        selector_href("a[href='"@ + target + "']"@) == Some(target),
        selector_href("a[href=\""@ + target + "\"]"@) == Some(target),
{
    reveal_strlit("a[href='");
    reveal_strlit("']");
    reveal_strlit("a[href=\"");
    reveal_strlit("\"]");
    reveal_strlit("a[href=");
    lemma_selector_round_trip('\'', target);
    lemma_selector_round_trip('"', target);
    assert("a[href='"@ + target + "']"@ =~= "a[href="@ + seq!['\''] + target + seq!['\'', ']']);
    assert("a[href=\""@ + target + "\"]"@ =~= "a[href="@ + seq!['"'] + target + seq!['"', ']']);
}

proof fn lemma_selector_round_trip(q: char, target: Seq<char>)
    requires
        is_quote(q),
    ensures
        selector_href("a[href="@ + seq![q] + target + seq![q, ']']) == Some(target),
{
    reveal_strlit("a[href=");
    let s = "a[href="@ + seq![q] + target + seq![q, ']'];
    assert(s[0] == 'a');
    assert(s.last() == ']');
    assert(!is_white(s[0]));
    assert(trim_start(s) == s);
    assert(trim_end(s) == s);
    assert(s.take(7) =~= "a[href="@);
    let rest = s.subrange(7, s.len() - 1);
    assert(rest =~= seq![q] + target + seq![q]);
    assert(rest.subrange(1, rest.len() - 1) =~= target);
}

/// `p` in a suffix of `s` is in `s`.
proof fn lemma_contains_suffix(s: Seq<char>, d: int, p: Seq<char>)
    requires
        0 <= d <= s.len(),
        contains(s.skip(d), p),
    ensures
        contains(s, p),
{
    let j = choose|j: int| occurs_at(s.skip(d), p, j);
    assert(s.subrange(j + d, j + d + p.len()) =~= s.skip(d).subrange(j, j + p.len()));
    assert(occurs_at(s, p, j + d));
}

proof fn lemma_has_link_suffix(s: Seq<char>, d: int, h: Seq<char>)
    requires
        0 <= d <= s.len(),
        has_link(s.skip(d), h),
    ensures
        has_link(s, h),
{
    if contains(s.skip(d), "href=\""@ + h + "\""@) {
        lemma_contains_suffix(s, d, "href=\""@ + h + "\""@);
    } else {
        lemma_contains_suffix(s, d, "href='"@ + h + "'"@);
    }
}

/// Every link target found in a body is one that the body has a link to.
pub proof fn found_links_are_links(body: Seq<char>)
    ensures
        forall|k: int|
            0 <= k < link_hrefs(body).len() ==> has_link(body, #[trigger] link_hrefs(body)[k]),
    decreases body.len(),
{
    reveal_strlit("href=\"");
    reveal_strlit("\"");
    reveal_strlit("href='");
    reveal_strlit("'");
    let s = body;
    lemma_find_contains(s, href_marker());
    match find(s, href_marker()) {
        None => {},
        Some(i) => {
            let r = s.skip(i + 5);
            if r.len() == 0 {
            } else if !is_quote(r[0]) {
                found_links_are_links(r);
                assert forall|k: int| 0 <= k < link_hrefs(s).len() implies has_link(
                    s,
                    #[trigger] link_hrefs(s)[k],
                ) by {
                    lemma_has_link_suffix(s, i + 5, link_hrefs(r)[k]);
                }
            } else {
                let q = r[0];
                let r2 = r.drop_first();
                lemma_find_contains(r2, seq![q]);
                match find(r2, seq![q]) {
                    None => {},
                    Some(e) => {
                        let h = r2.take(e);
                        let tail = r2.skip(e + 1);
                        found_links_are_links(tail);
                        assert(r2.subrange(e, e + 1) =~= seq![q]);
                        let p = href_marker() + seq![q] + h + seq![q];
                        assert(s.subrange(i, i + 5 + 1 + e + 1) =~= p);
                        assert(occurs_at(s, p, i));
                        assert(has_link(s, h)) by {
                            if q == '"' {
                                assert("href=\""@ + h + "\""@ =~= p);
                            } else {
                                assert("href='"@ + h + "'"@ =~= p);
                            }
                        }
                        assert(tail =~= s.skip(i + 5 + 1 + e + 1));
                        assert forall|k: int| 0 <= k < link_hrefs(s).len() implies has_link(
                            s,
                            #[trigger] link_hrefs(s)[k],
                        ) by {
                            if k > 0 {
                                lemma_has_link_suffix(s, i + 5 + 1 + e + 1, link_hrefs(tail)[k - 1]);
                            }
                        }
                    },
                }
            }
        },
    }
}

/// The first occurrence, found by `find`.
proof fn lemma_find_is(s: Seq<char>, p: Seq<char>, k: int)
    requires
        0 <= k,
        occurs_at(s, p, k),
        forall|j: int| 0 <= j < k ==> !occurs_at(s, p, j),
    ensures
        find(s, p) == Some(k),
{
    lemma_find_from(s, p, 0);
}

/// `'/'` at position `m` of `s`.
proof fn lemma_slash_at(s: Seq<char>, m: int)
    requires
        0 <= m < s.len(),
    ensures
        occurs_at(s, seq!['/'], m) <==> s[m] == '/',
{
    if s[m] == '/' {
        assert(s.subrange(m, m + 1) =~= seq!['/']);
    } else {
        assert(s.subrange(m, m + 1)[0] != seq!['/'][0]);
    }
}

/// An authority has no `/`, and is the authority of itself followed by a path.
proof fn lemma_authority_then_path(rest: Seq<char>, x: Seq<char>)
    requires
        x.len() > 0,
        x[0] == '/',
    ensures
        authority(authority(rest) + x) == authority(rest),
{
    let a = authority(rest);
    lemma_find_from(rest, seq!['/'], 0);
    assert forall|m: int| 0 <= m < a.len() implies a[m] != '/' by {
        lemma_slash_at(rest, m);
    }
    let u = a + x;
    assert forall|m: int| 0 <= m < a.len() implies !occurs_at(u, seq!['/'], m) by {
        lemma_slash_at(u, m);
    }
    lemma_slash_at(u, a.len() as int);
    lemma_find_is(u, seq!['/'], a.len() as int);
    assert(u.take(a.len() as int) =~= a);
}

/// A link that is not an absolute URL leads to a page of the same origin as the page
/// it is on.
pub proof fn relative_links_stay_on_the_origin(current: Seq<char>, href: Seq<char>)
    requires
        url_origin(current) is Some,
        !is_absolute(href),
    ensures
        url_origin(resolved(current, href)) == url_origin(current),
{
    reveal_strlit("/");
    let sep = scheme_separator();
    lemma_find_from(current, sep, 0);
    let i = find(current, sep)->0;
    let o = url_origin(current)->0;
    let auth = authority(current.skip(i + 3));
    let x = if starts_with(href, "/"@) {
        href
    } else {
        "/"@ + href
    };
    if starts_with(href, "/"@) {
        assert(href[0] == "/"@[0]);
    }
    assert(x.len() > 0 && x[0] == '/');
    let u = o + x;
    assert(u == resolved(current, href)) by {
        if !starts_with(href, "/"@) {
            assert(o + ("/"@ + href) =~= o + "/"@ + href);
        }
    }
    assert(current.subrange(i, i + 3) == sep);
    assert(u.take(i + 3) =~= current.take(i + 3));
    assert forall|j: int| 0 <= j < i implies !occurs_at(u, sep, j) by {
        assert(!occurs_at(current, sep, j));
        assert(u.subrange(j, j + 3) =~= current.subrange(j, j + 3));
    }
    assert(u.subrange(i, i + 3) =~= sep);
    lemma_find_is(u, sep, i);
    assert(u.skip(i + 3) =~= auth + x);
    lemma_authority_then_path(current.skip(i + 3), x);
    assert(u.take(i) =~= current.take(i));
}

/// The origin of a URL: a URL has one exactly when it holds `://`; the origin begins
/// the URL, is its own origin, and has no `/` after its `://`.
pub proof fn an_origin_begins_its_url_and_is_its_own_origin(url: Seq<char>)
    ensures
        url_origin(url) is None <==> !contains(url, scheme_separator()),
        url_origin(url) matches Some(o) ==> {
            &&& starts_with(url, o)
            &&& url_origin(o) == Some(o)
            &&& find(o, scheme_separator()) matches Some(i) && forall|m: int|
                i + 3 <= m < o.len() ==> o[m] != '/'
        },
{
    let sep = scheme_separator();
    lemma_find_contains(url, sep);
    lemma_find_from(url, sep, 0);
    if let Some(i) = find(url, sep) {
        let rest = url.skip(i + 3);
        let auth = authority(rest);
        let o = url.take(i) + sep + auth;
        lemma_find_from(rest, seq!['/'], 0);
        assert forall|m: int| 0 <= m < auth.len() implies auth[m] != '/' by {
            lemma_slash_at(rest, m);
        }
        assert(url.subrange(i, i + 3) == sep);
        assert(o =~= url.take(i + 3 + auth.len()));
        assert forall|j: int| 0 <= j < i implies !occurs_at(o, sep, j) by {
            assert(!occurs_at(url, sep, j));
            assert(o.subrange(j, j + 3) =~= url.subrange(j, j + 3));
        }
        assert(o.subrange(i, i + 3) =~= sep);
        lemma_find_is(o, sep, i);
        assert(o.skip(i + 3) =~= auth);
        assert forall|m: int| 0 <= m implies !occurs_at(auth, seq!['/'], m) by {
            if m < auth.len() {
                lemma_slash_at(auth, m);
            }
        }
        lemma_find_from(auth, seq!['/'], 0);
        assert(authority(auth) == auth);
        assert(o.take(i) =~= url.take(i));
        assert(o.take(i) + sep + authority(o.skip(i + 3)) =~= o);
        assert forall|m: int| i + 3 <= m < o.len() implies o[m] != '/' by {
            assert(o[m] == auth[m - i - 3]);
        }
    }
}

#[verifier::spinoff_prover]
proof fn lemma_probes_from(
    hrefs: Seq<Seq<char>>,
    i: int,
    current: Seq<char>,
    origin: Seq<char>,
    planned: Seq<Seq<char>>,
)
    requires
        0 <= i,
    ensures
        ({
            let ps = probes_from(hrefs, i, current, origin, planned);
            &&& forall|k: int|
                0 <= k < ps.len() ==> {
                    &&& hrefs.contains(#[trigger] ps[k].0)
                    &&& !skipped_link(ps[k].0)
                    &&& ps[k].1 == resolved(current, ps[k].0)
                    &&& url_origin(ps[k].1) == Some(origin)
                    &&& !planned.contains(ps[k].1)
                }
            &&& forall|j: int, k: int| 0 <= j < k < ps.len() ==> #[trigger] ps[j].1 != #[trigger] ps[k].1
        }),
    decreases hrefs.len() - i,
{
    if i < hrefs.len() {
        let h = hrefs[i];
        let u = resolved(current, h);
        if skipped_link(h) || url_origin(u) != Some(origin) || planned.contains(u) {
            lemma_probes_from(hrefs, i + 1, current, origin, planned);
        } else {
            lemma_probes_from(hrefs, i + 1, current, origin, planned.push(u));
            let rest = probes_from(hrefs, i + 1, current, origin, planned.push(u));
            let ps = probes_from(hrefs, i, current, origin, planned);
            assert(ps == seq![(h, u)] + rest);
            assert forall|k: int| 0 <= k < rest.len() implies !planned.contains(
                #[trigger] rest[k].1,
            ) && rest[k].1 != u by {
                assert(hrefs.contains(rest[k].0));
                assert(!planned.push(u).contains(rest[k].1));
                if planned.contains(rest[k].1) {
                    let m = choose|m: int| 0 <= m < planned.len() && planned[m] == rest[k].1;
                    assert(planned.push(u)[m] == rest[k].1);
                }
                assert(planned.push(u)[planned.len() as int] == u);
            }
            assert(hrefs[i] == h);
            assert forall|k: int| 0 <= k < ps.len() implies {
                &&& hrefs.contains(#[trigger] ps[k].0)
                &&& !skipped_link(ps[k].0)
                &&& ps[k].1 == resolved(current, ps[k].0)
                &&& url_origin(ps[k].1) == Some(origin)
                &&& !planned.contains(ps[k].1)
            } by {
                if k > 0 {
                    assert(ps[k] == rest[k - 1]);
                }
            }
            assert forall|j: int, k: int| 0 <= j < k < ps.len() implies #[trigger] ps[j].1
                != #[trigger] ps[k].1 by {
                assert(ps[k] == rest[k - 1]);
                if j > 0 {
                    assert(ps[j] == rest[j - 1]);
                }
            }
        }
    }
}

/// A link check requests only links that the page has and does not pass over, each
/// at the URL the link leads to, all on the page's own origin, and no URL twice.
pub proof fn link_checks_stay_on_the_origin(page: PageView)
    requires
        link_plan(page) is Ok,
    ensures
        ({
            let ps = link_plan(page)->Ok_0;
            let cur = page.url->0;
            &&& forall|k: int|
                0 <= k < ps.len() ==> {
                    &&& has_link(page.body, #[trigger] ps[k].0)
                    &&& !skipped_link(ps[k].0)
                    &&& ps[k].1 == resolved(cur, ps[k].0)
                    &&& url_origin(ps[k].1) == url_origin(cur)
                }
            &&& forall|j: int, k: int| 0 <= j < k < ps.len() ==> #[trigger] ps[j].1 != #[trigger] ps[k].1
        }),
{
    let cur = page.url->0;
    let o = url_origin(cur)->0;
    let hrefs = link_hrefs(page.body);
    lemma_probes_from(hrefs, 0, cur, o, seq![]);
    found_links_are_links(page.body);
    let ps = link_plan(page)->Ok_0;
    assert forall|k: int| 0 <= k < ps.len() implies has_link(page.body, #[trigger] ps[k].0) by {
        assert(hrefs.contains(ps[k].0));
        let m = choose|m: int| 0 <= m < hrefs.len() && hrefs[m] == ps[k].0;
        assert(has_link(page.body, hrefs[m]));
    }
}

/// Every link from position `i` of `hrefs` on that a link check does not pass over
/// and that leads to `origin` is requested: its URL is among those already planned
/// or among the probes.
#[verifier::spinoff_prover]
proof fn lemma_probes_complete(
    hrefs: Seq<Seq<char>>,
    i: int,
    current: Seq<char>,
    origin: Seq<char>,
    planned: Seq<Seq<char>>,
)
    requires
        0 <= i,
    ensures
        ({
            let ps = probes_from(hrefs, i, current, origin, planned);
            forall|k: int|
                i <= k < hrefs.len() && !skipped_link(#[trigger] hrefs[k]) && url_origin(
                    resolved(current, hrefs[k]),
                ) == Some(origin) ==> planned.contains(resolved(current, hrefs[k])) || exists|
                    j: int,
                | 0 <= j < ps.len() && #[trigger] ps[j].1 == resolved(current, hrefs[k])
        }),
    decreases hrefs.len() - i,
{
    if i < hrefs.len() {
        let h = hrefs[i];
        let u = resolved(current, h);
        let ps = probes_from(hrefs, i, current, origin, planned);
        if skipped_link(h) || url_origin(u) != Some(origin) || planned.contains(u) {
            lemma_probes_complete(hrefs, i + 1, current, origin, planned);
        } else {
            let p2 = planned.push(u);
            lemma_probes_complete(hrefs, i + 1, current, origin, p2);
            let rest = probes_from(hrefs, i + 1, current, origin, p2);
            assert(ps == seq![(h, u)] + rest);
            assert(ps[0].1 == u);
            assert forall|k: int|
                i <= k < hrefs.len() && !skipped_link(#[trigger] hrefs[k]) && url_origin(
                    resolved(current, hrefs[k]),
                ) == Some(origin) implies planned.contains(resolved(current, hrefs[k])) || exists|
                    j: int,
                | 0 <= j < ps.len() && #[trigger] ps[j].1 == resolved(current, hrefs[k]) by {
                let uk = resolved(current, hrefs[k]);
                if k == i {
                    assert(ps[0].1 == uk);
                } else if uk == u {
                    assert(ps[0].1 == uk);
                } else if p2.contains(uk) {
                    let m = choose|m: int| 0 <= m < p2.len() && p2[m] == uk;
                    assert(m < planned.len());
                    assert(planned[m] == uk);
                } else {
                    let j = choose|j: int| 0 <= j < rest.len() && #[trigger] rest[j].1 == uk;
                    assert(ps[j + 1] == rest[j]);
                    assert(ps[j + 1].1 == uk);
                }
            }
        }
    }
}

/// A link check requests every link of the page that it does not pass over and that
/// leads to the page's own origin, whether the link is written as an absolute URL or
/// as a path: the URL it leads to is the URL of one of the probes.
pub proof fn link_checks_request_every_same_origin_link(page: PageView)
    requires
        link_plan(page) is Ok,
    ensures
        ({
            let ps = link_plan(page)->Ok_0;
            let cur = page.url->0;
            let hrefs = link_hrefs(page.body);
            forall|k: int|
                0 <= k < hrefs.len() && !skipped_link(#[trigger] hrefs[k]) && url_origin(
                    resolved(cur, hrefs[k]),
                ) == url_origin(cur) ==> exists|j: int|
                    0 <= j < ps.len() && #[trigger] ps[j].1 == resolved(cur, hrefs[k])
        }),
{
    let cur = page.url->0;
    let o = url_origin(cur)->0;
    let hrefs = link_hrefs(page.body);
    let ps = link_plan(page)->Ok_0;
    lemma_probes_complete(hrefs, 0, cur, o, seq![]);
    assert(ps == probes_from(hrefs, 0, cur, o, seq![]));
    assert forall|k: int|
        0 <= k < hrefs.len() && !skipped_link(#[trigger] hrefs[k]) && url_origin(
            resolved(cur, hrefs[k]),
        ) == url_origin(cur) implies exists|j: int|
        0 <= j < ps.len() && #[trigger] ps[j].1 == resolved(cur, hrefs[k]) by {
        assert(!Seq::<Seq<char>>::empty().contains(resolved(cur, hrefs[k])));
    }
}

/// A check passes only when the status was the expected one, any click was followed,
/// every expectation held, and a link check it asks for had no link to request
/// left.
pub proof fn passing_needs_status_and_expectations(
    check: FastCheckView,
    first: Seq<char>,
    page: PageView,
    clicked: bool,
)
    ensures
        after_load(check, first, page, clicked) matches PhaseView::Finished(Ok(r)) ==> {
            &&& status_expectation(page.status, check.status) is Ok
            &&& (clicked || check.click is None)
            &&& page_expectations(page.body, check) is Ok
            &&& (check.check_links ==> link_plan(page) == Ok::<Seq<(Seq<char>, Seq<char>)>, Seq<char>>(seq![]))
            &&& r == check_report(check, first, page)
        },
{
    if let Ok(ps) = link_plan(page) {
        if ps.len() == 0 {
            assert(ps =~= seq![]);
        }
    }
}

/// A check without a name is labelled `fast ` and its position counted from one, in
/// decimal digits; a named check is labelled with its name.
pub proof fn unnamed_checks_are_numbered_from_one(check: FastCheckView, i: int)
    requires
        0 <= i,
    ensures
        check.name matches Some(n) ==> check_label(check, i) == n,
        check.name is None ==> {
            let l = check_label(check, i);
            &&& l.len() > 5
            &&& l.take(5) == "fast "@
            &&& forall|m: int| 5 <= m < l.len() ==> is_digit(#[trigger] l[m])
            &&& digits_value(l.skip(5)) == i + 1
        },
{
    reveal_strlit("fast ");
    if check.name is None {
        let d = decimal((i + 1) as nat);
        lemma_decimal((i + 1) as nat);
        let l = check_label(check, i);
        assert(l == "fast "@ + d);
        assert(l.take(5) =~= "fast "@);
        assert(l.skip(5) =~= d);
        assert forall|m: int| 5 <= m < l.len() implies is_digit(#[trigger] l[m]) by {
            assert(l[m] == d[m - 5]);
        }
    }
}

/// The report of a finished suite agrees with itself and with the suite: it passed
/// exactly when no check failed; its count is the number of passing checks; its
/// first failure is the first of its failures; without fail-fast every check ran;
/// with it, at most one check failed.
pub proof fn suite_reports_are_consistent(v: SuiteRunView)
    requires
        suite_consistent(v),
        suite_finished(v),
    ensures
        !v.fail_fast ==> v.reports.len() + v.failures.len() == v.checks.len(),
        v.fail_fast ==> v.failures.len() <= 1,
        match suite_result(v) {
            Ok(r) => r.passed && r.failures.len() == 0 && r.check_count == r.checks.len()
                && r.checks.len() == v.checks.len(),
            Err(e) => e.report matches Some(r) && !r.passed && r.failures.len() > 0 && r.failure
                == Some(r.failures[0]) && r.check_count == r.checks.len(),
        },
{
}

} // verus!
