pub mod browser;
pub mod check;
pub mod check_laws;
pub mod cli;
pub mod config;
pub mod error;
pub mod init;
pub mod laws;
pub mod links;
pub mod page;
pub mod render;
pub mod report;
pub mod suite;
pub mod text;

pub use cli::{
    parse_command, parse_invocation, Command, FastArgs, HelpTopic, InitArgs, OutputFormat, SmokeArgs,
};
pub use error::AegisError;
pub use init::init_write_allowed;
pub use links::{
    body_has_link_href, extract_link_hrefs, href_from_selector, join_url, origin_from_url,
    resolve_href, should_skip_link,
};

pub use config::{default_status, AegisConfig, FastCheckConfig, SmokeCheckConfig};
pub use page::{FastPage, LinkProbe};
pub use report::{smoke_report, FastCheckReport, FastFailureReport, FastSuiteReport, SmokeReport};
pub use check::{CheckAction, FastCheckRun};
pub use suite::{collect_fast_suite_report, run_fast_suite, FastSuiteError, FastSuiteRun, SuiteOutput};
pub use browser::{browser, BrowserPage};
pub use render::{smoke_report_lines, suite_report_lines};
