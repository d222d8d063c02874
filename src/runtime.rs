//! Runtime settings of an application, and the decisions taken at startup.

use vstd::prelude::*;
use vstd::string::*;
use crate::health::HealthServerConfig;
use crate::info::ComponentInformation;

verus! {

/// Which tracing backend to use.
#[derive(Clone, Copy, Debug, PartialEq, Eq, Structural)]
pub enum Tracing {
    Disabled,
    Jaeger,
}

impl Default for Tracing {
    fn default() -> (r: Self)
        ensures
            r == Tracing::Disabled,
    {
        Tracing::Disabled
    }
}

impl Tracing {
    /// Whether tracing is on.
    pub fn is_enabled(&self) -> (r: bool)
        ensures
            r == !(*self is Disabled),
    {
        match self {
            Tracing::Disabled => false,
            Tracing::Jaeger => true,
        }
    }
}

/// The default period of the console metrics dump, in seconds.
pub fn console_metrics_duration() -> (r: u64)
    ensures
        r == 60,
{
    60
}

/// Periodic dumping of metrics to the console.
#[derive(Clone, Copy, Debug, PartialEq, Eq, Structural)]
pub struct ConsoleMetrics {
    pub enabled: bool,
    /// The period of the dump, in seconds.
    pub period: u64,
}

impl Default for ConsoleMetrics {
    fn default() -> (r: Self)
        ensures
            r == (ConsoleMetrics { enabled: false, period: 60 }),
    {
        ConsoleMetrics { enabled: false, period: console_metrics_duration() }
    }
}

/// Runtime configuration.
#[derive(Clone, Debug)]
pub struct RuntimeConfig {
    pub console_metrics: ConsoleMetrics,
    pub health: HealthServerConfig,
    pub tracing: Tracing,
}

impl Default for RuntimeConfig {
    fn default() -> (r: Self)
        ensures
            r.console_metrics == (ConsoleMetrics { enabled: false, period: 60 }),
            !r.health.enabled,
            r.health.bind_addr@ == "[::1]:9090"@,
            r.health.workers == 1,
            r.tracing == Tracing::Disabled,
    {
        RuntimeConfig {
            console_metrics: ConsoleMetrics::default(),
            health: HealthServerConfig::default(),
            tracing: Tracing::default(),
        }
    }
}

/// A name for what `str::to_lowercase` returns.
pub uninterp spec fn lowercase_of(s: Seq<char>) -> Seq<char>;

/// Relies on `str::to_lowercase`: its result depends on the characters alone.
#[verifier::external_body]
fn lowercase(s: &str) -> (r: String)
    ensures
        r@ == lowercase_of(s@),
{
    s.to_lowercase()
}

/// Whether the value of a flag variable means "on": it reads `true`, in any
/// letter case.
pub fn flag_value(value: &str) -> (r: bool)
    ensures
        r == (lowercase_of(value@) == "true"@),
{
    lowercase(value) == String::from_str("true")
}

/// The startup banner of a component.
pub open spec fn banner_text(c: ComponentInformation) -> Seq<char> {
    c.project.banner@ + "  \n"@ + c.project.name@ + " "@ + c.project.version@ + " - "@ + c.name@
        + " "@ + c.version@ + " ("@ + c.description@ + ")\n"@
}

/// The runtime of an application component.
#[derive(Clone, Copy, Debug)]
pub struct Runtime {
    component: ComponentInformation,
    dotenv: Option<bool>,
    show_banner: Option<bool>,
}

impl Runtime {
    /// The component this runtime runs.
    pub closed spec fn component_info(self) -> ComponentInformation {
        self.component
    }

    /// The forced choice on reading a `.env` file, if any.
    pub closed spec fn dotenv_setting(self) -> Option<bool> {
        self.dotenv
    }

    /// The forced choice on showing the banner, if any.
    pub closed spec fn banner_setting(self) -> Option<bool> {
        self.show_banner
    }

    /// A runtime for `component`, deciding by the environment whether to
    /// read a `.env` file and whether to show the banner.
    pub fn new(component: ComponentInformation) -> (r: Self)
        ensures
            r.component_info() == component,
            r.dotenv_setting() is None,
            r.banner_setting() is None,
    {
        Runtime { component, dotenv: None, show_banner: None }
    }

    /// The component this runtime runs.
    pub fn component(&self) -> (r: ComponentInformation)
        ensures
            r == self.component_info(),
    {
        self.component
    }

    /// Force the choice on reading a `.env` file (`None` leaves it to the
    /// environment).
    pub fn dotenv(self, dotenv: Option<bool>) -> (r: Self)
        ensures
            r.component_info() == self.component_info(),
            r.dotenv_setting() == dotenv,
            r.banner_setting() == self.banner_setting(),
    {
        Runtime { dotenv, ..self }
    }

    /// Whether to read a `.env` file, given whether the environment disables it.
    pub fn use_dotenv(&self, disabled_by_env: bool) -> (r: bool)
        ensures
            r == match self.dotenv_setting() {
                Some(forced) => forced,
                None => !disabled_by_env,
            },
    {
        match self.dotenv {
            Some(forced) => forced,
            None => !disabled_by_env,
        }
    }

    /// Whether to show the banner, given the environment's flag, if set.
    pub fn shows_banner(&self, env_flag: Option<bool>) -> (r: bool)
        ensures
            r == match self.banner_setting() {
                Some(forced) => forced,
                None => match env_flag {
                    Some(flag) => flag,
                    None => true,
                },
            },
    {
        match self.show_banner {
            Some(forced) => forced,
            None => match env_flag {
                Some(flag) => flag,
                None => true,
            },
        }
    }

    /// The startup banner.
    pub fn banner(&self) -> (r: String)
        ensures
            r@ == banner_text(self.component_info()),
    {
        let c = self.component;
        let p = c.project;
        let mut text = String::from_str(p.banner);
        text.append("  \n");
        text.append(p.name);
        text.append(" ");
        text.append(p.version);
        text.append(" - ");
        text.append(c.name);
        text.append(" ");
        text.append(c.version);
        text.append(" (");
        text.append(c.description);
        text.append(")\n");
        text
    }
}

} // verus!
