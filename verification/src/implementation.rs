//! The capability model: which DNS server implementations can act in which
//! roles, and the artifacts (config path, command line, PID file) each one
//! needs to be launched.

use vstd::prelude::*;

use crate::repository::Repository;
use crate::templates::{
    bind_name_server_output, bind_resolver_output, hickory_resolver_output,
    nsd_name_server_output, render_name_server_template, render_resolver_template,
    unbound_resolver_output, BIND_NAME_SERVER_TEMPLATE, BIND_RESOLVER_TEMPLATE,
    HICKORY_RESOLVER_TEMPLATE, NSD_NAME_SERVER_TEMPLATE, UNBOUND_RESOLVER_TEMPLATE,
};

verus! {

/// Which function a running DNS server instance performs.
#[derive(Clone, Copy, PartialEq, Eq, Structural, Debug)]
pub enum Role {
    NameServer,
    Resolver,
}

impl Role {
    /// True exactly for the recursive-resolver role.
    #[must_use]
    pub fn is_resolver(&self) -> (r: bool)
        ensures
            r <==> (*self is Resolver),
    {
        matches!(self, Self::Resolver)
    }
}

/// The parameters needed to render a configuration. The variant fixes the
/// role the configured server will perform.
#[derive(Clone, Debug)]
pub enum Config {
    NameServer { origin: String },
    Resolver { use_dnssec: bool, netmask: String },
}

/// The mathematical value of a [`Config`]: the same variants over sequences
/// of characters.
pub enum ConfigV {
    NameServer { origin: Seq<char> },
    Resolver { use_dnssec: bool, netmask: Seq<char> },
}

impl View for Config {
    type V = ConfigV;

    open spec fn view(&self) -> ConfigV {
        match self {
            Config::NameServer { origin } => ConfigV::NameServer { origin: origin@ },
            Config::Resolver { use_dnssec, netmask } => ConfigV::Resolver {
                use_dnssec: *use_dnssec,
                netmask: netmask@,
            },
        }
    }
}

/// The role a configuration is for: its variant alone decides.
pub open spec fn role_of(c: ConfigV) -> Role {
    match c {
        ConfigV::NameServer { .. } => Role::NameServer,
        ConfigV::Resolver { .. } => Role::Resolver,
    }
}

impl Config {
    /// The role this configuration is for.
    pub fn role(&self) -> (r: Role)
        ensures
            r == role_of(self@),
    {
        match self {
            Config::NameServer { .. } => Role::NameServer,
            Config::Resolver { .. } => Role::Resolver,
        }
    }
}

/// Signals a capability gap: the requested artifact is not defined for this
/// (implementation, role) combination.
#[derive(Clone, Copy, PartialEq, Eq, Structural, Debug)]
pub struct Unsupported;

impl Unsupported {
    /// A human-readable description of the capability gap.
    pub fn message(&self) -> (r: &'static str)
        ensures
            r@ == "the implementation does not support acting in the requested role"@,
    {
        "the implementation does not support acting in the requested role"
    }
}

/// A DNS server software product. `Bind` and `Unbound` need no parameters;
/// `Hickory` carries a reference to the source repository to build and run.
#[derive(Clone, Debug)]
pub enum Implementation {
    Bind,
    Hickory(Repository),
    Unbound,
}

/// The mathematical value of an [`Implementation`]: the same variants, the
/// Hickory repository reference as a sequence of characters.
pub enum ImplementationV {
    Bind,
    Hickory(Seq<char>),
    Unbound,
}

impl View for Implementation {
    type V = ImplementationV;

    open spec fn view(&self) -> ImplementationV {
        match self {
            Implementation::Bind => ImplementationV::Bind,
            Implementation::Hickory(repo) => ImplementationV::Hickory(repo@),
            Implementation::Unbound => ImplementationV::Unbound,
        }
    }
}

impl Default for Implementation {
    /// The implementation used when a test does not choose one.
    fn default() -> (r: Self)
        ensures
            r is Unbound,
    {
        Self::Unbound
    }
}

/// The lowercase name of the implementation, used by the harness for
/// logging and labeling.
pub open spec fn name_of(i: ImplementationV) -> Seq<char> {
    match i {
        ImplementationV::Bind => "bind"@,
        ImplementationV::Hickory(_) => "hickory"@,
        ImplementationV::Unbound => "unbound"@,
    }
}

/// The fixed path the implementation expects its configuration file at.
/// Defined for every combination: the path alone does not imply the
/// combination is runnable.
pub open spec fn conf_file_path_of(i: ImplementationV, role: Role) -> Seq<char> {
    match i {
        ImplementationV::Bind => "/etc/bind/named.conf"@,
        ImplementationV::Hickory(_) => "/etc/named.toml"@,
        ImplementationV::Unbound => match role {
            Role::NameServer => "/etc/nsd/nsd.conf"@,
            Role::Resolver => "/etc/unbound/unbound.conf"@,
        },
    }
}

/// The command line that launches the implementation in the given role, in
/// the foreground and with verbose logging; `None` for the unsupported
/// combination of Hickory acting as a name server.
pub open spec fn cmd_args_of(i: ImplementationV, role: Role) -> Option<Seq<Seq<char>>> {
    match i {
        ImplementationV::Bind => Some(seq!["named"@, "-g"@, "-d5"@]),
        ImplementationV::Hickory(_) => if role is Resolver {
            Some(seq!["hickory-dns"@, "-d"@])
        } else {
            None
        },
        ImplementationV::Unbound => match role {
            Role::NameServer => Some(seq!["nsd"@, "-d"@]),
            Role::Resolver => Some(seq!["unbound"@, "-d"@]),
        },
    }
}

/// The path of the file the running server writes its process id to;
/// `None` for Hickory, whose PID file support is not defined yet.
pub open spec fn pidfile_of(i: ImplementationV, role: Role) -> Option<Seq<char>> {
    match i {
        ImplementationV::Bind => Some("/tmp/named.pid"@),
        ImplementationV::Hickory(_) => None,
        ImplementationV::Unbound => match role {
            Role::NameServer => Some("/tmp/nsd.pid"@),
            Role::Resolver => Some("/tmp/unbound.pid"@),
        },
    }
}

/// The complete text to write to the implementation's configuration file:
/// the template selected by the implementation and the configuration's role,
/// rendered with the configuration's fields as named parameters. Stated
/// exactly, template by template, by the output spec functions. `None` for
/// the unsupported combination of Hickory acting as a name server, for which
/// no template exists.
pub open spec fn format_config_of(i: ImplementationV, c: ConfigV) -> Option<Seq<char>> {
    match c {
        ConfigV::Resolver { use_dnssec, netmask } => match i {
            ImplementationV::Bind => Some(bind_resolver_output(use_dnssec, netmask)),
            ImplementationV::Hickory(_) => Some(hickory_resolver_output(use_dnssec, netmask)),
            ImplementationV::Unbound => Some(unbound_resolver_output(use_dnssec, netmask)),
        },
        ConfigV::NameServer { origin } => match i {
            ImplementationV::Bind => Some(bind_name_server_output(origin)),
            ImplementationV::Hickory(_) => None,
            ImplementationV::Unbound => Some(nsd_name_server_output(origin)),
        },
    }
}

/// The views of a sequence of strings.
pub open spec fn views_of(args: Seq<&str>) -> Seq<Seq<char>> {
    args.map_values(|s: &str| s@)
}

impl Implementation {
    /// True exactly for the BIND implementation.
    #[must_use]
    pub fn is_bind(&self) -> (r: bool)
        ensures
            r <==> (*self is Bind),
    {
        matches!(self, Self::Bind)
    }

    /// The lowercase name of the implementation.
    pub fn name(&self) -> (r: &'static str)
        ensures
            r@ == name_of(self@),
    {
        match self {
            Implementation::Bind => "bind",
            Implementation::Hickory(_) => "hickory",
            Implementation::Unbound => "unbound",
        }
    }

    /// The path a supervising process must write the rendered configuration
    /// to, and where the binary itself expects to find it.
    pub fn conf_file_path(&self, role: Role) -> (r: &'static str)
        ensures
            r@ == conf_file_path_of(self@, role),
    {
        match self {
            Self::Bind => "/etc/bind/named.conf",
            Self::Hickory(_) => "/etc/named.toml",
            Self::Unbound => match role {
                Role::NameServer => "/etc/nsd/nsd.conf",
                Role::Resolver => "/etc/unbound/unbound.conf",
            },
        }
    }

    /// The command and flags that launch the server in the foreground with
    /// verbose logging. Fails exactly for Hickory acting as a name server,
    /// which is not supported.
    pub fn cmd_args(&self, role: Role) -> (r: Result<Vec<&'static str>, Unsupported>)
        ensures
            match r {
                Ok(args) => cmd_args_of(self@, role) == Some(views_of(args@)),
                Err(_) => cmd_args_of(self@, role) is None,
            },
    {
        match self {
            Implementation::Bind => {
                let args = vec!["named", "-g", "-d5"];
                proof {
                    assert(views_of(args@) =~= seq!["named"@, "-g"@, "-d5"@]);
                }
                Ok(args)
            },
            Implementation::Hickory(_) => {
                if role.is_resolver() {
                    let args = vec!["hickory-dns", "-d"];
                    proof {
                        assert(views_of(args@) =~= seq!["hickory-dns"@, "-d"@]);
                    }
                    Ok(args)
                } else {
                    Err(Unsupported)
                }
            },
            Implementation::Unbound => {
                let args = match role {
                    Role::NameServer => vec!["nsd", "-d"],
                    Role::Resolver => vec!["unbound", "-d"],
                };
                proof {
                    if role is NameServer {
                        assert(views_of(args@) =~= seq!["nsd"@, "-d"@]);
                    } else {
                        assert(views_of(args@) =~= seq!["unbound"@, "-d"@]);
                    }
                }
                Ok(args)
            },
        }
    }

    /// The complete configuration text for this implementation acting in
    /// the role the configuration is for. Fails exactly for Hickory acting
    /// as a name server, for which no template exists.
    pub fn format_config(&self, config: Config) -> (r: Result<String, Unsupported>)
        ensures
            match r {
                Ok(text) => format_config_of(self@, config@) == Some(text@),
                Err(_) => format_config_of(self@, config@) is None,
            },
    {
        match config {
            Config::Resolver { use_dnssec, netmask } => match self {
                Self::Bind => Ok(
                    render_resolver_template(BIND_RESOLVER_TEMPLATE, use_dnssec, netmask.as_str()),
                ),
                Self::Hickory(_) => Ok(
                    render_resolver_template(
                        HICKORY_RESOLVER_TEMPLATE,
                        use_dnssec,
                        netmask.as_str(),
                    ),
                ),
                Self::Unbound => Ok(
                    render_resolver_template(
                        UNBOUND_RESOLVER_TEMPLATE,
                        use_dnssec,
                        netmask.as_str(),
                    ),
                ),
            },
            Config::NameServer { origin } => match self {
                Self::Bind => Ok(
                    render_name_server_template(BIND_NAME_SERVER_TEMPLATE, origin.as_str()),
                ),
                Self::Unbound => Ok(
                    render_name_server_template(NSD_NAME_SERVER_TEMPLATE, origin.as_str()),
                ),
                Self::Hickory(_) => Err(Unsupported),
            },
        }
    }

    /// The path the harness polls to learn the server's process id. Fails
    /// for Hickory in either role, whose PID file support is not defined.
    pub fn pidfile(&self, role: Role) -> (r: Result<&'static str, Unsupported>)
        ensures
            match r {
                Ok(path) => pidfile_of(self@, role) == Some(path@),
                Err(_) => pidfile_of(self@, role) is None,
            },
    {
        match self {
            Implementation::Bind => Ok("/tmp/named.pid"),
            Implementation::Hickory(_) => Err(Unsupported),
            Implementation::Unbound => match role {
                Role::NameServer => Ok("/tmp/nsd.pid"),
                Role::Resolver => Ok("/tmp/unbound.pid"),
            },
        }
    }
}

/// Rendering a configuration is idempotent: an implementation and a
/// configuration of equal values give byte-identical configuration text,
/// however often they are rendered.
pub proof fn lemma_format_config_deterministic(
    i1: Implementation,
    i2: Implementation,
    c1: Config,
    c2: Config,
)
    requires
        i1@ == i2@,
        c1@ == c2@,
    ensures
        format_config_of(i1@, c1@) == format_config_of(i2@, c2@),
{
}

/// The configuration text of Hickory does not depend on which source
/// repository the implementation value carries, only on the configuration.
pub proof fn lemma_format_config_ignores_repository(
    repo1: Seq<char>,
    repo2: Seq<char>,
    c: ConfigV,
)
    ensures
        format_config_of(ImplementationV::Hickory(repo1), c) == format_config_of(
            ImplementationV::Hickory(repo2),
            c,
        ),
{
}

/// The two capability gaps coincide: a configuration can be rendered for an
/// implementation exactly when the implementation can be launched in the
/// configuration's role.
pub proof fn lemma_config_and_launch_agree(i: ImplementationV, c: ConfigV)
    ensures
        format_config_of(i, c) is Some <==> cmd_args_of(i, role_of(c)) is Some,
{
}

/// `needle` occurs contiguously inside `haystack`.
pub open spec fn contains_seq(haystack: Seq<char>, needle: Seq<char>) -> bool {
    exists|i: int|
        0 <= i && i + needle.len() <= haystack.len() && #[trigger] haystack.subrange(
            i,
            i + needle.len(),
        ) == needle
}

/// Every resolver configuration embeds the netmask verbatim: whichever
/// implementation renders it, the text contains the netmask as a
/// contiguous substring.
pub proof fn lemma_resolver_config_embeds_netmask(
    i: ImplementationV,
    use_dnssec: bool,
    netmask: Seq<char>,
)
    ensures
        format_config_of(i, ConfigV::Resolver { use_dnssec, netmask }) matches Some(text)
            && contains_seq(text, netmask),
{
    match i {
        ImplementationV::Bind => {
            let text = bind_resolver_output(use_dnssec, netmask);
            let j = "options {\n    recursion yes;\n    listen-on port 53 { any; };\n    allow-recursion { "@.len() as int;
            assert(text.subrange(j, j + netmask.len()) =~= netmask);
            assert(text.subrange(j, j + netmask.len()) == netmask);
        },
        ImplementationV::Hickory(_) => {
            let text = hickory_resolver_output(use_dnssec, netmask);
            let j = "listen_addrs_ipv4 = [\"0.0.0.0\"]\nallow_networks = [\""@.len() as int;
            assert(text.subrange(j, j + netmask.len()) =~= netmask);
            assert(text.subrange(j, j + netmask.len()) == netmask);
        },
        ImplementationV::Unbound => {
            let text = unbound_resolver_output(use_dnssec, netmask);
            let j = "server:\n    interface: 0.0.0.0\n    access-control: "@.len() as int;
            assert(text.subrange(j, j + netmask.len()) =~= netmask);
            assert(text.subrange(j, j + netmask.len()) == netmask);
        },
    }
}

/// A name-server configuration embeds the origin verbatim: where a
/// template exists (BIND and Unbound's NSD), the rendered text contains
/// the origin as a contiguous substring.
pub proof fn lemma_name_server_config_embeds_origin(i: ImplementationV, origin: Seq<char>)
    requires
        !(i is Hickory),
    ensures
        format_config_of(i, ConfigV::NameServer { origin }) matches Some(text) && contains_seq(
            text,
            origin,
        ),
{
    match i {
        ImplementationV::Bind => {
            let text = bind_name_server_output(origin);
            let j = "options {\n    recursion no;\n    listen-on port 53 { any; };\n};\n\nzone \""@.len() as int;
            assert(text.subrange(j, j + origin.len()) =~= origin);
            assert(text.subrange(j, j + origin.len()) == origin);
        },
        ImplementationV::Unbound => {
            let text = nsd_name_server_output(origin);
            let j = "server:\n    ip-address: 0.0.0.0\n\nzone:\n    name: "@.len() as int;
            assert(text.subrange(j, j + origin.len()) =~= origin);
            assert(text.subrange(j, j + origin.len()) == origin);
        },
        ImplementationV::Hickory(_) => {
        },
    }
}

} // verus!
