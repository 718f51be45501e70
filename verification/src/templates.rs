//! The configuration templates, one per supported (implementation, role)
//! combination, and the trusted boundary to the template-rendering engine.

use vstd::prelude::*;

verus! {

/// BIND acting as a recursive resolver (`named.conf`).
pub const BIND_RESOLVER_TEMPLATE: &'static str = "options {\n    recursion yes;\n    listen-on port 53 { any; };\n    allow-recursion { {{ netmask }}; };\n    dnssec-validation {% if use_dnssec %}auto{% else %}no{% endif %};\n};\n";

/// Hickory DNS acting as a recursive resolver (`named.toml`).
pub const HICKORY_RESOLVER_TEMPLATE: &'static str = "listen_addrs_ipv4 = [\"0.0.0.0\"]\nallow_networks = [\"{{ netmask }}\"]\n\n[[zones]]\nzone = \".\"\nzone_type = \"Hint\"\nstored = { type = \"recursor\", roots = \"/etc/root.hints\", dnssec = {% if use_dnssec %}true{% else %}false{% endif %} }\n";

/// Unbound acting as a recursive resolver (`unbound.conf`).
pub const UNBOUND_RESOLVER_TEMPLATE: &'static str = "server:\n    interface: 0.0.0.0\n    access-control: {{ netmask }} allow\n    module-config: \"{% if use_dnssec %}validator {% endif %}iterator\"\n";

/// BIND acting as an authoritative name server (`named.conf`).
pub const BIND_NAME_SERVER_TEMPLATE: &'static str = "options {\n    recursion no;\n    listen-on port 53 { any; };\n};\n\nzone \"{{ fqdn }}\" {\n    type master;\n    file \"/etc/zones/main.zone\";\n};\n";

/// NSD, the authoritative companion of Unbound (`nsd.conf`).
pub const NSD_NAME_SERVER_TEMPLATE: &'static str = "server:\n    ip-address: 0.0.0.0\n\nzone:\n    name: {{ fqdn }}\n    zonefile: main.zone\n";

/// What the rendering engine produces from a template source and a mapping
/// of named parameters to values: a function of those two alone.
pub uninterp spec fn rendered(template: Seq<char>, params: Map<Seq<char>, Seq<char>>) -> Seq<char>;

/// How a boolean parameter reads inside a template.
pub open spec fn bool_param(b: bool) -> Seq<char> {
    if b {
        "true"@
    } else {
        "false"@
    }
}

/// The named parameters of a resolver configuration.
pub open spec fn resolver_params(use_dnssec: bool, netmask: Seq<char>) -> Map<Seq<char>, Seq<char>> {
    map!["use_dnssec"@ => bool_param(use_dnssec), "netmask"@ => netmask]
}

/// The named parameters of a name-server configuration.
pub open spec fn name_server_params(fqdn: Seq<char>) -> Map<Seq<char>, Seq<char>> {
    map!["fqdn"@ => fqdn]
}

/// The text the BIND resolver template renders to: the template with the
/// parameters substituted verbatim and the template's single trailing
/// newline stripped, as the engine's defaults leave it.
pub open spec fn bind_resolver_output(use_dnssec: bool, netmask: Seq<char>) -> Seq<char> {
    "options {\n    recursion yes;\n    listen-on port 53 { any; };\n    allow-recursion { "@
        + netmask + "; };\n    dnssec-validation "@ + (if use_dnssec {
        "auto"@
    } else {
        "no"@
    }) + ";\n};"@
}

/// The text the Hickory resolver template renders to.
pub open spec fn hickory_resolver_output(use_dnssec: bool, netmask: Seq<char>) -> Seq<char> {
    "listen_addrs_ipv4 = [\"0.0.0.0\"]\nallow_networks = [\""@ + netmask
        + "\"]\n\n[[zones]]\nzone = \".\"\nzone_type = \"Hint\"\nstored = { type = \"recursor\", roots = \"/etc/root.hints\", dnssec = "@
        + bool_param(use_dnssec) + " }"@
}

/// The text the Unbound resolver template renders to.
pub open spec fn unbound_resolver_output(use_dnssec: bool, netmask: Seq<char>) -> Seq<char> {
    "server:\n    interface: 0.0.0.0\n    access-control: "@ + netmask
        + " allow\n    module-config: \""@ + (if use_dnssec {
        "validator "@
    } else {
        Seq::<char>::empty()
    }) + "iterator\""@
}

/// The text the BIND name-server template renders to.
pub open spec fn bind_name_server_output(fqdn: Seq<char>) -> Seq<char> {
    "options {\n    recursion no;\n    listen-on port 53 { any; };\n};\n\nzone \""@ + fqdn
        + "\" {\n    type master;\n    file \"/etc/zones/main.zone\";\n};"@
}

/// The text the NSD name-server template renders to.
pub open spec fn nsd_name_server_output(fqdn: Seq<char>) -> Seq<char> {
    "server:\n    ip-address: 0.0.0.0\n\nzone:\n    name: "@ + fqdn + "\n    zonefile: main.zone"@
}

/// Relies on minijinja's `Environment::render_str`: the rendered text is a
/// function of the template source and the named parameters alone, and with
/// the engine's defaults — no auto-escaping for a string template, block
/// trimming off, the template's single trailing newline stripped — each of
/// the library's own templates renders to exactly the text its output spec
/// function states. The library's templates are well-formed; a template
/// that nevertheless fails to render yields the empty string.
#[verifier::external_body]
pub(crate) fn render_resolver_template(template: &str, use_dnssec: bool, netmask: &str) -> (r:
    String)
    ensures
        r@ == rendered(template@, resolver_params(use_dnssec, netmask@)),
        template@ == BIND_RESOLVER_TEMPLATE@ ==> r@ == bind_resolver_output(use_dnssec, netmask@),
        template@ == HICKORY_RESOLVER_TEMPLATE@ ==> r@ == hickory_resolver_output(
            use_dnssec,
            netmask@,
        ),
        template@ == UNBOUND_RESOLVER_TEMPLATE@ ==> r@ == unbound_resolver_output(
            use_dnssec,
            netmask@,
        ),
{
    let ctx = minijinja::value::Value::from_iter([
        ("use_dnssec", minijinja::value::Value::from(use_dnssec)),
        ("netmask", minijinja::value::Value::from(netmask)),
    ]);
    match minijinja::Environment::new().render_str(template, ctx) {
        Ok(text) => text,
        Err(_) => String::new(),
    }
}

/// Relies on minijinja's `Environment::render_str`: the rendered text is a
/// function of the template source and the named parameters alone, and with
/// the engine's defaults — no auto-escaping for a string template, block
/// trimming off, the template's single trailing newline stripped — each of
/// the library's own templates renders to exactly the text its output spec
/// function states. The library's templates are well-formed; a template
/// that nevertheless fails to render yields the empty string.
#[verifier::external_body]
pub(crate) fn render_name_server_template(template: &str, fqdn: &str) -> (r: String)
    ensures
        r@ == rendered(template@, name_server_params(fqdn@)),
        template@ == BIND_NAME_SERVER_TEMPLATE@ ==> r@ == bind_name_server_output(fqdn@),
        template@ == NSD_NAME_SERVER_TEMPLATE@ ==> r@ == nsd_name_server_output(fqdn@),
{
    let ctx = minijinja::value::Value::from_iter([
        ("fqdn", minijinja::value::Value::from(fqdn)),
    ]);
    match minijinja::Environment::new().render_str(template, ctx) {
        Ok(text) => text,
        Err(_) => String::new(),
    }
}

} // verus!
