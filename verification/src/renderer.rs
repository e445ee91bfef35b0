//! The cluster-credentials document.
//!
//! A fixed YAML document — one cluster/context/user triple — with four
//! substitution points: the API endpoint, the TLS-verification-skip flag,
//! the namespace and the bearer token. Everything around the substituted
//! values is reproduced byte for byte, with no trailing newline. Writing the
//! document to its well-known path is the embedding program's side effect,
//! not this module's.

use vstd::prelude::*;

verus! {

/// The canonical text of a flag value.
pub open spec fn bool_text(b: bool) -> Seq<char> {
    if b {
        "true"@
    } else {
        "false"@
    }
}

/// The full credentials document for the four resolved fields.
pub open spec fn credentials_text(
    master: Seq<char>,
    namespace: Seq<char>,
    skip_tls: bool,
    token: Seq<char>,
) -> Seq<char> {
    "apiVersion: v1\nclusters:\n- cluster:\n    insecure-skip-tls-verify: "@
        + bool_text(skip_tls) + "\n    server: "@ + master
        + "\n  name: helm\ncontexts:\n- context:\n    cluster: helm\n    namespace: "@
        + namespace
        + "\n    user: helm\n  name: helm\ncurrent-context: helm\nkind: Config\npreferences: {}\nusers:\n- name: helm\n  user:\n    token: "@
        + token
}

/// Renders the credentials document for the four resolved fields.
pub fn render_credentials(master: &str, namespace: &str, skip_tls: bool, token: &str) -> (r:
    String)
    ensures
        r@ == credentials_text(master@, namespace@, skip_tls, token@),
{
    let mut out = String::from_str(
        "apiVersion: v1\nclusters:\n- cluster:\n    insecure-skip-tls-verify: ",
    );
    out.append(if skip_tls { "true" } else { "false" });
    out.append("\n    server: ");
    out.append(master);
    out.append("\n  name: helm\ncontexts:\n- context:\n    cluster: helm\n    namespace: ");
    out.append(namespace);
    out.append(
        "\n    user: helm\n  name: helm\ncurrent-context: helm\nkind: Config\npreferences: {}\nusers:\n- name: helm\n  user:\n    token: ",
    );
    out.append(token);
    proof {
        assert(out@ =~= credentials_text(master@, namespace@, skip_tls, token@));
    }
    out
}

} // verus!
