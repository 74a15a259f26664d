//! What the user is told once the site starts.

use crate::config::{Config, ConfigView};
use vstd::prelude::*;

verus! {

/// Where the site is found: at the address in the record, or at
/// `http://localhost:8080` where the record has none.
pub open spec fn site_address(config: ConfigView) -> Seq<char> {
    match config.lila_url {
        Some(url) => url,
        None => "http://localhost:8080"@,
    }
}

/// Where the documentation is found: a Gitpod workspace has pages of its
/// own.
pub open spec fn documentation_address(on_gitpod: bool) -> Seq<char> {
    if on_gitpod {
        "https://lichess-org.github.io/lila-gitpod/"@
    } else {
        "https://github.com/lichess-org/lila-docker"@
    }
}

/// The address at which the site will be available.
pub fn site_url(config: &Config) -> (r: String)
    ensures
        r@ == site_address(config@),
{
    match &config.lila_url {
        Some(url) => url.clone(),
        None => String::from_str("http://localhost:8080"),
    }
}

/// The address of the documentation.
pub fn documentation_url(on_gitpod: bool) -> (r: String)
    ensures
        r@ == documentation_address(on_gitpod),
{
    if on_gitpod {
        String::from_str("https://lichess-org.github.io/lila-gitpod/")
    } else {
        String::from_str("https://github.com/lichess-org/lila-docker")
    }
}

} // verus!
