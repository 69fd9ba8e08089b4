//! Where the configuration files live.

use vstd::prelude::*;

verus! {

/// File name of the host's configuration.
pub const HOST_TOML: &'static str = "host.toml";

/// File name of the remote's configuration.
pub const REMOTE_TOML: &'static str = "remote.toml";

/// The text of the path that `std::path::Path::join` makes of `base` and
/// `name`.
pub uninterp spec fn joined_path(base: Seq<char>, name: Seq<char>) -> Seq<char>;

/// Relies on `std::path::Path::join`, which places `name` under `base` with
/// the target's path separator; a path joined from two strings is valid
/// UTF-8, so its text is kept whole.
#[verifier::external_body]
fn join_path(base: &str, name: &str) -> (r: String)
    ensures
        r@ == joined_path(base@, name@),
{
    std::path::Path::new(base).join(name).to_string_lossy().into_owned()
}

/// The host's configuration file in the configuration directory `config_dir`.
pub fn host_toml(config_dir: &str) -> (r: String)
    ensures
        r@ == joined_path(config_dir@, HOST_TOML@),
{
    join_path(config_dir, HOST_TOML)
}

/// The remote's configuration file in the configuration directory
/// `config_dir`.
pub fn remote_toml(config_dir: &str) -> (r: String)
    ensures
        r@ == joined_path(config_dir@, REMOTE_TOML@),
{
    join_path(config_dir, REMOTE_TOML)
}

} // verus!
