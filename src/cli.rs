use vstd::prelude::*;

verus! {

/// `std::path::PathBuf`, carried through unopened.
#[verifier::external_type_specification]
#[verifier::external_body]
pub struct ExPathBuf(std::path::PathBuf);

/// url's `Url`, carried through unopened.
#[verifier::external_type_specification]
#[verifier::external_body]
pub struct ExUrl(url::Url);

/// Arguments of `enc`: encrypt a local file.
pub struct EncArgs {
    pub in_file: std::path::PathBuf,
    /// Where to write; by default the input's path with the container extension.
    pub out_file: Option<std::path::PathBuf>,
    pub silent: bool,
}

/// Arguments of `dec`: decrypt a local container.
pub struct DecArgs {
    pub in_file: std::path::PathBuf,
    pub out_file: std::path::PathBuf,
    pub silent: bool,
}

/// Arguments of `fetch`: download a container over HTTP and decrypt it.
pub struct FetchArgs {
    pub url: url::Url,
    pub out_file: std::path::PathBuf,
    pub silent: bool,
}

/// Arguments of `chaff`: write random filler of a given size.
pub struct ChaffArgs {
    pub out_file: std::path::PathBuf,
    /// The exact size, or the lower bound when a maximum is given.
    pub size: String,
    /// An exclusive upper bound; the size is then drawn at random.
    pub random_size_max: Option<String>,
    pub silent: bool,
}

/// One subcommand with its arguments.
pub enum Command {
    Enc(EncArgs),
    Dec(DecArgs),
    Fetch(FetchArgs),
    Chaff(ChaffArgs),
}

/// A whole command line.
pub struct Cli {
    pub command: Command,
}

/// The container extension that `enc` appends to the input's name when no
/// output path is given.
pub const CONTAINER_EXTENSION: &'static str = ".ssec";

/// The default output name of `enc` for an input shown as `in_file`.
pub fn default_output_name(in_file: &str) -> (r: String)
    ensures
        r@ == in_file@ + CONTAINER_EXTENSION@,
{
    let mut r = in_file.to_owned();
    r.append(CONTAINER_EXTENSION);
    r
}

} // verus!
