//! Where a server's files live: the executable's directory, the per-server
//! configuration file beside it, and the command line a server is launched
//! with.

use vstd::arithmetic::power::pow;
use vstd::prelude::*;
use vstd::string::StringExecFns;

verus! {

/// The lower-case hexadecimal digit for `n`, which is below 16.
pub open spec fn hex_digit(n: int) -> char {
    seq!['0', '1', '2', '3', '4', '5', '6', '7', '8', '9', 'a', 'b', 'c', 'd', 'e', 'f'][n]
}

/// The `j`-th hexadecimal digit of `id`, counted from the most significant.
pub open spec fn nibble(id: u128, j: int) -> int {
    (id as int / pow(16, (31 - j) as nat)) % 16
}

/// How many hyphens precede position `i` of a hyphenated identifier.
pub open spec fn hyphens_before(i: int) -> int {
    if i > 23 {
        4
    } else if i > 18 {
        3
    } else if i > 13 {
        2
    } else if i > 8 {
        1
    } else {
        0
    }
}

/// The canonical text of a 128-bit identifier: 32 lower-case hexadecimal
/// digits, most significant first, in groups of 8, 4, 4, 4 and 12 joined by
/// hyphens.
pub open spec fn id_text(id: u128) -> Seq<char> {
    Seq::new(
        36,
        |i: int|
            if i == 8 || i == 13 || i == 18 || i == 23 {
                '-'
            } else {
                hex_digit(nibble(id, i - hyphens_before(i)))
            },
    )
}

/// The directory that contains `path`, when it has one.
pub uninterp spec fn parent_of(path: Seq<char>) -> Option<Seq<char>>;

/// The path `name` taken relative to the directory `dir`.
pub uninterp spec fn joined(dir: Seq<char>, name: Seq<char>) -> Seq<char>;

/// Relies on uuid's `Uuid::from_u128` and its hyphenated formatting: big-endian
/// bytes, each written as two lower-case hexadecimal digits, hyphens after the
/// 4th, 6th, 8th and 10th byte.
#[verifier::external_body]
fn hyphenated(id: u128) -> (r: String)
    ensures
        r@ == id_text(id),
{
    uuid::Uuid::from_u128(id).hyphenated().to_string()
}

/// Relies on std's `Path::parent` for the directory that holds a path. The
/// path is a `String`, so its parent is valid UTF-8 and is converted whole.
#[verifier::external_body]
fn path_parent(path: &String) -> (r: Option<String>)
    ensures
        match r {
            Some(dir) => parent_of(path@) == Some(dir@),
            None => parent_of(path@) is None,
        },
{
    match std::path::Path::new(path).parent() {
        Some(dir) => Some(dir.to_string_lossy().into_owned()),
        None => None,
    }
}

/// Relies on std's `Path::join` for a file name taken relative to a
/// directory. Both are `String`s, so the result is valid UTF-8 and is
/// converted whole.
#[verifier::external_body]
fn path_join(dir: &String, name: &String) -> (r: String)
    ensures
        r@ == joined(dir@, name@),
{
    std::path::Path::new(dir).join(name).to_string_lossy().into_owned()
}

/// The name of the configuration file of the server called `stem`.
pub open spec fn config_file_name(stem: Seq<char>) -> Seq<char> {
    stem + ".json"@
}

/// The file names and paths that belong to one server.
pub struct ServerPaths {
    /// The server executable.
    pub executable: String,
    /// The directory that holds the executable; servers run in it.
    pub working_dir: String,
    /// The configuration file written for this server.
    pub config_file: String,
}

/// What `ServerPaths` holds, as character sequences.
pub struct ServerPathsView {
    pub executable: Seq<char>,
    pub working_dir: Seq<char>,
    pub config_file: Seq<char>,
}

impl View for ServerPaths {
    type V = ServerPathsView;

    open spec fn view(&self) -> ServerPathsView {
        ServerPathsView {
            executable: self.executable@,
            working_dir: self.working_dir@,
            config_file: self.config_file@,
        }
    }
}

/// The paths of the server called `stem` when the executable is at
/// `executable`: nothing when the executable's path has no parent directory.
pub open spec fn named_paths_of(executable: Seq<char>, stem: Seq<char>) -> Option<ServerPathsView> {
    match parent_of(executable) {
        Some(dir) => Some(
            ServerPathsView {
                executable,
                working_dir: dir,
                config_file: joined(dir, config_file_name(stem)),
            },
        ),
        None => None,
    }
}

/// The paths of server `id`, which is called by its identifier's text.
pub open spec fn paths_of(executable: Seq<char>, id: u128) -> Option<ServerPathsView> {
    named_paths_of(executable, id_text(id))
}

/// Derives the paths of the server called `stem` from the executable's path:
/// the configuration file is `<stem>.json` in the executable's directory.
pub fn server_paths_named(executable: &String, stem: &String) -> (r: Option<ServerPaths>)
    ensures
        match r {
            Some(p) => named_paths_of(executable@, stem@) == Some(p@),
            None => named_paths_of(executable@, stem@) is None,
        },
{
    match path_parent(executable) {
        Some(dir) => {
            let name = stem.clone().concat(".json");
            let config_file = path_join(&dir, &name);
            Some(ServerPaths { executable: executable.clone(), working_dir: dir, config_file })
        },
        None => None,
    }
}

/// Derives the paths of server `id` from the executable's path.
pub fn server_paths(executable: &String, id: u128) -> (r: Option<ServerPaths>)
    ensures
        match r {
            Some(p) => paths_of(executable@, id) == Some(p@),
            None => paths_of(executable@, id) is None,
        },
{
    let stem = hyphenated(id);
    server_paths_named(executable, &stem)
}

/// The command-line arguments of a server whose configuration is at
/// `config_file`: a frame-rate cap of 60 and the configuration's path.
pub open spec fn launch_args_of(config_file: Seq<char>) -> Seq<Seq<char>> {
    seq!["-maxFPS"@, "60"@, "-config"@, config_file]
}

/// Builds the command-line arguments a server is started with.
pub fn launch_args(config_file: &String) -> (r: Vec<String>)
    ensures
        r@.map_values(|a: String| a@) == launch_args_of(config_file@),
{
    let mut args: Vec<String> = Vec::new();
    args.push(String::from_str("-maxFPS"));
    args.push(String::from_str("60"));
    args.push(String::from_str("-config"));
    args.push(config_file.clone());
    assert(args@.map_values(|a: String| a@) =~= launch_args_of(config_file@));
    args
}

} // verus!
