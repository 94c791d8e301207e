//! Locating the three files that make up a model directory.
use vstd::prelude::*;
use vstd::string::StringExecFns;

verus! {

pub open spec fn config_name() -> Seq<char> {
    seq!['c', 'o', 'n', 'f', 'i', 'g', '.', 'j', 's', 'o', 'n']
}

pub open spec fn tokenizer_name() -> Seq<char> {
    seq!['t', 'o', 'k', 'e', 'n', 'i', 'z', 'e', 'r', '.', 'j', 's', 'o', 'n']
}

pub open spec fn weights_name() -> Seq<char> {
    seq!['m', 'o', 'd', 'e', 'l', '.', 's', 'a', 'f', 'e', 't', 'e', 'n', 's', 'o', 'r', 's']
}

/// Why a model directory cannot be used.
#[derive(Debug, PartialEq, Eq)]
pub enum LocateError {
    /// Nothing exists at the given path.
    NotFound { path: String },
    /// The path exists but is not a directory.
    NotADirectory { path: String },
    /// A required file is absent: its full path and its file name.
    MissingArtifact { file: String, name: String },
}

/// The full path of the entry `name` inside the directory `dir`.
pub open spec fn join_spec(dir: Seq<char>, name: Seq<char>) -> Seq<char> {
    if dir.len() == 0 {
        name
    } else if dir.last() == '/' {
        dir + name
    } else {
        dir + seq!['/'] + name
    }
}

/// What the filesystem reported about a model directory. Entries of a later
/// step are meaningless when an earlier step already failed.
pub struct DirFacts {
    pub exists: bool,
    pub is_dir: bool,
    pub has_config: bool,
    pub has_tokenizer: bool,
    pub has_weights: bool,
}

/// Error kinds, in the order in which they are checked.
pub enum LocateKind {
    Found,
    NotFound,
    NotADirectory,
    MissingConfig,
    MissingTokenizer,
    MissingWeights,
}

pub open spec fn locate_kind(f: DirFacts) -> LocateKind {
    if !f.exists {
        LocateKind::NotFound
    } else if !f.is_dir {
        LocateKind::NotADirectory
    } else if !f.has_config {
        LocateKind::MissingConfig
    } else if !f.has_tokenizer {
        LocateKind::MissingTokenizer
    } else if !f.has_weights {
        LocateKind::MissingWeights
    } else {
        LocateKind::Found
    }
}

/// The outcome of locating the artifacts of `dir`, given what the filesystem
/// reported: the three joined paths, or the first failed check.
pub open spec fn locate_matches(
    dir: Seq<char>,
    f: DirFacts,
    r: Result<(String, String, String), LocateError>,
) -> bool {
    match locate_kind(f) {
        LocateKind::Found => r matches Ok(p) && p.0@ == join_spec(dir, config_name())
            && p.1@ == join_spec(dir, tokenizer_name()) && p.2@ == join_spec(dir, weights_name()),
        LocateKind::NotFound => r matches Err(LocateError::NotFound { path }) && path@ == dir,
        LocateKind::NotADirectory => r matches Err(LocateError::NotADirectory { path })
            && path@ == dir,
        LocateKind::MissingConfig => r matches Err(LocateError::MissingArtifact { file, name })
            && name@ == config_name() && file@ == join_spec(dir, config_name()),
        LocateKind::MissingTokenizer => r matches Err(LocateError::MissingArtifact { file, name })
            && name@ == tokenizer_name() && file@ == join_spec(dir, tokenizer_name()),
        LocateKind::MissingWeights => r matches Err(LocateError::MissingArtifact { file, name })
            && name@ == weights_name() && file@ == join_spec(dir, weights_name()),
    }
}

/// Joins a directory and a relative file name with one separator.
pub fn join_path(dir: &str, name: &str) -> (r: String)
    ensures
        r@ == join_spec(dir@, name@),
{
    let n: usize = dir.unicode_len();
    if n == 0 {
        return String::from_str(name);
    }
    let last = dir.get_char(n - 1);
    let base = String::from_str(dir);
    if last == '/' {
        base.concat(name)
    } else {
        proof {
            reveal_strlit("/");
        }
        base.concat("/").concat(name)
    }
}

/// Decides the outcome of locating the artifacts of `dir` from what the
/// filesystem reported, checking existence, then kind, then each file in turn.
pub fn locate_with(dir: &str, facts: DirFacts) -> (r: Result<(String, String, String), LocateError>)
    ensures
        locate_matches(dir@, facts, r),
{
    proof {
        reveal_strlit("config.json");
        reveal_strlit("tokenizer.json");
        reveal_strlit("model.safetensors");
        assert("config.json"@ =~= config_name());
        assert("tokenizer.json"@ =~= tokenizer_name());
        assert("model.safetensors"@ =~= weights_name());
    }
    if !facts.exists {
        return Err(LocateError::NotFound { path: String::from_str(dir) });
    }
    if !facts.is_dir {
        return Err(LocateError::NotADirectory { path: String::from_str(dir) });
    }
    let config = join_path(dir, "config.json");
    let tokenizer = join_path(dir, "tokenizer.json");
    let weights = join_path(dir, "model.safetensors");
    if !facts.has_config {
        return Err(LocateError::MissingArtifact { file: config, name: String::from_str("config.json") });
    }
    if !facts.has_tokenizer {
        return Err(
            LocateError::MissingArtifact { file: tokenizer, name: String::from_str("tokenizer.json") },
        );
    }
    if !facts.has_weights {
        return Err(
            LocateError::MissingArtifact { file: weights, name: String::from_str("model.safetensors") },
        );
    }
    Ok((config, tokenizer, weights))
}

/// Relies on std::path::Path::exists: whether the filesystem has an entry at
/// `p`. The answer depends on the disk, so nothing is promised of it.
#[verifier::external_body]
fn path_exists(p: &str) -> (r: bool) {
    std::path::Path::new(p).exists()
}

/// Relies on std::path::Path::is_dir: whether the entry at `p` is a
/// directory. The answer depends on the disk, so nothing is promised of it.
#[verifier::external_body]
fn path_is_dir(p: &str) -> (r: bool) {
    std::path::Path::new(p).is_dir()
}

/// Finds the configuration, tokenizer and weights files of the model directory
/// `model_id`. Whatever the filesystem reports, the result is the outcome that
/// `locate_with` gives for some set of observations of it; a later check is
/// made only when the earlier ones passed.
pub fn load_bert_model(model_id: &str) -> (r: Result<(String, String, String), LocateError>)
    ensures
        exists|f: DirFacts| locate_matches(model_id@, f, r),
{
    let exists = path_exists(model_id);
    let is_dir = if exists { path_is_dir(model_id) } else { false };
    let has_config = if is_dir { path_exists(join_path(model_id, "config.json").as_str()) } else { false };
    let has_tokenizer = if has_config {
        path_exists(join_path(model_id, "tokenizer.json").as_str())
    } else {
        false
    };
    let has_weights = if has_tokenizer {
        path_exists(join_path(model_id, "model.safetensors").as_str())
    } else {
        false
    };
    let facts = DirFacts { exists, is_dir, has_config, has_tokenizer, has_weights };
    let r = locate_with(model_id, facts);
    assert(locate_matches(model_id@, facts, r));
    r
}

/// The path that resolving `p` canonicalizes: the current directory for an
/// empty path, else `p` itself.
pub open spec fn resolve_target_spec(p: Seq<char>) -> Seq<char> {
    if p.len() == 0 {
        seq!['.']
    } else {
        p
    }
}

/// The path to canonicalize when resolving `path`.
pub fn resolve_target<'a>(path: &'a str) -> (r: &'a str)
    ensures
        r@ == resolve_target_spec(path@),
{
    if path.unicode_len() == 0 {
        proof {
            reveal_strlit(".");
            assert("."@ =~= seq!['.']);
        }
        "."
    } else {
        path
    }
}

/// With the directory present, each required file that is the only one
/// missing is reported as missing under exactly its own name.
pub proof fn lemma_missing_file_named(
    dir: Seq<char>,
    f: DirFacts,
    r: Result<(String, String, String), LocateError>,
)
    requires
        locate_matches(dir, f, r),
        f.exists,
        f.is_dir,
    ensures
        !f.has_config && f.has_tokenizer && f.has_weights ==> (r matches Err(
            LocateError::MissingArtifact { file, name },
        ) && name@ == config_name() && file@ == join_spec(dir, config_name())),
        f.has_config && !f.has_tokenizer && f.has_weights ==> (r matches Err(
            LocateError::MissingArtifact { file, name },
        ) && name@ == tokenizer_name() && file@ == join_spec(dir, tokenizer_name())),
        f.has_config && f.has_tokenizer && !f.has_weights ==> (r matches Err(
            LocateError::MissingArtifact { file, name },
        ) && name@ == weights_name() && file@ == join_spec(dir, weights_name())),
        f.has_config && f.has_tokenizer && f.has_weights ==> r is Ok,
{
}

/// A path with nothing at it is not found; a path that is not a directory is
/// reported as such; in both cases the error carries the path.
pub proof fn lemma_bad_directory(
    dir: Seq<char>,
    f: DirFacts,
    r: Result<(String, String, String), LocateError>,
)
    requires
        locate_matches(dir, f, r),
    ensures
        !f.exists ==> (r matches Err(LocateError::NotFound { path }) && path@ == dir),
        f.exists && !f.is_dir ==> (r matches Err(LocateError::NotADirectory { path }) && path@
            == dir),
{
}

} // verus!
