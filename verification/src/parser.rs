//! Locating the configuration file. Reading and writing it is file
//! handling and lives with the caller; this type only knows where the
//! file is.

use vstd::prelude::*;
use vstd::string::*;

verus! {

/// Knows the directory that holds `lazynix.yaml`.
#[derive(Debug, Clone)]
pub struct LazyNixParser {
    config_dir: String,
}

impl View for LazyNixParser {
    type V = Seq<char>;

    /// A parser is characterised by its configuration directory.
    closed spec fn view(&self) -> Seq<char> {
        self.config_dir@
    }
}

impl LazyNixParser {
    /// Creates a parser rooted at `config_dir`.
    pub fn new(config_dir: String) -> (parser: Self)
        ensures
            parser@ == config_dir@,
    {
        Self { config_dir }
    }

    /// The path of `lazynix.yaml` under the configuration directory.
    pub fn config_path(&self) -> (r: String)
        ensures
            r@ == self@ + "/lazynix.yaml"@,
    {
        let mut out = self.config_dir.clone();
        out.append("/lazynix.yaml");
        out
    }
}

} // verus!
