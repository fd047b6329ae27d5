//! Application configuration: four independent optional identity fields.
//!
//! A configuration is populated manually through the application's setters,
//! or from an already-parsed crate descriptor supplied by an external
//! loader; the core itself parses no file format.

use vstd::prelude::*;

verus! {

/// The package table of a crate descriptor, as plain parsed values.
pub struct CargoConfigPackage {
    pub name: Option<String>,
    pub description: Option<String>,
    pub authors: Option<Vec<String>>,
    pub version: Option<String>,
}

/// An already-parsed crate descriptor, as an external loader supplies it.
pub struct CargoConfig {
    pub package: CargoConfigPackage,
}

/// Holds the application config.
pub struct AppConfig {
    /// Name of the application.
    pub name: Option<String>,
    /// Description of the application.
    pub description: Option<String>,
    /// Authors of the application.
    pub authors: Option<Vec<String>>,
    /// The application version.
    pub version: Option<String>,
}

/// The mathematical shape of a configuration: each field as the character
/// sequences it holds.
pub struct ConfigModel {
    pub name: Option<Seq<char>>,
    pub description: Option<Seq<char>>,
    pub authors: Option<Seq<Seq<char>>>,
    pub version: Option<Seq<char>>,
}

pub open spec fn opt_string_view(o: Option<String>) -> Option<Seq<char>> {
    match o {
        Some(s) => Some(s@),
        None => None,
    }
}

pub open spec fn opt_strings_view(o: Option<Vec<String>>) -> Option<Seq<Seq<char>>> {
    match o {
        Some(v) => Some(v.deep_view()),
        None => None,
    }
}

impl View for AppConfig {
    type V = ConfigModel;

    open spec fn view(&self) -> ConfigModel {
        ConfigModel {
            name: opt_string_view(self.name),
            description: opt_string_view(self.description),
            authors: opt_strings_view(self.authors),
            version: opt_string_view(self.version),
        }
    }
}

fn clone_opt_string(o: &Option<String>) -> (r: Option<String>)
    ensures
        r == *o,
{
    match o {
        Some(s) => Some(s.clone()),
        None => None,
    }
}

fn clone_strings(v: &Vec<String>) -> (r: Vec<String>)
    ensures
        r@ == v@,
{
    let mut out: Vec<String> = Vec::new();
    let mut i: usize = 0;
    while i < v.len()
        invariant
            i <= v.len(),
            out@ == v@.take(i as int),
        decreases v.len() - i,
    {
        out.push(v[i].clone());
        proof {
            assert(out@ =~= v@.take(i + 1));
        }
        i = i + 1;
    }
    proof {
        assert(v@.take(v@.len() as int) =~= v@);
    }
    out
}

impl Default for AppConfig {
    /// The base default config: every field absent.
    fn default() -> (r: AppConfig)
        ensures
            r@.name is None,
            r@.description is None,
            r@.authors is None,
            r@.version is None,
    {
        AppConfig { name: None, description: None, authors: None, version: None }
    }
}

impl AppConfig {
    /// The base default config: every field absent.
    pub fn new() -> (r: AppConfig)
        ensures
            r@.name is None,
            r@.description is None,
            r@.authors is None,
            r@.version is None,
    {
        AppConfig { name: None, description: None, authors: None, version: None }
    }

    /// The application config taken field by field from an already-parsed
    /// crate descriptor.
    pub fn from_crate(config: CargoConfig) -> (r: AppConfig)
        ensures
            r.name == config.package.name,
            r.description == config.package.description,
            r.authors == config.package.authors,
            r.version == config.package.version,
    {
        AppConfig {
            name: config.package.name,
            description: config.package.description,
            authors: config.package.authors,
            version: config.package.version,
        }
    }

    /// An independent copy of the configuration.
    pub fn duplicate(&self) -> (r: AppConfig)
        ensures
            r@ == self@,
    {
        AppConfig {
            name: clone_opt_string(&self.name),
            description: clone_opt_string(&self.description),
            authors: match &self.authors {
                Some(v) => Some(clone_strings(v)),
                None => None,
            },
            version: clone_opt_string(&self.version),
        }
    }
}

} // verus!
