//! Connection settings and their resolution from three layers: built-in
//! defaults, an optional settings file, and command-line flags.

use vstd::prelude::*;

verus! {

/// What a `Config` stands for.
pub struct ConfigView {
    pub address: Seq<char>,
    pub port: u16,
    pub password: Seq<char>,
}

/// What a layer of optional settings stands for.
pub struct LayerView {
    pub address: Option<Seq<char>>,
    pub port: Option<u16>,
    pub password: Option<Seq<char>>,
}

/// The characters of an optional string.
pub open spec fn text_of(s: Option<String>) -> Option<Seq<char>> {
    match s {
        Some(t) => Some(t@),
        None => None,
    }
}

/// The layer that sets nothing.
pub open spec fn empty_layer() -> LayerView {
    LayerView { address: None, port: None, password: None }
}

/// The defaults that are built in: `localhost:4455` and a placeholder password.
pub open spec fn default_view() -> ConfigView {
    ConfigView { address: "localhost"@, port: 4455, password: "password"@ }
}

/// One field of `base` under one layer: the layer's value where it has one.
pub open spec fn over<T>(upper: Option<T>, lower: T) -> T {
    match upper {
        Some(v) => v,
        None => lower,
    }
}

/// `base` with every field that `layer` sets replaced by the layer's value.
pub open spec fn overlay(base: ConfigView, layer: LayerView) -> ConfigView {
    ConfigView {
        address: over(layer.address, base.address),
        port: over(layer.port, base.port),
        password: over(layer.password, base.password),
    }
}

/// One resolved field: the flag if given, else the file's value if it has
/// one, else the default.
pub open spec fn resolved_field<T>(default: T, file: Option<T>, flag: Option<T>) -> T {
    match flag {
        Some(v) => v,
        None => match file {
            Some(v) => v,
            None => default,
        },
    }
}

/// The effective settings, field by field.
pub open spec fn resolved(defaults: ConfigView, file: LayerView, flags: LayerView) -> ConfigView {
    ConfigView {
        address: resolved_field(defaults.address, file.address, flags.address),
        port: resolved_field(defaults.port, file.port, flags.port),
        password: resolved_field(defaults.password, file.password, flags.password),
    }
}

/// The layer that a settings file contributes; a missing file contributes
/// the empty layer.
pub open spec fn file_layer(file: Option<ConfigFile>) -> LayerView {
    match file {
        Some(f) => f@,
        None => empty_layer(),
    }
}

/// Connection settings with every field set.
#[derive(Clone, Debug, PartialEq, Eq)]
pub struct Config {
    pub address: String,
    pub port: u16,
    pub password: String,
}

/// The settings that a file holds: each may be left out.
#[derive(Clone, Debug, PartialEq, Eq)]
pub struct ConfigFile {
    pub address: Option<String>,
    pub port: Option<u16>,
    pub password: Option<String>,
}

/// The settings given as command-line flags: each may be left out.
#[derive(Clone, Debug, PartialEq, Eq)]
pub struct Overrides {
    pub address: Option<String>,
    pub port: Option<u16>,
    pub password: Option<String>,
}

impl View for Config {
    type V = ConfigView;

    open spec fn view(&self) -> ConfigView {
        ConfigView { address: self.address@, port: self.port, password: self.password@ }
    }
}

impl View for ConfigFile {
    type V = LayerView;

    open spec fn view(&self) -> LayerView {
        LayerView {
            address: text_of(self.address),
            port: self.port,
            password: text_of(self.password),
        }
    }
}

impl View for Overrides {
    type V = LayerView;

    open spec fn view(&self) -> LayerView {
        LayerView {
            address: text_of(self.address),
            port: self.port,
            password: text_of(self.password),
        }
    }
}

impl Default for Config {
    fn default() -> (r: Config)
        ensures
            r@ == default_view(),
    {
        Config {
            address: "localhost".to_owned(),
            port: 4455,
            password: "password".to_owned(),
        }
    }
}

impl ConfigFile {
    /// A file that sets nothing.
    pub fn empty() -> (r: ConfigFile)
        ensures
            r@ == empty_layer(),
    {
        ConfigFile { address: None, port: None, password: None }
    }
}

impl Overrides {
    /// No flag given.
    pub fn none() -> (r: Overrides)
        ensures
            r@ == empty_layer(),
    {
        Overrides { address: None, port: None, password: None }
    }
}

impl Config {
    /// These settings with every field that the file sets taken from the file.
    pub fn merged_with_file(self, file: ConfigFile) -> (r: Config)
        ensures
            r@ == overlay(self@, file@),
    {
        Config {
            address: match file.address {
                Some(a) => a,
                None => self.address,
            },
            port: match file.port {
                Some(p) => p,
                None => self.port,
            },
            password: match file.password {
                Some(p) => p,
                None => self.password,
            },
        }
    }

    /// These settings with every field that a flag gives taken from the flag.
    pub fn overridden_by(self, flags: Overrides) -> (r: Config)
        ensures
            r@ == overlay(self@, flags@),
    {
        Config {
            address: match flags.address {
                Some(a) => a,
                None => self.address,
            },
            port: match flags.port {
                Some(p) => p,
                None => self.port,
            },
            password: match flags.password {
                Some(p) => p,
                None => self.password,
            },
        }
    }
}

impl From<ConfigFile> for Config {
    /// The built-in defaults under the file's settings.
    fn from(file: ConfigFile) -> (r: Config)
        ensures
            r@ == overlay(default_view(), file@),
    {
        Config::default().merged_with_file(file)
    }
}

/// A string is known by its characters alone, so `from` pins its result by
/// its view, in its own contract, and does not claim the generic law.
impl vstd::std_specs::convert::FromSpecImpl<ConfigFile> for Config {
    open spec fn obeys_from_spec() -> bool {
        false
    }

    open spec fn from_spec(file: ConfigFile) -> Config {
        choose|c: Config| c@ == overlay(default_view(), file@)
    }
}

/// Merges the three layers: the flag wins over the file, the file over the
/// default, each field by itself. `file` is `None` where there is no file.
pub fn resolve(defaults: Config, file: Option<ConfigFile>, flags: Overrides) -> (r: Config)
    ensures
        r@ == resolved(defaults@, file_layer(file), flags@),
{
    let base = match file {
        Some(f) => defaults.merged_with_file(f),
        None => defaults,
    };
    base.overridden_by(flags)
}

/// Resolution is two overlays, the file's first and the flags' second.
pub proof fn lemma_resolved_is_two_overlays(defaults: ConfigView, file: LayerView, flags: LayerView)
    ensures
        resolved(defaults, file, flags) == overlay(overlay(defaults, file), flags),
{
}

/// Without a file the result is the defaults overridden by the flags alone,
/// and a file that sets nothing counts as no file.
pub proof fn lemma_no_file(defaults: ConfigView, flags: LayerView)
    ensures
        resolved(defaults, file_layer(None), flags) == overlay(defaults, flags),
        resolved(defaults, empty_layer(), flags) == resolved(defaults, file_layer(None), flags),
{
}

/// A flag that is given decides its field, whatever the file and the
/// defaults hold; a field that no layer sets keeps its default.
pub proof fn lemma_precedence(defaults: ConfigView, file: LayerView, flags: LayerView)
    ensures
        flags.address is Some ==> resolved(defaults, file, flags).address == flags.address.unwrap(),
        flags.port is Some ==> resolved(defaults, file, flags).port == flags.port.unwrap(),
        flags.password is Some ==> resolved(defaults, file, flags).password
            == flags.password.unwrap(),
        flags.address is None && file.address is Some ==> resolved(defaults, file, flags).address
            == file.address.unwrap(),
        flags.port is None && file.port is Some ==> resolved(defaults, file, flags).port
            == file.port.unwrap(),
        flags.password is None && file.password is Some ==> resolved(
            defaults,
            file,
            flags,
        ).password == file.password.unwrap(),
        flags.address is None && file.address is None ==> resolved(defaults, file, flags).address
            == defaults.address,
        flags.port is None && file.port is None ==> resolved(defaults, file, flags).port
            == defaults.port,
        flags.password is None && file.password is None ==> resolved(
            defaults,
            file,
            flags,
        ).password == defaults.password,
{
}

} // verus!
