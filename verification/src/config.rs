//! Merging the configuration file with the command-line flags.

use vstd::prelude::*;
use vstd::string::*;
use crate::error::{Error, ErrorView};
use crate::text::opt_view;

verus! {

/// One layer of settings: each of the five known keys is either given or
/// absent. Both the configuration file and the command-line flags are
/// layers.
#[derive(Clone, Debug, PartialEq, Eq)]
pub struct Layer {
    pub region: Option<String>,
    pub bucket: Option<String>,
    pub access_key_id: Option<String>,
    pub secret_access_key: Option<String>,
    pub local: Option<String>,
}

/// The mathematical content of a [`Layer`].
pub struct LayerView {
    pub region: Option<Seq<char>>,
    pub bucket: Option<Seq<char>>,
    pub access_key_id: Option<Seq<char>>,
    pub secret_access_key: Option<Seq<char>>,
    pub local: Option<Seq<char>>,
}

impl View for Layer {
    type V = LayerView;

    open spec fn view(&self) -> LayerView {
        LayerView {
            region: opt_view(self.region),
            bucket: opt_view(self.bucket),
            access_key_id: opt_view(self.access_key_id),
            secret_access_key: opt_view(self.secret_access_key),
            local: opt_view(self.local),
        }
    }
}

/// The layer in which every key is absent.
pub open spec fn empty_layer() -> LayerView {
    LayerView {
        region: None,
        bucket: None,
        access_key_id: None,
        secret_access_key: None,
        local: None,
    }
}

impl Layer {
    /// A layer that gives no key.
    pub fn empty() -> (layer: Layer)
        ensures
            layer@ == empty_layer(),
    {
        Layer { region: None, bucket: None, access_key_id: None, secret_access_key: None, local: None }
    }
}

/// The effective settings of one invocation. A field that neither the
/// file nor a flag supplied is the empty string; nothing is defaulted to
/// a placeholder.
#[derive(Clone, Debug, PartialEq, Eq)]
pub struct Configs {
    pub region: String,
    pub bucket: String,
    pub access_key_id: String,
    pub secret_access_key: String,
    pub local: String,
}

/// The mathematical content of [`Configs`].
pub struct ConfigsView {
    pub region: Seq<char>,
    pub bucket: Seq<char>,
    pub access_key_id: Seq<char>,
    pub secret_access_key: Seq<char>,
    pub local: Seq<char>,
}

impl View for Configs {
    type V = ConfigsView;

    open spec fn view(&self) -> ConfigsView {
        ConfigsView {
            region: self.region@,
            bucket: self.bucket@,
            access_key_id: self.access_key_id@,
            secret_access_key: self.secret_access_key@,
            local: self.local@,
        }
    }
}

/// What came of reading the configuration file.
#[derive(Clone, Debug, PartialEq, Eq)]
pub enum ConfigSource {
    /// The file could not be opened. This is a normal, supported case.
    Missing,
    /// The file was opened but its content is not a valid record; the
    /// text says why.
    Malformed(String),
    /// The file was read; keys it does not hold are absent.
    Loaded(Layer),
}

/// The mathematical content of a [`ConfigSource`].
pub enum ConfigSourceView {
    Missing,
    Malformed(Seq<char>),
    Loaded(LayerView),
}

impl View for ConfigSource {
    type V = ConfigSourceView;

    open spec fn view(&self) -> ConfigSourceView {
        match *self {
            ConfigSource::Missing => ConfigSourceView::Missing,
            ConfigSource::Malformed(detail) => ConfigSourceView::Malformed(detail@),
            ConfigSource::Loaded(layer) => ConfigSourceView::Loaded(layer@),
        }
    }
}

/// The value of one setting: the flag if it was given, else the file's
/// value, else the empty string.
pub open spec fn setting(flag: Option<Seq<char>>, file: Option<Seq<char>>) -> Seq<char> {
    match flag {
        Some(value) => value,
        None => match file {
            Some(value) => value,
            None => Seq::<char>::empty(),
        },
    }
}

/// The file layer overlaid, key by key, with the flags.
pub open spec fn merged(file: LayerView, flags: LayerView) -> ConfigsView {
    ConfigsView {
        region: setting(flags.region, file.region),
        bucket: setting(flags.bucket, file.bucket),
        access_key_id: setting(flags.access_key_id, file.access_key_id),
        secret_access_key: setting(flags.secret_access_key, file.secret_access_key),
        local: setting(flags.local, file.local),
    }
}

/// The effective settings for a configuration source and a set of flags:
/// a missing file counts as a file without keys, a malformed one is an
/// error that carries the parser's text.
pub open spec fn resolved(source: ConfigSourceView, flags: LayerView) -> Result<
    ConfigsView,
    ErrorView,
> {
    match source {
        ConfigSourceView::Missing => Ok(merged(empty_layer(), flags)),
        ConfigSourceView::Malformed(detail) => Err(ErrorView::ConfigParse(detail)),
        ConfigSourceView::Loaded(file) => Ok(merged(file, flags)),
    }
}

/// The view of the result of [`resolve`].
pub open spec fn resolution_view(r: Result<Configs, Error>) -> Result<ConfigsView, ErrorView> {
    match r {
        Ok(config) => Ok(config@),
        Err(e) => Err(e@),
    }
}

fn pick(flag: Option<String>, file: Option<String>) -> (value: String)
    ensures
        value@ == setting(opt_view(flag), opt_view(file)),
{
    match flag {
        Some(value) => value,
        None => match file {
            Some(value) => value,
            None => String::new(),
        },
    }
}

/// Overlays the flags on a file layer: for each of the five keys a flag
/// that is present wins, an absent flag leaves the file's value, and a
/// key absent from both is the empty string.
pub fn merge(file: Layer, flags: Layer) -> (config: Configs)
    ensures
        config@ == merged(file@, flags@),
{
    Configs {
        region: pick(flags.region, file.region),
        bucket: pick(flags.bucket, file.bucket),
        access_key_id: pick(flags.access_key_id, file.access_key_id),
        secret_access_key: pick(flags.secret_access_key, file.secret_access_key),
        local: pick(flags.local, file.local),
    }
}

/// Builds the effective settings. A configuration file that could not be
/// opened is not an error: the flags are then laid over an empty record.
/// A malformed file is the only failure. Whether the resulting fields are
/// empty is not judged here.
pub fn resolve(source: ConfigSource, flags: Layer) -> (r: Result<Configs, Error>)
    ensures
        resolution_view(r) == resolved(source@, flags@),
        r is Err <==> source is Malformed,
        r matches Ok(config) ==> {
            let file = match source@ {
                ConfigSourceView::Loaded(layer) => layer,
                _ => empty_layer(),
            };
            &&& config@.region == setting(flags@.region, file.region)
            &&& config@.bucket == setting(flags@.bucket, file.bucket)
            &&& config@.access_key_id == setting(flags@.access_key_id, file.access_key_id)
            &&& config@.secret_access_key == setting(
                flags@.secret_access_key,
                file.secret_access_key,
            )
            &&& config@.local == setting(flags@.local, file.local)
        },
{
    match source {
        ConfigSource::Missing => Ok(merge(Layer::empty(), flags)),
        ConfigSource::Malformed(detail) => Err(Error::ConfigParse(detail)),
        ConfigSource::Loaded(file) => Ok(merge(file, flags)),
    }
}

impl Configs {
    /// The local path of a transfer, absent when the setting is empty.
    pub fn local_path(&self) -> (path: Option<String>)
        ensures
            opt_view(path) == local_path_of(self@),
    {
        if self.local.as_str().is_empty() {
            None
        } else {
            Some(self.local.clone())
        }
    }
}

/// The local path that the settings name, if any.
pub open spec fn local_path_of(config: ConfigsView) -> Option<Seq<char>> {
    if config.local.len() == 0 {
        None
    } else {
        Some(config.local)
    }
}

} // verus!
