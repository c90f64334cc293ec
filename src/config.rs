use vstd::prelude::*;

verus! {

/// An imaginary service's configuration.
pub struct Config {
    pub port: u16,
    pub base_url: String,
    pub s3_path: String,
    pub database_url: String,
}

/// The text formats a configuration file may be written in.
#[derive(Debug, Clone, Copy, PartialEq, Eq, Structural)]
pub enum ConfigFormat {
    Json,
    Yaml,
}

/// The format that a file extension (without the dot) selects: `json` for
/// JSON, `yml` or `yaml` for YAML, and none for any other.
pub open spec fn format_of(ext: Seq<char>) -> Option<ConfigFormat> {
    if ext == "json"@ {
        Some(ConfigFormat::Json)
    } else if ext == "yml"@ || ext == "yaml"@ {
        Some(ConfigFormat::Yaml)
    } else {
        None
    }
}

/// The format selected by the file extension `ext`, or `None` when the
/// extension is not one of `json`, `yml` and `yaml`.
pub fn format_for_extension(ext: &str) -> (r: Option<ConfigFormat>)
    ensures
        r == format_of(ext@),
{
    let ext = ext.to_owned();
    if ext == "json".to_owned() {
        Some(ConfigFormat::Json)
    } else if ext == "yml".to_owned() || ext == "yaml".to_owned() {
        Some(ConfigFormat::Yaml)
    } else {
        None
    }
}

} // verus!
