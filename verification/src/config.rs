use vstd::prelude::*;
use vstd::string::StringExecFns;

use crate::resource::ResourceError;

verus! {

/// Which inference backend a run uses; chosen once per invocation and
/// immutable for the whole run.
#[derive(Clone, Copy, PartialEq, Eq, Structural, Debug)]
pub enum Mode {
    /// Route prompts to the cloud completion API.
    Cloud,
    /// Run a self-hosted inference server without GPU acceleration.
    LocalCpu,
    /// Run a self-hosted inference server with GPU acceleration.
    LocalGpu,
}

impl Mode {
    /// True when the mode runs the self-hosted inference stack.
    pub open spec fn is_local_spec(self) -> bool {
        self == Mode::LocalCpu || self == Mode::LocalGpu
    }

    /// True when the mode runs the self-hosted inference stack.
    pub fn is_local(&self) -> (r: bool)
        ensures
            r == self.is_local_spec(),
    {
        match self {
            Mode::LocalCpu | Mode::LocalGpu => true,
            Mode::Cloud => false,
        }
    }
}

/// Whether `url::Url::parse` accepts a string as an absolute URL; the
/// answer depends on the string alone.
pub uninterp spec fn url_accepts(s: Seq<char>) -> bool;

/// Relies on url::Url::parse: whether a string parses as an absolute URL
/// is a function of the string alone, and parsing does not panic.
#[verifier::external_body]
fn url_parses(s: &str) -> (r: bool)
    ensures
        r == url_accepts(s@),
{
    url::Url::parse(s).is_ok()
}

/// Everything this subsystem reads of the tool's configuration.  Loaded
/// once at startup and read-only afterwards; the credential stays optional
/// here because only the cloud pipeline needs it, and that is enforced at
/// the point the credential resource is ensured, never at load time.
pub struct Config {
    /// The data directory the server mounts.
    pub data_path: String,
    /// The local path the model artifact converges to.
    pub model_path: String,
    /// The URL the model artifact streams from.
    pub model_url: String,
    /// The cloud completion endpoint.
    pub openai_endpoint: String,
    /// The cloud API key, when one is configured.
    pub openai_key: Option<String>,
    /// The operation mode of the run.
    pub mode: Mode,
    /// The host port the local inference server binds.
    pub cria_port: u16,
}

impl Config {
    /// Assemble the configuration, rejecting a malformed model URL or
    /// cloud endpoint as a configuration error.  A missing key is not an
    /// error here: the local modes never need it.
    pub fn new(
        data_path: String,
        model_path: String,
        model_url: String,
        openai_endpoint: String,
        openai_key: Option<String>,
        mode: Mode,
        cria_port: u16,
    ) -> (r: Result<Config, ResourceError>)
        ensures
            r is Ok <==> (url_accepts(model_url@) && url_accepts(openai_endpoint@)),
            r matches Ok(cfg) ==> cfg == (Config {
                data_path,
                model_path,
                model_url,
                openai_endpoint,
                openai_key,
                mode,
                cria_port,
            }),
            r matches Err(e) ==> e is ConfigError,
    {
        if !url_parses(model_url.as_str()) {
            return Err(
                ResourceError::ConfigError(
                    String::from_str("the model URL is not a well-formed URL"),
                ),
            );
        }
        if !url_parses(openai_endpoint.as_str()) {
            return Err(
                ResourceError::ConfigError(
                    String::from_str("the cloud endpoint is not a well-formed URL"),
                ),
            );
        }
        Ok(Config { data_path, model_path, model_url, openai_endpoint, openai_key, mode, cria_port })
    }
}

} // verus!
