use vstd::prelude::*;
use vstd::string::StringExecFns;

verus! {

/// Log severity of the ABI: an error.
pub const LOG_ERROR: i32 = 3;

/// Log severity of the ABI: the host broke the protocol.
pub const LOG_HOST_MISBEHAVING: i32 = 5;

/// Log severity of the ABI: the plugin broke the protocol.
pub const LOG_PLUGIN_MISBEHAVING: i32 = 6;

/// Errors reported to a host that drives a foreign plugin instance.
#[derive(Clone, Copy, Debug, PartialEq, Eq, Structural)]
pub enum HostError {
    /// The loaded binary exposes no plugin factory.
    MissingPluginFactory,
    /// The factory failed or returned a null instance.
    InstantiationFailed,
    /// The instance was already active.
    AlreadyActivatedPlugin,
    /// The instance was not active.
    DeactivatedPlugin,
    /// The instance has no activate function.
    NullActivateFunction,
    /// The foreign activate function reported failure.
    ActivationFailed,
    /// The foreign start-processing function reported failure.
    StartProcessingFailed,
    /// The processor is started, and the call wants it stopped.
    ProcessingStarted,
    /// The processor is stopped, and the call wants it started.
    ProcessingStopped,
    /// The instance has no process function.
    NullProcessFunction,
    /// The foreign process function reported an error or an unknown status.
    ProcessingFailed,
}

/// An error raised by the plugin's own logic.
#[derive(Clone, Debug)]
pub struct PluginError {
    pub message: String,
}

/// Errors raised while dispatching a foreign call into plugin code.
#[derive(Clone, Debug)]
pub enum PluginWrapperError {
    /// The raw instance pointer was null.
    NullPluginInstance,
    /// The instance's data pointer was null: the instance was already destroyed.
    AlreadyDestroyed,
    /// An unexpectedly null raw pointer, named by the payload.
    NulPtr(&'static str),
    /// An invalid parameter, named by the payload.
    InvalidParameter(&'static str),
    /// The plugin was used before its initialization.
    UninitializedPlugin,
    /// The host called into the plugin while it was initializing.
    PluginCalledDuringInitialization,
    /// The host called into the plugin while it was being destroyed.
    Destroying,
    /// The plugin's initialization had already failed.
    InitializationAlreadyFailed,
    /// The plugin was initialized a second time.
    AlreadyInitialized,
    /// Activation was requested on an active plugin.
    ActivatedPlugin,
    /// A call that needs an active plugin came while it was inactive.
    DeactivatedPlugin,
    /// A call that needs an inactive plugin, named by the payload, came while
    /// it was active.
    DeactivationRequiredForFunction(&'static str),
    /// The plugin panicked during the call.
    Panic,
    /// The plugin's own logic reported an error.
    Plugin(PluginError),
    /// A string held invalid UTF-8 from the given byte position on.
    StringEncoding(usize),
    /// A string held a NUL byte at the given position.
    InvalidCString(usize),
    /// An error of the given severity, with its message.
    Any(i32, String),
}

/// The severity with which an error is logged: the plugin's own errors as
/// errors, panics as plugin misbehaviour, `Any` with its own severity, and all
/// protocol violations as host misbehaviour.
pub open spec fn severity_of(e: PluginWrapperError) -> i32 {
    match e {
        PluginWrapperError::Plugin(_) => LOG_ERROR,
        PluginWrapperError::Panic => LOG_PLUGIN_MISBEHAVING,
        PluginWrapperError::Any(s, _) => s,
        _ => LOG_HOST_MISBEHAVING,
    }
}

/// The decimal digits of `n`, most significant first.
pub open spec fn decimal(n: nat) -> Seq<char>
    decreases n,
{
    if n < 10 {
        seq![digit_char(n)]
    } else {
        decimal(n / 10) + seq![digit_char(n % 10)]
    }
}

/// The character of a decimal digit.
pub open spec fn digit_char(d: nat) -> char {
    if d < 10 { ((d + 48) as u8) as char } else { '?' }
}

/// The log message of an error.
pub open spec fn message_of(e: PluginWrapperError) -> Seq<char> {
    match e {
        PluginWrapperError::NullPluginInstance =>
            "Plugin method was called with null clap_plugin pointer"@,
        PluginWrapperError::AlreadyDestroyed =>
            "Plugin instance was already destroyed (clap_plugin.plugin_data pointer is null)"@,
        PluginWrapperError::PluginCalledDuringInitialization =>
            "Host tried to call plugin function during initialization"@,
        PluginWrapperError::InitializationAlreadyFailed =>
            "Plugin initialization has already failed"@,
        PluginWrapperError::AlreadyInitialized => "Plugin is already initialized"@,
        PluginWrapperError::Destroying => "Plugin is being destroyed"@,
        PluginWrapperError::NulPtr(name) =>
            "Plugin method was called with null "@ + name@ + " pointer"@,
        PluginWrapperError::InvalidParameter(p) => "Received invalid parameter '"@ + p@ + "'"@,
        PluginWrapperError::UninitializedPlugin =>
            "Plugin was not properly initialized before use"@,
        PluginWrapperError::ActivatedPlugin => "Plugin was already activated"@,
        PluginWrapperError::DeactivatedPlugin =>
            "Plugin was not activated before calling a audio-thread method"@,
        PluginWrapperError::DeactivationRequiredForFunction(f) =>
            "Host attempted to call '"@ + f@ + "' while plugin was still active"@,
        PluginWrapperError::StringEncoding(pos) =>
            "Encountered string containing invalid UTF-8 at position "@ + decimal(pos as nat)
                + "."@,
        PluginWrapperError::InvalidCString(pos) =>
            "Encountered string containing a NUL byte at position "@ + decimal(pos as nat)
                + "."@,
        PluginWrapperError::Plugin(e) => e.message@,
        PluginWrapperError::Any(_, m) => m@,
        PluginWrapperError::Panic => "Plugin panicked"@,
    }
}

/// The one-character string of a decimal digit.
fn digit_str(d: usize) -> (r: &'static str)
    requires
        d < 10,
    ensures
        r@ == seq![digit_char(d as nat)],
{
    match d {
        0 => {
            proof { reveal_strlit("0"); }
            "0"
        },
        1 => {
            proof { reveal_strlit("1"); }
            "1"
        },
        2 => {
            proof { reveal_strlit("2"); }
            "2"
        },
        3 => {
            proof { reveal_strlit("3"); }
            "3"
        },
        4 => {
            proof { reveal_strlit("4"); }
            "4"
        },
        5 => {
            proof { reveal_strlit("5"); }
            "5"
        },
        6 => {
            proof { reveal_strlit("6"); }
            "6"
        },
        7 => {
            proof { reveal_strlit("7"); }
            "7"
        },
        8 => {
            proof { reveal_strlit("8"); }
            "8"
        },
        _ => {
            proof { reveal_strlit("9"); }
            "9"
        },
    }
}

/// Writes `n` in decimal.
pub fn decimal_string(n: usize) -> (r: String)
    ensures
        r@ == decimal(n as nat),
    decreases n,
{
    if n < 10 {
        String::from_str(digit_str(n))
    } else {
        let mut s = decimal_string(n / 10);
        s.append(digit_str(n % 10));
        s
    }
}

/// A string holding exactly the characters of `s`.
fn owned(s: &str) -> (r: String)
    ensures
        r@ == s@,
{
    String::from_str(s)
}

/// `head`, then `middle`, then `tail`.
fn joined(head: &str, middle: &str, tail: &str) -> (r: String)
    ensures
        r@ == head@ + middle@ + tail@,
{
    let mut s = String::from_str(head);
    s.append(middle);
    s.append(tail);
    s
}

impl PluginWrapperError {
    /// The severity with which this error is logged.
    pub fn severity(&self) -> (r: i32)
        ensures
            r == severity_of(*self),
    {
        match self {
            PluginWrapperError::Plugin(_) => LOG_ERROR,
            PluginWrapperError::Panic => LOG_PLUGIN_MISBEHAVING,
            PluginWrapperError::Any(s, _) => *s,
            _ => LOG_HOST_MISBEHAVING,
        }
    }

    /// An error of the given severity carrying `message`.
    pub fn with_severity(severity: i32, message: String) -> (r: PluginWrapperError)
        ensures
            r == PluginWrapperError::Any(severity, message),
            severity_of(r) == severity,
    {
        PluginWrapperError::Any(severity, message)
    }

    /// The message under which this error is logged.
    pub fn message(&self) -> (r: String)
        ensures
            r@ == message_of(*self),
    {
        match self {
            PluginWrapperError::NullPluginInstance => {
                proof { reveal_strlit("Plugin method was called with null clap_plugin pointer"); }
                owned("Plugin method was called with null clap_plugin pointer")
            },
            PluginWrapperError::AlreadyDestroyed => {
                proof {
                    reveal_strlit(
                        "Plugin instance was already destroyed (clap_plugin.plugin_data pointer is null)",
                    );
                }
                owned(
                    "Plugin instance was already destroyed (clap_plugin.plugin_data pointer is null)",
                )
            },
            PluginWrapperError::PluginCalledDuringInitialization => {
                proof { reveal_strlit("Host tried to call plugin function during initialization"); }
                owned("Host tried to call plugin function during initialization")
            },
            PluginWrapperError::InitializationAlreadyFailed => {
                proof { reveal_strlit("Plugin initialization has already failed"); }
                owned("Plugin initialization has already failed")
            },
            PluginWrapperError::AlreadyInitialized => {
                proof { reveal_strlit("Plugin is already initialized"); }
                owned("Plugin is already initialized")
            },
            PluginWrapperError::Destroying => {
                proof { reveal_strlit("Plugin is being destroyed"); }
                owned("Plugin is being destroyed")
            },
            PluginWrapperError::NulPtr(name) => {
                proof {
                    reveal_strlit("Plugin method was called with null ");
                    reveal_strlit(" pointer");
                }
                joined("Plugin method was called with null ", name, " pointer")
            },
            PluginWrapperError::InvalidParameter(p) => {
                proof {
                    reveal_strlit("Received invalid parameter '");
                    reveal_strlit("'");
                }
                joined("Received invalid parameter '", p, "'")
            },
            PluginWrapperError::UninitializedPlugin => {
                proof { reveal_strlit("Plugin was not properly initialized before use"); }
                owned("Plugin was not properly initialized before use")
            },
            PluginWrapperError::ActivatedPlugin => {
                proof { reveal_strlit("Plugin was already activated"); }
                owned("Plugin was already activated")
            },
            PluginWrapperError::DeactivatedPlugin => {
                proof { reveal_strlit("Plugin was not activated before calling a audio-thread method"); }
                owned("Plugin was not activated before calling a audio-thread method")
            },
            PluginWrapperError::DeactivationRequiredForFunction(f) => {
                proof {
                    reveal_strlit("Host attempted to call '");
                    reveal_strlit("' while plugin was still active");
                }
                joined("Host attempted to call '", f, "' while plugin was still active")
            },
            PluginWrapperError::StringEncoding(pos) => {
                proof {
                    reveal_strlit("Encountered string containing invalid UTF-8 at position ");
                    reveal_strlit(".");
                }
                let digits = decimal_string(*pos);
                joined("Encountered string containing invalid UTF-8 at position ", digits.as_str(), ".")
            },
            PluginWrapperError::InvalidCString(pos) => {
                proof {
                    reveal_strlit("Encountered string containing a NUL byte at position ");
                    reveal_strlit(".");
                }
                let digits = decimal_string(*pos);
                joined("Encountered string containing a NUL byte at position ", digits.as_str(), ".")
            },
            PluginWrapperError::Plugin(e) => e.message.clone(),
            PluginWrapperError::Any(_, m) => m.clone(),
            PluginWrapperError::Panic => {
                proof { reveal_strlit("Plugin panicked"); }
                owned("Plugin panicked")
            },
        }
    }
}

impl From<PluginError> for PluginWrapperError {
    fn from(e: PluginError) -> (r: PluginWrapperError)
        ensures
            r == PluginWrapperError::Plugin(e),
    {
        PluginWrapperError::Plugin(e)
    }
}

impl vstd::std_specs::convert::FromSpecImpl<PluginError> for PluginWrapperError {
    open spec fn obeys_from_spec() -> bool {
        true
    }

    open spec fn from_spec(e: PluginError) -> PluginWrapperError {
        PluginWrapperError::Plugin(e)
    }
}

} // verus!
