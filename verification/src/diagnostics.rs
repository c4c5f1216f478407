use vstd::prelude::*;

verus! {

/// Configuration of the debug-message subscription: which severities and
/// which message types the driver forwards to the callback.
#[derive(Clone, Copy, Debug, PartialEq, Eq, Structural)]
pub struct DiagnosticsConfig {
    pub severity_error: bool,
    pub severity_warning: bool,
    pub severity_info: bool,
    pub severity_verbose: bool,
    pub all_message_types: bool,
}

/// The subscription configuration used during bootstrap: error, warning and
/// info severities enabled, verbose left off, every message type enabled.
pub fn create_debug_info() -> (config: DiagnosticsConfig)
    ensures
        config == (DiagnosticsConfig {
            severity_error: true,
            severity_warning: true,
            severity_info: true,
            severity_verbose: false,
            all_message_types: true,
        }),
{
    DiagnosticsConfig {
        severity_error: true,
        severity_warning: true,
        severity_info: true,
        severity_verbose: false,
        all_message_types: true,
    }
}

/// The attached debug-message subscription. Besides forwarding messages to
/// the caller-supplied logger it only counts them; the count is
/// observability, never correctness-bearing state.
pub struct DiagnosticsSink {
    messages_seen: u64,
}

impl DiagnosticsSink {
    /// How many messages have arrived since the subscription was attached.
    pub closed spec fn count(&self) -> u64 {
        self.messages_seen
    }

    /// A fresh subscription that has seen no messages.
    pub fn attach() -> (sink: DiagnosticsSink)
        ensures
            sink.count() == 0,
    {
        DiagnosticsSink { messages_seen: 0 }
    }

    /// One driver message arrives: count it, and answer that the triggering
    /// driver call must not be aborted — this channel cannot veto
    /// operations.
    pub fn on_message(&mut self) -> (abort_call: bool)
        ensures
            !abort_call,
            final(self).count() == (if old(self).count() < u64::MAX {
                old(self).count() + 1
            } else {
                old(self).count() as int
            }),
    {
        if self.messages_seen < u64::MAX {
            self.messages_seen = self.messages_seen + 1;
        }
        false
    }

    /// Reads the message count.
    pub fn messages_seen(&self) -> (n: u64)
        ensures
            n == self.count(),
    {
        self.messages_seen
    }
}

} // verus!
