//! Callbacks from outside: a signal is delivered only with the token that the
//! waitpoint's holder was given.

use vstd::prelude::*;
use vstd::string::*;
use vstd::std_specs::convert::FromSpecImpl;

use crate::engine_error::EngineError;
use crate::ids;
use crate::ids::ExecutionId;
use crate::partition::{Partition, PartitionFamily};
use crate::sdk_error;
use crate::sdk_error::{SdkError, SdkErrorView};
use crate::worker::Signal;

verus! {

/// Why a callback was not passed on.
#[derive(Debug)]
pub enum SignalBridgeError<E = SdkError> {
    /// The waitpoint has no token: it was used, has expired, or never was.
    UnknownWaitpoint,
    /// The token is another one.
    TokenMismatch,
    /// A fault of the backend.
    Backend(E),
}

/// The model of a [`SignalBridgeError`].
pub type BridgeErrorView = SignalBridgeError<SdkErrorView>;

impl View for SignalBridgeError {
    type V = SignalBridgeError<SdkErrorView>;

    open spec fn view(&self) -> SignalBridgeError<SdkErrorView> {
        match *self {
            SignalBridgeError::UnknownWaitpoint => SignalBridgeError::UnknownWaitpoint,
            SignalBridgeError::TokenMismatch => SignalBridgeError::TokenMismatch,
            SignalBridgeError::Backend(e) => SignalBridgeError::Backend(e@),
        }
    }
}

impl SignalBridgeError {
    /// The words of the error.
    pub open spec fn text_spec(self) -> Seq<char> {
        match self {
            SignalBridgeError::UnknownWaitpoint => {
                "unknown waitpoint (consumed, expired, or unknown id)"@
            },
            SignalBridgeError::TokenMismatch => {
                "token mismatch (presented HMAC does not verify)"@
            },
            SignalBridgeError::Backend(e) => "backend: "@ + e@.text_spec(),
        }
    }

    /// The words of the error.
    pub fn text(&self) -> (r: String)
        ensures
            r@ == self.text_spec(),
    {
        match self {
            SignalBridgeError::UnknownWaitpoint => {
                "unknown waitpoint (consumed, expired, or unknown id)".to_owned()
            },
            SignalBridgeError::TokenMismatch => {
                "token mismatch (presented HMAC does not verify)".to_owned()
            },
            SignalBridgeError::Backend(e) => {
                let mut out = "backend: ".to_owned();
                out.append(e.text().as_str());
                out
            },
        }
    }

    /// The fault of the backend, if it is one.
    pub fn source(&self) -> (r: Option<&SdkError>)
        ensures
            match *self {
                SignalBridgeError::Backend(e) => r matches Some(x) && *x == e,
                _ => r is None,
            },
    {
        match self {
            SignalBridgeError::Backend(e) => Some(e),
            _ => None,
        }
    }
}

impl From<SdkError> for SignalBridgeError {
    fn from(e: SdkError) -> (r: SignalBridgeError)
        ensures
            r == SignalBridgeError::<SdkError>::Backend(e),
    {
        SignalBridgeError::Backend(e)
    }
}

impl FromSpecImpl<SdkError> for SignalBridgeError {
    open spec fn obeys_from_spec() -> bool {
        true
    }

    open spec fn from_spec(e: SdkError) -> SignalBridgeError {
        SignalBridgeError::Backend(e)
    }
}

/// `subtle::ConstantTimeEq::ct_eq` on byte slices: whether they hold the same bytes.
/// How long it takes is left unsaid.
#[verifier::external_body]
fn same_token(a: &[u8], b: &[u8]) -> (r: bool)
    ensures
        r == (a@ == b@),
{
    bool::from(subtle::ConstantTimeEq::ct_eq(a, b))
}

/// The hash tag of the partition in which an execution's waitpoints are stored.
pub fn waitpoint_partition(execution_id: &ExecutionId) -> (r: String)
    ensures
        forall|index: u16| #[trigger]
            ids::tagged(execution_id@, index) ==> r@ == (Partition {
                family: PartitionFamily::Flow,
                index,
            }).tag_spec(),
        exists|index: u16| #[trigger]
            ids::tagged(execution_id@, index) && r@ == (Partition {
                family: PartitionFamily::Flow,
                index,
            }).tag_spec(),
{
    let index: u16 = execution_id.partition();
    proof {
        assert forall|i: u16| #[trigger] ids::tagged(execution_id@, i) implies i == index by {
            ids::law_partition_unique(execution_id@, i, index);
        }
    }
    Partition { family: PartitionFamily::Flow, index }.hash_tag()
}

/// Why a callback is refused, from the token that is stored and the one that was
/// presented.
pub open spec fn refusal(
    stored: Result<Option<String>, EngineError>,
    presented: Seq<char>,
) -> Option<BridgeErrorView> {
    match stored {
        Err(e) => Some(SignalBridgeError::Backend(sdk_error::of_engine(e@))),
        Ok(None) => Some(SignalBridgeError::UnknownWaitpoint),
        Ok(Some(t)) => if t@ != presented {
            Some(SignalBridgeError::TokenMismatch)
        } else {
            None
        },
    }
}

/// Check a callback against the stored token. The signal to deliver carries the
/// token that was presented, whatever it carried before, so that the engine checks
/// the same one.
pub fn verify(
    stored: Result<Option<String>, EngineError>,
    presented: &str,
    signal: Signal,
) -> (r: Result<Signal, SignalBridgeError>)
    ensures
        match refusal(stored, presented@) {
            Some(e) => r matches Err(x) && x@ == e,
            None => r matches Ok(s) && s.waitpoint_token@ == presented@ && s == (Signal {
                waitpoint_token: s.waitpoint_token,
                ..signal
            }),
        },
{
    match stored {
        Err(e) => Err(SignalBridgeError::Backend(SdkError::from(e))),
        Ok(None) => Err(SignalBridgeError::UnknownWaitpoint),
        Ok(Some(t)) => {
            let same = same_token(t.as_str().as_bytes(), presented.as_bytes());
            proof {
                vstd::utf8::encode_utf8_decode_utf8(t@);
                vstd::utf8::encode_utf8_decode_utf8(presented@);
            }
            if !same {
                return Err(SignalBridgeError::TokenMismatch);
            }
            let mut signal = signal;
            signal.waitpoint_token = presented.to_owned();
            Ok(signal)
        },
    }
}

/// A signal is passed on only where a token is stored and the presented one is
/// equal to it.
pub proof fn law_only_the_stored_token_passes(
    stored: Result<Option<String>, EngineError>,
    presented: Seq<char>,
)
    ensures
        refusal(stored, presented) is None <==> (stored matches Ok(Some(t)) && t@ == presented),
{
}

} // verus!
