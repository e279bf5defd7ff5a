//! The library's error type. Every failure carries enough to render the
//! human-readable message the tool prints; rendering is itself verified
//! against a byte-level specification.

use vstd::prelude::*;
use vstd::string::StringSliceAdditionalSpecFns;
use crate::ascii::push_all;
use crate::encoding::AudioEncoding;

verus! {

/// Everything that can go wrong in the core.
#[derive(Debug)]
pub enum TtsError {
    /// No usable credential was found by the resolution chain.
    NoCredentials,
    /// The token endpoint rejected the exchange, or its reply lacked a
    /// usable access token. The payload is context text for the message.
    Auth(Vec<u8>),
    /// The service-account key's PEM-encoded private key is not a usable
    /// RSA key.
    InvalidRsaKey,
    /// A provider reply had an unexpected shape; context text attached.
    Provider(Vec<u8>),
    /// A provider-specific credential variable is absent.
    MissingCredential { var: Vec<u8>, provider: Vec<u8> },
    /// The provider named here cannot represent the requested encoding.
    UnsupportedEncoding { encoding: AudioEncoding },
    /// The selected provider has no adapter.
    NotImplemented { provider: Vec<u8> },
    /// The output path's extension does not match the requested encoding.
    ExtensionMismatch { found: Vec<u8>, encoding: AudioEncoding },
    /// The output path has no extension at all.
    MissingExtension { encoding: AudioEncoding },
    /// An encoding selector string matched no known encoding.
    UnknownEncoding { given: Vec<u8> },
}

impl TtsError {
    /// The rendered message, byte for byte.
    pub open spec fn message_spec(self) -> Seq<u8> {
        match self {
            TtsError::NoCredentials => "No Google credentials found. Set GOOGLE_APPLICATION_CREDENTIALS or run 'gcloud auth application-default login'".spec_bytes(),
            TtsError::Auth(ctx) => "auth error: ".spec_bytes() + ctx@,
            TtsError::InvalidRsaKey => "invalid RSA private key in service account".spec_bytes(),
            TtsError::Provider(ctx) => ctx@,
            TtsError::MissingCredential { var, provider } => var@
                + " is required for provider ".spec_bytes() + provider@,
            TtsError::UnsupportedEncoding { encoding } => "Gemini speech does not support ".spec_bytes()
                + vstd::utf8::encode_utf8(encoding.api_str_spec())
                + " encoding; use MP3/OGG_OPUS/LINEAR16".spec_bytes(),
            TtsError::NotImplemented { provider } => "provider ".spec_bytes() + provider@
                + " not yet implemented. Please open an issue with API details.".spec_bytes(),
            TtsError::ExtensionMismatch { found, encoding } => "output extension .".spec_bytes()
                + found@ + " does not match encoding ".spec_bytes()
                + vstd::utf8::encode_utf8(encoding.api_str_spec()) + " (expected .".spec_bytes()
                + vstd::utf8::encode_utf8(encoding.file_extension_spec()) + ")".spec_bytes(),
            TtsError::MissingExtension { encoding } => "output must have .".spec_bytes()
                + vstd::utf8::encode_utf8(encoding.file_extension_spec())
                + " extension for encoding ".spec_bytes()
                + vstd::utf8::encode_utf8(encoding.api_str_spec()),
            TtsError::UnknownEncoding { given } => "unsupported encoding: ".spec_bytes() + given@,
        }
    }

    /// Renders the message.
    pub fn message(&self) -> (r: Vec<u8>)
        ensures
            r@ == self.message_spec(),
    {
        let mut out: Vec<u8> = Vec::new();
        match self {
            TtsError::NoCredentials => {
                push_all(&mut out, "No Google credentials found. Set GOOGLE_APPLICATION_CREDENTIALS or run 'gcloud auth application-default login'".as_bytes());
            },
            TtsError::Auth(ctx) => {
                push_all(&mut out, "auth error: ".as_bytes());
                push_all(&mut out, ctx.as_slice());
            },
            TtsError::InvalidRsaKey => {
                push_all(&mut out, "invalid RSA private key in service account".as_bytes());
            },
            TtsError::Provider(ctx) => {
                push_all(&mut out, ctx.as_slice());
            },
            TtsError::MissingCredential { var, provider } => {
                push_all(&mut out, var.as_slice());
                push_all(&mut out, " is required for provider ".as_bytes());
                push_all(&mut out, provider.as_slice());
            },
            TtsError::UnsupportedEncoding { encoding } => {
                push_all(&mut out, "Gemini speech does not support ".as_bytes());
                push_all(&mut out, encoding.api_str().as_bytes());
                push_all(&mut out, " encoding; use MP3/OGG_OPUS/LINEAR16".as_bytes());
            },
            TtsError::NotImplemented { provider } => {
                push_all(&mut out, "provider ".as_bytes());
                push_all(&mut out, provider.as_slice());
                push_all(&mut out, " not yet implemented. Please open an issue with API details.".as_bytes());
            },
            TtsError::ExtensionMismatch { found, encoding } => {
                push_all(&mut out, "output extension .".as_bytes());
                push_all(&mut out, found.as_slice());
                push_all(&mut out, " does not match encoding ".as_bytes());
                push_all(&mut out, encoding.api_str().as_bytes());
                push_all(&mut out, " (expected .".as_bytes());
                push_all(&mut out, encoding.file_extension().as_bytes());
                push_all(&mut out, ")".as_bytes());
            },
            TtsError::MissingExtension { encoding } => {
                push_all(&mut out, "output must have .".as_bytes());
                push_all(&mut out, encoding.file_extension().as_bytes());
                push_all(&mut out, " extension for encoding ".as_bytes());
                push_all(&mut out, encoding.api_str().as_bytes());
            },
            TtsError::UnknownEncoding { given } => {
                push_all(&mut out, "unsupported encoding: ".as_bytes());
                push_all(&mut out, given.as_slice());
            },
        }
        proof {
            assert(out@ =~= self.message_spec());
        }
        out
    }
}

} // verus!
