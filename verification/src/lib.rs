//! A safe, verified layer over a handle-based speech-synthesis engine.
//!
//! The native engine is an opaque, handle-based runtime: resources are
//! integer handles, every call returns a status code, and audio is pulled
//! out of a polled stream while text is pushed in incrementally.  This
//! crate provides the control-plane scaffolding around such an engine:
//! an ownership-tracked handle wrapper with a release-exactly-once
//! discipline, a status-code-to-structured-error translator, a property
//! bag, a streaming text-input request, and a polled audio-output stream.
//!
//! The engine itself is out of scope; the `engine` module holds an
//! in-memory double of its call surface, against which every component
//! of this layer is specified and verified.

pub mod boundary_type;
pub mod engine;
pub mod error;
pub mod grammar;
pub mod handle;
pub mod profanity_option;
pub mod property;
pub mod request;
pub mod stream;
pub mod synthesizer;

pub use boundary_type::SpeechSynthesisBoundaryType;
pub use engine::Engine;
pub use error::{convert_err, Error, ErrorKind};
pub use grammar::{GrammarPhrase, PhraseListGrammar, SpeechRecognizer};
pub use handle::SmartHandle;
pub use profanity_option::ProfanityOption;
pub use property::PropertyCollection;
pub use request::{SpeechSynthesisRequest, TextInputStream};
pub use stream::{AudioDataStream, StreamStatus};
pub use synthesizer::{SpeechSynthesizer, SynthesisResult};
