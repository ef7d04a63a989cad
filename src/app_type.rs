use vstd::prelude::*;

verus! {

/// The client applications whose live configuration this library manages.
#[derive(Clone, Copy, Debug, PartialEq, Eq, Structural)]
pub enum AppType {
    Claude,
    Codex,
    Gemini,
}

} // verus!
