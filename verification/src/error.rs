use vstd::prelude::*;

verus! {

/// Error taxonomy of the library.
///
/// The pipeline stages themselves are total; the only error the core
/// can produce on its own is [`OxidizerError::InvalidValue`], raised
/// when a configuration string fails to parse. The remaining variants
/// classify failures of the surrounding decode/encode layer, each
/// carried as its rendered message.
#[derive(Debug)]
pub enum OxidizerError {
    /// A file-system operation failed (e.g. file not found).
    Io(String),
    /// A parameter or input value is out of range or malformed;
    /// carries the offending input.
    InvalidValue(String),
    /// Decoding of raw audio packets failed.
    Decoding(String),
    /// Writing the processed data back out failed.
    Encoding(String),
    /// A failure passed through from the multimedia framework.
    Symphonia(String),
}

} // verus!
