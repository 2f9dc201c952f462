use vstd::prelude::*;

verus! {

/// The failures the export pipeline can surface. `Bounds` covers a frame
/// index outside the volume as well as a computed sample range that exceeds
/// the backing buffer; `Encoding` covers an image serializer rejecting the
/// given dimensions; `Io` covers a failed or non-exclusive file creation,
/// which only the unverified file-writing layer can observe.
#[derive(Clone, Copy, Debug, PartialEq, Eq, Structural)]
pub enum ExportError {
    Bounds,
    Encoding,
    Io,
}

impl ExportError {
    /// The human-readable description of the error.
    pub open spec fn message_spec(self) -> Seq<char> {
        match self {
            ExportError::Bounds => "slice range outside the volume"@,
            ExportError::Encoding => "image encoder rejected the slice"@,
            ExportError::Io => "could not create the output file"@,
        }
    }

    pub fn message(&self) -> (r: String)
        ensures
            r@ == self.message_spec(),
    {
        match self {
            ExportError::Bounds => "slice range outside the volume".to_owned(),
            ExportError::Encoding => "image encoder rejected the slice".to_owned(),
            ExportError::Io => "could not create the output file".to_owned(),
        }
    }
}

} // verus!
