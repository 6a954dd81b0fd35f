//! Whether an uploaded document is taken for processing.
use vstd::prelude::*;

verus! {

/// Why an upload is refused.
#[derive(Debug, Clone, Copy, PartialEq, Eq, Structural)]
pub enum UploadRefusal {
    /// A password came with the document and does not open it.
    WrongPassword,
    /// The document cannot be read as a PDF.
    InvalidPdf,
}

impl UploadRefusal {
    /// The answer's text.
    pub fn message(&self) -> (res: &'static str)
        ensures
            res@ == match *self {
                UploadRefusal::WrongPassword => "wrong password"@,
                UploadRefusal::InvalidPdf => "invalid pdf file"@,
            },
    {
        match self {
            UploadRefusal::WrongPassword => "wrong password",
            UploadRefusal::InvalidPdf => "invalid pdf file",
        }
    }
}

/// The verdict on an upload. `decrypted` is `None` when no password came with
/// it and otherwise says whether the password opened the document;
/// `readable` says whether the (opened) document reads as a PDF. The
/// password is tried first: a wrong one refuses the upload before it is read.
pub fn upload_verdict(decrypted: Option<bool>, readable: bool) -> (res: Result<(), UploadRefusal>)
    ensures
        res == match decrypted {
            Some(false) => Err(UploadRefusal::WrongPassword),
            _ => if readable {
                Ok(())
            } else {
                Err(UploadRefusal::InvalidPdf)
            },
        },
{
    if let Some(false) = decrypted {
        return Err(UploadRefusal::WrongPassword);
    }
    if readable {
        Ok(())
    } else {
        Err(UploadRefusal::InvalidPdf)
    }
}

} // verus!
